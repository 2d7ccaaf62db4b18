use vstd::prelude::*;
use crate::combat::{
    aggro_step, fight_step, hit_wf, hits_step, recover_step, score_step, HitMonsterEvent,
    KillMonsterEvent,
};
use crate::creature::Creature;
use crate::geometry::Vec3i;
use crate::location::movement_step;
use crate::player::kill_step;
use crate::projectile::{projectile_contacts, CollisionEvent};

verus! {

/// Coarse state of a session.
#[derive(Clone, Copy, Debug, PartialEq, Eq, Structural)]
pub enum GameState {
    Playing,
    GameOver,
}

/// Number of monsters killed since the process started.
#[derive(Clone, Copy, Debug, PartialEq, Eq, Structural)]
pub struct MonstersKilled {
    pub count: u64,
}

/// A ranged shot in flight, launched from `origin` with the impulse
/// `direction`.
#[derive(Clone, Copy, Debug, PartialEq, Eq, Structural)]
pub struct Projectile {
    pub id: u64,
    pub origin: Vec3i,
    pub direction: Vec3i,
}

impl Projectile {
    pub open spec fn wf(self) -> bool {
        self.origin.in_bounds() && self.direction.is_displacement()
    }
}

/// The whole simulation state that the per-tick resolvers read and write:
/// at most one player, any number of monsters and projectiles, the kill
/// counter and the game state.
pub struct World {
    pub player: Option<Creature>,
    pub monsters: Vec<Creature>,
    pub projectiles: Vec<Projectile>,
    pub monsters_killed: MonstersKilled,
    pub game_state: GameState,
}

/// Mathematical model of a `World`.
pub struct WorldView {
    pub player: Option<Creature>,
    pub monsters: Seq<Creature>,
    pub projectiles: Seq<Projectile>,
    pub monsters_killed: u64,
    pub game_state: GameState,
}

impl View for World {
    type V = WorldView;

    open spec fn view(&self) -> WorldView {
        WorldView {
            player: self.player,
            monsters: self.monsters@,
            projectiles: self.projectiles@,
            monsters_killed: self.monsters_killed.count,
            game_state: self.game_state,
        }
    }
}

impl WorldView {
    /// Whether no live entity (player, monster or projectile) carries `id`.
    pub open spec fn id_is_fresh(self, id: u64) -> bool {
        &&& match self.player {
            Some(p) => p.id != id,
            None => true,
        }
        &&& forall|i: int| 0 <= i < self.monsters.len() ==> #[trigger] self.monsters[i].id != id
        &&& forall|j: int|
            0 <= j < self.projectiles.len() ==> #[trigger] self.projectiles[j].id != id
    }

    /// No two live entities share an id.
    pub open spec fn ids_unique(self) -> bool {
        &&& forall|i: int, j: int|
            0 <= i < j < self.monsters.len() ==> #[trigger] self.monsters[i].id
                != #[trigger] self.monsters[j].id
        &&& forall|i: int, j: int|
            0 <= i < j < self.projectiles.len() ==> #[trigger] self.projectiles[i].id
                != #[trigger] self.projectiles[j].id
        &&& forall|i: int, j: int|
            0 <= i < self.monsters.len() && 0 <= j < self.projectiles.len()
                ==> #[trigger] self.monsters[i].id != #[trigger] self.projectiles[j].id
        &&& match self.player {
            Some(p) => {
                &&& forall|i: int| 0 <= i < self.monsters.len() ==> #[trigger] self.monsters[i].id != p.id
                &&& forall|j: int|
                    0 <= j < self.projectiles.len() ==> #[trigger] self.projectiles[j].id != p.id
            },
            None => true,
        }
    }
}

/// Replacing a monster by one with the same id keeps ids unique.
pub proof fn lemma_update_monster_ids(w: WorldView, k: int, m: Creature)
    requires
        w.ids_unique(),
        0 <= k < w.monsters.len(),
        m.id == w.monsters[k].id,
    ensures
        (WorldView { monsters: w.monsters.update(k, m), ..w }).ids_unique(),
{
    let v = WorldView { monsters: w.monsters.update(k, m), ..w };
    assert forall|i: int| 0 <= i < v.monsters.len() implies #[trigger] v.monsters[i].id
        == w.monsters[i].id by {}
}

/// Despawning a monster keeps ids unique.
pub proof fn lemma_remove_monster_ids(w: WorldView, k: int)
    requires
        w.ids_unique(),
        0 <= k < w.monsters.len(),
    ensures
        (WorldView { monsters: w.monsters.remove(k), ..w }).ids_unique(),
{
    let v = WorldView { monsters: w.monsters.remove(k), ..w };
    assert forall|i: int| 0 <= i < v.monsters.len() implies #[trigger] v.monsters[i] == w.monsters[
        if i < k { i } else { i + 1 }
    ] by {}
    assert forall|i: int, j: int| 0 <= i < j < v.monsters.len() implies #[trigger] v.monsters[i].id
        != #[trigger] v.monsters[j].id by {
        let a = if i < k { i } else { i + 1 };
        let b = if j < k { j } else { j + 1 };
        assert(v.monsters[i] == w.monsters[a]);
        assert(v.monsters[j] == w.monsters[b]);
    }
    assert forall|i: int, j: int|
        0 <= i < v.monsters.len() && 0 <= j < v.projectiles.len() implies #[trigger] v.monsters[i].id
        != #[trigger] v.projectiles[j].id by {
        let a = if i < k { i } else { i + 1 };
        assert(v.monsters[i] == w.monsters[a]);
    }
    if let Some(p) = w.player {
        assert forall|i: int| 0 <= i < v.monsters.len() implies #[trigger] v.monsters[i].id
            != p.id by {
            let a = if i < k { i } else { i + 1 };
            assert(v.monsters[i] == w.monsters[a]);
        }
    }
}

/// Despawning a projectile keeps ids unique.
pub proof fn lemma_remove_projectile_ids(w: WorldView, k: int)
    requires
        w.ids_unique(),
        0 <= k < w.projectiles.len(),
    ensures
        (WorldView { projectiles: w.projectiles.remove(k), ..w }).ids_unique(),
{
    let v = WorldView { projectiles: w.projectiles.remove(k), ..w };
    assert forall|i: int, j: int| 0 <= i < j < v.projectiles.len() implies #[trigger] v.projectiles[i].id
        != #[trigger] v.projectiles[j].id by {
        let a = if i < k { i } else { i + 1 };
        let b = if j < k { j } else { j + 1 };
        assert(v.projectiles[i] == w.projectiles[a]);
        assert(v.projectiles[j] == w.projectiles[b]);
    }
    assert forall|i: int, j: int|
        0 <= i < v.monsters.len() && 0 <= j < v.projectiles.len() implies #[trigger] v.monsters[i].id
        != #[trigger] v.projectiles[j].id by {
        let b = if j < k { j } else { j + 1 };
        assert(v.projectiles[j] == w.projectiles[b]);
    }
    if let Some(p) = w.player {
        assert forall|j: int| 0 <= j < v.projectiles.len() implies #[trigger] v.projectiles[j].id
            != p.id by {
            let b = if j < k { j } else { j + 1 };
            assert(v.projectiles[j] == w.projectiles[b]);
        }
    }
}

/// Adding a monster with a fresh id keeps ids unique.
pub proof fn lemma_push_monster_ids(w: WorldView, m: Creature)
    requires
        w.ids_unique(),
        w.id_is_fresh(m.id),
    ensures
        (WorldView { monsters: w.monsters.push(m), ..w }).ids_unique(),
{
    let v = WorldView { monsters: w.monsters.push(m), ..w };
    assert forall|i: int| 0 <= i < w.monsters.len() implies #[trigger] v.monsters[i] == w.monsters[i] by {}
    assert(v.monsters[w.monsters.len() as int] == m);
}

/// Adding a projectile with a fresh id keeps ids unique.
pub proof fn lemma_push_projectile_ids(w: WorldView, p: Projectile)
    requires
        w.ids_unique(),
        w.id_is_fresh(p.id),
    ensures
        (WorldView { projectiles: w.projectiles.push(p), ..w }).ids_unique(),
{
    let v = WorldView { projectiles: w.projectiles.push(p), ..w };
    assert forall|j: int| 0 <= j < w.projectiles.len() implies #[trigger] v.projectiles[j]
        == w.projectiles[j] by {}
    assert(v.projectiles[w.projectiles.len() as int] == p);
}

/// Installing a player whose id no monster or projectile carries keeps ids
/// unique; so does changing the player while keeping its id.
pub proof fn lemma_set_player_ids(w: WorldView, p: Creature)
    requires
        w.ids_unique(),
        (WorldView { player: None, ..w }).id_is_fresh(p.id) || (w.player is Some
            && w.player.unwrap().id == p.id),
    ensures
        (WorldView { player: Some(p), ..w }).ids_unique(),
{
    let v = WorldView { player: Some(p), ..w };
    if w.player is Some && w.player.unwrap().id == p.id {
        let q = w.player.unwrap();
        assert forall|i: int| 0 <= i < v.monsters.len() implies #[trigger] v.monsters[i].id
            != p.id by {
            assert(w.monsters[i].id != q.id);
        }
        assert forall|j: int| 0 <= j < v.projectiles.len() implies #[trigger] v.projectiles[j].id
            != p.id by {
            assert(w.projectiles[j].id != q.id);
        }
    } else {
        let f = WorldView { player: None, ..w };
        assert forall|i: int| 0 <= i < v.monsters.len() implies #[trigger] v.monsters[i].id
            != p.id by {
            assert(f.monsters[i].id != p.id);
        }
        assert forall|j: int| 0 <= j < v.projectiles.len() implies #[trigger] v.projectiles[j].id
            != p.id by {
            assert(f.projectiles[j].id != p.id);
        }
    }
}

pub open spec fn opt_creature_wf(c: Option<Creature>) -> bool {
    match c {
        Some(p) => p.wf(),
        None => true,
    }
}

/// The world after one tick of `dt` milliseconds, with the monster kills of
/// the tick. The phases run in this order: aggro; the monsters' contact
/// attacks, and the player's death if one was lethal; contacts of
/// projectiles; the hits `hits` followed by those of projectiles; the score;
/// stun recovery; movement.
pub open spec fn tick_step(
    w: WorldView,
    dt: u64,
    hits: Seq<HitMonsterEvent>,
    contacts: Seq<CollisionEvent>,
) -> (WorldView, Seq<KillMonsterEvent>) {
    let w1 = aggro_step(w);
    let (w2, lethal) = fight_step(w1, dt);
    let w3 = if lethal > 0 {
        kill_step(w2).0
    } else {
        w2
    };
    let (ps, shots) = projectile_contacts(w3.projectiles, contacts);
    let w4 = WorldView { projectiles: ps, ..w3 };
    let (w5, kills) = hits_step(w4, hits + shots);
    let w6 = score_step(w5, kills.len());
    (movement_step(recover_step(w6, dt), dt), kills)
}

impl World {
    pub open spec fn wf(self) -> bool {
        &&& self.parts_wf()
        &&& self@.ids_unique()
    }

    /// Each part of the world is valid on its own.
    pub open spec fn parts_wf(self) -> bool {
        &&& opt_creature_wf(self.player)
        &&& forall|i: int| 0 <= i < self.monsters@.len() ==> #[trigger] self.monsters@[i].wf()
        &&& forall|i: int|
            0 <= i < self.projectiles@.len() ==> #[trigger] self.projectiles@[i].wf()
    }

    /// An empty world in the `Playing` state with no kills yet.
    pub fn new() -> (r: World)
        ensures
            r.player == None::<Creature>,
            r.monsters@ == Seq::<Creature>::empty(),
            r.projectiles@ == Seq::<Projectile>::empty(),
            r.monsters_killed.count == 0,
            r.game_state == GameState::Playing,
            r.wf(),
    {
        World {
            player: None,
            monsters: Vec::new(),
            projectiles: Vec::new(),
            monsters_killed: MonstersKilled { count: 0 },
            game_state: GameState::Playing,
        }
    }

    /// Runs one tick of `dt` milliseconds (see `tick_step`) and returns the
    /// monster kills of the tick.
    pub fn tick(
        &mut self,
        dt: u64,
        hits: &Vec<HitMonsterEvent>,
        contacts: &Vec<CollisionEvent>,
    ) -> (kills: Vec<KillMonsterEvent>)
        requires
            old(self).wf(),
            forall|i: int| 0 <= i < hits@.len() ==> #[trigger] hit_wf(hits@[i]),
        ensures
            final(self).wf(),
            final(self)@ == tick_step(old(self)@, dt, hits@, contacts@).0,
            kills@ == tick_step(old(self)@, dt, hits@, contacts@).1,
    {
        self.monster_aggro_system();
        let lethal = self.monster_fight_system(dt);
        if lethal.len() > 0 {
            let _ = self.kill_player();
        }
        let shots = self.projectile_collision_system(contacts);
        let mut all: Vec<HitMonsterEvent> = Vec::new();
        let mut i: usize = 0;
        while i < hits.len()
            invariant
                0 <= i <= hits@.len(),
                all@ == hits@.subrange(0, i as int),
            decreases hits@.len() - i,
        {
            all.push(hits[i]);
            proof {
                assert(all@ =~= hits@.subrange(0, i + 1));
            }
            i += 1;
        }
        let mut j: usize = 0;
        while j < shots.len()
            invariant
                0 <= j <= shots@.len(),
                hits@.len() <= all@.len(),
                all@ == hits@ + shots@.subrange(0, j as int),
            decreases shots@.len() - j,
        {
            all.push(shots[j]);
            proof {
                assert(all@ =~= hits@ + shots@.subrange(0, j + 1));
            }
            j += 1;
        }
        proof {
            assert(hits@.subrange(0, hits@.len() as int) =~= hits@);
            assert(shots@.subrange(0, shots@.len() as int) =~= shots@);
            assert(all@ =~= hits@ + shots@);
            assert forall|k: int| 0 <= k < all@.len() implies #[trigger] hit_wf(all@[k]) by {
                if k < hits@.len() {
                    assert(all@[k] == hits@[k]);
                } else {
                    assert(all@[k] == shots@[k - hits@.len()]);
                }
            }
        }
        let kills = self.monster_hit_system(&all);
        self.update_score(&kills);
        self.change_consciousness_system(dt);
        self.location_system(dt);
        kills
    }
}

} // verus!
