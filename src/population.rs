use vstd::prelude::*;
use crate::creature::{
    BrainState, ConsciousnessStateEnum, Creature, CreatureType, LastAttack, Stats, FULL_HP,
    MONSTER_ATTACK_COOLDOWN, MONSTER_STUN_COOLDOWN,
};
use crate::geometry::Vec3i;
use crate::location::Location;
use crate::timer::Timer;
use crate::vec::{is_spawn_point, RandVec3};
use crate::world::{World, WorldView, lemma_set_player_ids, lemma_push_monster_ids};

verus! {

/// A freshly spawned creature of type `t` with id `id` at `position`: full
/// hit points, the attack of its type, awake, with no destination.
pub open spec fn spawned(id: u64, t: CreatureType, position: Vec3i) -> Creature {
    Creature {
        id,
        creature_type: t,
        stats: Stats { hp: FULL_HP, atk: t.spec_attack() },
        brain_state: BrainState {
            conscious: ConsciousnessStateEnum::Awake,
            stun_at: Timer { duration: MONSTER_STUN_COOLDOWN, elapsed: 0 },
        },
        location: Location {
            destination: None,
            max_velocity: None,
            velocity: None,
            position: Some(position),
        },
        last_attack: LastAttack(Timer { duration: MONSTER_ATTACK_COOLDOWN, elapsed: 0 }),
        impulse: Vec3i { x: 0, y: 0, z: 0 },
    }
}

/// The world with a creature spawned: a human becomes the player (there is
/// only one), a monster joins the monsters.
pub open spec fn spawn_step(w: WorldView, id: u64, t: CreatureType, position: Vec3i) -> WorldView {
    match t {
        CreatureType::Human => WorldView { player: Some(spawned(id, t, position)), ..w },
        CreatureType::Monster => WorldView {
            monsters: w.monsters.push(spawned(id, t, position)),
            ..w
        },
    }
}

impl World {
    /// Spawns a creature of type `t` with id `id` at `position` (see
    /// `spawn_step`).
    pub fn spawn_creature(&mut self, id: u64, t: CreatureType, position: Vec3i)
        requires
            old(self).wf(),
            position.in_bounds(),
            old(self)@.id_is_fresh(id),
        ensures
            final(self).wf(),
            final(self)@ == spawn_step(old(self)@, id, t, position),
    {
        let atk = t.attack();
        let mut c = Creature::new(id, t, Stats { hp: FULL_HP, atk });
        c.location.position = Some(position);
        match t {
            CreatureType::Human => {
                let ghost pre_w = self@;
                self.player = Some(c);
                proof {
                    lemma_set_player_ids(pre_w, c);
                }
            },
            CreatureType::Monster => {
                let ghost old_ms = self.monsters@;
                let ghost pre_w = self@;
                self.monsters.push(c);
                proof {
                    lemma_push_monster_ids(pre_w, c);
                    assert(self@ == (WorldView { monsters: pre_w.monsters.push(c), ..pre_w }));
                }
                assert forall|i: int| 0 <= i < self.monsters@.len() implies #[trigger] self.monsters@[i].wf() by {
                    if i < old_ms.len() {
                        assert(self.monsters@[i] == old_ms[i]);
                    }
                }
            },
        }
    }

    /// Spawns the player with id `first_id` and then `count` monsters with
    /// the ids that follow it, each at a random spawn point.
    pub fn spawn_creatures(&mut self, first_id: u64, count: u64)
        requires
            old(self).wf(),
            first_id + count <= u64::MAX,
            forall|k: u64| first_id <= k <= first_id + count ==> #[trigger] old(self)@.id_is_fresh(k),
        ensures
            final(self).wf(),
            final(self).projectiles@ == old(self).projectiles@,
            final(self).monsters_killed == old(self).monsters_killed,
            final(self).game_state == old(self).game_state,
            exists|p: Vec3i|
                #[trigger] is_spawn_point(p) && final(self).player == Some(
                    spawned(first_id, CreatureType::Human, p),
                ),
            final(self).monsters@.len() == old(self).monsters@.len() + count,
            forall|i: int|
                0 <= i < old(self).monsters@.len() ==> #[trigger] final(self).monsters@[i]
                    == old(self).monsters@[i],
            forall|i: int|
                old(self).monsters@.len() <= i < final(self).monsters@.len() ==> {
                    let m = #[trigger] final(self).monsters@[i];
                    &&& m.location.position is Some
                    &&& is_spawn_point(m.location.position.unwrap())
                    &&& m == spawned(
                        (first_id + 1 + (i - old(self).monsters@.len())) as u64,
                        CreatureType::Monster,
                        m.location.position.unwrap(),
                    )
                },
    {
        let at = RandVec3::new();
        self.spawn_creature(first_id, CreatureType::Human, at);
        assert(is_spawn_point(at));
        let ghost old_ms = self.monsters@;
        let ghost pl = self.player;
        let mut k: u64 = 0;
        while k < count
            invariant
                self.wf(),
                self.player == pl,
                self.projectiles@ == old(self).projectiles@,
                self.monsters_killed == old(self).monsters_killed,
                self.game_state == old(self).game_state,
                first_id + count <= u64::MAX,
                forall|kk: u64| first_id <= kk <= first_id + count ==> #[trigger] old(self)@.id_is_fresh(kk),
                pl is Some && pl.unwrap().id == first_id,
                0 <= k <= count,
                old_ms == old(self).monsters@,
                self.monsters@.len() == old_ms.len() + k,
                forall|i: int| 0 <= i < old_ms.len() ==> #[trigger] self.monsters@[i] == old_ms[i],
                forall|i: int|
                    old_ms.len() <= i < self.monsters@.len() ==> {
                        let m = #[trigger] self.monsters@[i];
                        &&& m.location.position is Some
                        &&& is_spawn_point(m.location.position.unwrap())
                        &&& m == spawned(
                            (first_id + 1 + (i - old_ms.len())) as u64,
                            CreatureType::Monster,
                            m.location.position.unwrap(),
                        )
                    },
            decreases count - k,
        {
            let at = RandVec3::new();
            let ghost pre = self.monsters@;
            let id = first_id + 1 + k;
            proof {
                let ow = old(self)@;
                assert(ow.id_is_fresh(id));
                assert forall|i: int| 0 <= i < self.monsters@.len() implies #[trigger] self@.monsters[i].id != id by {
                    if i < old_ms.len() {
                        assert(self.monsters@[i] == old_ms[i]);
                        assert(ow.monsters[i].id != id);
                    } else {
                        let m = self.monsters@[i];
                        assert(m.id == first_id + 1 + (i - old_ms.len()));
                    }
                }
                assert forall|j: int| 0 <= j < self.projectiles@.len() implies #[trigger] self@.projectiles[j].id != id by {
                    assert(ow.projectiles[j].id != id);
                }
            }
            self.spawn_creature(id, CreatureType::Monster, at);
            assert forall|i: int| old_ms.len() <= i < self.monsters@.len() implies {
                let m = #[trigger] self.monsters@[i];
                &&& m.location.position is Some
                &&& is_spawn_point(m.location.position.unwrap())
                &&& m == spawned(
                    (first_id + 1 + (i - old_ms.len())) as u64,
                    CreatureType::Monster,
                    m.location.position.unwrap(),
                )
            } by {
                if i < pre.len() {
                    assert(self.monsters@[i] == pre[i]);
                }
            }
            assert forall|i: int| 0 <= i < old_ms.len() implies #[trigger] self.monsters@[i]
                == old_ms[i] by {
                assert(self.monsters@[i] == pre[i]);
            }
            k += 1;
        }
    }
}

} // verus!
