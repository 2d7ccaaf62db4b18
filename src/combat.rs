use vstd::prelude::*;
use crate::creature::{
    BrainState, ConsciousnessStateEnum, Creature, LastAttack, Stats, MONSTER_STUN_COOLDOWN, STAT_LIMIT,
};
use crate::geometry::{dist_sq, scaled_to, Vec3i};
use crate::search::{first_index, is_first, lemma_first_index_absent, lemma_first_index_found};
use crate::location::Location;
use crate::timer::{ticked, Timer};
use crate::world::{
    lemma_remove_monster_ids, lemma_set_player_ids, lemma_update_monster_ids, GameState, World,
    WorldView,
};

verus! {

/// Radius within which a monster notices the player, in millimetres.
pub const MONSTER_AGGRO_DISTANCE: i64 = 16000;
/// Strength of the knockback a hit monster receives.
pub const MONSTER_HIT_IMPULSE: i64 = 20000;

/// The player hit the monster with id `.0`, along direction `.1`.
#[derive(Clone, Copy, Debug, PartialEq, Eq, Structural)]
pub struct HitMonsterEvent(pub u64, pub Vec3i);

/// The monster with id `.0` died.
#[derive(Clone, Copy, Debug, PartialEq, Eq, Structural)]
pub struct KillMonsterEvent(pub u64);

/// The player's hit points reached zero.
#[derive(Clone, Copy, Debug, PartialEq, Eq, Structural)]
pub struct KillPlayerEvent;

// ------------------------------------------------------------------
// Aggro

/// Monster `m` after the aggro rule, with the player at `target`.
pub open spec fn aggro(m: Creature, target: Vec3i) -> Creature {
    match m.location.position {
        Some(p) => if dist_sq(p, target) <= MONSTER_AGGRO_DISTANCE * MONSTER_AGGRO_DISTANCE {
            Creature { location: Location { destination: Some(target), ..m.location }, ..m }
        } else {
            m
        },
        None => m,
    }
}

/// Position of the player, where both the player and its position are known.
pub open spec fn player_position(player: Option<Creature>) -> Option<Vec3i> {
    match player {
        Some(c) => c.location.position,
        None => None,
    }
}

// ------------------------------------------------------------------
// Monster -> player contact attack

/// Hit points after taking `atk` damage, clamped at zero.
pub open spec fn damaged_hp(hp: int, atk: int) -> int {
    if hp - atk <= 0 {
        0
    } else {
        hp - atk
    }
}

/// One monster's contact attack: its cooldown ticks by `dt`; when it is in
/// reach of the player at `target` and the cooldown has elapsed it strikes
/// the player, who has `hp` hit points. Gives the monster, the player's hit
/// points after it, and whether the strike was lethal.
pub open spec fn contact_attack(m: Creature, target: Vec3i, dt: u64, hp: i64) -> (Creature, i64, bool) {
    match m.location.position {
        None => (m, hp, false),
        Some(p) => {
            let t = ticked(m.last_attack.0, dt);
            let range = m.creature_type.spec_range();
            if dist_sq(p, target) <= range * range && t.is_finished() {
                let m2 = Creature {
                    last_attack: LastAttack(Timer { duration: t.duration, elapsed: 0 }),
                    ..m
                };
                (m2, damaged_hp(hp as int, m.stats.atk as int) as i64, hp - m.stats.atk <= 0)
            } else {
                (Creature { last_attack: LastAttack(t), ..m }, hp, false)
            }
        },
    }
}

/// All monsters of `ms` attack in order. Gives the monsters, the player's
/// hit points and the number of lethal strikes.
pub open spec fn contact_attacks(ms: Seq<Creature>, target: Vec3i, dt: u64, hp: i64) -> (
    Seq<Creature>,
    i64,
    nat,
)
    decreases ms.len(),
{
    if ms.len() == 0 {
        (ms, hp, 0)
    } else {
        let (pre, h, k) = contact_attacks(ms.drop_last(), target, dt, hp);
        let (m, h2, lethal) = contact_attack(ms.last(), target, dt, h);
        (pre.push(m), h2, k + if lethal {
            1nat
        } else {
            0nat
        })
    }
}

// ------------------------------------------------------------------
// Player -> monster hits

/// Impulse of a hit along `dir`: `MONSTER_HIT_IMPULSE` long, or none for a
/// zero direction.
pub open spec fn knockback(dir: Vec3i) -> Vec3i {
    if dir == Vec3i::zero_spec() {
        dir
    } else {
        scaled_to(dir, MONSTER_HIT_IMPULSE as int)
    }
}

/// Monster `m` after a hit of `atk` damage along `dir`: it loses `atk` hit
/// points, is knocked back, stunned with a fresh stun timer, and knocked
/// out if its hit points are gone.
pub open spec fn hit_monster(m: Creature, atk: i64, dir: Vec3i) -> Creature {
    let hp = m.stats.hp - atk;
    Creature {
        stats: Stats { hp: hp as i64, ..m.stats },
        brain_state: BrainState {
            conscious: if hp <= 0 {
                ConsciousnessStateEnum::Ko
            } else {
                ConsciousnessStateEnum::Stun
            },
            stun_at: Timer { duration: m.brain_state.stun_at.duration, elapsed: 0 },
        },
        impulse: knockback(dir),
        ..m
    }
}

pub open spec fn has_creature_id(id: u64) -> spec_fn(Creature) -> bool {
    |c: Creature| c.id == id
}

/// Index of the first creature with id `id` in `ms`, or -1.
pub open spec fn index_of(ms: Seq<Creature>, id: u64) -> int {
    first_index(ms, has_creature_id(id))
}

/// Monsters `ms` after hit `ev` with `atk` damage, with the kill it caused.
/// A hit on an id that no monster carries changes nothing; a lethal hit
/// despawns the monster.
pub open spec fn apply_hit(ms: Seq<Creature>, atk: i64, ev: HitMonsterEvent) -> (
    Seq<Creature>,
    Option<KillMonsterEvent>,
) {
    let i = index_of(ms, ev.0);
    if i < 0 {
        (ms, None)
    } else {
        let m = hit_monster(ms[i], atk, ev.1);
        if m.stats.hp <= 0 {
            (ms.remove(i), Some(KillMonsterEvent(ev.0)))
        } else {
            (ms.update(i, m), None)
        }
    }
}

/// Monsters after the hits `evs` in order, with the kills they caused.
pub open spec fn apply_hits(ms: Seq<Creature>, atk: i64, evs: Seq<HitMonsterEvent>) -> (
    Seq<Creature>,
    Seq<KillMonsterEvent>,
)
    decreases evs.len(),
{
    if evs.len() == 0 {
        (ms, Seq::empty())
    } else {
        let (ms1, ks1) = apply_hits(ms, atk, evs.drop_last());
        let (ms2, k) = apply_hit(ms1, atk, evs.last());
        (ms2, match k {
            Some(e) => ks1.push(e),
            None => ks1,
        })
    }
}

pub open spec fn hit_wf(ev: HitMonsterEvent) -> bool {
    ev.1.is_displacement()
}

// ------------------------------------------------------------------
// Consciousness

/// `c` after its stun timer runs for `dt`: awake again once it finishes.
pub open spec fn recovered(c: Creature, dt: u64) -> Creature {
    let t = ticked(c.brain_state.stun_at, dt);
    Creature {
        brain_state: BrainState {
            conscious: if t.is_finished() {
                ConsciousnessStateEnum::Awake
            } else {
                c.brain_state.conscious
            },
            stun_at: t,
        },
        ..c
    }
}

/// The kill counter after `k` more kills; it stops at its largest value.
pub open spec fn counted(count: u64, k: nat) -> u64 {
    if count + k > u64::MAX {
        u64::MAX
    } else {
        (count + k) as u64
    }
}

/// A non-negative `index_of` is in range and names a creature with that id.
pub proof fn lemma_index_of(ms: Seq<Creature>, id: u64)
    requires
        index_of(ms, id) >= 0,
    ensures
        0 <= index_of(ms, id) < ms.len(),
        ms[index_of(ms, id)].id == id,
{
    let p = has_creature_id(id);
    assert(exists|i: int| is_first(ms, p, i));
    let i = choose|i: int| is_first(ms, p, i);
    assert(is_first(ms, p, i));
}

/// A hit on a live monster with hit points `h` by a player with attack `a`
/// leaves the monster with exactly `h - a` hit points; where it survives,
/// that is what the monster list holds afterwards.
pub proof fn lemma_damage_arithmetic(ms: Seq<Creature>, atk: i64, ev: HitMonsterEvent)
    requires
        index_of(ms, ev.0) >= 0,
        ms[index_of(ms, ev.0)].stats.wf(),
        0 <= atk <= STAT_LIMIT,
    ensures
        ({
            let i = index_of(ms, ev.0);
            let h = ms[i].stats.hp;
            &&& hit_monster(ms[i], atk, ev.1).stats.hp == h - atk
            &&& h - atk > 0 ==> apply_hit(ms, atk, ev).0[i].stats.hp == h - atk
        }),
{
    let i = index_of(ms, ev.0);
    lemma_index_of(ms, ev.0);
}

/// A hit that leaves a monster at zero hit points or below despawns it
/// (with ids unique, no monster of that id is left) and yields exactly one
/// kill event for it; a hit that leaves it above zero despawns nothing and
/// yields no event.
pub proof fn lemma_lethal_threshold(ms: Seq<Creature>, atk: i64, ev: HitMonsterEvent)
    requires
        index_of(ms, ev.0) >= 0,
        ms[index_of(ms, ev.0)].stats.wf(),
        0 <= atk <= STAT_LIMIT,
        forall|j: int, k: int| 0 <= j < k < ms.len() ==> ms[j].id != ms[k].id,
    ensures
        ({
            let i = index_of(ms, ev.0);
            let (after, kill) = apply_hit(ms, atk, ev);
            &&& ms[i].stats.hp - atk <= 0 ==> {
                &&& after == ms.remove(i)
                &&& kill == Some(KillMonsterEvent(ev.0))
                &&& forall|j: int| 0 <= j < after.len() ==> #[trigger] after[j].id != ev.0
            }
            &&& ms[i].stats.hp - atk > 0 ==> {
                &&& after.len() == ms.len()
                &&& kill == None::<KillMonsterEvent>
            }
        }),
{
    let i = index_of(ms, ev.0);
    lemma_index_of(ms, ev.0);
    let after = apply_hit(ms, atk, ev).0;
    if ms[i].stats.hp - atk <= 0 {
        assert forall|j: int| 0 <= j < after.len() implies #[trigger] after[j].id != ev.0 by {
            if j < i {
                assert(after[j] == ms[j]);
            } else {
                assert(after[j] == ms[j + 1]);
                assert(ms[i].id != ms[j + 1].id);
            }
        }
    }
}

/// A lethal hit despawns its monster for good: a second hit on the same id
/// in the same drain finds no monster and is skipped, so the two hits yield
/// exactly one kill and the monster stays gone.
pub proof fn lemma_despawn_not_rolled_back(w: WorldView, ev: HitMonsterEvent, dir2: Vec3i)
    requires
        w.ids_unique(),
        w.player is Some,
        0 <= w.player.unwrap().stats.atk <= STAT_LIMIT,
        index_of(w.monsters, ev.0) >= 0,
        w.monsters[index_of(w.monsters, ev.0)].stats.wf(),
        w.monsters[index_of(w.monsters, ev.0)].stats.hp - w.player.unwrap().stats.atk <= 0,
    ensures
        hits_step(w, seq![ev, HitMonsterEvent(ev.0, dir2)]) == (
            WorldView { monsters: w.monsters.remove(index_of(w.monsters, ev.0)), ..w },
            seq![KillMonsterEvent(ev.0)],
        ),
{
    let atk = w.player.unwrap().stats.atk;
    let ms = w.monsters;
    let i = index_of(ms, ev.0);
    let ev2 = HitMonsterEvent(ev.0, dir2);
    lemma_lethal_threshold(ms, atk, ev);
    let after = ms.remove(i);
    lemma_first_index_absent(after, has_creature_id(ev.0));
    let evs = seq![ev, ev2];
    assert(evs.drop_last() =~= seq![ev]);
    lemma_single_lethal_hit(ms, atk, ev);
    assert(apply_hit(after, atk, ev2) == (after, None::<KillMonsterEvent>));
}

/// Folding a single lethal hit over the monster list.
proof fn lemma_single_lethal_hit(ms: Seq<Creature>, atk: i64, ev: HitMonsterEvent)
    requires
        index_of(ms, ev.0) >= 0,
        ms[index_of(ms, ev.0)].stats.wf(),
        0 <= atk <= STAT_LIMIT,
        ms[index_of(ms, ev.0)].stats.hp - atk <= 0,
        forall|j: int, k: int| 0 <= j < k < ms.len() ==> ms[j].id != ms[k].id,
    ensures
        apply_hits(ms, atk, seq![ev]) == (ms.remove(index_of(ms, ev.0)), seq![KillMonsterEvent(ev.0)]),
{
    lemma_lethal_threshold(ms, atk, ev);
    assert(seq![ev].drop_last() =~= Seq::<HitMonsterEvent>::empty());
    assert(seq![ev].last() == ev);
    assert(apply_hits(ms, atk, Seq::<HitMonsterEvent>::empty()) == (ms, Seq::<KillMonsterEvent>::empty()));
    assert(Seq::<KillMonsterEvent>::empty().push(KillMonsterEvent(ev.0)) =~= seq![
        KillMonsterEvent(ev.0),
    ]);
}

/// A single lethal hit raises the kill counter from `N` to `N + 1` (the
/// counter stops at its largest value, so `N` is below it).
pub proof fn lemma_kill_counted(w: WorldView, ev: HitMonsterEvent)
    requires
        w.ids_unique(),
        w.player is Some,
        0 <= w.player.unwrap().stats.atk <= STAT_LIMIT,
        index_of(w.monsters, ev.0) >= 0,
        w.monsters[index_of(w.monsters, ev.0)].stats.wf(),
        w.monsters[index_of(w.monsters, ev.0)].stats.hp - w.player.unwrap().stats.atk <= 0,
        w.monsters_killed < u64::MAX,
    ensures
        ({
            let (w1, kills) = hits_step(w, seq![ev]);
            &&& kills == seq![KillMonsterEvent(ev.0)]
            &&& score_step(w1, kills.len()).monsters_killed == w.monsters_killed + 1
        }),
{
    let atk = w.player.unwrap().stats.atk;
    lemma_single_lethal_hit(w.monsters, atk, ev);
}

/// The aggro rule leaves a monster strictly outside the aggro radius of the
/// player untouched, and always points a monster strictly inside it at the
/// player.
pub proof fn lemma_aggro_monotonic(w: WorldView, i: int)
    requires
        0 <= i < w.monsters.len(),
        player_position(w.player) is Some,
        w.monsters[i].location.position is Some,
    ensures
        ({
            let target = player_position(w.player).unwrap();
            let p = w.monsters[i].location.position.unwrap();
            &&& dist_sq(p, target) > MONSTER_AGGRO_DISTANCE * MONSTER_AGGRO_DISTANCE
                ==> aggro_step(w).monsters[i] == w.monsters[i]
            &&& dist_sq(p, target) < MONSTER_AGGRO_DISTANCE * MONSTER_AGGRO_DISTANCE
                ==> aggro_step(w).monsters[i].location.destination == Some(target)
        }),
{
}

/// A surviving hit stuns the monster and restarts its stun timer at its
/// full duration of `MONSTER_STUN_COOLDOWN`; running the timer for exactly
/// that long wakes the monster, running it for less leaves it stunned.
pub proof fn lemma_stun_round_trip(m: Creature, atk: i64, dir: Vec3i, dt: u64)
    requires
        m.wf(),
        0 <= atk <= STAT_LIMIT,
        m.stats.hp - atk > 0,
    ensures
        ({
            let h = hit_monster(m, atk, dir);
            &&& h.brain_state.conscious == ConsciousnessStateEnum::Stun
            &&& h.brain_state.stun_at == (Timer { duration: MONSTER_STUN_COOLDOWN, elapsed: 0 })
            &&& !h.brain_state.stun_at.is_finished()
            &&& recovered(h, MONSTER_STUN_COOLDOWN).brain_state.conscious
                == ConsciousnessStateEnum::Awake
            &&& dt < MONSTER_STUN_COOLDOWN ==> recovered(h, dt).brain_state.conscious
                == ConsciousnessStateEnum::Stun
        }),
{
}

/// Position in `ms` of the first creature with id `id`, if any.
pub fn find_creature(ms: &Vec<Creature>, id: u64) -> (r: Option<usize>)
    ensures
        match r {
            Some(i) => i as int == index_of(ms@, id) && i < ms@.len(),
            None => index_of(ms@, id) == -1,
        },
{
    let mut i: usize = 0;
    while i < ms.len()
        invariant
            0 <= i <= ms@.len(),
            forall|j: int| 0 <= j < i ==> !has_creature_id(id)(#[trigger] ms@[j]),
        decreases ms@.len() - i,
    {
        if ms[i].id == id {
            proof {
                assert(is_first(ms@, has_creature_id(id), i as int));
                lemma_first_index_found(ms@, has_creature_id(id), i as int);
            }
            return Some(i);
        }
        i += 1;
    }
    proof {
        lemma_first_index_absent(ms@, has_creature_id(id));
    }
    None
}

/// Knockback impulse of a hit along `dir`.
fn knockback_of(dir: Vec3i) -> (r: Vec3i)
    requires
        dir.is_displacement(),
    ensures
        r == knockback(dir),
        r.is_displacement(),
{
    if dir == Vec3i::zero() {
        dir
    } else {
        dir.scaled_to(MONSTER_HIT_IMPULSE)
    }
}

// ------------------------------------------------------------------
// Whole-world steps

/// The world after the aggro rule.
pub open spec fn aggro_step(w: WorldView) -> WorldView {
    match player_position(w.player) {
        Some(target) => WorldView {
            monsters: w.monsters.map_values(|m: Creature| aggro(m, target)),
            ..w
        },
        None => w,
    }
}

/// The world after the monsters' contact attacks, with the number of lethal
/// strikes.
pub open spec fn fight_step(w: WorldView, dt: u64) -> (WorldView, nat) {
    match (w.player, player_position(w.player)) {
        (Some(pl), Some(target)) => {
            let (ms, hp, k) = contact_attacks(w.monsters, target, dt, pl.stats.hp);
            (
                WorldView {
                    player: Some(Creature { stats: Stats { hp, ..pl.stats }, ..pl }),
                    monsters: ms,
                    ..w
                },
                k,
            )
        },
        _ => (w, 0),
    }
}

/// The world after the player's hits `evs`, with the kills they caused.
pub open spec fn hits_step(w: WorldView, evs: Seq<HitMonsterEvent>) -> (
    WorldView,
    Seq<KillMonsterEvent>,
) {
    match w.player {
        Some(pl) => {
            let (ms, ks) = apply_hits(w.monsters, pl.stats.atk, evs);
            (WorldView { monsters: ms, ..w }, ks)
        },
        None => (w, Seq::empty()),
    }
}

/// The world after every stun timer ran for `dt`.
pub open spec fn recover_step(w: WorldView, dt: u64) -> WorldView {
    WorldView {
        player: opt_recovered(w.player, dt),
        monsters: w.monsters.map_values(|m: Creature| recovered(m, dt)),
        ..w
    }
}

/// The world after `k` more kills were counted.
pub open spec fn score_step(w: WorldView, k: nat) -> WorldView {
    WorldView { monsters_killed: counted(w.monsters_killed, k), ..w }
}

impl Creature {
    /// Runs the stun timer for `dt` milliseconds; once it has finished the
    /// creature is awake again.
    pub fn recover(&mut self, dt: u64)
        requires
            old(self).wf(),
        ensures
            *final(self) == recovered(*old(self), dt),
            final(self).wf(),
    {
        self.brain_state.stun_at.tick(dt);
        if self.brain_state.stun_at.finished() {
            self.brain_state.conscious = ConsciousnessStateEnum::Awake;
        }
    }
}

pub open spec fn opt_recovered(c: Option<Creature>, dt: u64) -> Option<Creature> {
    match c {
        Some(p) => Some(recovered(p, dt)),
        None => None,
    }
}

impl World {
    /// Points every monster that has a known position within
    /// `MONSTER_AGGRO_DISTANCE` of the player at the player's position.
    /// Without a player position nothing changes.
    pub fn monster_aggro_system(&mut self)
        requires
            old(self).wf(),
        ensures
            final(self).wf(),
            final(self)@ == aggro_step(old(self)@),
    {
        let target = match &self.player {
            Some(c) => match c.location.position {
                Some(p) => p,
                None => return ,
            },
            None => return ,
        };
        let ghost old_ms = self.monsters@;
        let n = self.monsters.len();
        let mut i: usize = 0;
        while i < n
            invariant
                self.wf(),
                self.player == old(self).player,
                self.projectiles@ == old(self).projectiles@,
                self.monsters_killed == old(self).monsters_killed,
                self.game_state == old(self).game_state,
                n == self.monsters@.len(),
                old_ms.len() == n,
                target.in_bounds(),
                0 <= i <= n,
                forall|j: int| 0 <= j < i ==> #[trigger] self.monsters@[j] == aggro(old_ms[j], target),
                forall|j: int| i <= j < n ==> #[trigger] self.monsters@[j] == old_ms[j],
            decreases n - i,
        {
            let mut m = self.monsters[i];
            if let Some(p) = m.location.position {
                assert(self.monsters@[i as int].wf());
                if p.is_within(&target, MONSTER_AGGRO_DISTANCE) {
                    m.location.destination = Some(target);
                }
            }
            let ghost pre_w = self@;
            self.monsters.set(i, m);
            proof {
                lemma_update_monster_ids(pre_w, i as int, m);
                assert(self@ == (WorldView { monsters: pre_w.monsters.update(i as int, m), ..pre_w }));
            }
            i += 1;
        }
        assert(self.monsters@ =~= old_ms.map_values(|m: Creature| aggro(m, target)));
    }

    /// Every monster with a known position ticks its attack cooldown by `dt`
    /// and, when within its reach of the player and off cooldown, strikes:
    /// the cooldown restarts and the player loses the monster's attack in
    /// hit points, clamped at zero. Returns one event per lethal strike.
    /// Without a player position nothing changes.
    pub fn monster_fight_system(&mut self, dt: u64) -> (kills: Vec<KillPlayerEvent>)
        requires
            old(self).wf(),
        ensures
            final(self).wf(),
            final(self)@ == fight_step(old(self)@, dt).0,
            kills@.len() == fight_step(old(self)@, dt).1,
    {
        let mut kills: Vec<KillPlayerEvent> = Vec::new();
        let mut pl = match self.player {
            Some(c) => c,
            None => return kills,
        };
        let target = match pl.location.position {
            Some(p) => p,
            None => return kills,
        };
        let ghost old_ms = self.monsters@;
        let ghost hp0 = pl.stats.hp;
        let mut hp = pl.stats.hp;
        let n = self.monsters.len();
        let mut i: usize = 0;
        while i < n
            invariant
                self.wf(),
                self.player == old(self).player,
                self.projectiles@ == old(self).projectiles@,
                self.monsters_killed == old(self).monsters_killed,
                self.game_state == old(self).game_state,
                n == self.monsters@.len(),
                old_ms.len() == n,
                target.in_bounds(),
                0 <= i <= n,
                0 <= hp <= crate::creature::STAT_LIMIT,
                (self.monsters@.subrange(0, i as int), hp, kills@.len()) == contact_attacks(
                    old_ms.subrange(0, i as int),
                    target,
                    dt,
                    hp0,
                ),
                forall|j: int| i <= j < n ==> #[trigger] self.monsters@[j] == old_ms[j],
            decreases n - i,
        {
            let ghost pre = self.monsters@;
            let mut m = self.monsters[i];
            assert(self.monsters@[i as int].wf());
            if let Some(p) = m.location.position {
                m.last_attack.0.tick(dt);
                let range = m.creature_type.range();
                if p.is_within(&target, range) && m.last_attack.0.finished() {
                    m.last_attack.0.reset();
                    let h = hp - m.stats.atk;
                    if h <= 0 {
                        hp = 0;
                        kills.push(KillPlayerEvent);
                    } else {
                        hp = h;
                    }
                }
            }
            let ghost pre_w = self@;
            self.monsters.set(i, m);
            proof {
                lemma_update_monster_ids(pre_w, i as int, m);
                assert(self@ == (WorldView { monsters: pre_w.monsters.update(i as int, m), ..pre_w }));
            }
            proof {
                assert(old_ms.subrange(0, i + 1).drop_last() =~= old_ms.subrange(0, i as int));
                assert(old_ms.subrange(0, i + 1).last() == old_ms[i as int]);
                assert(self.monsters@.subrange(0, i + 1) =~= pre.subrange(0, i as int).push(m));
            }
            i += 1;
        }
        proof {
            assert(old_ms.subrange(0, n as int) =~= old_ms);
            assert(self.monsters@.subrange(0, n as int) =~= self.monsters@);
        }
        pl.stats.hp = hp;
        let ghost pre_w = self@;
        self.player = Some(pl);
        proof {
            lemma_set_player_ids(pre_w, pl);
        }
        kills
    }

    /// Applies the player's hits in order. Each hit on a live monster takes
    /// the player's attack off its hit points, knocks it back along the hit's
    /// direction and stuns it with a fresh stun timer; a hit that leaves it
    /// without hit points knocks it out, despawns it and yields a kill. Hits
    /// on ids that no live monster carries are skipped. Without a player
    /// nothing changes.
    pub fn monster_hit_system(&mut self, events: &Vec<HitMonsterEvent>) -> (kills: Vec<
        KillMonsterEvent,
    >)
        requires
            old(self).wf(),
            forall|i: int| 0 <= i < events@.len() ==> #[trigger] hit_wf(events@[i]),
        ensures
            final(self).wf(),
            final(self)@ == hits_step(old(self)@, events@).0,
            kills@ == hits_step(old(self)@, events@).1,
    {
        let mut kills: Vec<KillMonsterEvent> = Vec::new();
        let atk = match &self.player {
            Some(p) => p.stats.atk,
            None => return kills,
        };
        let ghost old_ms = self.monsters@;
        let mut i: usize = 0;
        proof {
            assert(events@.subrange(0, 0) =~= Seq::<HitMonsterEvent>::empty());
            assert(kills@ =~= Seq::<KillMonsterEvent>::empty());
        }
        while i < events.len()
            invariant
                self.wf(),
                self.player == old(self).player,
                self.projectiles@ == old(self).projectiles@,
                self.monsters_killed == old(self).monsters_killed,
                self.game_state == old(self).game_state,
                0 <= atk <= crate::creature::STAT_LIMIT,
                0 <= i <= events@.len(),
                forall|k: int| 0 <= k < events@.len() ==> #[trigger] hit_wf(events@[k]),
                (self.monsters@, kills@) == apply_hits(old_ms, atk, events@.subrange(0, i as int)),
            decreases events@.len() - i,
        {
            let ev = events[i];
            assert(hit_wf(events@[i as int]));
            let ghost pre_ms = self.monsters@;
            let ghost pre_ks = kills@;
            match find_creature(&self.monsters, ev.0) {
                None => {},
                Some(k) => {
                    let mut m = self.monsters[k];
                    assert(pre_ms[k as int].wf());
                    m.impulse = knockback_of(ev.1);
                    m.stats.hp = m.stats.hp - atk;
                    m.brain_state.conscious = ConsciousnessStateEnum::Stun;
                    m.brain_state.stun_at.reset();
                    if m.stats.hp <= 0 {
                        kills.push(KillMonsterEvent(ev.0));
                        m.brain_state.conscious = ConsciousnessStateEnum::Ko;
                        let ghost pre_w = self@;
                        self.monsters.remove(k);
                        proof {
                            lemma_remove_monster_ids(pre_w, k as int);
                            assert(self@ == (WorldView { monsters: pre_w.monsters.remove(k as int), ..pre_w }));
                        }
                        assert forall|j: int| 0 <= j < self.monsters@.len() implies #[trigger] self.monsters@[j].wf() by {
                            if j < k {
                                assert(self.monsters@[j] == pre_ms[j]);
                            } else {
                                assert(self.monsters@[j] == pre_ms[j + 1]);
                            }
                        }
                    } else {
                        let ghost pre_w = self@;
                        self.monsters.set(k, m);
                        proof {
                            lemma_update_monster_ids(pre_w, k as int, m);
                            assert(self@ == (WorldView { monsters: pre_w.monsters.update(k as int, m), ..pre_w }));
                        }
                    }
                    assert(m == hit_monster(pre_ms[k as int], atk, ev.1));
                },
            }
            proof {
                assert(events@.subrange(0, i + 1).drop_last() =~= events@.subrange(0, i as int));
                assert(events@.subrange(0, i + 1).last() == ev);
            }
            i += 1;
        }
        proof {
            assert(events@.subrange(0, events@.len() as int) =~= events@);
        }
        kills
    }

    /// Runs every creature's stun timer for `dt` milliseconds, waking those
    /// whose timer has finished.
    pub fn change_consciousness_system(&mut self, dt: u64)
        requires
            old(self).wf(),
        ensures
            final(self).wf(),
            final(self)@ == recover_step(old(self)@, dt),
    {
        if let Some(mut p) = self.player {
            p.recover(dt);
            let ghost pre_w = self@;
            self.player = Some(p);
            proof {
                lemma_set_player_ids(pre_w, p);
            }
        }
        let ghost old_ms = self.monsters@;
        let ghost pl = self.player;
        let n = self.monsters.len();
        let mut i: usize = 0;
        while i < n
            invariant
                self.wf(),
                self.player == pl,
                self.projectiles@ == old(self).projectiles@,
                self.monsters_killed == old(self).monsters_killed,
                self.game_state == old(self).game_state,
                n == self.monsters@.len(),
                old_ms.len() == n,
                0 <= i <= n,
                forall|j: int| 0 <= j < i ==> #[trigger] self.monsters@[j] == recovered(old_ms[j], dt),
                forall|j: int| i <= j < n ==> #[trigger] self.monsters@[j] == old_ms[j],
            decreases n - i,
        {
            let mut m = self.monsters[i];
            assert(self.monsters@[i as int].wf());
            m.recover(dt);
            let ghost pre_w = self@;
            self.monsters.set(i, m);
            proof {
                lemma_update_monster_ids(pre_w, i as int, m);
                assert(self@ == (WorldView { monsters: pre_w.monsters.update(i as int, m), ..pre_w }));
            }
            i += 1;
        }
        assert(self.monsters@ =~= old_ms.map_values(|m: Creature| recovered(m, dt)));
    }

    /// Counts the kills of this tick into the score.
    pub fn update_score(&mut self, kills: &Vec<KillMonsterEvent>)
        requires
            old(self).wf(),
        ensures
            final(self).wf(),
            final(self)@ == score_step(old(self)@, kills@.len()),
    {
        let mut i: usize = 0;
        while i < kills.len()
            invariant
                self.wf(),
                0 <= i <= kills@.len(),
                self.monsters_killed.count == counted(old(self).monsters_killed.count, i as nat),
                self.player == old(self).player,
                self.monsters@ == old(self).monsters@,
                self.projectiles@ == old(self).projectiles@,
                self.game_state == old(self).game_state,
            decreases kills@.len() - i,
        {
            let ghost pre_w = self@;
            if self.monsters_killed.count < u64::MAX {
                self.monsters_killed.count = self.monsters_killed.count + 1;
            }
            proof {
                assert(self@ == (WorldView { monsters_killed: self.monsters_killed.count, ..pre_w }));
            }
            i += 1;
        }
    }
}

} // verus!
