use vstd::prelude::*;
use crate::creature::{ConsciousnessStateEnum, Creature};
use crate::geometry::{norm_sq, scaled_to, Vec3i};
use crate::world::{GameState, World, WorldView, lemma_update_monster_ids, lemma_set_player_ids};

verus! {

/// Simulation-space state of a creature, independent of the physics host's
/// transform. `position` is `None` until the host first reports it.
#[derive(Clone, Copy, Debug, PartialEq, Eq, Structural)]
pub struct Location {
    pub destination: Option<Vec3i>,
    pub max_velocity: Option<i64>,
    pub velocity: Option<Vec3i>,
    pub position: Option<Vec3i>,
}

pub open spec fn opt_in_bounds(v: Option<Vec3i>) -> bool {
    match v {
        Some(p) => p.in_bounds(),
        None => true,
    }
}

impl Location {
    pub open spec fn wf(self) -> bool {
        &&& opt_in_bounds(self.position)
        &&& opt_in_bounds(self.destination)
        &&& match self.velocity {
            Some(v) => v.is_displacement(),
            None => true,
        }
    }

    /// A location with nothing known yet.
    pub fn new() -> (r: Location)
        ensures
            r == (Location { destination: None, max_velocity: None, velocity: None, position: None }),
            r.wf(),
    {
        Location { destination: None, max_velocity: None, velocity: None, position: None }
    }

    /// Takes the position that the physics host integrated.
    pub fn update_from_translation(&mut self, translation: Vec3i)
        requires
            old(self).wf(),
            translation.in_bounds(),
        ensures
            *final(self) == (Location { position: Some(translation), ..*old(self) }),
            final(self).wf(),
    {
        self.position = Some(translation);
    }
}

/// Whether a creature `delta` away from its destination gets there within
/// one frame of `dt` milliseconds at `speed` millimetres per second, that is
/// `|delta| <= speed * dt / 1000`.
pub open spec fn arrived(delta: Vec3i, speed: int, dt: int) -> bool {
    norm_sq(delta) * 1000000 <= (speed * dt) * (speed * dt)
}

/// `c` after one pass of the movement resolver with a frame of `dt`
/// milliseconds.
pub open spec fn moved(c: Creature, dt: u64) -> Creature {
    let zero = Vec3i { x: 0, y: 0, z: 0 };
    let loc = c.location;
    match loc.position {
        None => c,
        Some(p) => match loc.destination {
            None => Creature { location: Location { velocity: Some(zero), ..loc }, ..c },
            Some(d) => {
                let delta = Vec3i {
                    x: (d.x - p.x) as i64,
                    y: (d.y - p.y) as i64,
                    z: (d.z - p.z) as i64,
                };
                let speed = c.creature_type.spec_speed() as int;
                if arrived(delta, speed, dt as int) {
                    Creature {
                        location: Location { destination: None, velocity: Some(zero), ..loc },
                        ..c
                    }
                } else if c.brain_state.conscious == ConsciousnessStateEnum::Awake {
                    Creature {
                        location: Location { velocity: Some(scaled_to(delta, speed)), ..loc },
                        ..c
                    }
                } else {
                    Creature { location: Location { velocity: Some(zero), ..loc }, ..c }
                }
            },
        },
    }
}

/// Once a creature's destination is cleared by arrival, running the
/// movement resolver again with the same frame time changes nothing: the
/// destination stays cleared and the velocity stays zero.
pub proof fn lemma_arrival_idempotent(c: Creature, dt: u64)
    requires
        c.location.destination is Some,
        moved(c, dt).location.destination is None,
    ensures
        moved(moved(c, dt), dt) == moved(c, dt),
        moved(moved(c, dt), dt).location.velocity == Some(Vec3i::zero_spec()),
{
}

impl Creature {
    /// Turns the creature's destination into a velocity command for one
    /// frame: clears the destination on arrival, heads toward it at the
    /// creature's speed while awake, and holds still otherwise.
    pub fn update_movement(&mut self, dt: u64)
        requires
            old(self).wf(),
        ensures
            *final(self) == moved(*old(self), dt),
            final(self).wf(),
    {
        let p = match self.location.position {
            Some(p) => p,
            None => return ,
        };
        let d = match self.location.destination {
            Some(d) => d,
            None => {
                self.location.velocity = Some(Vec3i::zero());
                return ;
            },
        };
        let delta = p.delta_to(&d);
        let speed = self.creature_type.speed();
        assert(0 <= speed <= 10000);
        let sp = speed as u128;
        let t = dt as u128;
        assert(sp * t <= 10000 * 0xffff_ffff_ffff_ffffu128) by (nonlinear_arith)
            requires
                sp <= 10000,
                t <= 0xffff_ffff_ffff_ffffu128,
        ;
        let reach = sp * t;
        let n = delta.norm_squared();
        assert(n * 1000000 < 0x1_0000_0000_0000_0000_0000_0000u128) by (nonlinear_arith)
            requires
                n <= 3 * (2 * 1073741824) * (2 * 1073741824),
        ;
        // A frame this long covers any distance between in-bounds points.
        let far = reach >= 0x1_0000_0000_0000_0000u128;
        if far {
            assert(n * 1000000 <= reach * reach) by (nonlinear_arith)
                requires
                    reach >= 0x1_0000_0000_0000_0000u128,
                    n * 1000000 < 0x1_0000_0000_0000_0000_0000_0000u128,
            ;
        } else {
            assert(reach * reach <= 0xffff_ffff_ffff_ffff_ffff_ffff_ffff_ffffu128) by (nonlinear_arith)
                requires
                    reach < 0x1_0000_0000_0000_0000u128,
            ;
        }
        if far || n * 1000000 <= reach * reach {
            self.location.destination = None;
            self.location.velocity = Some(Vec3i::zero());
        } else if self.brain_state.conscious == ConsciousnessStateEnum::Awake {
            assert(delta != Vec3i::zero_spec()) by {
                if delta == Vec3i::zero_spec() {
                    assert(norm_sq(delta) == 0) by (nonlinear_arith)
                        requires
                            delta.x == 0 && delta.y == 0 && delta.z == 0,
                            norm_sq(delta) == delta.x * delta.x + delta.y * delta.y + delta.z
                                * delta.z,
                    ;
                }
            }
            let v = delta.scaled_to(speed);
            self.location.velocity = Some(v);
        } else {
            self.location.velocity = Some(Vec3i::zero());
        }
    }
}

pub open spec fn opt_moved(c: Option<Creature>, dt: u64) -> Option<Creature> {
    match c {
        Some(p) => Some(moved(p, dt)),
        None => None,
    }
}

/// The world after one pass of the movement resolver; the player moves only
/// while the game is being played.
pub open spec fn movement_step(w: WorldView, dt: u64) -> WorldView {
    WorldView {
        player: if w.game_state == GameState::Playing {
            opt_moved(w.player, dt)
        } else {
            w.player
        },
        monsters: w.monsters.map_values(|m: Creature| moved(m, dt)),
        ..w
    }
}

impl World {
    /// Runs the movement resolver on every monster, and on the player while
    /// the game is being played.
    pub fn location_system(&mut self, dt: u64)
        requires
            old(self).wf(),
        ensures
            final(self).wf(),
            final(self)@ == movement_step(old(self)@, dt),
    {
        if self.game_state == GameState::Playing {
            if let Some(mut p) = self.player {
                p.update_movement(dt);
                let ghost pre_w = self@;
                self.player = Some(p);
                proof {
                    lemma_set_player_ids(pre_w, p);
                }
            }
        }
        let ghost old_ms = self.monsters@;
        let ghost pl = self.player;
        let n = self.monsters.len();
        let mut i: usize = 0;
        while i < n
            invariant
                self.wf(),
                self.player == pl,
                self.projectiles@ == old(self).projectiles@,
                self.monsters_killed == old(self).monsters_killed,
                self.game_state == old(self).game_state,
                    n == self.monsters@.len(),
                old_ms.len() == n,
                0 <= i <= n,
                forall|j: int| 0 <= j < i ==> #[trigger] self.monsters@[j] == moved(old_ms[j], dt),
                forall|j: int| i <= j < n ==> #[trigger] self.monsters@[j] == old_ms[j],
            decreases n - i,
        {
            let mut m = self.monsters[i];
            assert(self.monsters@[i as int].wf());
            m.update_movement(dt);
            let ghost pre_w = self@;
            self.monsters.set(i, m);
            proof {
                lemma_update_monster_ids(pre_w, i as int, m);
                assert(self@ == (WorldView { monsters: pre_w.monsters.update(i as int, m), ..pre_w }));
            }
            i += 1;
        }
        assert(self.monsters@ =~= old_ms.map_values(|m: Creature| moved(m, dt)));
    }
}

} // verus!
