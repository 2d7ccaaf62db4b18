use vstd::prelude::*;
use crate::combat::{find_creature, index_of, HitMonsterEvent};
use crate::creature::{Creature, HUMAN_MAX_RANGE, HUMAN_STEP_DISTANCE};
use crate::error::ErrorMessage;
use crate::items::EquippedItem;
use crate::geometry::{dist_sq, Vec3i};
use crate::location::Location;
use crate::search::{first_index, is_first, lemma_first_index_absent, lemma_first_index_found};
use crate::world::{GameState, World, WorldView, lemma_set_player_ids};

verus! {

/// Side of the square that a pointer click covers on the ground, in
/// millimetres.
pub const CLICK_SIZE: i64 = 1000;

/// Whether a click at `click` lands on the body of monster `m`, seen from
/// above, and `m` stands within the player's reach of `from`.
pub open spec fn click_hits(click: Vec3i, from: Vec3i) -> spec_fn(Creature) -> bool {
    |m: Creature|
        match m.location.position {
            Some(mp) => {
                let size = m.creature_type.spec_size();
                let dx = mp.x - click.x;
                let dz = mp.z - click.z;
                &&& 2 * (if dx >= 0 { dx } else { -dx }) < size.x + CLICK_SIZE
                &&& 2 * (if dz >= 0 { dz } else { -dz }) < size.z + CLICK_SIZE
                &&& dist_sq(from, mp) <= HUMAN_MAX_RANGE * HUMAN_MAX_RANGE
            },
            None => false,
        }
}

/// The world after a pointer click at `click`, with the hit it makes. The
/// first monster in reach under the pointer is hit along the line from the
/// player to it; a click that hits nothing sends the player toward `click`.
/// While the game is over clicks are ignored.
pub open spec fn click_step(w: WorldView, click: Vec3i) -> (
    WorldView,
    Result<Option<HitMonsterEvent>, ErrorMessage>,
) {
    if w.game_state == GameState::GameOver {
        (w, Ok(None))
    } else {
        match w.player {
            None => (w, Err(ErrorMessage::QuerySingle)),
            Some(p) => {
                let go = WorldView {
                    player: Some(
                        Creature {
                            location: Location { destination: Some(click), ..p.location },
                            ..p
                        },
                    ),
                    ..w
                };
                match p.location.position {
                    None => (go, Ok(None)),
                    Some(from) => {
                        let i = first_index(w.monsters, click_hits(click, from));
                        if i >= 0 {
                            let mp = w.monsters[i].location.position.unwrap();
                            (
                                w,
                                Ok(
                                    Some(
                                        HitMonsterEvent(
                                            w.monsters[i].id,
                                            Vec3i {
                                                x: (mp.x - from.x) as i64,
                                                y: (mp.y - from.y) as i64,
                                                z: (mp.z - from.z) as i64,
                                            },
                                        ),
                                    ),
                                ),
                            )
                        } else {
                            (go, Ok(None))
                        }
                    },
                }
            },
        }
    }
}

/// The hit that an intersection of the sword's reach with the pair `pair`
/// makes: on whichever of the two is a live monster (the first checked
/// first), along `facing`.
pub open spec fn sword_hit(ms: Seq<Creature>, pair: (u64, u64, bool), facing: Vec3i) -> Option<
    HitMonsterEvent,
> {
    if !pair.2 {
        None
    } else if index_of(ms, pair.0) >= 0 {
        Some(HitMonsterEvent(pair.0, facing))
    } else if index_of(ms, pair.1) >= 0 {
        Some(HitMonsterEvent(pair.1, facing))
    } else {
        None
    }
}

/// The hits of a sword swing over the intersections `pairs`, in order.
pub open spec fn sword_hits(ms: Seq<Creature>, pairs: Seq<(u64, u64, bool)>, facing: Vec3i) -> Seq<
    HitMonsterEvent,
>
    decreases pairs.len(),
{
    if pairs.len() == 0 {
        Seq::empty()
    } else {
        let hs = sword_hits(ms, pairs.drop_last(), facing);
        match sword_hit(ms, pairs.last(), facing) {
            Some(h) => hs.push(h),
            None => hs,
        }
    }
}

/// Offset of the camera from the player it follows, in millimetres.
pub const CAMERA_OFFSET: i64 = 30000;

/// Held movement keys, each already folded with its alternative key.
#[derive(Clone, Copy, Debug, PartialEq, Eq, Structural)]
pub struct MovementKeys {
    pub left: bool,
    pub right: bool,
    pub up: bool,
    pub down: bool,
}

/// One axis of keyboard steering: the second key wins when both are held.
pub open spec fn key_axis(negative: bool, positive: bool) -> int {
    if positive {
        1
    } else if negative {
        -1
    } else {
        0
    }
}

/// Velocity command for the player from the held movement keys: human speed
/// along each steered axis (up is toward negative z).
pub fn wasd_movement(keys: MovementKeys) -> (r: Vec3i)
    ensures
        r == (Vec3i {
            x: (key_axis(keys.left, keys.right) * HUMAN_STEP_DISTANCE) as i64,
            y: 0,
            z: (key_axis(keys.up, keys.down) * HUMAN_STEP_DISTANCE) as i64,
        }),
{
    let mut v = Vec3i::zero();
    if keys.left {
        v.x = -HUMAN_STEP_DISTANCE;
    }
    if keys.right {
        v.x = HUMAN_STEP_DISTANCE;
    }
    if keys.up {
        v.z = -HUMAN_STEP_DISTANCE;
    }
    if keys.down {
        v.z = HUMAN_STEP_DISTANCE;
    }
    v
}

/// Where the camera stands to follow a player at `player`: above and behind
/// it by `CAMERA_OFFSET`.
pub fn camera_follow_player(player: Vec3i) -> (r: Vec3i)
    requires
        player.in_bounds(),
    ensures
        r == (Vec3i { x: player.x, y: (player.y + CAMERA_OFFSET) as i64, z: (player.z + CAMERA_OFFSET) as i64 }),
{
    Vec3i { x: player.x, y: player.y + CAMERA_OFFSET, z: player.z + CAMERA_OFFSET }
}

impl World {
    /// Handles a pointer click at the world point `click`: hits the first
    /// monster in reach under the pointer, or else sends the player there.
    /// Ignored while the game is over; fails without a player.
    pub fn handle_mouse_click(&mut self, click: Vec3i) -> (r: Result<
        Option<HitMonsterEvent>,
        ErrorMessage,
    >)
        requires
            old(self).wf(),
            click.in_bounds(),
        ensures
            final(self).wf(),
            final(self)@ == click_step(old(self)@, click).0,
            r == click_step(old(self)@, click).1,
    {
        if self.game_state == GameState::GameOver {
            return Ok(None);
        }
        let mut p = match self.player {
            None => return Err(ErrorMessage::QuerySingle),
            Some(p) => p,
        };
        if let Some(from) = p.location.position {
            let ghost pred = click_hits(click, from);
            let n = self.monsters.len();
            let mut i: usize = 0;
            while i < n
                invariant
                    self.wf(),
                    self@ == old(self)@,
                    self.player == Some(p),
                    p.location.position == Some(from),
                    self.game_state == GameState::Playing,
                    n == self.monsters@.len(),
                    from.in_bounds(),
                    click.in_bounds(),
                    pred == click_hits(click, from),
                    0 <= i <= n,
                    forall|j: int| 0 <= j < i ==> !pred(#[trigger] self.monsters@[j]),
                decreases n - i,
            {
                let m = self.monsters[i];
                assert(self.monsters@[i as int].wf());
                if let Some(mp) = m.location.position {
                    let size = m.creature_type.size();
                    let dx = mp.x - click.x;
                    let dz = mp.z - click.z;
                    let ax = if dx >= 0 { dx } else { -dx };
                    let az = if dz >= 0 { dz } else { -dz };
                    if 2 * ax < size.x + CLICK_SIZE && 2 * az < size.z + CLICK_SIZE
                        && from.is_within(&mp, HUMAN_MAX_RANGE) {
                        proof {
                            assert(is_first(self.monsters@, pred, i as int));
                            lemma_first_index_found(self.monsters@, pred, i as int);
                        }
                        return Ok(Some(HitMonsterEvent(m.id, from.delta_to(&mp))));
                    }
                }
                i += 1;
            }
            proof {
                lemma_first_index_absent(self.monsters@, pred);
            }
        }
        p.location.destination = Some(click);
        let ghost pre_w = self@;
        self.player = Some(p);
        proof {
            lemma_set_player_ids(pre_w, p);
        }
        Ok(None)
    }

    /// Hits of a sword swing by a player holding `equipped`: with an item
    /// in hand, for each intersecting pair reported for the sword's reach,
    /// the live monster in it is hit along `facing`; with nothing in hand
    /// the swing does nothing.
    pub fn slash_sword(
        &self,
        equipped: &EquippedItem,
        intersections: &Vec<(u64, u64, bool)>,
        facing: Vec3i,
    ) -> (hits: Vec<HitMonsterEvent>)
        ensures
            hits@ == match equipped.0 {
                Some(_) => sword_hits(self.monsters@, intersections@, facing),
                None => Seq::<HitMonsterEvent>::empty(),
            },
    {
        let mut hits: Vec<HitMonsterEvent> = Vec::new();
        if equipped.0.is_none() {
            return hits;
        }
        let mut i: usize = 0;
        proof {
            assert(intersections@.subrange(0, 0) =~= Seq::<(u64, u64, bool)>::empty());
            assert(hits@ =~= Seq::<HitMonsterEvent>::empty());
        }
        while i < intersections.len()
            invariant
                0 <= i <= intersections@.len(),
                hits@ == sword_hits(self.monsters@, intersections@.subrange(0, i as int), facing),
            decreases intersections@.len() - i,
        {
            let (a, b, touching) = intersections[i];
            if touching {
                if find_creature(&self.monsters, a).is_some() {
                    hits.push(HitMonsterEvent(a, facing));
                } else if find_creature(&self.monsters, b).is_some() {
                    hits.push(HitMonsterEvent(b, facing));
                }
            }
            proof {
                assert(intersections@.subrange(0, i + 1).drop_last() =~= intersections@.subrange(
                    0,
                    i as int,
                ));
                assert(intersections@.subrange(0, i + 1).last() == intersections@[i as int]);
            }
            i += 1;
        }
        proof {
            assert(intersections@.subrange(0, intersections@.len() as int) =~= intersections@);
        }
        hits
    }
}

} // verus!
