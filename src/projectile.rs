use vstd::prelude::*;
use crate::combat::HitMonsterEvent;
use crate::error::ErrorMessage;
use crate::geometry::{norm_sq, scaled_to, Vec3i};
use crate::search::{first_index, is_first, lemma_first_index_absent, lemma_first_index_found};
use crate::world::{
    Projectile, World, WorldView, lemma_remove_projectile_ids, lemma_push_projectile_ids,
};

verus! {

/// Strength of the impulse a projectile is launched with.
pub const PROJECTILE_IMPULSE: i64 = 10000;
/// Height of the point a shot is aimed at, in millimetres.
pub const PROJECTILE_AIM_HEIGHT: i64 = 2000;

/// Contact notification from the physics host about two entities.
#[derive(Clone, Copy, Debug, PartialEq, Eq, Structural)]
pub enum CollisionEvent {
    Started(u64, u64),
    Stopped(u64, u64),
}

/// The player shoots toward the world point `.0`.
#[derive(Clone, Copy, Debug, PartialEq, Eq, Structural)]
pub struct FireProjectileEvent(pub Vec3i);

/// Launch impulse of a shot from `from` toward the target's ground point
/// raised to `PROJECTILE_AIM_HEIGHT`: `PROJECTILE_IMPULSE` long, or none
/// when that point is `from` itself.
pub open spec fn launch_impulse(from: Vec3i, target: Vec3i) -> Vec3i {
    let d = Vec3i {
        x: (target.x - from.x) as i64,
        y: (PROJECTILE_AIM_HEIGHT - from.y) as i64,
        z: (target.z - from.z) as i64,
    };
    if d == Vec3i::zero_spec() {
        d
    } else {
        scaled_to(d, PROJECTILE_IMPULSE as int)
    }
}

/// Speed at or below which a projectile is brought to rest, in millimetres
/// per second.
pub const PROJECTILE_REST_SPEED: i64 = 1000;

/// Velocity of a projectile after settling: a projectile at or below
/// `PROJECTILE_REST_SPEED` stops.
pub fn settle_projectile(v: Vec3i) -> (r: Vec3i)
    requires
        v.is_displacement(),
    ensures
        r == if norm_sq(v) <= PROJECTILE_REST_SPEED * PROJECTILE_REST_SPEED {
            Vec3i::zero_spec()
        } else {
            v
        },
{
    let rest = PROJECTILE_REST_SPEED as u128;
    if v.norm_squared() <= rest * rest {
        Vec3i::zero()
    } else {
        v
    }
}

pub open spec fn has_projectile_id(id: u64) -> spec_fn(Projectile) -> bool {
    |p: Projectile| p.id == id
}

/// Projectiles `ps` after contact `ev`, with the hit it causes. A contact
/// that has begun between a live projectile and an entity that is not one
/// despawns the projectile and hits the other entity along the projectile's
/// direction; any other contact changes nothing.
pub open spec fn projectile_contact(ps: Seq<Projectile>, ev: CollisionEvent) -> (
    Seq<Projectile>,
    Option<HitMonsterEvent>,
) {
    match ev {
        CollisionEvent::Started(a, b) => {
            let ia = first_index(ps, has_projectile_id(a));
            let ib = first_index(ps, has_projectile_id(b));
            if ia >= 0 && ib >= 0 {
                (ps, None)
            } else if ia >= 0 {
                (ps.remove(ia), Some(HitMonsterEvent(b, ps[ia].direction)))
            } else if ib >= 0 {
                (ps.remove(ib), Some(HitMonsterEvent(a, ps[ib].direction)))
            } else {
                (ps, None)
            }
        },
        CollisionEvent::Stopped(_, _) => (ps, None),
    }
}

/// Projectiles after the contacts `evs` in order, with the hits they cause.
pub open spec fn projectile_contacts(ps: Seq<Projectile>, evs: Seq<CollisionEvent>) -> (
    Seq<Projectile>,
    Seq<HitMonsterEvent>,
)
    decreases evs.len(),
{
    if evs.len() == 0 {
        (ps, Seq::empty())
    } else {
        let (ps1, hs) = projectile_contacts(ps, evs.drop_last());
        let (ps2, h) = projectile_contact(ps1, evs.last());
        (ps2, match h {
            Some(e) => hs.push(e),
            None => hs,
        })
    }
}

/// The world after the player fired projectile `id` toward `target`.
/// Without a player position nothing changes.
pub open spec fn fire_step(w: WorldView, target: Vec3i, id: u64) -> (WorldView, Result<(), ErrorMessage>) {
    match w.player {
        None => (w, Err(ErrorMessage::QuerySingle)),
        Some(p) => match p.location.position {
            None => (w, Err(ErrorMessage::QueryEntity)),
            Some(from) => (
                WorldView {
                    projectiles: w.projectiles.push(
                        Projectile { id, origin: from, direction: launch_impulse(from, target) },
                    ),
                    ..w
                },
                Ok(()),
            ),
        },
    }
}

/// Position in `ps` of the first projectile with id `id`, if any.
fn find_projectile(ps: &Vec<Projectile>, id: u64) -> (r: Option<usize>)
    ensures
        match r {
            Some(i) => i as int == first_index(ps@, has_projectile_id(id)) && i < ps@.len(),
            None => first_index(ps@, has_projectile_id(id)) == -1,
        },
{
    let mut i: usize = 0;
    while i < ps.len()
        invariant
            0 <= i <= ps@.len(),
            forall|j: int| 0 <= j < i ==> !has_projectile_id(id)(#[trigger] ps@[j]),
        decreases ps@.len() - i,
    {
        if ps[i].id == id {
            proof {
                assert(is_first(ps@, has_projectile_id(id), i as int));
                lemma_first_index_found(ps@, has_projectile_id(id), i as int);
            }
            return Some(i);
        }
        i += 1;
    }
    proof {
        lemma_first_index_absent(ps@, has_projectile_id(id));
    }
    None
}

impl World {
    /// Launches projectile `id` from the player's position toward the
    /// event's target point raised to `PROJECTILE_AIM_HEIGHT` (see
    /// `launch_impulse`). Fails, changing nothing, without a player or its position.
    pub fn fire_projectile_system(&mut self, ev: FireProjectileEvent, id: u64) -> (r: Result<
        (),
        ErrorMessage,
    >)
        requires
            old(self).wf(),
            ev.0.in_bounds(),
            old(self)@.id_is_fresh(id),
        ensures
            final(self).wf(),
            final(self)@ == fire_step(old(self)@, ev.0, id).0,
            r == fire_step(old(self)@, ev.0, id).1,
    {
        let target = ev.0;
        let from = match &self.player {
            None => return Err(ErrorMessage::QuerySingle),
            Some(p) => match p.location.position {
                None => return Err(ErrorMessage::QueryEntity),
                Some(from) => from,
            },
        };
        let d = Vec3i {
            x: target.x - from.x,
            y: PROJECTILE_AIM_HEIGHT - from.y,
            z: target.z - from.z,
        };
        let direction = if d == Vec3i::zero() {
            d
        } else {
            d.scaled_to(PROJECTILE_IMPULSE)
        };
        let ghost old_ps = self.projectiles@;
        let ghost pre_w = self@;
        let shot = Projectile { id, origin: from, direction };
        self.projectiles.push(shot);
        proof {
            lemma_push_projectile_ids(pre_w, shot);
            assert(self@ == (WorldView { projectiles: pre_w.projectiles.push(shot), ..pre_w }));
        }
        assert forall|i: int| 0 <= i < self.projectiles@.len() implies #[trigger] self.projectiles@[i].wf() by {
            if i < old_ps.len() {
                assert(self.projectiles@[i] == old_ps[i]);
            }
        }
        Ok(())
    }

    /// Handles contacts reported by the physics host: each contact that
    /// begins with a live projectile despawns it and hits the other entity
    /// along the projectile's direction. Returns the hits in order.
    pub fn projectile_collision_system(&mut self, events: &Vec<CollisionEvent>) -> (hits: Vec<
        HitMonsterEvent,
    >)
        requires
            old(self).wf(),
        ensures
            final(self).wf(),
            final(self)@ == (WorldView {
                projectiles: projectile_contacts(old(self)@.projectiles, events@).0,
                ..old(self)@
            }),
            hits@ == projectile_contacts(old(self)@.projectiles, events@).1,
            forall|i: int| 0 <= i < hits@.len() ==> #[trigger] hits@[i].1.is_displacement(),
    {
        let mut hits: Vec<HitMonsterEvent> = Vec::new();
        let ghost old_ps = self.projectiles@;
        let mut i: usize = 0;
        proof {
            assert(events@.subrange(0, 0) =~= Seq::<CollisionEvent>::empty());
            assert(hits@ =~= Seq::<HitMonsterEvent>::empty());
        }
        while i < events.len()
            invariant
                self.wf(),
                self.player == old(self).player,
                self.monsters@ == old(self).monsters@,
                self.monsters_killed == old(self).monsters_killed,
                self.game_state == old(self).game_state,
                0 <= i <= events@.len(),
                (self.projectiles@, hits@) == projectile_contacts(
                    old_ps,
                    events@.subrange(0, i as int),
                ),
                forall|k: int| 0 <= k < hits@.len() ==> #[trigger] hits@[k].1.is_displacement(),
            decreases events@.len() - i,
        {
            let ev = events[i];
            let ghost pre_ps = self.projectiles@;
            let ghost pre_hs = hits@;
            if let CollisionEvent::Started(a, b) = ev {
                let fa = find_projectile(&self.projectiles, a);
                let fb = find_projectile(&self.projectiles, b);
                let found = match (fa, fb) {
                    (Some(_), Some(_)) => None,
                    (Some(k), None) => Some((k, b)),
                    (None, Some(k)) => Some((k, a)),
                    (None, None) => None,
                };
                if let Some((k, other)) = found {
                    let p = self.projectiles[k];
                    assert(pre_ps[k as int].wf());
                    let ghost pre_w = self@;
                    self.projectiles.remove(k);
                    proof {
                        lemma_remove_projectile_ids(pre_w, k as int);
                        assert(self@ == (WorldView { projectiles: pre_w.projectiles.remove(k as int), ..pre_w }));
                    }
                    hits.push(HitMonsterEvent(other, p.direction));
                    assert forall|j: int| 0 <= j < self.projectiles@.len() implies #[trigger] self.projectiles@[j].wf() by {
                        if j < k {
                            assert(self.projectiles@[j] == pre_ps[j]);
                        } else {
                            assert(self.projectiles@[j] == pre_ps[j + 1]);
                        }
                    }
                    assert forall|j: int| 0 <= j < hits@.len() implies #[trigger] hits@[j].1.is_displacement() by {
                        if j < pre_hs.len() {
                            assert(hits@[j] == pre_hs[j]);
                        }
                    }
                }
            }
            proof {
                assert(events@.subrange(0, i + 1).drop_last() =~= events@.subrange(0, i as int));
                assert(events@.subrange(0, i + 1).last() == ev);
            }
            i += 1;
        }
        proof {
            assert(events@.subrange(0, events@.len() as int) =~= events@);
        }
        hits
    }
}

} // verus!
