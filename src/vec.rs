use vstd::prelude::*;
use crate::error::ErrorMessage;
use crate::geometry::Vec3i;
use crate::player::respawn_step;
use crate::world::World;

verus! {

/// Half the width of the spawn area, in pixels.
pub const WORLD_WIDTH: i32 = 800;
/// Half the depth of the spawn area, in pixels.
pub const WORLD_HEIGHT: i32 = 400;
/// Length of one pixel of the spawn grid, in millimetres.
pub const MILLIMETRES_PER_PIXEL: i64 = 20;
/// Height above the ground at which creatures spawn, in millimetres.
pub const SPAWN_HEIGHT: i64 = 1000;

/// A point on the ground plane, in millimetres.
#[derive(Clone, Copy, Debug, PartialEq, Eq, Structural)]
pub struct Vec2i {
    pub x: i64,
    pub y: i64,
}

/// Whether `v` is a whole number of grid pixels within `-half..half`
/// pixels.
pub open spec fn on_grid(v: int, half: int) -> bool {
    &&& -half * MILLIMETRES_PER_PIXEL <= v < half * MILLIMETRES_PER_PIXEL
    &&& v % (MILLIMETRES_PER_PIXEL as int) == 0
}

/// Whether `p` is a point where a creature may spawn.
pub open spec fn is_spawn_point(p: Vec3i) -> bool {
    &&& on_grid(p.x as int, WORLD_WIDTH as int)
    &&& p.y == SPAWN_HEIGHT
    &&& on_grid(p.z as int, WORLD_HEIGHT as int)
}

/// Relies on `rand::Rng::gen_range` over `rand::thread_rng()`: the value
/// drawn lies in `low..high` (it panics on an empty range, which
/// `requires` excludes).
#[verifier::external_body]
fn random_in_range(low: i32, high: i32) -> (r: i32)
    requires
        low < high,
    ensures
        low <= r < high,
{
    rand::Rng::gen_range(&mut rand::thread_rng(), low..high)
}

/// A grid coordinate in `-half..half` pixels drawn at random, in
/// millimetres.
fn random_grid_coordinate(half: i32) -> (r: i64)
    requires
        0 < half <= 1000000,
    ensures
        on_grid(r as int, half as int),
{
    let k = random_in_range(-half, half);
    let r = (k as i64) * MILLIMETRES_PER_PIXEL;
    assert(on_grid(r as int, half as int)) by (nonlinear_arith)
        requires
            -half <= k < half,
            r == k * 20,
            MILLIMETRES_PER_PIXEL == 20,
    ;
    r
}

pub struct RandVec2 {}

impl RandVec2 {
    /// A random point of the spawn area on the ground plane.
    pub fn new() -> (r: Vec2i)
        ensures
            on_grid(r.x as int, WORLD_WIDTH as int),
            on_grid(r.y as int, WORLD_HEIGHT as int),
    {
        Vec2i {
            x: random_grid_coordinate(WORLD_WIDTH),
            y: random_grid_coordinate(WORLD_HEIGHT),
        }
    }
}

pub struct RandVec3 {}

impl RandVec3 {
    /// A random spawn point: on the spawn grid, at spawn height.
    pub fn new() -> (r: Vec3i)
        ensures
            is_spawn_point(r),
            r.in_bounds(),
    {
        Vec3i {
            x: random_grid_coordinate(WORLD_WIDTH),
            y: SPAWN_HEIGHT,
            z: random_grid_coordinate(WORLD_HEIGHT),
        }
    }
}

impl World {
    /// Respawns the player at a random spawn point (see `respawn_player`).
    pub fn respawn_player_at_random(&mut self) -> (r: Result<(), ErrorMessage>)
        requires
            old(self).wf(),
        ensures
            final(self).wf(),
            exists|p: Vec3i|
                #[trigger] is_spawn_point(p) && final(self)@ == respawn_step(old(self)@, p).0 && r
                    == respawn_step(old(self)@, p).1,
    {
        let p = RandVec3::new();
        let r = self.respawn_player(p);
        assert(is_spawn_point(p));
        r
    }
}

} // verus!
