use ardaria::creature::{ConsciousnessStateEnum, Creature, CreatureType, Stats};
use ardaria::geometry::{isqrt, Vec3i};
use ardaria::location::Location;
use ardaria::world::{GameState, World};

fn walker(kind: CreatureType, at: Vec3i, to: Option<Vec3i>) -> Creature {
    let mut c = Creature::new(3, kind, Stats { hp: 100, atk: 7 });
    c.location.position = Some(at);
    c.location.destination = to;
    c
}

#[test]
fn heads_toward_destination_at_type_speed() {
    let mut c = walker(CreatureType::Monster, Vec3i::new(0, 0, 0), Some(Vec3i::new(3000, 0, 4000)));
    c.update_movement(16);
    assert_eq!(c.location.velocity, Some(Vec3i::new(3000, 0, 4000)));
    assert_eq!(c.location.destination, Some(Vec3i::new(3000, 0, 4000)));
    let mut h = walker(CreatureType::Human, Vec3i::new(0, 0, 0), Some(Vec3i::new(-30000, 0, 0)));
    h.update_movement(16);
    assert_eq!(h.location.velocity, Some(Vec3i::new(-10000, 0, 0)));
}

#[test]
fn arrival_clears_destination_and_is_idempotent() {
    let mut c = walker(CreatureType::Human, Vec3i::new(0, 0, 0), Some(Vec3i::new(160, 0, 0)));
    c.location.velocity = Some(Vec3i::new(5, 5, 5));
    c.update_movement(16);
    assert_eq!(c.location.destination, None);
    assert_eq!(c.location.velocity, Some(Vec3i::new(0, 0, 0)));
    let once = c;
    c.update_movement(16);
    assert_eq!(c, once);
}

#[test]
fn arrival_threshold_scales_with_frame_time() {
    let mut c = walker(CreatureType::Human, Vec3i::new(0, 0, 0), Some(Vec3i::new(161, 0, 0)));
    c.update_movement(16);
    assert_eq!(c.location.destination, Some(Vec3i::new(161, 0, 0)));
    assert_eq!(c.location.velocity, Some(Vec3i::new(10000, 0, 0)));
    c.update_movement(17);
    assert_eq!(c.location.destination, None);
}

#[test]
fn zero_distance_counts_as_arrived() {
    let mut c = walker(CreatureType::Monster, Vec3i::new(7, 8, 9), Some(Vec3i::new(7, 8, 9)));
    c.update_movement(0);
    assert_eq!(c.location.destination, None);
    assert_eq!(c.location.velocity, Some(Vec3i::new(0, 0, 0)));
}

#[test]
fn stunned_creature_gets_no_velocity() {
    let mut c = walker(CreatureType::Monster, Vec3i::new(0, 0, 0), Some(Vec3i::new(9000, 0, 0)));
    c.brain_state.conscious = ConsciousnessStateEnum::Stun;
    c.location.velocity = Some(Vec3i::new(5000, 0, 0));
    c.update_movement(16);
    assert_eq!(c.location.velocity, Some(Vec3i::new(0, 0, 0)));
    assert_eq!(c.location.destination, Some(Vec3i::new(9000, 0, 0)));
}

#[test]
fn no_destination_means_no_drift() {
    let mut c = walker(CreatureType::Monster, Vec3i::new(0, 0, 0), None);
    c.location.velocity = Some(Vec3i::new(1, 2, 3));
    c.update_movement(16);
    assert_eq!(c.location.velocity, Some(Vec3i::new(0, 0, 0)));
}

#[test]
fn unplaced_creature_is_skipped() {
    let mut c = Creature::new(3, CreatureType::Monster, Stats { hp: 100, atk: 7 });
    c.location.destination = Some(Vec3i::new(1, 1, 1));
    let before = c;
    c.update_movement(16);
    assert_eq!(c, before);
}

#[test]
fn player_frozen_while_game_over() {
    let mut w = World::new();
    w.player = Some(walker(CreatureType::Human, Vec3i::new(0, 0, 0), Some(Vec3i::new(9000, 0, 0))));
    w.game_state = GameState::GameOver;
    w.location_system(16);
    assert_eq!(w.player.unwrap().location.velocity, None);
    w.game_state = GameState::Playing;
    w.location_system(16);
    assert_eq!(w.player.unwrap().location.velocity, Some(Vec3i::new(10000, 0, 0)));
}

#[test]
fn translation_readback_sets_position_only() {
    let mut l = Location::new();
    l.destination = Some(Vec3i::new(1, 2, 3));
    l.update_from_translation(Vec3i::new(4, 5, 6));
    assert_eq!(l.position, Some(Vec3i::new(4, 5, 6)));
    assert_eq!(l.destination, Some(Vec3i::new(1, 2, 3)));
}

#[test]
fn integer_square_root() {
    assert_eq!(isqrt(0), 0);
    assert_eq!(isqrt(1), 1);
    assert_eq!(isqrt(15), 3);
    assert_eq!(isqrt(16), 4);
    assert_eq!(isqrt(26214400000000), 5120000);
    assert_eq!(isqrt(u64::MAX as u128), 4294967295);
}

#[test]
fn distances_and_scaling() {
    let a = Vec3i::new(0, 0, 0);
    let b = Vec3i::new(3, 4, 12);
    assert_eq!(a.delta_to(&b).norm_squared(), 169);
    assert!(a.is_within(&b, 13));
    assert!(!a.is_within(&b, 12));
    assert_eq!(Vec3i::new(0, -7, 0).scaled_to(250), Vec3i::new(0, -250, 0));
    assert_eq!(Vec3i::new(3000, 0, 4000).scaled_to(900), Vec3i::new(540, 0, 720));
}
