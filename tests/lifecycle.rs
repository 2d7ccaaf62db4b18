use ardaria::creature::{Creature, CreatureType, Rgb, Stats, FULL_HP};
use ardaria::error::ErrorMessage;
use ardaria::geometry::Vec3i;
use ardaria::timer::Timer;
use ardaria::vec::{RandVec2, RandVec3, SPAWN_HEIGHT};
use ardaria::world::{GameState, World};

fn world_with_player() -> World {
    let mut w = World::new();
    let mut p = Creature::new(1, CreatureType::Human, Stats { hp: 40, atk: 20 });
    p.location.position = Some(Vec3i::new(100, 0, 100));
    p.location.destination = Some(Vec3i::new(5000, 0, 0));
    w.player = Some(p);
    w
}

#[test]
fn kill_then_respawn_resets_hp_and_position() {
    let mut w = world_with_player();
    assert_eq!(w.kill_player(), Ok(()));
    assert_eq!(w.game_state, GameState::GameOver);
    assert_eq!(w.player.unwrap().location.destination, None);
    let dead = w.player.unwrap();
    assert_eq!(w.respawn_player(Vec3i::new(-2000, 1000, 400)), Ok(()));
    let p = w.player.unwrap();
    assert_eq!(w.game_state, GameState::Playing);
    assert_eq!(p.stats.hp, FULL_HP);
    assert_eq!(p.location.position, Some(Vec3i::new(-2000, 1000, 400)));
    assert_eq!(p.stats.atk, dead.stats.atk);
    assert_eq!(p.creature_type, dead.creature_type);
    let mut expected = dead;
    expected.stats.hp = 100;
    expected.location.position = Some(Vec3i::new(-2000, 1000, 400));
    assert_eq!(p, expected);
}

#[test]
fn state_changes_to_current_state_are_refused() {
    let mut w = world_with_player();
    assert_eq!(w.respawn_player(Vec3i::new(0, 0, 0)), Err(ErrorMessage::StateChange));
    assert_eq!(w.player.unwrap().stats.hp, 40);
    assert_eq!(w.kill_player(), Ok(()));
    assert_eq!(w.kill_player(), Err(ErrorMessage::StateChange));
    assert_eq!(w.game_state, GameState::GameOver);
}

#[test]
fn lifecycle_without_player_is_a_no_op() {
    let mut w = World::new();
    assert_eq!(w.kill_player(), Err(ErrorMessage::QuerySingle));
    assert_eq!(w.game_state, GameState::Playing);
    w.game_state = GameState::GameOver;
    assert_eq!(w.respawn_player(Vec3i::new(0, 0, 0)), Err(ErrorMessage::QuerySingle));
    assert_eq!(w.game_state, GameState::GameOver);
}

#[test]
fn random_respawn_lands_on_spawn_grid() {
    let mut w = world_with_player();
    w.kill_player().unwrap();
    assert_eq!(w.respawn_player_at_random(), Ok(()));
    let p = w.player.unwrap();
    let at = p.location.position.unwrap();
    assert_eq!(p.stats.hp, FULL_HP);
    assert_eq!(at.y, SPAWN_HEIGHT);
    assert!(-16000 <= at.x && at.x < 16000 && at.x % 20 == 0);
    assert!(-8000 <= at.z && at.z < 8000 && at.z % 20 == 0);
}

#[test]
fn random_points_vary_and_stay_in_area() {
    let first = RandVec3::new();
    let mut differs = false;
    for _ in 0..200 {
        let p = RandVec3::new();
        assert!(-16000 <= p.x && p.x < 16000 && p.x % 20 == 0);
        assert!(-8000 <= p.z && p.z < 8000 && p.z % 20 == 0);
        assert_eq!(p.y, 1000);
        let q = RandVec2::new();
        assert!(-16000 <= q.x && q.x < 16000 && q.x % 20 == 0);
        assert!(-8000 <= q.y && q.y < 8000 && q.y % 20 == 0);
        if p != first {
            differs = true;
        }
    }
    assert!(differs);
}

#[test]
fn timer_counts_up_and_stops() {
    let mut t = Timer::from_millis(2000);
    assert!(!t.finished());
    t.tick(1500);
    assert_eq!(t.elapsed, 1500);
    t.tick(u64::MAX);
    assert_eq!(t.elapsed, 2000);
    assert!(t.finished());
    t.reset();
    assert_eq!(t, Timer { duration: 2000, elapsed: 0 });
}

#[test]
fn creature_type_table() {
    assert_eq!(CreatureType::Human.speed(), 10000);
    assert_eq!(CreatureType::Monster.speed(), 5000);
    assert_eq!(CreatureType::Human.range(), 3000);
    assert_eq!(CreatureType::Monster.range(), 3000);
    assert_eq!(CreatureType::Human.attack(), 20);
    assert_eq!(CreatureType::Monster.attack(), 7);
    assert_eq!(CreatureType::Human.size(), Vec3i::new(900, 1800, 900));
    assert_eq!(CreatureType::Monster.size(), Vec3i::new(1200, 2500, 1200));
    assert_eq!(CreatureType::Human.color(), Rgb { r: 0, g: 255, b: 0 });
    assert_eq!(CreatureType::Monster.color(), Rgb { r: 255, g: 0, b: 0 });
}

#[test]
fn error_texts() {
    assert_eq!(ErrorMessage::QuerySingle.message(), "Query failed");
    assert_eq!(ErrorMessage::QueryEntity.message(), "Entity query failed");
    assert_eq!(ErrorMessage::StateChange.message(), "Cannot set game state");
    assert_eq!(ErrorMessage::NoWindow.message(), "No window");
    assert_eq!(ErrorMessage::NoCursorPosition.message(), "No cursor positon");
    assert_eq!(ErrorMessage::NoDestination.message(), "No entity destination");
}
