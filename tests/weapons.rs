use ardaria::combat::HitMonsterEvent;
use ardaria::creature::{Creature, CreatureType, Stats};
use ardaria::error::ErrorMessage;
use ardaria::items::EquippedItem;
use ardaria::geometry::Vec3i;
use ardaria::projectile::{CollisionEvent, FireProjectileEvent};
use ardaria::world::{GameState, Projectile, World};

fn arena() -> World {
    let mut w = World::new();
    let mut p = Creature::new(1, CreatureType::Human, Stats { hp: 100, atk: 20 });
    p.location.position = Some(Vec3i::new(0, 1000, 0));
    w.player = Some(p);
    let mut m = Creature::new(2, CreatureType::Monster, Stats { hp: 100, atk: 7 });
    m.location.position = Some(Vec3i::new(2000, 1000, 0));
    w.monsters.push(m);
    w
}

#[test]
fn fired_projectile_flies_toward_target() {
    let mut w = arena();
    assert_eq!(w.fire_projectile_system(FireProjectileEvent(Vec3i::new(3000, 0, 4000)), 7), Ok(()));
    assert_eq!(
        w.projectiles,
        vec![Projectile {
            id: 7,
            origin: Vec3i::new(0, 1000, 0),
            direction: Vec3i::new(5883, 1961, 7844),
        }]
    );
}

#[test]
fn projectile_aims_at_raised_target_point() {
    let mut w = arena();
    if let Some(p) = w.player.as_mut() {
        p.location.position = Some(Vec3i::new(0, 3000, 0));
    }
    assert_eq!(w.fire_projectile_system(FireProjectileEvent(Vec3i::new(3000, 0, 4000)), 9), Ok(()));
    assert_eq!(w.projectiles[0].origin, Vec3i::new(0, 3000, 0));
    assert_eq!(w.projectiles[0].direction, Vec3i::new(5883, -1961, 7844));
    assert_eq!(w.fire_projectile_system(FireProjectileEvent(Vec3i::new(0, 0, 0)), 10), Ok(()));
    assert_eq!(w.projectiles[1].direction, Vec3i::new(0, -10000, 0));
}

#[test]
fn firing_needs_a_placed_player() {
    let mut w = arena();
    w.player = None;
    assert_eq!(w.fire_projectile_system(FireProjectileEvent(Vec3i::new(1, 0, 0)), 7), Err(ErrorMessage::QuerySingle));
    let mut w = arena();
    if let Some(p) = w.player.as_mut() {
        p.location.position = None;
    }
    assert_eq!(w.fire_projectile_system(FireProjectileEvent(Vec3i::new(1, 0, 0)), 7), Err(ErrorMessage::QueryEntity));
    assert!(w.projectiles.is_empty());
}

#[test]
fn projectile_hits_once_and_despawns() {
    let mut w = arena();
    w.projectiles.push(Projectile { id: 7, origin: Vec3i::new(0, 1000, 0), direction: Vec3i::new(0, 0, 900) });
    w.projectiles.push(Projectile { id: 8, origin: Vec3i::new(0, 1000, 0), direction: Vec3i::new(900, 0, 0) });
    let contacts = vec![
        CollisionEvent::Stopped(7, 2),
        CollisionEvent::Started(2, 7),
        CollisionEvent::Started(7, 2),
        CollisionEvent::Started(2, 3),
        CollisionEvent::Started(8, 2),
    ];
    let hits = w.projectile_collision_system(&contacts);
    assert_eq!(
        hits,
        vec![
            HitMonsterEvent(2, Vec3i::new(0, 0, 900)),
            HitMonsterEvent(2, Vec3i::new(900, 0, 0)),
        ]
    );
    assert!(w.projectiles.is_empty());
}

#[test]
fn projectiles_ignore_each_other() {
    let mut w = arena();
    w.projectiles.push(Projectile { id: 7, origin: Vec3i::new(0, 1000, 0), direction: Vec3i::new(0, 0, 900) });
    w.projectiles.push(Projectile { id: 8, origin: Vec3i::new(0, 1000, 0), direction: Vec3i::new(900, 0, 0) });
    let hits = w.projectile_collision_system(&vec![CollisionEvent::Started(7, 8)]);
    assert!(hits.is_empty());
    assert_eq!(w.projectiles.len(), 2);
}

#[test]
fn projectile_hit_damages_in_same_tick() {
    let mut w = arena();
    w.projectiles.push(Projectile { id: 7, origin: Vec3i::new(0, 1000, 0), direction: Vec3i::new(0, 0, 900) });
    let kills = w.tick(16, &vec![], &vec![CollisionEvent::Started(7, 2)]);
    assert!(kills.is_empty());
    assert_eq!(w.monsters[0].stats.hp, 80);
}

#[test]
fn click_on_monster_in_reach_hits_it() {
    let mut w = arena();
    let r = w.handle_mouse_click(Vec3i::new(2300, 0, -400));
    assert_eq!(r, Ok(Some(HitMonsterEvent(2, Vec3i::new(2000, 0, 0)))));
    assert_eq!(w.player.unwrap().location.destination, None);
}

#[test]
fn click_elsewhere_sets_destination() {
    let mut w = arena();
    let r = w.handle_mouse_click(Vec3i::new(2000, 0, 1200));
    assert_eq!(r, Ok(None));
    assert_eq!(w.player.unwrap().location.destination, Some(Vec3i::new(2000, 0, 1200)));
}

#[test]
fn click_on_monster_out_of_reach_moves_player() {
    let mut w = arena();
    w.monsters[0].location.position = Some(Vec3i::new(3500, 1000, 0));
    let r = w.handle_mouse_click(Vec3i::new(3500, 0, 0));
    assert_eq!(r, Ok(None));
    assert_eq!(w.player.unwrap().location.destination, Some(Vec3i::new(3500, 0, 0)));
}

#[test]
fn clicks_ignored_when_game_over() {
    let mut w = arena();
    w.game_state = GameState::GameOver;
    assert_eq!(w.handle_mouse_click(Vec3i::new(9000, 0, 0)), Ok(None));
    assert_eq!(w.player.unwrap().location.destination, None);
    w.game_state = GameState::Playing;
    w.player = None;
    assert_eq!(w.handle_mouse_click(Vec3i::new(9000, 0, 0)), Err(ErrorMessage::QuerySingle));
}

#[test]
fn sword_swing_hits_monsters_in_reach() {
    let w = arena();
    let facing = Vec3i::new(1, 0, 0);
    let pairs = vec![(50, 2, true), (2, 50, false), (50, 51, true), (2, 50, true)];
    assert_eq!(
        w.slash_sword(&EquippedItem(Some(30)), &pairs, facing),
        vec![HitMonsterEvent(2, facing), HitMonsterEvent(2, facing)]
    );
}

#[test]
fn sword_swing_without_item_does_nothing() {
    let w = arena();
    let pairs = vec![(50, 2, true)];
    assert!(w.slash_sword(&EquippedItem(None), &pairs, Vec3i::new(1, 0, 0)).is_empty());
}
