use ardaria::creature::{ConsciousnessStateEnum, CreatureType, FULL_HP, MONSTER_ATK, HUMAN_ATK};
use ardaria::error::ErrorMessage;
use ardaria::geometry::Vec3i;
use ardaria::input::{camera_follow_player, wasd_movement, MovementKeys};
use ardaria::items::{dropped_items_collision_system, EquippedItem, Inventory, ItemType, PickUpItemEvent};
use ardaria::projectile::{settle_projectile, CollisionEvent};
use ardaria::world::World;

#[test]
fn spawned_creatures_take_their_type_stats() {
    let mut w = World::new();
    w.spawn_creature(4, CreatureType::Monster, Vec3i::new(1, 2, 3));
    w.spawn_creature(9, CreatureType::Human, Vec3i::new(4, 5, 6));
    let m = w.monsters[0];
    assert_eq!(m.id, 4);
    assert_eq!(m.stats.hp, FULL_HP);
    assert_eq!(m.stats.atk, MONSTER_ATK);
    assert_eq!(m.location.position, Some(Vec3i::new(1, 2, 3)));
    assert_eq!(m.brain_state.conscious, ConsciousnessStateEnum::Awake);
    let p = w.player.unwrap();
    assert_eq!(p.id, 9);
    assert_eq!(p.stats.atk, HUMAN_ATK);
    assert_eq!(p.location.position, Some(Vec3i::new(4, 5, 6)));
}

#[test]
fn spawn_population_numbers_ids_in_order() {
    let mut w = World::new();
    w.spawn_creatures(10, 5);
    assert_eq!(w.player.unwrap().id, 10);
    assert_eq!(w.player.unwrap().creature_type, CreatureType::Human);
    assert_eq!(w.monsters.len(), 5);
    for (i, m) in w.monsters.iter().enumerate() {
        assert_eq!(m.id, 11 + i as u64);
        assert_eq!(m.creature_type, CreatureType::Monster);
        let at = m.location.position.unwrap();
        assert_eq!(at.y, 1000);
        assert!(-16000 <= at.x && at.x < 16000);
    }
}

#[test]
fn keyboard_steering() {
    let none = MovementKeys { left: false, right: false, up: false, down: false };
    assert_eq!(wasd_movement(none), Vec3i::new(0, 0, 0));
    let left_up = MovementKeys { left: true, up: true, ..none };
    assert_eq!(wasd_movement(left_up), Vec3i::new(-10000, 0, -10000));
    let all = MovementKeys { left: true, right: true, up: true, down: true };
    assert_eq!(wasd_movement(all), Vec3i::new(10000, 0, 10000));
}

#[test]
fn camera_sits_above_and_behind() {
    assert_eq!(camera_follow_player(Vec3i::new(5, 1000, -7)), Vec3i::new(5, 31000, 29993));
}

#[test]
fn slow_projectiles_come_to_rest() {
    assert_eq!(settle_projectile(Vec3i::new(600, 0, 800)), Vec3i::new(0, 0, 0));
    assert_eq!(settle_projectile(Vec3i::new(600, 0, 801)), Vec3i::new(600, 0, 801));
}

#[test]
fn inventory_and_equipment() {
    let mut inv = Inventory::new();
    let mut eq = EquippedItem(None);
    assert_eq!(eq.equip_item_system(&inv), Err(ErrorMessage::QueryEntity));
    inv.pick_up(30);
    inv.pick_up(31);
    assert_eq!(inv.0, vec![30, 31]);
    assert_eq!(eq.equip_item_system(&inv), Ok(()));
    assert_eq!(eq, EquippedItem(Some(30)));
    let mut other = EquippedItem(Some(99));
    assert_eq!(other.equip_item_system(&inv), Ok(()));
    assert_eq!(other, EquippedItem(Some(99)));
}

#[test]
fn pickable_contacts_become_pick_ups() {
    let events = vec![
        CollisionEvent::Started(1, 30),
        CollisionEvent::Started(31, 2),
        CollisionEvent::Stopped(1, 30),
        CollisionEvent::Started(1, 2),
    ];
    assert_eq!(
        dropped_items_collision_system(&events, &vec![30, 31]),
        vec![PickUpItemEvent(1, 30), PickUpItemEvent(2, 31)]
    );
}

#[test]
fn item_looks() {
    assert_eq!(ItemType::Sword.dimensions(), Vec3i::new(200, 1300, 200));
    assert_eq!(ItemType::Shovel.dimensions(), Vec3i::new(200, 1300, 200));
    assert_eq!(ItemType::Sword.color().r, 128);
    assert_eq!(ItemType::Shovel.color().g, 139);
}
