use ardaria::combat::{HitMonsterEvent, KillMonsterEvent};
use ardaria::creature::{
    ConsciousnessStateEnum, Creature, CreatureType, Stats, MONSTER_STUN_COOLDOWN,
};
use ardaria::geometry::Vec3i;
use ardaria::world::{GameState, World};

fn monster(id: u64, hp: i64, atk: i64, at: Vec3i) -> Creature {
    let mut m = Creature::new(id, CreatureType::Monster, Stats { hp, atk });
    m.location.position = Some(at);
    m
}

fn world_with(player_atk: i64, monsters: Vec<Creature>) -> World {
    let mut w = World::new();
    let mut p = Creature::new(1, CreatureType::Human, Stats { hp: 100, atk: player_atk });
    p.location.position = Some(Vec3i::new(0, 0, 0));
    w.player = Some(p);
    w.monsters = monsters;
    w
}

#[test]
fn test_attack() {
    let mut w = world_with(10, vec![monster(2, 100, 100, Vec3i::new(50000, 0, 0))]);
    let kills = w.monster_hit_system(&vec![HitMonsterEvent(2, Vec3i::new(1, 0, 0))]);
    assert!(kills.is_empty());
    assert_eq!(w.monsters[0].stats.hp, 90);
}

#[test]
fn contact_kill_scenario() {
    let mut w = world_with(50, vec![monster(2, 40, 7, Vec3i::new(50000, 0, 0))]);
    w.monsters_killed.count = 5;
    let kills = w.tick(16, &vec![HitMonsterEvent(2, Vec3i::new(1, 0, 0))], &vec![]);
    assert_eq!(kills, vec![KillMonsterEvent(2)]);
    assert!(w.monsters.is_empty());
    assert_eq!(w.monsters_killed.count, 6);
}

#[test]
fn lethal_threshold_exactly_zero_despawns() {
    let mut w = world_with(10, vec![monster(2, 10, 7, Vec3i::new(50000, 0, 0))]);
    let kills = w.monster_hit_system(&vec![HitMonsterEvent(2, Vec3i::new(0, 0, 1))]);
    assert_eq!(kills.len(), 1);
    assert!(w.monsters.is_empty());
}

#[test]
fn lethal_threshold_survivor_stays() {
    let mut w = world_with(10, vec![monster(2, 11, 7, Vec3i::new(50000, 0, 0))]);
    let kills = w.monster_hit_system(&vec![HitMonsterEvent(2, Vec3i::new(0, 0, 1))]);
    assert!(kills.is_empty());
    assert_eq!(w.monsters.len(), 1);
    assert_eq!(w.monsters[0].stats.hp, 1);
    assert_eq!(w.monsters[0].brain_state.conscious, ConsciousnessStateEnum::Stun);
}

#[test]
fn hits_on_despawned_monster_are_skipped() {
    let mut w = world_with(30, vec![monster(2, 20, 7, Vec3i::new(50000, 0, 0))]);
    let hits = vec![
        HitMonsterEvent(2, Vec3i::new(1, 0, 0)),
        HitMonsterEvent(2, Vec3i::new(1, 0, 0)),
        HitMonsterEvent(99, Vec3i::new(1, 0, 0)),
    ];
    let kills = w.monster_hit_system(&hits);
    assert_eq!(kills, vec![KillMonsterEvent(2)]);
    assert!(w.monsters.is_empty());
}

#[test]
fn second_hit_after_kill_finds_nothing() {
    let mut w = world_with(50, vec![
        monster(2, 40, 7, Vec3i::new(50000, 0, 0)),
        monster(3, 40, 7, Vec3i::new(60000, 0, 0)),
    ]);
    w.monsters_killed.count = 41;
    let hits = vec![HitMonsterEvent(2, Vec3i::new(1, 0, 0)), HitMonsterEvent(2, Vec3i::new(0, 0, 1))];
    let kills = w.tick(16, &hits, &vec![]);
    assert_eq!(kills, vec![KillMonsterEvent(2)]);
    assert_eq!(w.monsters.len(), 1);
    assert_eq!(w.monsters[0].id, 3);
    assert_eq!(w.monsters[0].stats.hp, 40);
    assert_eq!(w.monsters_killed.count, 42);
}

#[test]
fn several_hits_in_one_tick_accumulate() {
    let mut w = world_with(10, vec![monster(2, 100, 7, Vec3i::new(50000, 0, 0))]);
    let hits = vec![HitMonsterEvent(2, Vec3i::new(1, 0, 0)); 3];
    let kills = w.monster_hit_system(&hits);
    assert!(kills.is_empty());
    assert_eq!(w.monsters[0].stats.hp, 70);
}

#[test]
fn knockback_has_fixed_strength_along_hit() {
    let mut w = world_with(10, vec![monster(2, 100, 7, Vec3i::new(50000, 0, 0))]);
    w.monster_hit_system(&vec![HitMonsterEvent(2, Vec3i::new(0, 0, -10))]);
    assert_eq!(w.monsters[0].impulse, Vec3i::new(0, 0, -20000));
    w.monster_hit_system(&vec![HitMonsterEvent(2, Vec3i::new(0, 0, 0))]);
    assert_eq!(w.monsters[0].impulse, Vec3i::new(0, 0, 0));
}

#[test]
fn hits_without_player_change_nothing() {
    let mut w = world_with(10, vec![monster(2, 100, 7, Vec3i::new(50000, 0, 0))]);
    w.player = None;
    let kills = w.monster_hit_system(&vec![HitMonsterEvent(2, Vec3i::new(1, 0, 0))]);
    assert!(kills.is_empty());
    assert_eq!(w.monsters[0].stats.hp, 100);
}

#[test]
fn stun_round_trip() {
    let mut w = world_with(10, vec![monster(2, 100, 7, Vec3i::new(50000, 0, 0))]);
    w.monster_hit_system(&vec![HitMonsterEvent(2, Vec3i::new(1, 0, 0))]);
    assert_eq!(w.monsters[0].brain_state.conscious, ConsciousnessStateEnum::Stun);
    assert_eq!(w.monsters[0].brain_state.stun_at.elapsed, 0);
    w.change_consciousness_system(MONSTER_STUN_COOLDOWN - 1);
    assert_eq!(w.monsters[0].brain_state.conscious, ConsciousnessStateEnum::Stun);
    w.change_consciousness_system(1);
    assert_eq!(w.monsters[0].brain_state.conscious, ConsciousnessStateEnum::Awake);
}

#[test]
fn stun_wears_off_after_exactly_its_duration() {
    let mut m = monster(2, 100, 7, Vec3i::new(0, 0, 0));
    m.brain_state.conscious = ConsciousnessStateEnum::Stun;
    m.recover(MONSTER_STUN_COOLDOWN);
    assert_eq!(m.brain_state.conscious, ConsciousnessStateEnum::Awake);
}

#[test]
fn aggro_inside_outside_and_on_radius() {
    let inside = monster(2, 100, 7, Vec3i::new(10000, 0, 0));
    let outside = monster(3, 100, 7, Vec3i::new(12000, 0, 12000));
    let on_edge = monster(4, 100, 7, Vec3i::new(0, 0, -16000));
    let mut unplaced = Creature::new(5, CreatureType::Monster, Stats { hp: 100, atk: 7 });
    unplaced.location.destination = Some(Vec3i::new(1, 2, 3));
    let mut w = world_with(10, vec![inside, outside, on_edge, unplaced]);
    let player_at = Vec3i::new(0, 0, 0);
    w.monster_aggro_system();
    assert_eq!(w.monsters[0].location.destination, Some(player_at));
    assert_eq!(w.monsters[1].location.destination, None);
    assert_eq!(w.monsters[2].location.destination, Some(player_at));
    assert_eq!(w.monsters[3].location.destination, Some(Vec3i::new(1, 2, 3)));
}

#[test]
fn aggro_keeps_old_destination_outside_radius() {
    let mut far = monster(2, 100, 7, Vec3i::new(40000, 0, 0));
    far.location.destination = Some(Vec3i::new(41000, 0, 0));
    let mut w = world_with(10, vec![far]);
    w.monster_aggro_system();
    assert_eq!(w.monsters[0].location.destination, Some(Vec3i::new(41000, 0, 0)));
}

#[test]
fn player_death_scenario() {
    let mut m = monster(2, 100, 20, Vec3i::new(1000, 0, 0));
    m.last_attack.0.elapsed = m.last_attack.0.duration;
    let mut w = world_with(10, vec![m]);
    if let Some(p) = w.player.as_mut() {
        p.stats.hp = 15;
        p.location.destination = Some(Vec3i::new(5000, 0, 0));
    }
    assert_eq!(w.game_state, GameState::Playing);
    w.tick(16, &vec![], &vec![]);
    let p = w.player.unwrap();
    assert_eq!(p.stats.hp, 0);
    assert_eq!(w.game_state, GameState::GameOver);
    assert_eq!(p.location.destination, None);
}

#[test]
fn contact_attack_waits_for_cooldown() {
    let m = monster(2, 100, 7, Vec3i::new(1000, 0, 0));
    let mut w = world_with(10, vec![m]);
    let kills = w.monster_fight_system(1999);
    assert!(kills.is_empty());
    assert_eq!(w.player.unwrap().stats.hp, 100);
    w.monster_fight_system(1);
    assert_eq!(w.player.unwrap().stats.hp, 93);
    assert_eq!(w.monsters[0].last_attack.0.elapsed, 0);
    w.monster_fight_system(1000);
    assert_eq!(w.player.unwrap().stats.hp, 93);
}

#[test]
fn contact_attack_needs_reach() {
    let mut m = monster(2, 100, 7, Vec3i::new(3001, 0, 0));
    m.last_attack.0.elapsed = m.last_attack.0.duration;
    let mut w = world_with(10, vec![m]);
    w.monster_fight_system(16);
    assert_eq!(w.player.unwrap().stats.hp, 100);
    w.monsters[0].location.position = Some(Vec3i::new(3000, 0, 0));
    w.monster_fight_system(16);
    assert_eq!(w.player.unwrap().stats.hp, 93);
}

#[test]
fn two_lethal_strikes_give_two_events() {
    let mut a = monster(2, 100, 60, Vec3i::new(1000, 0, 0));
    a.last_attack.0.elapsed = a.last_attack.0.duration;
    let b = a;
    let mut w = world_with(10, vec![a, Creature { id: 3, ..b }]);
    if let Some(p) = w.player.as_mut() {
        p.stats.hp = 50;
    }
    let kills = w.monster_fight_system(0);
    assert_eq!(kills.len(), 2);
    assert_eq!(w.player.unwrap().stats.hp, 0);
}

#[test]
fn score_counts_kills_and_saturates() {
    let mut w = World::new();
    w.update_score(&vec![KillMonsterEvent(1), KillMonsterEvent(2)]);
    assert_eq!(w.monsters_killed.count, 2);
    w.monsters_killed.count = u64::MAX;
    w.update_score(&vec![KillMonsterEvent(3)]);
    assert_eq!(w.monsters_killed.count, u64::MAX);
}
