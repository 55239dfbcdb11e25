use bygone_battle::bundles::{AttackOutcome, Bygone03Bundle, BygoneParts, BygoneStats, PlayerBundle};
use bygone_battle::combat::{
    damage_bygone, damage_bygone_rolls, damage_bygone_with, damage_players, damage_players_draws,
    damage_players_with, find_assault, find_attacker, find_candidates, find_target,
    process_bygone_part_death,
};
use bygone_battle::components::{
    Attack, Bygone03Stage, BygonePart, GameId, PlayerName, UserIdComponent, Vitality,
};
use bygone_battle::dice::LoadedDice;
use bygone_battle::events::{
    BattleLogEvent, BygonePartDeathEvent, DeactivateEvent, EnemyAttackEvent, Entity,
    PlayerAttackEvent,
};
use bygone_battle::world::World;

const GAME: GameId = GameId(77);
const GUILD: u64 = 5;

fn stats(health: usize, damage: usize) -> BygoneStats {
    BygoneStats {
        wings_health: health,
        core_health: health,
        sensor_health: health,
        gun_health: health,
        attack_damage: damage,
    }
}

fn player(user: u64, name: &str, game_id: GameId) -> PlayerBundle {
    PlayerBundle::new(user, PlayerName(name.to_string()), game_id)
}

fn world_with(health: usize, damage: usize, users: &[u64]) -> World {
    let mut world = World::new();
    assert_eq!(world.spawn_enemy(Bygone03Bundle::from_stats(stats(health, damage), GAME)), Some(Entity(0)));
    for user in users {
        assert!(world.spawn_player(player(*user, &format!("Player{}", user), GAME)).is_some());
    }
    world
}

fn attack(user: u64, target: BygonePart) -> (GameId, PlayerAttackEvent) {
    (GAME, PlayerAttackEvent::new(user, PlayerName(format!("Player{}", user)), GUILD, target))
}

fn log_names(log: &[(u64, BattleLogEvent)]) -> Vec<String> {
    log.iter()
        .map(|(guild_id, ev)| match ev {
            BattleLogEvent::PlayerDead(name) => format!("{}:dead:{}", guild_id, name.0),
            BattleLogEvent::PlayerHit(name, part) => format!("{}:hit:{}:{:?}", guild_id, name.0, part),
            BattleLogEvent::PlayerMiss(name) => format!("{}:miss:{}", guild_id, name.0),
            BattleLogEvent::BygoneHit(name) => format!("{}:bygone_hit:{}", guild_id, name.0),
            BattleLogEvent::BygoneMiss => format!("{}:bygone_miss", guild_id),
            BattleLogEvent::BygoneDead => format!("{}:bygone_dead", guild_id),
        })
        .collect()
}

#[test]
fn machine_starts_with_full_parts() {
    let enemy = Bygone03Bundle::from_stats(stats(2, 3), GAME);
    assert_eq!(enemy.parts.core, Vitality::new(2, 70));
    assert_eq!(enemy.parts.sensor, Vitality::new(2, 80));
    assert_eq!(enemy.parts.gun, Vitality::new(2, 50));
    assert_eq!(enemy.parts.left_wing, Vitality::new(2, 30));
    assert_eq!(enemy.parts.right_wing, Vitality::new(2, 30));
    assert_eq!(enemy.attack, Attack::new(3, 100));
    assert_eq!(enemy.stage, Bygone03Stage::Armored);
    assert!(enemy._active.is_some());
}

#[test]
fn player_starts_ready_with_six_health() {
    let bundle = player(3, "Ann", GAME);
    assert_eq!(bundle.user_id, UserIdComponent(3));
    assert_eq!(bundle.name.0, "Ann");
    assert_eq!(bundle.game_id, GAME);
    assert_eq!(bundle.vitality, Vitality::new(6, 100));
    assert_eq!(bundle.attack, Attack::new(1, 0));
    assert!(bundle._active.is_some());
    assert!(bundle._ready.is_some());
}

#[test]
fn parts_get_and_set() {
    let mut parts = BygoneParts::default();
    assert_eq!(*parts.get(BygonePart::Gun), Vitality::default());
    parts.set(BygonePart::Gun, Vitality::new(2, 50));
    assert_eq!(parts.gun, Vitality::new(2, 50));
    assert_eq!(*parts.get(BygonePart::Gun), Vitality::new(2, 50));
    assert_eq!(parts.core, Vitality::default());
    parts.modify_dodge(-10);
    assert_eq!(parts.gun.dodge(), 40);
    assert_eq!(parts.core.dodge(), -10);
}

#[test]
fn attack_on_a_part_hits_misses_or_kills() {
    let mut enemy = Bygone03Bundle::from_stats(stats(2, 1), GAME);
    let attack = Attack::new(1, 0);
    assert_eq!(enemy.take_attack(&attack, BygonePart::Sensor, 79), AttackOutcome::Miss);
    assert_eq!(enemy, Bygone03Bundle::from_stats(stats(2, 1), GAME));
    assert_eq!(enemy.take_attack(&attack, BygonePart::Sensor, 80), AttackOutcome::Hit);
    assert_eq!(enemy.parts.sensor.health().current(), 1);
    assert_eq!(enemy.take_attack(&attack, BygonePart::Sensor, 99), AttackOutcome::Kill);
    assert_eq!(enemy.parts.sensor.health().current(), 0);
    assert_eq!(enemy.parts.core, Vitality::new(2, 70));
}

#[test]
fn happy_single_hit_kills_the_sensor() {
    let mut world = world_with(1, 1, &[1]);
    let events = vec![attack(1, BygonePart::Sensor)];
    let mut deaths = Vec::new();
    let mut log = Vec::new();
    damage_bygone_with(&mut world, &vec![100], &events, &mut deaths, &mut log);
    assert_eq!(world.enemies[0].bundle.parts.sensor.health().current(), 0);
    assert_eq!(deaths, vec![BygonePartDeathEvent::new(Entity(0), BygonePart::Sensor, GUILD)]);
    assert_eq!(log_names(&log), vec!["5:hit:Player1:Sensor"]);
    assert!(world.players[0].bundle._active.is_some());
    assert!(world.players[0].bundle._ready.is_none());
    let mut deactivations = Vec::new();
    process_bygone_part_death(&mut world, &deaths, &mut log, &mut deactivations);
    assert_eq!(world.enemies[0].bundle.attack.accuracy(), 60);
    assert!(deactivations.is_empty());
    assert_eq!(log.len(), 1);
}

#[test]
fn miss_by_dodge_leaves_the_part_as_it_is() {
    let mut world = world_with(2, 1, &[1]);
    let before = world.enemies[0];
    let events = vec![attack(1, BygonePart::Sensor)];
    let mut deaths = Vec::new();
    let mut log = Vec::new();
    damage_bygone_with(&mut world, &vec![0], &events, &mut deaths, &mut log);
    assert_eq!(world.enemies[0], before);
    assert!(deaths.is_empty());
    assert_eq!(log_names(&log), vec!["5:miss:Player1"]);
    assert!(world.players[0].bundle._ready.is_none());
}

#[test]
fn player_who_is_not_ready_changes_nothing() {
    let mut world = world_with(1, 1, &[1]);
    world.players[0].bundle._ready = None;
    let before = world.enemies[0];
    let events = vec![attack(1, BygonePart::Sensor)];
    let mut deaths = Vec::new();
    let mut log = Vec::new();
    assert_eq!(find_assault(&world, &events, 0), None);
    damage_bygone_with(&mut world, &vec![99], &events, &mut deaths, &mut log);
    assert_eq!(world.enemies[0], before);
    assert!(deaths.is_empty());
    assert!(log.is_empty());
}

#[test]
fn player_who_is_not_active_changes_nothing() {
    let mut world = world_with(1, 1, &[1]);
    world.players[0].bundle._active = None;
    let before = world.enemies[0];
    let events = vec![attack(1, BygonePart::Sensor)];
    let mut deaths = Vec::new();
    let mut log = Vec::new();
    damage_bygone_with(&mut world, &vec![99], &events, &mut deaths, &mut log);
    assert_eq!(world.enemies[0], before);
    assert!(log.is_empty());
    assert!(world.players[0].bundle._ready.is_some());
}

#[test]
fn second_attack_in_a_turn_is_ignored() {
    let mut world = world_with(3, 1, &[1]);
    let events = vec![attack(1, BygonePart::Gun)];
    let mut deaths = Vec::new();
    let mut log = Vec::new();
    damage_bygone_with(&mut world, &vec![99], &events, &mut deaths, &mut log);
    assert_eq!(world.enemies[0].bundle.parts.gun.health().current(), 2);
    damage_bygone_with(&mut world, &vec![99], &events, &mut deaths, &mut log);
    damage_bygone_with(&mut world, &vec![99], &events, &mut deaths, &mut log);
    assert_eq!(world.enemies[0].bundle.parts.gun.health().current(), 2);
    assert_eq!(log_names(&log), vec!["5:hit:Player1:Gun"]);
}

#[test]
fn dead_part_takes_no_attack_and_costs_no_turn() {
    let mut world = world_with(1, 1, &[1]);
    world.enemies[0].bundle.parts.set(BygonePart::Gun, {
        let mut gun = Vitality::new(1, 50);
        gun.take_attack(1, 50);
        gun
    });
    let events = vec![attack(1, BygonePart::Gun)];
    let mut deaths = Vec::new();
    let mut log = Vec::new();
    let mut dice = LoadedDice::new(vec![99]);
    assert_eq!(damage_bygone_rolls(&world, &mut dice, &events), vec![0]);
    damage_bygone_with(&mut world, &vec![0], &events, &mut deaths, &mut log);
    assert!(log.is_empty() && deaths.is_empty());
    assert!(world.players[0].bundle._ready.is_some());
}

#[test]
fn last_attack_of_a_player_names_the_target() {
    let events = vec![attack(1, BygonePart::Gun), attack(2, BygonePart::Core), attack(1, BygonePart::LeftWing)];
    assert_eq!(find_target(&events, 1, GAME), Some((GUILD, BygonePart::LeftWing)));
    assert_eq!(find_target(&events, 2, GAME), Some((GUILD, BygonePart::Core)));
    assert_eq!(find_target(&events, 3, GAME), None);
    assert_eq!(find_target(&events, 1, GameId(1)), None);
}

#[test]
fn last_attacking_player_of_the_battle_is_the_attacker() {
    let world = world_with(1, 1, &[1, 2, 3]);
    assert_eq!(find_attacker(&world.players, &vec![attack(1, BygonePart::Gun), attack(2, BygonePart::Core)], GAME), Some(1));
    assert_eq!(find_attacker(&world.players, &vec![attack(1, BygonePart::Gun)], GAME), Some(0));
    assert_eq!(find_attacker(&world.players, &Vec::new(), GAME), None);
    assert_eq!(find_attacker(&world.players, &vec![attack(1, BygonePart::Gun)], GameId(1)), None);
}

#[test]
fn dice_roll_once_for_each_machine_attacked() {
    let mut world = world_with(2, 1, &[1]);
    assert!(world.spawn_enemy(Bygone03Bundle::from_stats(stats(2, 1), GameId(78))).is_some());
    let events = vec![attack(1, BygonePart::Core)];
    let mut dice = LoadedDice::new(vec![170, 180]);
    assert_eq!(damage_bygone_rolls(&world, &mut dice, &events), vec![70, 0]);
    let mut deaths = Vec::new();
    let mut log = Vec::new();
    let mut loaded = LoadedDice::new(vec![70]);
    damage_bygone(&mut world, &mut loaded, &events, &mut deaths, &mut log);
    assert_eq!(world.enemies[0].bundle.parts.core.health().current(), 1);
    assert_eq!(world.enemies[1].bundle.parts.core.health().current(), 2);
    assert_eq!(log_names(&log), vec!["5:hit:Player1:Core"]);
}

#[test]
fn core_kill_path_advances_the_stage_and_restores_the_core() {
    let mut enemy = Bygone03Bundle::from_stats(stats(3, 1), GAME);
    let attack = Attack::new(5, 100);
    assert_eq!(enemy.take_attack(&attack, BygonePart::Core, 0), AttackOutcome::Kill);
    assert!(!enemy.apply_part_death(BygonePart::Core));
    assert_eq!(enemy.stage, Bygone03Stage::Exposed);
    assert_eq!(enemy.parts.core, Vitality::new(3, 70));
    assert_eq!(enemy.take_attack(&attack, BygonePart::Core, 0), AttackOutcome::Kill);
    assert!(!enemy.apply_part_death(BygonePart::Core));
    assert_eq!(enemy.stage, Bygone03Stage::Burning);
    assert_eq!(enemy.parts.core, Vitality::new(3, 70));
    assert_eq!(enemy.take_attack(&attack, BygonePart::Core, 0), AttackOutcome::Kill);
    assert!(enemy.apply_part_death(BygonePart::Core));
    assert_eq!(enemy.stage, Bygone03Stage::Defeated);
    assert_eq!(enemy.parts.core.health().current(), 0);
}

#[test]
fn same_core_death_twice_advances_the_stage_twice() {
    let mut world = world_with(1, 1, &[1]);
    let death = BygonePartDeathEvent::new(Entity(0), BygonePart::Core, GUILD);
    let mut log = Vec::new();
    let mut deactivations = Vec::new();
    process_bygone_part_death(&mut world, &vec![death, death], &mut log, &mut deactivations);
    assert_eq!(world.enemies[0].bundle.stage, Bygone03Stage::Burning);
    assert_eq!(world.enemies[0].bundle.parts.core, Vitality::new(1, 70));
    assert!(log.is_empty() && deactivations.is_empty());
    process_bygone_part_death(&mut world, &vec![death], &mut log, &mut deactivations);
    assert_eq!(world.enemies[0].bundle.stage, Bygone03Stage::Defeated);
    assert_eq!(deactivations, vec![DeactivateEvent(Entity(0))]);
    assert_eq!(log_names(&log), vec!["5:bygone_dead"]);
    assert!(world.enemies[0].bundle._active.is_some());
}

#[test]
fn sensor_and_gun_deaths_cost_accuracy() {
    let mut enemy = Bygone03Bundle::from_stats(stats(1, 1), GAME);
    assert!(!enemy.apply_part_death(BygonePart::Sensor));
    assert_eq!(enemy.attack.accuracy(), 60);
    assert!(!enemy.apply_part_death(BygonePart::Gun));
    assert_eq!(enemy.attack.accuracy(), 35);
    assert_eq!(enemy.attack.damage(), 1);
    assert_eq!(enemy.stage, Bygone03Stage::Armored);
}

#[test]
fn wing_deaths_cost_every_part_dodge() {
    let mut enemy = Bygone03Bundle::from_stats(stats(1, 1), GAME);
    assert!(!enemy.apply_part_death(BygonePart::LeftWing));
    assert_eq!(enemy.parts.core.dodge(), 60);
    assert_eq!(enemy.parts.sensor.dodge(), 70);
    assert_eq!(enemy.parts.gun.dodge(), 40);
    assert_eq!(enemy.parts.left_wing.dodge(), 20);
    assert_eq!(enemy.parts.right_wing.dodge(), 20);
    assert!(!enemy.apply_part_death(BygonePart::RightWing));
    assert_eq!(enemy.parts.core.dodge(), 50);
    assert_eq!(enemy.parts.right_wing.dodge(), 10);
    assert_eq!(enemy.attack, Attack::new(1, 100));
}

#[test]
fn part_death_of_an_unknown_or_inactive_machine_is_dropped() {
    let mut world = world_with(1, 1, &[1]);
    let before = world.enemies[0];
    let mut log = Vec::new();
    let mut deactivations = Vec::new();
    process_bygone_part_death(&mut world, &vec![BygonePartDeathEvent::new(Entity(9), BygonePart::Sensor, GUILD)], &mut log, &mut deactivations);
    assert_eq!(world.enemies[0], before);
    world.enemies[0].bundle._active = None;
    let inactive = world.enemies[0];
    process_bygone_part_death(&mut world, &vec![BygonePartDeathEvent::new(Entity(0), BygonePart::Sensor, GUILD)], &mut log, &mut deactivations);
    assert_eq!(world.enemies[0], inactive);
}

#[test]
fn enemy_attack_hits_the_player_the_dice_pick() {
    let mut world = world_with(1, 1, &[1, 2, 3]);
    let events = vec![EnemyAttackEvent::new(GUILD, GAME)];
    let mut log = Vec::new();
    let mut deactivations = Vec::new();
    damage_players_with(&mut world, &vec![(1, 0)], &events, &mut log, &mut deactivations);
    assert_eq!(world.players[0].bundle.vitality.health().current(), 6);
    assert_eq!(world.players[1].bundle.vitality.health().current(), 5);
    assert_eq!(world.players[2].bundle.vitality.health().current(), 6);
    assert_eq!(log_names(&log), vec!["5:bygone_hit:Player2"]);
    assert!(deactivations.is_empty());
}

#[test]
fn enemy_attack_misses_when_accuracy_is_lost() {
    let mut world = world_with(1, 1, &[1]);
    world.enemies[0].bundle.attack.modify_accuracy(-40);
    let events = vec![EnemyAttackEvent::new(GUILD, GAME)];
    let mut log = Vec::new();
    let mut deactivations = Vec::new();
    damage_players_with(&mut world, &vec![(0, 39)], &events, &mut log, &mut deactivations);
    assert_eq!(world.players[0].bundle.vitality.health().current(), 6);
    assert_eq!(log_names(&log), vec!["5:bygone_miss"]);
    damage_players_with(&mut world, &vec![(0, 40)], &events, &mut log, &mut deactivations);
    assert_eq!(world.players[0].bundle.vitality.health().current(), 5);
}

#[test]
fn player_left_without_health_is_deactivated() {
    let mut world = world_with(1, 6, &[1]);
    let events = vec![EnemyAttackEvent::new(GUILD, GAME)];
    let mut log = Vec::new();
    let mut deactivations = Vec::new();
    damage_players_with(&mut world, &vec![(0, 0)], &events, &mut log, &mut deactivations);
    assert_eq!(world.players[0].bundle.vitality.health().current(), 0);
    assert_eq!(world.players[0].bundle.vitality.health().max(), 6);
    assert_eq!(log_names(&log), vec!["5:bygone_hit:Player1", "5:dead:Player1"]);
    assert_eq!(deactivations, vec![DeactivateEvent(Entity(1))]);
    assert!(world.players[0].bundle._active.is_some());
}

#[test]
fn enemy_attack_without_players_does_nothing() {
    let mut world = world_with(1, 1, &[]);
    let events = vec![EnemyAttackEvent::new(GUILD, GAME)];
    let mut log = Vec::new();
    let mut deactivations = Vec::new();
    let mut dice = LoadedDice::new(vec![5, 5]);
    assert_eq!(damage_players_draws(&world, &mut dice, &events), vec![(0, 0)]);
    damage_players_with(&mut world, &vec![(0, 0)], &events, &mut log, &mut deactivations);
    assert!(log.is_empty() && deactivations.is_empty());
    assert!(world.players.is_empty());
    damage_players(&mut world, &mut dice, &events, &mut log, &mut deactivations);
    assert!(log.is_empty());
}

#[test]
fn enemy_attack_with_only_inactive_players_does_nothing() {
    let mut world = world_with(1, 1, &[1]);
    world.players[0].bundle._active = None;
    let events = vec![EnemyAttackEvent::new(GUILD, GAME)];
    let mut log = Vec::new();
    let mut deactivations = Vec::new();
    damage_players_with(&mut world, &vec![(0, 0)], &events, &mut log, &mut deactivations);
    assert!(log.is_empty());
    assert_eq!(world.players[0].bundle.vitality.health().current(), 6);
}

#[test]
fn enemy_attack_of_an_inactive_or_missing_machine_does_nothing() {
    let mut world = world_with(1, 1, &[1]);
    let mut log = Vec::new();
    let mut deactivations = Vec::new();
    damage_players_with(&mut world, &vec![(0, 0)], &vec![EnemyAttackEvent::new(GUILD, GameId(1))], &mut log, &mut deactivations);
    assert!(log.is_empty());
    world.enemies[0].bundle._active = None;
    damage_players_with(&mut world, &vec![(0, 0)], &vec![EnemyAttackEvent::new(GUILD, GAME)], &mut log, &mut deactivations);
    assert!(log.is_empty());
    assert_eq!(world.players[0].bundle.vitality.health().current(), 6);
}

#[test]
fn candidates_are_the_active_players_of_the_battle() {
    let mut world = world_with(1, 1, &[1, 2]);
    assert!(world.spawn_player(player(3, "Player3", GameId(1))).is_some());
    assert!(world.spawn_player(player(4, "Player4", GAME)).is_some());
    world.players[1].bundle._active = None;
    assert_eq!(find_candidates(&world.players, GAME), vec![0, 3]);
    assert_eq!(find_candidates(&world.players, GameId(1)), vec![2]);
    assert_eq!(find_candidates(&world.players, GameId(2)), Vec::<usize>::new());
}

#[test]
fn dice_draw_the_victim_and_then_the_roll() {
    let mut world = world_with(1, 1, &[1, 2, 3]);
    let events = vec![EnemyAttackEvent::new(GUILD, GAME), EnemyAttackEvent::new(GUILD, GameId(1))];
    let mut dice = LoadedDice::new(vec![5, 250, 9, 9]);
    assert_eq!(damage_players_draws(&world, &mut dice, &events), vec![(2, 50), (0, 0)]);
    let mut log = Vec::new();
    let mut deactivations = Vec::new();
    let mut loaded = LoadedDice::new(vec![5, 250]);
    damage_players(&mut world, &mut loaded, &events, &mut log, &mut deactivations);
    assert_eq!(world.players[2].bundle.vitality.health().current(), 5);
    assert_eq!(log_names(&log), vec!["5:bygone_hit:Player3"]);
}

#[test]
fn health_stays_within_its_maximum_through_many_attacks() {
    let mut world = world_with(3, 4, &[1, 2]);
    let mut log = Vec::new();
    let mut deactivations = Vec::new();
    let mut deaths = Vec::new();
    for round in 0..6usize {
        damage_players_with(&mut world, &vec![(round % 2, 50)], &vec![EnemyAttackEvent::new(GUILD, GAME)], &mut log, &mut deactivations);
        world.players[0].bundle._ready = Some(bygone_battle::components::Ready);
        damage_bygone_with(&mut world, &vec![99], &vec![attack(1, BygonePart::Core)], &mut deaths, &mut log);
        for row in world.players.iter() {
            assert!(row.bundle.vitality.health().current() <= row.bundle.vitality.health().max());
        }
        for row in world.enemies.iter() {
            assert!(row.bundle.parts.core.health().current() <= row.bundle.parts.core.health().max());
        }
    }
    assert_eq!(world.players[0].bundle.vitality.health().current(), 0);
    assert_eq!(world.players[1].bundle.vitality.health().current(), 0);
}
