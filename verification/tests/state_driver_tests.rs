use bygone_battle::bundles::{Bygone03Bundle, BygoneStats, PlayerBundle};
use bygone_battle::components::{GameId, PlayerName};
use bygone_battle::dice::LoadedDice;
use bygone_battle::events::{
    BygoneSpawnEvent, DeactivateEvent, DeallocateGameResourcesEvent, DelayedEvent, Entity,
    GameDrawEvent, PlayerJoinEvent, TurnEndEvent,
};
use bygone_battle::game_helpers::{Difficulty, FinishedGameStatus, Game, GameStatus};
use bygone_battle::localization::{Language, Localization, Localizations};
use bygone_battle::registry::GameRegistry;
use bygone_battle::spawners::{spawn_bygones, spawn_bygones_with, spawn_players};
use bygone_battle::state_driver::{
    all_enemies_out, all_players_out, cleanup, deactivate, has_game, has_turn_ended,
    is_deactivated, ready_players, update_game_status,
};
use bygone_battle::world::World;

const SEC: u128 = 1_000_000_000;

fn english() -> Localization {
    Localizations::new().get(Language::En).clone()
}

fn stats(health: usize) -> BygoneStats {
    BygoneStats { wings_health: health, core_health: health, sensor_health: health, gun_health: health, attack_damage: 1 }
}

fn battle(game_id: GameId, users: &[u64]) -> World {
    let mut world = World::new();
    world.spawn_enemy(Bygone03Bundle::from_stats(stats(1), game_id));
    for user in users {
        world.spawn_player(PlayerBundle::new(*user, PlayerName(format!("Player{}", user)), game_id));
    }
    world
}

fn registry(game_id: GameId, guild_id: u64, start: u128) -> GameRegistry {
    let mut games = GameRegistry::new();
    games.insert(guild_id, Game::new(game_id, 1, english(), start));
    games
}

#[test]
fn world_gives_each_row_a_handle_of_its_own() {
    let mut world = World::new();
    assert_eq!(world.spawn_player(PlayerBundle::new(1, PlayerName("A".to_string()), GameId(1))), Some(Entity(0)));
    assert_eq!(world.spawn_enemy(Bygone03Bundle::from_stats(stats(1), GameId(1))), Some(Entity(1)));
    assert_eq!(world.spawn_player(PlayerBundle::new(2, PlayerName("B".to_string()), GameId(1))), Some(Entity(2)));
    assert_eq!(world.next_entity, 3);
    assert_eq!(world.find_player(2, GameId(1)), Some(1));
    assert_eq!(world.find_player(2, GameId(2)), None);
    assert_eq!(world.find_enemy(GameId(1)), Some(0));
    assert_eq!(world.find_enemy(GameId(2)), None);
}

#[test]
fn battle_has_at_most_one_machine() {
    let mut world = World::new();
    assert!(world.spawn_enemy(Bygone03Bundle::from_stats(stats(1), GameId(1))).is_some());
    assert_eq!(world.spawn_enemy(Bygone03Bundle::from_stats(stats(3), GameId(1))), None);
    assert!(world.spawn_enemy(Bygone03Bundle::from_stats(stats(2), GameId(2))).is_some());
    assert_eq!(world.enemies.len(), 2);
    assert_eq!(world.enemies[0].bundle.parts.core.health().max(), 1);
    assert_eq!(world.next_entity, 2);
    let events = vec![BygoneSpawnEvent::new(Difficulty::Easy, GameId(2)), BygoneSpawnEvent::new(Difficulty::Easy, GameId(3)), BygoneSpawnEvent::new(Difficulty::Hard, GameId(3))];
    let mut dice = LoadedDice::new(Vec::new());
    spawn_bygones(&mut world, &mut dice, &events);
    assert_eq!(world.enemies.len(), 3);
    assert_eq!(world.enemies[2].bundle.game_id, GameId(3));
    assert_eq!(world.enemies[2].entity, Entity(2));
}

#[test]
fn user_has_at_most_one_row_in_a_battle() {
    let mut world = World::new();
    let joins = vec![
        PlayerJoinEvent::new(1, PlayerName("A".to_string()), GameId(1), 4),
        PlayerJoinEvent::new(1, PlayerName("A again".to_string()), GameId(1), 4),
        PlayerJoinEvent::new(1, PlayerName("A".to_string()), GameId(2), 5),
        PlayerJoinEvent::new(2, PlayerName("B".to_string()), GameId(1), 4),
    ];
    spawn_players(&mut world, &joins);
    assert_eq!(world.players.len(), 3);
    assert_eq!(world.players[0].bundle.name.0, "A");
    assert_eq!(world.players[0].entity, Entity(0));
    assert_eq!(world.players[1].bundle.game_id, GameId(2));
    assert_eq!(world.players[1].entity, Entity(1));
    assert_eq!(world.players[2].bundle.name.0, "B");
    assert_eq!(world.next_entity, 3);
}

#[test]
fn world_without_a_free_handle_admits_no_row() {
    let mut world = World::new();
    world.next_entity = u64::MAX;
    assert_eq!(world.spawn_player(PlayerBundle::new(1, PlayerName("A".to_string()), GameId(1))), None);
    assert_eq!(world.spawn_enemy(Bygone03Bundle::from_stats(stats(1), GameId(1))), None);
    assert!(world.players.is_empty() && world.enemies.is_empty());
}

#[test]
fn machine_is_made_of_the_stats_given() {
    let mut world = World::new();
    let events = vec![BygoneSpawnEvent::new(Difficulty::Hard, GameId(3))];
    spawn_bygones_with(&mut world, &vec![BygoneStats { wings_health: 1, core_health: 3, sensor_health: 2, gun_health: 1, attack_damage: 2 }], &events);
    assert_eq!(world.enemies[0].bundle.parts.core.health().max(), 3);
    assert_eq!(world.enemies[0].bundle.parts.sensor.health().max(), 2);
    assert_eq!(world.enemies[0].bundle.attack.damage(), 2);
}

#[test]
fn deactivate_strips_the_tag_of_the_active() {
    let mut world = battle(GameId(1), &[1, 2]);
    let events = vec![DeactivateEvent(Entity(2)), DeactivateEvent(Entity(0)), DeactivateEvent(Entity(50))];
    assert!(is_deactivated(&events, Entity(2)));
    assert!(!is_deactivated(&events, Entity(1)));
    deactivate(&mut world, &events);
    assert!(world.enemies[0].bundle._active.is_none());
    assert!(world.players[0].bundle._active.is_some());
    assert!(world.players[1].bundle._active.is_none());
    assert!(world.players[1].bundle._ready.is_some());
    assert_eq!(world.players[1].bundle.name.0, "Player2");
}

#[test]
fn battle_is_won_when_its_machine_falls() {
    let world = battle(GameId(1), &[1]);
    let mut games = registry(GameId(1), 4, 0);
    let mut draws = Vec::new();
    let events = vec![DeactivateEvent(Entity(0))];
    assert!(all_enemies_out(&world, &events, GameId(1)));
    assert!(!all_players_out(&world, &events, GameId(1)));
    update_game_status(&mut games, &world, &events, &mut draws);
    assert_eq!(games.get(4).unwrap().status, GameStatus::Finished(FinishedGameStatus::Won));
    assert_eq!(draws, vec![GameDrawEvent::new(4)]);
    update_game_status(&mut games, &world, &events, &mut draws);
    assert_eq!(draws.len(), 1);
}

#[test]
fn battle_is_lost_when_all_its_players_fall() {
    let world = battle(GameId(1), &[1, 2]);
    let mut games = registry(GameId(1), 4, 0);
    let mut draws = Vec::new();
    update_game_status(&mut games, &world, &vec![DeactivateEvent(Entity(1))], &mut draws);
    assert_eq!(games.get(4).unwrap().status, GameStatus::Ongoing);
    assert!(draws.is_empty());
    update_game_status(&mut games, &world, &vec![DeactivateEvent(Entity(1)), DeactivateEvent(Entity(2))], &mut draws);
    assert_eq!(games.get(4).unwrap().status, GameStatus::Finished(FinishedGameStatus::Lost));
    assert_eq!(draws, vec![GameDrawEvent::new(4)]);
}

#[test]
fn battle_that_ends_both_ways_is_won() {
    let world = battle(GameId(1), &[1]);
    let mut games = registry(GameId(1), 4, 0);
    let mut draws = Vec::new();
    update_game_status(&mut games, &world, &vec![DeactivateEvent(Entity(0)), DeactivateEvent(Entity(1))], &mut draws);
    assert_eq!(games.get(4).unwrap().status, GameStatus::Finished(FinishedGameStatus::Won));
}

#[test]
fn battle_without_entities_keeps_its_status() {
    let world = battle(GameId(2), &[1]);
    let mut games = registry(GameId(1), 4, 0);
    let mut draws = Vec::new();
    assert!(!has_game(&world, GameId(1)));
    assert!(has_game(&world, GameId(2)));
    update_game_status(&mut games, &world, &Vec::new(), &mut draws);
    assert_eq!(games.get(4).unwrap().status, GameStatus::Ongoing);
    assert!(draws.is_empty());
}

#[test]
fn finished_battle_keeps_its_status() {
    let world = battle(GameId(1), &[1]);
    let mut games = registry(GameId(1), 4, 0);
    games.entries[0].game.status = GameStatus::Finished(FinishedGameStatus::Expired);
    let mut draws = Vec::new();
    update_game_status(&mut games, &world, &vec![DeactivateEvent(Entity(0))], &mut draws);
    assert_eq!(games.get(4).unwrap().status, GameStatus::Finished(FinishedGameStatus::Expired));
    assert!(draws.is_empty());
}

#[test]
fn turn_end_makes_the_active_players_of_the_battle_ready() {
    let mut world = battle(GameId(1), &[1, 2]);
    world.spawn_player(PlayerBundle::new(3, PlayerName("Player3".to_string()), GameId(2)));
    for row in world.players.iter_mut() {
        row.bundle._ready = None;
    }
    world.players[1].bundle._active = None;
    let events = vec![TurnEndEvent::new(GameId(1))];
    assert!(has_turn_ended(&events, GameId(1)));
    assert!(!has_turn_ended(&events, GameId(2)));
    ready_players(&mut world, &events);
    assert!(world.players[0].bundle._ready.is_some());
    assert!(world.players[1].bundle._ready.is_none());
    assert!(world.players[2].bundle._ready.is_none());
}

#[test]
fn battle_expires_after_its_greatest_duration() {
    let mut world = battle(GameId(1), &[1]);
    let mut games = registry(GameId(1), 4, 10 * SEC);
    let mut delayed = Vec::new();
    cleanup(&mut world, &mut games, 899 * SEC + 999_999_999, &Vec::new(), &mut delayed);
    assert_eq!(games.get(4).unwrap().status, GameStatus::Ongoing);
    assert!(delayed.is_empty());
    cleanup(&mut world, &mut games, 900 * SEC, &Vec::new(), &mut delayed);
    assert_eq!(games.get(4).unwrap().status, GameStatus::Finished(FinishedGameStatus::Expired));
    assert_eq!(delayed.len(), 1);
    assert!(matches!(&delayed[0], DelayedEvent::GameDraw(ev) if *ev == GameDrawEvent::new(4)));
    cleanup(&mut world, &mut games, 901 * SEC, &Vec::new(), &mut delayed);
    assert_eq!(delayed.len(), 1);
    assert_eq!(world.players.len(), 1);
}

#[test]
fn finished_battle_does_not_expire() {
    let mut world = World::new();
    let mut games = registry(GameId(1), 4, 0);
    games.entries[0].game.status = GameStatus::Finished(FinishedGameStatus::Won);
    let mut delayed = Vec::new();
    cleanup(&mut world, &mut games, 5_000 * SEC, &Vec::new(), &mut delayed);
    assert_eq!(games.get(4).unwrap().status, GameStatus::Finished(FinishedGameStatus::Won));
    assert!(delayed.is_empty());
}

#[test]
fn rows_of_a_replaced_battle_are_removed() {
    let mut world = battle(GameId(1), &[1, 2]);
    world.spawn_enemy(Bygone03Bundle::from_stats(stats(1), GameId(2)));
    world.spawn_player(PlayerBundle::new(1, PlayerName("Player1".to_string()), GameId(2)));
    let mut games = GameRegistry::new();
    let mut delayed = Vec::new();
    cleanup(&mut world, &mut games, 0, &vec![DeallocateGameResourcesEvent::new(GameId(1)), DeallocateGameResourcesEvent::new(GameId(7))], &mut delayed);
    assert_eq!(world.players.len(), 1);
    assert_eq!(world.players[0].bundle.game_id, GameId(2));
    assert_eq!(world.players[0].entity, Entity(4));
    assert_eq!(world.enemies.len(), 1);
    assert_eq!(world.enemies[0].entity, Entity(3));
    assert_eq!(world.next_entity, 5);
    world.despawn_game(GameId(2));
    assert!(world.players.is_empty() && world.enemies.is_empty());
}

#[test]
fn well_formed_world_is_told_from_a_broken_one() {
    let mut world = battle(GameId(1), &[1, 2]);
    assert!(world.is_wf());
    world.players[1].bundle.user_id = world.players[0].bundle.user_id;
    assert!(!world.is_wf());
    let mut twice = battle(GameId(1), &[1]);
    let copy = twice.enemies[0];
    twice.enemies.push(copy);
    assert!(!twice.is_wf());
    let mut late = battle(GameId(1), &[1]);
    late.next_entity = 1;
    assert!(!late.is_wf());
    let mut games = registry(GameId(1), 4, 0);
    assert!(games.is_wf());
    games.entries.push(bygone_battle::registry::GameEntry { guild_id: 4, game: Game::new(GameId(2), 1, english(), 0) });
    assert!(!games.is_wf());
}
