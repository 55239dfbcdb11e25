use bygone_battle::battle_log::BattleLog;
use bygone_battle::bundles::PlayerBundle;
use bygone_battle::components::{BygonePart, GameId, PlayerName};
use bygone_battle::bundles::{Bygone03Bundle, BygoneStats};
use bygone_battle::dispatcher::{
    handle_game_start, handle_player_attack, listen, new_game_id, refuse, used_ids,
    GAME_COOLDOWN_SECONDS, INTERACTION_TOKEN_TTL_SECS, MAX_GAME_DURATION_SECS,
};
use bygone_battle::events::{
    BygoneSpawnEvent, DeallocateGameResourcesEvent, DelayedEvent, GameDrawEvent, GameRenderEvent,
    GameRenderPayload, GameStartEvent, InputEvent, OneshotType, PlayerAttackEvent,
    PlayerJoinEvent,
};
use bygone_battle::game_helpers::{Difficulty, FinishedGameStatus, Game, GameStatus};
use bygone_battle::localization::{Language, Localization, Localizations};
use bygone_battle::registry::GameRegistry;
use bygone_battle::world::World;

const SEC: u128 = 1_000_000_000;

fn english() -> Localization {
    Localizations::new().get(Language::En).clone()
}

fn start(user: u64, guild_id: u64, interaction: u64) -> GameStartEvent {
    GameStartEvent::new(user, PlayerName("Ann".to_string()), Difficulty::Easy, guild_id, interaction, english())
}

struct Queues {
    render: Vec<GameRenderEvent>,
    game_start: Vec<GameStartEvent>,
    player_attack: Vec<(GameId, PlayerAttackEvent)>,
    delayed: Vec<DelayedEvent>,
    player_join: Vec<PlayerJoinEvent>,
    bygone_spawn: Vec<BygoneSpawnEvent>,
    deallocate: Vec<DeallocateGameResourcesEvent>,
}

fn queues() -> Queues {
    Queues {
        render: Vec::new(),
        game_start: Vec::new(),
        player_attack: Vec::new(),
        delayed: Vec::new(),
        player_join: Vec::new(),
        bygone_spawn: Vec::new(),
        deallocate: Vec::new(),
    }
}

fn run(events: Vec<InputEvent>, now: u128, world: &World, games: &mut GameRegistry, log: &mut BattleLog, q: &mut Queues) {
    listen(
        events,
        now,
        world,
        games,
        log,
        &mut q.render,
        &mut q.game_start,
        &mut q.player_attack,
        &mut q.delayed,
        &mut q.player_join,
        &mut q.bygone_spawn,
        &mut q.deallocate,
    );
}

#[test]
fn the_constants_of_the_dispatcher() {
    assert_eq!(INTERACTION_TOKEN_TTL_SECS, 900);
    assert_eq!(MAX_GAME_DURATION_SECS, 890);
    assert_eq!(GAME_COOLDOWN_SECONDS, 895);
}

#[test]
fn game_start_is_admitted_in_a_guild_without_a_battle() {
    let world = World::new();
    let mut games = GameRegistry::new();
    let mut log = BattleLog::new();
    log.push(4, "old line".to_string());
    log.push(9, "other guild".to_string());
    let mut q = queues();
    run(vec![InputEvent::GameStart(start(1, 4, 30))], 100 * SEC, &world, &mut games, &mut log, &mut q);
    let id = GameId(100 * SEC);
    let game = games.get(4).unwrap();
    assert_eq!(game.id, id);
    assert_eq!(game.start_time, 100 * SEC);
    assert_eq!(game.interaction_id, 30);
    assert_eq!(game.status, GameStatus::Ongoing);
    assert_eq!(game.localization.title.0, "DES...TROY.");
    assert!(q.render.is_empty());
    assert!(q.deallocate.is_empty());
    assert!(q.player_attack.is_empty());
    assert_eq!(q.game_start.len(), 1);
    assert_eq!(q.game_start[0].initial_player, 1);
    assert_eq!(q.game_start[0].guild_id, 4);
    assert_eq!(q.game_start[0].interaction, 30);
    assert_eq!(q.game_start[0].difficulty, Difficulty::Easy);
    assert_eq!(q.game_start[0].initial_player_name.0, "Ann");
    assert_eq!(q.game_start[0].localization.won.0, "*Man triumphs over machine!*");
    assert_eq!(q.player_join.len(), 1);
    assert_eq!(q.player_join[0].player, 1);
    assert_eq!(q.player_join[0].player_name.0, "Ann");
    assert_eq!(q.player_join[0].game_id, id);
    assert_eq!(q.player_join[0].guild_id, 4);
    assert_eq!(q.bygone_spawn, vec![BygoneSpawnEvent::new(Difficulty::Easy, id)]);
    assert_eq!(q.delayed.len(), 1);
    assert!(matches!(&q.delayed[0], DelayedEvent::GameDraw(ev) if *ev == GameDrawEvent::new(4)));
    assert!(log.take(4).is_empty());
    assert_eq!(log.take(9), vec!["other guild".to_string()]);
}

#[test]
fn new_battle_gets_the_identity_of_time_and_index() {
    let world = World::new();
    let mut games = GameRegistry::new();
    let mut log = BattleLog::new();
    let mut q = queues();
    run(
        vec![InputEvent::GameStart(start(1, 4, 30)), InputEvent::GameStart(start(2, 5, 31)), InputEvent::GameStart(start(3, 6, 32))],
        1_000,
        &world,
        &mut games,
        &mut log,
        &mut q,
    );
    assert_eq!(games.get(4).unwrap().id, GameId(1_000));
    assert_eq!(games.get(5).unwrap().id, GameId(1_001));
    assert_eq!(games.get(6).unwrap().id, GameId(1_002));
    assert_eq!(games.entries.len(), 3);
    assert_eq!(games.entries[1].guild_id, 5);
}

#[test]
fn second_start_while_the_battle_goes_on_is_refused() {
    let world = World::new();
    let mut games = GameRegistry::new();
    let mut log = BattleLog::new();
    let mut q = queues();
    run(vec![InputEvent::GameStart(start(1, 4, 30))], 100 * SEC, &world, &mut games, &mut log, &mut q);
    let mut second = queues();
    run(vec![InputEvent::GameStart(start(2, 4, 31))], 105 * SEC, &world, &mut games, &mut log, &mut second);
    assert_eq!(games.entries.len(), 1);
    assert_eq!(games.get(4).unwrap().id, GameId(100 * SEC));
    assert_eq!(games.get(4).unwrap().interaction_id, 30);
    assert_eq!(games.get(4).unwrap().start_time, 100 * SEC);
    assert_eq!(second.render.len(), 1);
    assert_eq!(second.render[0].guild_id, 4);
    assert_eq!(second.render[0].interaction_id, 31);
    assert_eq!(second.render[0].loc.title.0, "DES...TROY.");
    assert!(matches!(second.render[0].payload, GameRenderPayload::OneshotMessage(OneshotType::OtherGameInProgress)));
    assert!(second.game_start.is_empty());
    assert!(second.player_join.is_empty());
    assert!(second.bygone_spawn.is_empty());
    assert!(second.delayed.is_empty());
    assert!(second.deallocate.is_empty());
}

#[test]
fn start_within_the_cooldown_of_a_finished_battle_is_refused() {
    let world = World::new();
    let mut games = GameRegistry::new();
    let mut log = BattleLog::new();
    let mut q = queues();
    run(vec![InputEvent::GameStart(start(1, 4, 30))], 100 * SEC, &world, &mut games, &mut log, &mut q);
    games.entries[0].game.status = GameStatus::Finished(FinishedGameStatus::Won);
    let mut second = queues();
    run(vec![InputEvent::GameStart(start(2, 4, 31))], 105 * SEC, &world, &mut games, &mut log, &mut second);
    assert_eq!(second.render.len(), 1);
    assert!(matches!(second.render[0].payload, GameRenderPayload::OneshotMessage(OneshotType::Cooldown(890))));
    assert_eq!(games.get(4).unwrap().id, GameId(100 * SEC));
    assert_eq!(games.get(4).unwrap().status, GameStatus::Finished(FinishedGameStatus::Won));
    assert_eq!(refuse(&games, 4, 100 * SEC), Some(OneshotType::Cooldown(895)));
    assert_eq!(refuse(&games, 4, 994 * SEC + 999_999_999), Some(OneshotType::Cooldown(1)));
    assert_eq!(refuse(&games, 4, 995 * SEC), None);
    assert_eq!(refuse(&games, 4, 50 * SEC), Some(OneshotType::Cooldown(895)));
    assert_eq!(refuse(&games, 5, 105 * SEC), None);
}

#[test]
fn start_after_the_cooldown_replaces_the_battle() {
    let world = World::new();
    let mut games = GameRegistry::new();
    let mut log = BattleLog::new();
    let mut q = queues();
    run(vec![InputEvent::GameStart(start(1, 4, 30)), InputEvent::GameStart(start(1, 5, 33))], 100 * SEC, &world, &mut games, &mut log, &mut q);
    let mut second = queues();
    run(vec![InputEvent::GameStart(start(2, 4, 31))], 995 * SEC, &world, &mut games, &mut log, &mut second);
    assert!(second.render.is_empty());
    assert_eq!(second.deallocate, vec![DeallocateGameResourcesEvent::new(GameId(100 * SEC))]);
    assert_eq!(games.entries.len(), 2);
    assert_eq!(games.entries[0].guild_id, 4);
    assert_eq!(games.get(4).unwrap().id, GameId(995 * SEC));
    assert_eq!(games.get(4).unwrap().interaction_id, 31);
    assert_eq!(games.get(5).unwrap().id, GameId(100 * SEC + 1));
    assert_eq!(second.player_join.len(), 1);
    assert_eq!(second.player_join[0].player, 2);
}

#[test]
fn refused_start_leaves_the_registry_as_it_is() {
    let mut games = GameRegistry::new();
    let mut log = BattleLog::new();
    let mut q = queues();
    assert_eq!(games.insert(4, Game::new(GameId(9), 30, english(), 100 * SEC)).map(|g| g.id), None);
    log.push(4, "kept".to_string());
    handle_game_start(
        start(2, 4, 31),
        0,
        101 * SEC,
        &World::new(),
        &mut games,
        &mut log,
        &mut q.render,
        &mut q.game_start,
        &q.player_attack,
        &mut q.delayed,
        &mut q.player_join,
        &mut q.bygone_spawn,
        &mut q.deallocate,
    );
    assert_eq!(games.entries.len(), 1);
    assert_eq!(games.entries[0].game.id, GameId(9));
    assert_eq!(games.entries[0].game.start_time, 100 * SEC);
    assert_eq!(log.take(4), vec!["kept".to_string()]);
    assert_eq!(q.render.len(), 1);
}

#[test]
fn attack_in_a_guild_without_a_battle_is_dropped() {
    let world = World::new();
    let mut games = GameRegistry::new();
    let mut log = BattleLog::new();
    let mut q = queues();
    let attack = PlayerAttackEvent::new(1, PlayerName("Ann".to_string()), 4, BygonePart::Gun);
    run(vec![InputEvent::PlayerAttack(attack)], 100 * SEC, &world, &mut games, &mut log, &mut q);
    assert!(q.player_attack.is_empty() && q.player_join.is_empty() && q.delayed.is_empty());
    assert!(q.render.is_empty());
}

#[test]
fn attack_of_an_active_player_goes_to_the_resolver() {
    let mut world = World::new();
    let mut games = GameRegistry::new();
    games.insert(4, Game::new(GameId(9), 30, english(), 0));
    world.spawn_player(PlayerBundle::new(1, PlayerName("Ann".to_string()), GameId(9)));
    let mut q = queues();
    let attack = PlayerAttackEvent::new(1, PlayerName("Ann".to_string()), 4, BygonePart::Gun);
    handle_player_attack(attack, &world, &games, &mut q.player_attack, &mut q.delayed, &mut q.player_join);
    assert_eq!(q.player_attack.len(), 1);
    assert_eq!(q.player_attack[0].0, GameId(9));
    assert_eq!(q.player_attack[0].1.player, 1);
    assert_eq!(q.player_attack[0].1.target, BygonePart::Gun);
    assert!(q.player_join.is_empty() && q.delayed.is_empty());
}

#[test]
fn attack_of_an_inactive_player_is_dropped() {
    let mut world = World::new();
    let mut games = GameRegistry::new();
    games.insert(4, Game::new(GameId(9), 30, english(), 0));
    world.spawn_player(PlayerBundle::new(1, PlayerName("Ann".to_string()), GameId(9)));
    world.players[0].bundle._active = None;
    let mut q = queues();
    let attack = PlayerAttackEvent::new(1, PlayerName("Ann".to_string()), 4, BygonePart::Gun);
    handle_player_attack(attack, &world, &games, &mut q.player_attack, &mut q.delayed, &mut q.player_join);
    assert!(q.player_attack.is_empty() && q.player_join.is_empty() && q.delayed.is_empty());
}

#[test]
fn attack_of_a_newcomer_makes_them_join_and_waits() {
    let mut world = World::new();
    let mut games = GameRegistry::new();
    games.insert(4, Game::new(GameId(9), 30, english(), 0));
    world.spawn_player(PlayerBundle::new(2, PlayerName("Bob".to_string()), GameId(9)));
    let mut q = queues();
    let attack = PlayerAttackEvent::new(1, PlayerName("Ann".to_string()), 4, BygonePart::Core);
    handle_player_attack(attack, &world, &games, &mut q.player_attack, &mut q.delayed, &mut q.player_join);
    assert!(q.player_attack.is_empty());
    assert_eq!(q.player_join.len(), 1);
    assert_eq!(q.player_join[0].player, 1);
    assert_eq!(q.player_join[0].player_name.0, "Ann");
    assert_eq!(q.player_join[0].game_id, GameId(9));
    assert_eq!(q.player_join[0].guild_id, 4);
    assert_eq!(q.delayed.len(), 1);
    assert!(matches!(&q.delayed[0], DelayedEvent::PlayerAttack((id, ev)) if *id == GameId(9) && ev.player == 1 && ev.target == BygonePart::Core));
}

#[test]
fn attack_of_a_user_with_a_row_in_another_battle_is_forwarded() {
    let mut world = World::new();
    let mut games = GameRegistry::new();
    games.insert(4, Game::new(GameId(9), 30, english(), 0));
    world.spawn_player(PlayerBundle::new(1, PlayerName("Ann".to_string()), GameId(8)));
    let mut q = queues();
    let attack = PlayerAttackEvent::new(1, PlayerName("Ann".to_string()), 4, BygonePart::Core);
    handle_player_attack(attack, &world, &games, &mut q.player_attack, &mut q.delayed, &mut q.player_join);
    assert_eq!(q.player_attack.len(), 1);
    assert_eq!(q.player_attack[0].0, GameId(9));
    assert_eq!(q.player_attack[0].1.player, 1);
    assert!(q.player_join.is_empty() && q.delayed.is_empty());
    world.players[0].bundle._active = None;
    let mut dropped = queues();
    let again = PlayerAttackEvent::new(1, PlayerName("Ann".to_string()), 4, BygonePart::Core);
    handle_player_attack(again, &world, &games, &mut dropped.player_attack, &mut dropped.delayed, &mut dropped.player_join);
    assert!(dropped.player_attack.is_empty() && dropped.player_join.is_empty() && dropped.delayed.is_empty());
}

#[test]
fn last_row_of_a_user_decides() {
    let mut world = World::new();
    let mut games = GameRegistry::new();
    games.insert(4, Game::new(GameId(9), 30, english(), 0));
    world.spawn_player(PlayerBundle::new(1, PlayerName("Ann".to_string()), GameId(8)));
    world.spawn_player(PlayerBundle::new(2, PlayerName("Bob".to_string()), GameId(9)));
    world.spawn_player(PlayerBundle::new(1, PlayerName("Ann".to_string()), GameId(9)));
    assert_eq!(world.find_last_row_of(1), Some(2));
    assert_eq!(world.find_last_row_of(2), Some(1));
    assert_eq!(world.find_last_row_of(3), None);
    world.players[2].bundle._active = None;
    let mut q = queues();
    let attack = PlayerAttackEvent::new(1, PlayerName("Ann".to_string()), 4, BygonePart::Core);
    handle_player_attack(attack, &world, &games, &mut q.player_attack, &mut q.delayed, &mut q.player_join);
    assert!(q.player_attack.is_empty() && q.player_join.is_empty() && q.delayed.is_empty());
    world.players[2].bundle._active = Some(bygone_battle::components::Active);
    world.players[0].bundle._active = None;
    let again = PlayerAttackEvent::new(1, PlayerName("Ann".to_string()), 4, BygonePart::Core);
    handle_player_attack(again, &world, &games, &mut q.player_attack, &mut q.delayed, &mut q.player_join);
    assert_eq!(q.player_attack.len(), 1);
}

#[test]
fn inputs_are_answered_in_their_order() {
    let world = World::new();
    let mut games = GameRegistry::new();
    let mut log = BattleLog::new();
    let mut q = queues();
    let attack_before = PlayerAttackEvent::new(2, PlayerName("Bob".to_string()), 4, BygonePart::Gun);
    let attack_after = PlayerAttackEvent::new(2, PlayerName("Bob".to_string()), 4, BygonePart::Gun);
    run(
        vec![InputEvent::PlayerAttack(attack_before), InputEvent::GameStart(start(1, 4, 30)), InputEvent::PlayerAttack(attack_after)],
        7,
        &world,
        &mut games,
        &mut log,
        &mut q,
    );
    assert_eq!(games.get(4).unwrap().id, GameId(8));
    assert_eq!(q.player_join.len(), 2);
    assert_eq!(q.player_join[0].player, 1);
    assert_eq!(q.player_join[1].player, 2);
    assert_eq!(q.delayed.len(), 2);
    assert!(matches!(&q.delayed[0], DelayedEvent::GameDraw(_)));
    assert!(matches!(&q.delayed[1], DelayedEvent::PlayerAttack(_)));
}

#[test]
fn registry_keeps_one_battle_for_each_guild() {
    let mut games = GameRegistry::new();
    assert!(games.get(1).is_none());
    assert!(games.insert(1, Game::new(GameId(1), 10, english(), 0)).is_none());
    assert!(games.insert(2, Game::new(GameId(2), 20, english(), 0)).is_none());
    let replaced = games.insert(1, Game::new(GameId(3), 30, english(), 5)).unwrap();
    assert_eq!(replaced.id, GameId(1));
    assert_eq!(games.entries.len(), 2);
    assert_eq!(games.find(1), Some(0));
    assert_eq!(games.find(2), Some(1));
    assert_eq!(games.find(3), None);
    assert_eq!(games.get(1).unwrap().id, GameId(3));
    assert_eq!(games.get(2).unwrap().id, GameId(2));
}

#[test]
fn new_battle_gets_an_identity_that_nothing_holds() {
    let mut world = World::new();
    let mut games = GameRegistry::new();
    assert_eq!(new_game_id(&games, &world, 1_000, 0), GameId(1_000));
    assert_eq!(new_game_id(&games, &world, 1_000, 7), GameId(1_007));
    games.insert(4, Game::new(GameId(1_000), 30, english(), 0));
    world.spawn_player(PlayerBundle::new(1, PlayerName("Ann".to_string()), GameId(1_001)));
    let stats = BygoneStats { wings_health: 1, core_health: 1, sensor_health: 1, gun_health: 1, attack_damage: 1 };
    world.spawn_enemy(Bygone03Bundle::from_stats(stats, GameId(1_003)));
    let mut used = used_ids(&games, &world);
    used.sort();
    assert_eq!(used, vec![1_000, 1_001, 1_003]);
    assert_eq!(new_game_id(&games, &world, 1_000, 0), GameId(1_002));
    assert_eq!(new_game_id(&games, &world, 1_000, 1), GameId(1_002));
    assert_eq!(new_game_id(&games, &world, 1_000, 3), GameId(1_004));
    assert_eq!(new_game_id(&games, &world, 999, 0), GameId(999));
    games.insert(5, Game::new(GameId(u128::MAX), 31, english(), 0));
    assert_eq!(new_game_id(&games, &world, u128::MAX, 0), GameId(0));
    games.insert(6, Game::new(GameId(0), 32, english(), 0));
    assert_eq!(new_game_id(&games, &world, u128::MAX, 0), GameId(1));
}

#[test]
fn two_battles_never_share_an_identity() {
    let world = World::new();
    let mut games = GameRegistry::new();
    let mut log = BattleLog::new();
    let mut q = queues();
    run(vec![InputEvent::GameStart(start(1, 4, 30))], 6, &world, &mut games, &mut log, &mut q);
    run(vec![InputEvent::GameStart(start(2, 5, 31)), InputEvent::GameStart(start(3, 6, 32))], 5, &world, &mut games, &mut log, &mut q);
    assert_eq!(games.get(4).unwrap().id, GameId(6));
    assert_eq!(games.get(5).unwrap().id, GameId(5));
    assert_eq!(games.get(6).unwrap().id, GameId(7));
    assert_eq!(q.bygone_spawn.len(), 3);
    assert_eq!(q.bygone_spawn[2].game_id, GameId(7));
    assert_eq!(q.player_join[2].game_id, GameId(7));
}

#[test]
fn battle_that_replaces_another_gets_another_identity() {
    let mut world = World::new();
    let mut games = GameRegistry::new();
    let mut log = BattleLog::new();
    let mut q = queues();
    run(vec![InputEvent::GameStart(start(1, 4, 30))], 1_000 * SEC, &world, &mut games, &mut log, &mut q);
    let first = games.get(4).unwrap().id;
    assert_eq!(first, GameId(1_000 * SEC));
    world.spawn_player(PlayerBundle::new(1, PlayerName("Ann".to_string()), first));
    games.entries[0].game.start_time = 0;
    let mut second = queues();
    run(vec![InputEvent::GameStart(start(2, 4, 31))], 1_000 * SEC, &world, &mut games, &mut log, &mut second);
    assert_eq!(second.deallocate, vec![DeallocateGameResourcesEvent::new(first)]);
    assert_eq!(games.get(4).unwrap().id, GameId(1_000 * SEC + 1));
    assert_ne!(games.get(4).unwrap().id, first);
}
