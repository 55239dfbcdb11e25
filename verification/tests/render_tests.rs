use bygone_battle::battle_log::{log_battle, log_battle_picks, log_battle_with, render_log_line, BattleLog};
use bygone_battle::bundles::{Bygone03Bundle, BygoneParts, BygoneStats, PlayerBundle};
use bygone_battle::components::{Attack, Bygone03Stage, BygonePart, GameId, PlayerName, Vitality};
use bygone_battle::dice::LoadedDice;
use bygone_battle::events::{
    BattleLogEvent, GameDrawEvent, GameRenderPayload, PlayerJoinEvent, ProgressBarUpdateEvent,
};
use bygone_battle::game_helpers::{FinishedGameStatus, Game, GameStatus};
use bygone_battle::localization::{Language, Localization, LocalizedLine, Localizations};
use bygone_battle::registry::GameRegistry;
use bygone_battle::render::{collect_roster, render, take_snapshot};
use bygone_battle::world::World;

fn english() -> Localization {
    Localizations::new().get(Language::En).clone()
}

fn name(text: &str) -> PlayerName {
    PlayerName(text.to_string())
}

fn registry() -> GameRegistry {
    let mut games = GameRegistry::new();
    games.insert(4, Game::new(GameId(1), 30, english(), 0));
    games
}

fn stats(health: usize) -> BygoneStats {
    BygoneStats { wings_health: health, core_health: health, sensor_health: health, gun_health: health, attack_damage: 2 }
}

#[test]
fn battle_log_keeps_the_lines_of_each_guild() {
    let mut log = BattleLog::new();
    log.push(1, "a".to_string());
    log.push(2, "b".to_string());
    log.push(1, "c".to_string());
    assert_eq!(log.take(1), vec!["a".to_string(), "c".to_string()]);
    assert!(log.take(1).is_empty());
    assert!(log.take(3).is_empty());
    log.remove(2);
    assert!(log.take(2).is_empty());
    log.push(1, "d".to_string());
    assert_eq!(log.take(1), vec!["d".to_string()]);
}

#[test]
fn log_lines_name_player_part_and_machine() {
    let loc = english();
    assert_eq!(
        render_log_line(&loc, &BattleLogEvent::PlayerHit(name("Ann"), BygonePart::LeftWing), &loc.player_hit[0]).0,
        "*Ann* hits the *left wing*"
    );
    assert_eq!(render_log_line(&loc, &BattleLogEvent::PlayerMiss(name("Ann")), &loc.player_miss[1]).0, "*Ann* fights in a drunken style");
    assert_eq!(render_log_line(&loc, &BattleLogEvent::PlayerDead(name("Ann")), &loc.player_dead[0]).0, "*Ann* is knocked out");
    assert_eq!(render_log_line(&loc, &BattleLogEvent::BygoneHit(name("Ann")), &loc.bygone03_hit[0]).0, "*_03* hits *Ann*");
    assert_eq!(render_log_line(&loc, &BattleLogEvent::BygoneMiss, &loc.bygone03_miss[0]).0, "*_03* misses");
    assert_eq!(render_log_line(&loc, &BattleLogEvent::BygoneDead, &loc.bygone03_dead[0]).0, "Man triumphs over machine!");
    assert_eq!(
        render_log_line(&loc, &BattleLogEvent::BygoneHit(name("Ann")), &LocalizedLine::from("{ENEMY_NAME}>{PLAYER_NAME}")).0,
        "_03>Ann"
    );
}

#[test]
fn log_battle_writes_events_and_then_joins() {
    let games = registry();
    let mut log = BattleLog::new();
    let events = vec![
        (4, BattleLogEvent::PlayerMiss(name("Ann"))),
        (9, BattleLogEvent::PlayerMiss(name("Nobody"))),
        (4, BattleLogEvent::BygoneDead),
    ];
    let joins = vec![PlayerJoinEvent::new(1, name("Bob"), GameId(1), 4), PlayerJoinEvent::new(2, name("Eve"), GameId(2), 9)];
    log_battle_with(&games, &vec![2, 0, 0], &vec![1, 0], &mut log, &events, &joins);
    assert_eq!(
        log.take(4),
        vec![
            "*Ann* gets distracted by a silhouette in the window".to_string(),
            "Man triumphs over machine!".to_string(),
            "*Bob* have made themselves a slingshot".to_string(),
        ]
    );
    assert!(log.take(9).is_empty());
}

#[test]
fn dice_pick_the_template_of_each_line() {
    let games = registry();
    let events = vec![
        (4, BattleLogEvent::PlayerMiss(name("Ann"))),
        (9, BattleLogEvent::PlayerMiss(name("Nobody"))),
        (4, BattleLogEvent::BygoneDead),
    ];
    let joins = vec![PlayerJoinEvent::new(1, name("Bob"), GameId(1), 4)];
    let mut dice = LoadedDice::new(vec![5, 7, 4]);
    assert_eq!(log_battle_picks(&games, &mut dice, &events, &joins), (vec![2, 0, 0], vec![1]));
    let mut log = BattleLog::new();
    let mut loaded = LoadedDice::new(vec![0, 0, 2]);
    log_battle(&games, &mut loaded, &mut log, &events, &joins);
    assert_eq!(
        log.take(4),
        vec!["*Ann* misses".to_string(), "Man triumphs over machine!".to_string(), "*Bob* was just trying to leave Royce".to_string()]
    );
}

#[test]
fn localization_without_templates_writes_no_line() {
    let mut loc = english();
    loc.player_miss.clear();
    loc.player_join.clear();
    let mut games = GameRegistry::new();
    games.insert(4, Game::new(GameId(1), 30, loc, 0));
    let mut log = BattleLog::new();
    let events = vec![(4, BattleLogEvent::PlayerMiss(name("Ann"))), (4, BattleLogEvent::BygoneMiss)];
    let joins = vec![PlayerJoinEvent::new(1, name("Bob"), GameId(1), 4)];
    let mut dice = LoadedDice::new(vec![1]);
    log_battle(&games, &mut dice, &mut log, &events, &joins);
    assert_eq!(log.take(4), vec!["*_03* is seeing double".to_string()]);
}

#[test]
fn roster_holds_the_players_of_the_battle_in_order() {
    let mut world = World::new();
    world.spawn_player(PlayerBundle::new(1, name("Ann"), GameId(1)));
    world.spawn_player(PlayerBundle::new(2, name("Eve"), GameId(2)));
    world.spawn_player(PlayerBundle::new(3, name("Bob"), GameId(1)));
    world.players[2].bundle._active = None;
    world.players[2].bundle.vitality.take_attack(2, 100);
    let roster = collect_roster(&world.players, GameId(1));
    assert_eq!(roster.len(), 2);
    assert_eq!(roster[0].0 .0, "Ann");
    assert_eq!(roster[0].1, Vitality::new(6, 100));
    assert_eq!(roster[1].0 .0, "Bob");
    assert_eq!(roster[1].1.health().current(), 4);
    assert!(collect_roster(&world.players, GameId(3)).is_empty());
}

#[test]
fn snapshot_of_a_battle_without_a_machine_shows_none() {
    let world = World::new();
    let payload = take_snapshot(&world, GameId(1), Vec::new());
    assert_eq!(payload.bygone_parts, BygoneParts::default());
    assert_eq!(payload.bygone_attack, Attack::default());
    assert_eq!(payload.bygone_attack, Attack::new(0, 0));
    assert_eq!(payload.bygone_stage, Bygone03Stage::Armored);
    assert!(payload.battle_log_lines.is_empty());
    assert!(payload.players.is_empty());
}

#[test]
fn drawing_of_an_ongoing_battle_shows_its_state_and_drains_the_log() {
    let games = registry();
    let mut world = World::new();
    world.spawn_enemy(Bygone03Bundle::from_stats(stats(2), GameId(1)));
    world.spawn_player(PlayerBundle::new(1, name("Ann"), GameId(1)));
    world.enemies[0].bundle.stage = Bygone03Stage::Burning;
    let mut log = BattleLog::new();
    log.push(4, "first".to_string());
    log.push(4, "second".to_string());
    log.push(5, "elsewhere".to_string());
    let mut out = Vec::new();
    render(&games, &world, &mut log, &vec![GameDrawEvent::new(4), GameDrawEvent::new(4), GameDrawEvent::new(8)], &Vec::new(), &mut out);
    assert_eq!(out.len(), 2);
    assert_eq!(out[0].guild_id, 4);
    assert_eq!(out[0].interaction_id, 30);
    assert_eq!(out[0].loc.log_title.0, "Battle log");
    match &out[0].payload {
        GameRenderPayload::OngoingGame(payload) => {
            assert_eq!(payload.bygone_parts, world.enemies[0].bundle.parts);
            assert_eq!(payload.bygone_attack, Attack::new(2, 100));
            assert_eq!(payload.bygone_stage, Bygone03Stage::Burning);
            assert_eq!(payload.battle_log_lines, vec!["first".to_string(), "second".to_string()]);
            assert_eq!(payload.players.len(), 1);
            assert_eq!(payload.players[0].0 .0, "Ann");
            assert_eq!(payload.players[0].1, Vitality::new(6, 100));
        }
        _ => panic!("an ongoing battle is drawn with its state"),
    }
    match &out[1].payload {
        GameRenderPayload::OngoingGame(payload) => assert!(payload.battle_log_lines.is_empty()),
        _ => panic!("an ongoing battle is drawn with its state"),
    }
    assert!(log.take(4).is_empty());
    assert_eq!(log.take(5), vec!["elsewhere".to_string()]);
}

#[test]
fn empty_battle_log_renders_an_empty_list() {
    let games = registry();
    let world = World::new();
    let mut log = BattleLog::new();
    let mut out = Vec::new();
    render(&games, &world, &mut log, &vec![GameDrawEvent::new(4)], &Vec::new(), &mut out);
    assert!(matches!(&out[0].payload, GameRenderPayload::OngoingGame(payload) if payload.battle_log_lines.is_empty()));
}

#[test]
fn drawing_of_a_finished_battle_shows_how_it_ended() {
    let mut games = registry();
    games.entries[0].game.status = GameStatus::Finished(FinishedGameStatus::Lost);
    let world = World::new();
    let mut log = BattleLog::new();
    log.push(4, "kept".to_string());
    let mut out = Vec::new();
    render(&games, &world, &mut log, &vec![GameDrawEvent::new(4)], &Vec::new(), &mut out);
    assert_eq!(out.len(), 1);
    assert!(matches!(out[0].payload, GameRenderPayload::FinishedGame(FinishedGameStatus::Lost)));
    assert_eq!(log.take(4), vec!["kept".to_string()]);
}

#[test]
fn progress_is_shown_before_the_drawings_and_only_for_ongoing_battles() {
    let mut games = registry();
    games.insert(5, Game::new(GameId(2), 31, english(), 0));
    games.entries[1].game.status = GameStatus::Finished(FinishedGameStatus::Won);
    let world = World::new();
    let mut log = BattleLog::new();
    let mut out = Vec::new();
    render(
        &games,
        &world,
        &mut log,
        &vec![GameDrawEvent::new(5)],
        &vec![ProgressBarUpdateEvent::new(4, 40), ProgressBarUpdateEvent::new(5, 60), ProgressBarUpdateEvent::new(6, 80)],
        &mut out,
    );
    assert_eq!(out.len(), 2);
    assert_eq!(out[0].guild_id, 4);
    assert_eq!(out[0].interaction_id, 30);
    assert!(matches!(out[0].payload, GameRenderPayload::TurnProgress(40)));
    assert_eq!(out[1].guild_id, 5);
    assert!(matches!(out[1].payload, GameRenderPayload::FinishedGame(FinishedGameStatus::Won)));
}
