use bygone_battle::bundles::{Bygone03Bundle, BygoneStats};
use bygone_battle::components::{Bygone03Stage, BygonePart, GameId, Health, PlayerName, Vitality};
use bygone_battle::dice::LoadedDice;
use bygone_battle::discord_client::{
    merge_with_cached, next_cache, plan_render, plan_render_with, CachedGame, RenderAction,
    RenderOutcome,
};
use bygone_battle::discord_renderer::{
    filled_count, get_button_style, make_controls_button, render_turn_timer, ButtonStyle,
    DiscordRenderer, GameRenderError, RenderedGame, RenderedMessage, RenderedMessagePure,
    PROGRESS_BAR_SIZE,
};
use bygone_battle::events::{GameRenderPayload, OneshotType, OngoingGamePayload};
use bygone_battle::game_helpers::FinishedGameStatus;
use bygone_battle::localization::{Language, Localization, Localizations};

fn english() -> Localization {
    Localizations::new().get(Language::En).clone()
}

fn payload() -> OngoingGamePayload {
    let mut enemy = Bygone03Bundle::from_stats(
        BygoneStats { wings_health: 1, core_health: 3, sensor_health: 2, gun_health: 2, attack_damage: 2 },
        GameId(1),
    );
    let mut gun = Vitality::new(2, 50);
    gun.take_attack(1, 50);
    enemy.parts.set(BygonePart::Gun, gun);
    let mut wing = Vitality::new(1, 30);
    wing.take_attack(1, 30);
    enemy.parts.set(BygonePart::LeftWing, wing);
    let mut hurt = Vitality::new(6, 100);
    hurt.take_attack(2, 100);
    OngoingGamePayload {
        bygone_parts: enemy.parts,
        bygone_attack: enemy.attack,
        bygone_stage: Bygone03Stage::Exposed,
        battle_log_lines: vec!["one".to_string(), "two".to_string()],
        players: vec![(PlayerName("Ann".to_string()), Vitality::new(6, 100)), (PlayerName("Bob".to_string()), hurt)],
    }
}

fn text_message(text: &str) -> RenderedMessagePure {
    DiscordRenderer::render_oneshot(OneshotType::OtherGameInProgress, &{
        let mut loc = english();
        loc.other_battle_ongoing.0 = text.to_string();
        loc
    })
}

fn description(message: &RenderedMessage) -> String {
    match message {
        RenderedMessage::Message(message) => message.embeds[0].description.clone().unwrap(),
        _ => panic!("no message"),
    }
}

#[test]
fn button_style_follows_the_health() {
    let mut health = Health::new(4);
    assert_eq!(get_button_style(&health), ButtonStyle::Success);
    health.reduce(1);
    assert_eq!(get_button_style(&health), ButtonStyle::Success);
    health.reduce(1);
    assert_eq!(get_button_style(&health), ButtonStyle::Danger);
    health.reduce(1);
    assert_eq!(get_button_style(&health), ButtonStyle::Danger);
    health.reduce(1);
    assert_eq!(get_button_style(&health), ButtonStyle::Secondary);
    assert_eq!(get_button_style(&Health::new(1)), ButtonStyle::Success);
    assert_eq!(get_button_style(&Health::new(0)), ButtonStyle::Secondary);
}

#[test]
fn controls_button_is_disabled_when_the_part_is_dead() {
    let alive = make_controls_button("🇸", &Health::new(2));
    assert_eq!(alive.custom_id.as_deref(), Some("🇸"));
    assert_eq!(alive.emoji.as_deref(), Some("🇸"));
    assert_eq!(alive.label, None);
    assert!(!alive.disabled);
    assert_eq!(alive.style, ButtonStyle::Success);
    let dead = make_controls_button("🇨", &Health::new(0));
    assert!(dead.disabled);
    assert_eq!(dead.style, ButtonStyle::Secondary);
}

#[test]
fn turn_timer_fills_the_squares() {
    assert_eq!(render_turn_timer(0, 4), ":white_large_square::white_large_square::white_large_square::white_large_square:");
    assert_eq!(render_turn_timer(1, 4), ":red_square::white_large_square::white_large_square::white_large_square:");
    assert_eq!(render_turn_timer(4, 4), ":red_square::red_square::red_square::red_square:");
    assert_eq!(render_turn_timer(9, 2), ":red_square::red_square:");
    assert_eq!(render_turn_timer(0, 0), "");
}

#[test]
fn filled_squares_round_the_progress() {
    assert_eq!(PROGRESS_BAR_SIZE, 4);
    assert_eq!(filled_count(0), 0);
    assert_eq!(filled_count(9), 0);
    assert_eq!(filled_count(10), 1);
    assert_eq!(filled_count(20), 1);
    assert_eq!(filled_count(29), 1);
    assert_eq!(filled_count(30), 2);
    assert_eq!(filled_count(40), 2);
    assert_eq!(filled_count(60), 3);
    assert_eq!(filled_count(80), 4);
    assert_eq!(filled_count(100), 4);
    assert_eq!(filled_count(i32::MAX), 4);
}

#[test]
fn full_progress_maps_to_a_full_bar() {
    assert_eq!(render_turn_timer(filled_count(100), PROGRESS_BAR_SIZE), ":red_square:".repeat(4));
}

#[test]
fn negative_progress_clamps_to_an_empty_bar() {
    assert_eq!(filled_count(-1), 0);
    assert_eq!(filled_count(i32::MIN), 0);
    assert_eq!(render_turn_timer(filled_count(-50), PROGRESS_BAR_SIZE), ":white_large_square:".repeat(4));
}

#[test]
fn ongoing_game_renders_the_upper_message() {
    let loc = english();
    let game = DiscordRenderer::render_ongoing_game(&loc, &payload());
    let upper = &game.upper_message;
    assert_eq!(upper.embeds.len(), 2);
    assert_eq!(upper.embeds[0].description.as_deref(), Some("DES...TROY."));
    assert_eq!(
        upper.embeds[0].image_url.as_deref(),
        Some("https://cdn.discordapp.com/attachments/924690917108121661/1015027218264641556/bygone_03_cropped.gif")
    );
    assert!(upper.embeds[0].fields.is_empty());
    let fields = &upper.embeds[1].fields;
    assert_eq!(upper.embeds[1].description, None);
    assert_eq!(fields.len(), 6);
    assert_eq!(fields[0].name, "Status");
    assert_eq!(fields[0].value, " • ATK 2, 100%\n • core: *exposed!*");
    assert!(!fields[0].inline);
    assert_eq!(fields[1].name, ":regional_indicator_s:ensor");
    assert_eq!(fields[1].value, "[▮▮] - 20%");
    assert_eq!(fields[2].name, ":regional_indicator_c:ore");
    assert_eq!(fields[2].value, "[▮▮▮] - 30%");
    assert_eq!(fields[3].name, ":regional_indicator_g:un");
    assert_eq!(fields[3].value, "[▮▯] - 50%");
    assert_eq!(fields[4].name, ":regional_indicator_r:ight wing");
    assert_eq!(fields[4].value, "[▮] - 70%");
    assert_eq!(fields[5].name, ":regional_indicator_l:eft wing");
    assert_eq!(fields[5].value, "[X]");
    assert!(fields[1..].iter().all(|field| field.inline));
}

#[test]
fn ongoing_game_renders_the_buttons() {
    let loc = english();
    let game = DiscordRenderer::render_ongoing_game(&loc, &payload());
    let rows = &game.upper_message.components;
    assert_eq!(rows.len(), 2);
    let first: Vec<_> = rows[0].components.iter().map(|b| (b.custom_id.clone().unwrap(), b.disabled, b.style)).collect();
    assert_eq!(
        first,
        vec![
            ("🇸".to_string(), false, ButtonStyle::Success),
            ("🇨".to_string(), false, ButtonStyle::Success),
            ("🇬".to_string(), false, ButtonStyle::Danger),
        ]
    );
    let second: Vec<_> = rows[1].components.iter().map(|b| (b.custom_id.clone().unwrap(), b.disabled, b.style)).collect();
    assert_eq!(
        second,
        vec![
            ("🇷".to_string(), false, ButtonStyle::Success),
            ("status".to_string(), true, ButtonStyle::Secondary),
            ("🇱".to_string(), true, ButtonStyle::Secondary),
        ]
    );
    assert_eq!(rows[1].components[1].label.as_deref(), Some(" "));
    assert_eq!(rows[1].components[1].emoji, None);
    assert_eq!(rows[0].components[0].emoji.as_deref(), Some("🇸"));
}

#[test]
fn ongoing_game_renders_the_lower_message() {
    let loc = english();
    let game = DiscordRenderer::render_ongoing_game(&loc, &payload());
    let lower = &game.lower_message;
    assert!(lower.components.is_empty());
    assert_eq!(lower.embeds.len(), 3);
    assert_eq!(lower.embeds[0].fields.len(), 1);
    assert_eq!(lower.embeds[0].fields[0].name, "Turn timer");
    assert_eq!(lower.embeds[0].fields[0].value, ":white_large_square:".repeat(4));
    assert_eq!(lower.embeds[1].fields[0].name, "Battle log");
    assert_eq!(lower.embeds[1].fields[0].value, " • one\n • two");
    let players = &lower.embeds[2].fields;
    assert_eq!(players.len(), 2);
    assert_eq!(players[0].name, "Ann");
    assert_eq!(players[0].value, "[▮▮▮▮▮▮]");
    assert_eq!(players[1].name, "Bob");
    assert_eq!(players[1].value, "[▮▮▮▮▯▯]");
    assert!(!players[0].inline);
}

#[test]
fn ongoing_game_without_log_and_players() {
    let loc = english();
    let mut empty = payload();
    empty.battle_log_lines.clear();
    empty.players.clear();
    let game = DiscordRenderer::render_ongoing_game(&loc, &empty);
    assert_eq!(game.lower_message.embeds.len(), 3);
    assert!(game.lower_message.embeds[1].fields.is_empty());
    assert_eq!(game.lower_message.embeds[1].description, None);
    assert_eq!(game.lower_message.embeds[0].fields[0].value, ":white_large_square:".repeat(4));
    assert!(game.lower_message.components.is_empty());
    assert!(DiscordRenderer::render_log(&loc, &Vec::new()).fields.is_empty());
    let one = DiscordRenderer::render_log(&loc, &vec!["only".to_string()]);
    assert_eq!(one.fields.len(), 1);
    assert_eq!(one.fields[0].name, "Battle log");
    assert_eq!(one.fields[0].value, " • only");
    assert!(game.lower_message.embeds[2].fields.is_empty());
}

#[test]
fn finished_game_says_how_it_ended_and_deletes_the_lower_message() {
    let loc = english();
    let won = DiscordRenderer::render_finished_game_with(&loc, FinishedGameStatus::Won, 0);
    assert_eq!(description(&won.upper_message), "*Man triumphs over machine!*");
    assert!(matches!(won.lower_message, RenderedMessage::Delete));
    let lost = DiscordRenderer::render_finished_game_with(&loc, FinishedGameStatus::Lost, 7);
    assert_eq!(description(&lost.upper_message), "*This darkness… Am I… dead? It’s so peaceful.*");
    let expired = DiscordRenderer::render_finished_game_with(&loc, FinishedGameStatus::Expired, 1);
    assert_eq!(description(&expired.upper_message), "*Heart. Heart. Blushing cat face. Heart.*");
    match &expired.upper_message {
        RenderedMessage::Message(message) => {
            assert_eq!(message.embeds.len(), 1);
            assert!(message.components.is_empty());
            assert!(message.embeds[0].fields.is_empty());
        }
        _ => panic!("no message"),
    }
}

#[test]
fn dice_pick_the_line_of_an_expired_game() {
    let loc = english();
    let mut dice = LoadedDice::new(vec![2, 3]);
    let first = DiscordRenderer::render_finished_game(&loc, FinishedGameStatus::Expired, &mut dice);
    assert_eq!(
        description(&first.upper_message),
        "*That’s it. I can’t watch this anymore. Just give me a moment, and I’ll deal with this thing.*"
    );
    let second = DiscordRenderer::render_finished_game(&loc, FinishedGameStatus::Expired, &mut dice);
    assert_eq!(description(&second.upper_message), "*Heart. Heart. Blushing cat face. Heart.*");
    let won = DiscordRenderer::render_finished_game(&loc, FinishedGameStatus::Won, &mut dice);
    assert_eq!(description(&won.upper_message), "*Man triumphs over machine!*");
}

#[test]
fn oneshot_names_the_seconds_left() {
    let loc = english();
    let cooldown = DiscordRenderer::render_oneshot(OneshotType::Cooldown(890), &loc);
    assert_eq!(cooldown.embeds.len(), 1);
    assert_eq!(cooldown.embeds[0].description.as_deref(), Some("*_03 is repairing itself, it will be ready in 890s*"));
    assert!(cooldown.components.is_empty());
    let busy = DiscordRenderer::render_oneshot(OneshotType::OtherGameInProgress, &loc);
    assert_eq!(busy.embeds[0].description.as_deref(), Some("*_03 is busy: somebody is already trying to leave Royce!*"));
}

#[test]
fn turn_progress_replaces_the_first_embed_of_the_lower_message() {
    let loc = english();
    let previous = RenderedGame::from(DiscordRenderer::render_ongoing_game(&loc, &payload()));
    let rendered = DiscordRenderer::render_turn_progress(9, &previous, &loc, 60).unwrap();
    assert!(matches!(rendered.upper_message, RenderedMessage::Skip));
    match &rendered.lower_message {
        RenderedMessage::Message(lower) => {
            assert_eq!(lower.embeds.len(), 3);
            assert_eq!(lower.embeds[0].fields[0].name, "Turn timer");
            assert_eq!(lower.embeds[0].fields[0].value, ":red_square::red_square::red_square::white_large_square:");
            assert_eq!(lower.embeds[1].fields[0].value, " • one\n • two");
            assert_eq!(lower.embeds[2].fields.len(), 2);
            assert_eq!(lower.embeds[2].fields[1].value, "[▮▮▮▮▯▯]");
        }
        _ => panic!("no message"),
    }
    match &previous.lower_message {
        RenderedMessage::Message(lower) => assert_eq!(lower.embeds[0].fields[0].value, ":white_large_square:".repeat(4)),
        _ => panic!("no message"),
    }
}

#[test]
fn turn_progress_of_a_message_without_embeds_adds_the_bar() {
    let loc = english();
    let previous = RenderedGame {
        upper_message: RenderedMessage::Delete,
        lower_message: RenderedMessage::Message(RenderedMessagePure { embeds: Vec::new(), components: Vec::new() }),
    };
    let rendered = DiscordRenderer::render_turn_progress(9, &previous, &loc, 100).unwrap();
    match &rendered.lower_message {
        RenderedMessage::Message(lower) => {
            assert_eq!(lower.embeds.len(), 1);
            assert_eq!(lower.embeds[0].fields[0].value, ":red_square:".repeat(4));
        }
        _ => panic!("no message"),
    }
}

#[test]
fn turn_progress_without_a_lower_message_is_an_error() {
    let loc = english();
    for lower in [RenderedMessage::Delete, RenderedMessage::Skip] {
        let previous = RenderedGame { upper_message: RenderedMessage::Skip, lower_message: lower };
        let error = DiscordRenderer::render_turn_progress(77, &previous, &loc, 40).unwrap_err();
        assert_eq!(error.id, 77);
        assert_eq!(error.msg, "can't write progress bar for deleted or skipped lower message");
        assert_eq!(error.to_string(), "can't write progress bar for deleted or skipped lower message, guild id: 77");
    }
    assert_eq!(GameRenderError::new(5, "x".to_string()).to_string(), "x, guild id: 5");
}

#[test]
fn rendered_messages_are_copied_whole() {
    let loc = english();
    let game = DiscordRenderer::render_ongoing_game(&loc, &payload());
    let copy = game.upper_message.clone();
    assert_eq!(copy.embeds.len(), 2);
    assert_eq!(copy.embeds[1].fields[3].value, "[▮▯] - 50%");
    assert_eq!(copy.embeds[0].image_url, game.upper_message.embeds[0].image_url);
    assert_eq!(copy.components[1].components[1].custom_id.as_deref(), Some("status"));
    assert_eq!(copy.components[0].components.len(), 3);
}

#[test]
fn cache_keeps_what_was_skipped() {
    let mut cached = RenderedGame {
        upper_message: RenderedMessage::from(text_message("upper")),
        lower_message: RenderedMessage::from(text_message("lower")),
    };
    merge_with_cached(
        RenderedGame { upper_message: RenderedMessage::Skip, lower_message: RenderedMessage::from(text_message("new lower")) },
        &mut cached,
    );
    assert_eq!(description(&cached.upper_message), "upper");
    assert_eq!(description(&cached.lower_message), "new lower");
    merge_with_cached(
        RenderedGame { upper_message: RenderedMessage::from(text_message("new upper")), lower_message: RenderedMessage::Delete },
        &mut cached,
    );
    assert_eq!(description(&cached.upper_message), "new upper");
    assert!(matches!(cached.lower_message, RenderedMessage::Delete));
    merge_with_cached(
        RenderedGame { upper_message: RenderedMessage::Delete, lower_message: RenderedMessage::Skip },
        &mut cached,
    );
    assert!(matches!(cached.upper_message, RenderedMessage::Delete));
    assert!(matches!(cached.lower_message, RenderedMessage::Delete));
}

fn remembered(interaction_id: u64) -> Option<CachedGame> {
    Some(CachedGame {
        interaction_id,
        followup_id: 500,
        rendered: RenderedGame::from(DiscordRenderer::render_ongoing_game(&english(), &payload())),
    })
}

#[test]
fn ongoing_game_is_created_where_nothing_is_remembered() {
    let loc = english();
    let action = plan_render_with(&None, 4, 30, &loc, GameRenderPayload::OngoingGame(payload()), 0);
    match &action {
        RenderAction::CreateGame(game) => {
            assert_eq!(game.upper_message.embeds.len(), 2);
            assert_eq!(game.lower_message.embeds[1].fields[0].value, " • one\n • two");
        }
        _ => panic!("the messages are created"),
    }
    let other = plan_render_with(&remembered(31), 4, 30, &loc, GameRenderPayload::OngoingGame(payload()), 0);
    assert!(matches!(other, RenderAction::CreateGame(_)));
    let failed = next_cache(remembered(31), 30, other, RenderOutcome::Failed).unwrap();
    assert_eq!(failed.interaction_id, 31);
    let created = next_cache(remembered(31), 30, action, RenderOutcome::Created(77)).unwrap();
    assert_eq!(created.interaction_id, 30);
    assert_eq!(created.followup_id, 77);
    assert!(matches!(created.rendered.upper_message, RenderedMessage::Message(_)));
    assert!(matches!(created.rendered.lower_message, RenderedMessage::Message(_)));
}

#[test]
fn ongoing_game_is_replaced_where_it_is_remembered() {
    let loc = english();
    let mut shown = payload();
    shown.battle_log_lines = vec!["three".to_string()];
    let action = plan_render_with(&remembered(30), 4, 30, &loc, GameRenderPayload::OngoingGame(shown), 0);
    assert!(matches!(&action, RenderAction::ReplaceGame { followup_id: 500, .. }));
    let next = next_cache(remembered(30), 30, action, RenderOutcome::Updated).unwrap();
    assert_eq!(next.followup_id, 500);
    match &next.rendered.lower_message {
        RenderedMessage::Message(lower) => assert_eq!(lower.embeds[1].fields[0].value, " • three"),
        _ => panic!("no message"),
    }
    let mut again = payload();
    again.battle_log_lines.clear();
    let action = plan_render_with(&remembered(30), 4, 30, &loc, GameRenderPayload::OngoingGame(again), 0);
    let kept = next_cache(remembered(30), 30, action, RenderOutcome::Failed).unwrap();
    match &kept.rendered.lower_message {
        RenderedMessage::Message(lower) => assert_eq!(lower.embeds[1].fields[0].value, " • one\n • two"),
        _ => panic!("no message"),
    }
}

#[test]
fn finished_game_is_shown_and_forgotten() {
    let loc = english();
    let action = plan_render_with(&remembered(30), 4, 30, &loc, GameRenderPayload::FinishedGame(FinishedGameStatus::Expired), 1);
    match &action {
        RenderAction::UpdateGame { followup_id, game, forget } => {
            assert_eq!(*followup_id, 500);
            assert!(*forget);
            assert_eq!(description(&game.upper_message), "*Heart. Heart. Blushing cat face. Heart.*");
            assert!(matches!(game.lower_message, RenderedMessage::Delete));
        }
        _ => panic!("the messages are updated"),
    }
    assert!(next_cache(remembered(30), 30, action, RenderOutcome::LowerDeleted).is_none());
    let failed = plan_render_with(&remembered(30), 4, 30, &loc, GameRenderPayload::FinishedGame(FinishedGameStatus::Won), 0);
    assert!(next_cache(remembered(30), 30, failed, RenderOutcome::Failed).is_none());
    let unknown = plan_render_with(&remembered(31), 4, 30, &loc, GameRenderPayload::FinishedGame(FinishedGameStatus::Lost), 0);
    assert!(matches!(unknown, RenderAction::CacheNotFound));
    assert_eq!(next_cache(remembered(31), 30, unknown, RenderOutcome::Failed).unwrap().interaction_id, 31);
    let mut dice = LoadedDice::new(vec![3]);
    let drawn = plan_render(&remembered(30), 4, 30, &loc, GameRenderPayload::FinishedGame(FinishedGameStatus::Expired), &mut dice);
    match &drawn {
        RenderAction::UpdateGame { game, .. } => assert_eq!(description(&game.upper_message), "*Heart. Heart. Blushing cat face. Heart.*"),
        _ => panic!("the messages are updated"),
    }
}

#[test]
fn turn_progress_is_written_into_the_remembered_message() {
    let loc = english();
    let action = plan_render_with(&remembered(30), 4, 30, &loc, GameRenderPayload::TurnProgress(40), 0);
    match &action {
        RenderAction::UpdateGame { followup_id, game, forget } => {
            assert_eq!(*followup_id, 500);
            assert!(!*forget);
            assert!(matches!(game.upper_message, RenderedMessage::Skip));
        }
        _ => panic!("the messages are updated"),
    }
    let next = next_cache(remembered(30), 30, action, RenderOutcome::Updated).unwrap();
    match (&next.rendered.upper_message, &next.rendered.lower_message) {
        (RenderedMessage::Message(upper), RenderedMessage::Message(lower)) => {
            assert_eq!(upper.embeds.len(), 2);
            assert_eq!(lower.embeds[0].fields[0].value, ":red_square::red_square::white_large_square::white_large_square:");
        }
        _ => panic!("no message"),
    }
    let gone = plan_render_with(&remembered(30), 4, 30, &loc, GameRenderPayload::TurnProgress(60), 0);
    let kept = next_cache(remembered(30), 30, gone, RenderOutcome::LowerDeleted).unwrap();
    match &kept.rendered.lower_message {
        RenderedMessage::Message(lower) => assert_eq!(lower.embeds[0].fields[0].value, ":white_large_square:".repeat(4)),
        _ => panic!("no message"),
    }
    assert!(matches!(plan_render_with(&None, 4, 30, &loc, GameRenderPayload::TurnProgress(60), 0), RenderAction::CacheNotFound));
    let mut without = remembered(30);
    without.as_mut().unwrap().rendered.lower_message = RenderedMessage::Delete;
    match plan_render_with(&without, 4, 30, &loc, GameRenderPayload::TurnProgress(60), 0) {
        RenderAction::RenderFailed(error) => {
            assert_eq!(error.id, 4);
            assert_eq!(error.msg, "can't write progress bar for deleted or skipped lower message");
        }
        _ => panic!("the bar cannot be drawn"),
    }
}

#[test]
fn oneshot_is_created_whatever_is_remembered() {
    let loc = english();
    for entry in [None, remembered(30), remembered(31)] {
        let action = plan_render_with(&entry, 4, 30, &loc, GameRenderPayload::OneshotMessage(OneshotType::Cooldown(5)), 0);
        match &action {
            RenderAction::CreateMessage(message) => assert_eq!(
                message.embeds[0].description.as_deref(),
                Some("*_03 is repairing itself, it will be ready in 5s*")
            ),
            _ => panic!("a message is created"),
        }
        let before = entry.as_ref().map(|cached| cached.interaction_id);
        let next = next_cache(entry, 30, action, RenderOutcome::Updated);
        assert_eq!(next.map(|cached| cached.interaction_id), before);
    }
}
