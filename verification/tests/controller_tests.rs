use bygone_battle::cli::Cli;
use bygone_battle::command_parser::{
    bygone_part_from_emoji_name, is_game_starting, CommandData, CommandOption, BATTLE_COMMAND,
    DIFFICULTY_COMMAND_OPTION, LANGUAGE_COMMAND_OPTION,
};
use bygone_battle::components::BygonePart;
use bygone_battle::controller::{
    interaction_fault, process_interaction, start_game, GameCreateError, Interaction,
    InteractionData, InteractionFault, PartialMember, User,
};
use bygone_battle::events::InputEvent;
use bygone_battle::game_helpers::Difficulty;
use bygone_battle::localization::{Language, Localizations};
use bygone_battle::player_command::PlayerCommand;

fn option(name: &str, value: Option<&str>) -> CommandOption {
    CommandOption { name: name.to_string(), value: value.map(|v| v.to_string()) }
}

fn command(name: &str, options: Vec<CommandOption>) -> CommandData {
    CommandData { name: name.to_string(), options }
}

fn press(button: &str) -> Interaction {
    Interaction {
        id: 100,
        data: Some(InteractionData::MessageComponent { custom_id: button.to_string() }),
        member: Some(PartialMember { user: Some(User { id: 7, name: "ann".to_string() }), nick: Some("Ann".to_string()) }),
        guild_id: Some(4),
    }
}

#[test]
fn names_of_the_command_and_its_options() {
    assert_eq!(BATTLE_COMMAND, "battle");
    assert_eq!(LANGUAGE_COMMAND_OPTION, "language");
    assert_eq!(DIFFICULTY_COMMAND_OPTION, "difficulty");
}

#[test]
fn battle_command_starts_a_game_in_english_at_medium() {
    assert_eq!(is_game_starting(&command("battle", Vec::new())), Some((Language::En, Difficulty::Medium)));
    assert_eq!(is_game_starting(&command("Battle", Vec::new())), None);
    assert_eq!(is_game_starting(&command("other", vec![option("language", Some("ru"))])), None);
}

#[test]
fn options_set_language_and_difficulty() {
    let both = command("battle", vec![option("difficulty", Some("RealBullets")), option("language", Some("ru"))]);
    assert_eq!(is_game_starting(&both), Some((Language::Ru, Difficulty::RealBullets)));
    let unknown = command("battle", vec![option("language", Some("de")), option("difficulty", Some("hard")), option("volume", Some("ru"))]);
    assert_eq!(is_game_starting(&unknown), Some((Language::En, Difficulty::Medium)));
    let no_text = command("battle", vec![option("language", None), option("difficulty", None)]);
    assert_eq!(is_game_starting(&no_text), Some((Language::En, Difficulty::Medium)));
}

#[test]
fn last_option_that_names_a_value_counts() {
    let repeated = command(
        "battle",
        vec![option("language", Some("ru")), option("language", Some("xx")), option("difficulty", Some("Easy")), option("difficulty", Some("Hard")), option("language", Some("en")), option("language", Some("ru"))],
    );
    assert_eq!(is_game_starting(&repeated), Some((Language::Ru, Difficulty::Hard)));
}

#[test]
fn buttons_stand_for_the_parts() {
    assert_eq!(bygone_part_from_emoji_name("🇨"), Some(BygonePart::Core));
    assert_eq!(bygone_part_from_emoji_name("🇸"), Some(BygonePart::Sensor));
    assert_eq!(bygone_part_from_emoji_name("🇱"), Some(BygonePart::LeftWing));
    assert_eq!(bygone_part_from_emoji_name("🇷"), Some(BygonePart::RightWing));
    assert_eq!(bygone_part_from_emoji_name("🇬"), Some(BygonePart::Gun));
    assert_eq!(bygone_part_from_emoji_name("status"), None);
    assert_eq!(bygone_part_from_emoji_name(""), None);
    assert_eq!(bygone_part_from_emoji_name("🇨🇸"), None);
}

#[test]
fn press_of_a_button_is_an_attack() {
    assert_eq!(interaction_fault(&press("🇬")), None);
    match process_interaction(press("🇬")) {
        Some(InputEvent::PlayerAttack(ev)) => {
            assert_eq!(ev.player, 7);
            assert_eq!(ev.player_name.0, "Ann");
            assert_eq!(ev.guild_id, 4);
            assert_eq!(ev.target, BygonePart::Gun);
        }
        _ => panic!("the press of a button is an attack"),
    }
}

#[test]
fn player_without_a_nick_goes_by_the_user_name() {
    let mut interaction = press("🇨");
    interaction.member.as_mut().unwrap().nick = None;
    match process_interaction(interaction) {
        Some(InputEvent::PlayerAttack(ev)) => assert_eq!(ev.player_name.0, "ann"),
        _ => panic!("the press of a button is an attack"),
    }
}

#[test]
fn each_fault_of_an_interaction() {
    let mut no_data = press("🇨");
    no_data.data = None;
    assert_eq!(interaction_fault(&no_data), Some(InteractionFault::EmptyData));
    assert!(process_interaction(no_data).is_none());
    let mut other = press("🇨");
    other.data = Some(InteractionData::Other);
    assert_eq!(interaction_fault(&other), Some(InteractionFault::NotMessageComponent));
    assert!(process_interaction(other).is_none());
    let mut no_member = press("🇨");
    no_member.member = None;
    assert_eq!(interaction_fault(&no_member), Some(InteractionFault::EmptyMember));
    assert!(process_interaction(no_member).is_none());
    let mut no_user = press("🇨");
    no_user.member.as_mut().unwrap().user = None;
    assert_eq!(interaction_fault(&no_user), Some(InteractionFault::EmptyUser));
    assert!(process_interaction(no_user).is_none());
    let mut no_guild = press("🇨");
    no_guild.guild_id = None;
    assert_eq!(interaction_fault(&no_guild), Some(InteractionFault::EmptyGuildId));
    assert!(process_interaction(no_guild).is_none());
    assert_eq!(interaction_fault(&press("status")), Some(InteractionFault::UnknownEmoji));
    assert!(process_interaction(press("status")).is_none());
}

#[test]
fn first_fault_is_named() {
    let mut many = press("status");
    many.guild_id = None;
    many.member = None;
    assert_eq!(interaction_fault(&many), Some(InteractionFault::EmptyMember));
    many.data = None;
    assert_eq!(interaction_fault(&many), Some(InteractionFault::EmptyData));
}

#[test]
fn command_of_a_member_starts_a_game() {
    let localizations = Localizations::new();
    let mut interaction = press("anything");
    interaction.data = None;
    match start_game(localizations.get(Language::Ru).clone(), Difficulty::Hard, &interaction) {
        Some(InputEvent::GameStart(ev)) => {
            assert_eq!(ev.initial_player, 7);
            assert_eq!(ev.initial_player_name.0, "Ann");
            assert_eq!(ev.difficulty, Difficulty::Hard);
            assert_eq!(ev.guild_id, 4);
            assert_eq!(ev.interaction, 100);
            assert_eq!(ev.localization.attack.0, "АТК");
        }
        _ => panic!("the command starts a game"),
    }
}

#[test]
fn command_from_no_guild_or_no_user_starts_no_game() {
    let localizations = Localizations::new();
    let mut no_guild = press("🇨");
    no_guild.guild_id = None;
    assert!(start_game(localizations.get(Language::En).clone(), Difficulty::Easy, &no_guild).is_none());
    let mut no_user = press("🇨");
    no_user.member.as_mut().unwrap().user = None;
    assert!(start_game(localizations.get(Language::En).clone(), Difficulty::Easy, &no_user).is_none());
    let mut no_member = press("🇨");
    no_member.member = None;
    assert!(start_game(localizations.get(Language::En).clone(), Difficulty::Easy, &no_member).is_none());
}

#[test]
fn game_create_error_says_what_it_needs() {
    assert_eq!(GameCreateError.to_string(), "need two messages to create a game");
}

#[test]
fn plain_values_of_commands_and_options() {
    assert_eq!(PlayerCommand::Strike(BygonePart::Gun), PlayerCommand::Strike(BygonePart::Gun));
    assert_ne!(PlayerCommand::StartGame, PlayerCommand::Strike(BygonePart::Core));
    assert!(Cli { update_commands: true }.update_commands);
}
