//! The command that starts a battle, with its options, and the buttons
//! that name the parts of the machine.

use vstd::prelude::*;
use crate::components::BygonePart;
use crate::game_helpers::Difficulty;
use crate::localization::Language;
use crate::text::str_eq;

verus! {

/// The name of the command that starts a battle.
pub const BATTLE_COMMAND: &'static str = "battle";

/// The name of the option that sets the language.
pub const LANGUAGE_COMMAND_OPTION: &'static str = "language";

/// The name of the option that sets the difficulty.
pub const DIFFICULTY_COMMAND_OPTION: &'static str = "difficulty";

/// An option of a command. The value is held where it is a string.
#[derive(Debug)]
pub struct CommandOption {
    pub name: String,
    pub value: Option<String>,
}

/// A command that a user has given.
#[derive(Debug)]
pub struct CommandData {
    pub name: String,
    pub options: Vec<CommandOption>,
}

/// The language after the first `n` options: an option of the name
/// `language` whose value names a language sets it.
pub open spec fn language_after(options: Seq<CommandOption>, n: nat) -> Language
    decreases n,
{
    if n == 0 {
        Language::En
    } else {
        let before = language_after(options, (n - 1) as nat);
        let option = options[n - 1];
        if option.name@ == "language"@ && option.value.is_some() {
            if option.value.unwrap()@ == "en"@ {
                Language::En
            } else if option.value.unwrap()@ == "ru"@ {
                Language::Ru
            } else {
                before
            }
        } else {
            before
        }
    }
}

/// The difficulty after the first `n` options: an option of the name
/// `difficulty` whose value names a difficulty sets it.
pub open spec fn difficulty_after(options: Seq<CommandOption>, n: nat) -> Difficulty
    decreases n,
{
    if n == 0 {
        Difficulty::Medium
    } else {
        let before = difficulty_after(options, (n - 1) as nat);
        let option = options[n - 1];
        if option.name@ == "difficulty"@ && option.value.is_some() {
            let value = option.value.unwrap()@;
            if value == "Easy"@ {
                Difficulty::Easy
            } else if value == "Medium"@ {
                Difficulty::Medium
            } else if value == "Hard"@ {
                Difficulty::Hard
            } else if value == "RealBullets"@ {
                Difficulty::RealBullets
            } else {
                before
            }
        } else {
            before
        }
    }
}

/// Whether the command starts a battle, and if so in which language and
/// at which difficulty: English and medium, unless the options say
/// otherwise; of several options of one name the last that names a value
/// counts.
pub fn is_game_starting(command: &CommandData) -> (r: Option<(Language, Difficulty)>)
    ensures
        r == if command.name@ == "battle"@ {
            Some(
                (
                    language_after(command.options@, command.options@.len()),
                    difficulty_after(command.options@, command.options@.len()),
                ),
            )
        } else {
            None
        },
{
    if !str_eq(command.name.as_str(), BATTLE_COMMAND) {
        return None;
    }
    let mut language = Language::En;
    let mut difficulty = Difficulty::Medium;
    let n = command.options.len();
    let mut i: usize = 0;
    while i < n
        invariant
            i <= n,
            n == command.options@.len(),
            language == language_after(command.options@, i as nat),
            difficulty == difficulty_after(command.options@, i as nat),
        decreases n - i,
    {
        let option = &command.options[i];
        if str_eq(option.name.as_str(), LANGUAGE_COMMAND_OPTION) {
            match &option.value {
                Some(lang_name) => {
                    match Language::from_str(lang_name.as_str()) {
                        Some(lang) => {
                            language = lang;
                        },
                        None => {},
                    }
                },
                None => {},
            }
        }
        if str_eq(option.name.as_str(), DIFFICULTY_COMMAND_OPTION) {
            match &option.value {
                Some(level) => {
                    match Difficulty::from_str(level.as_str()) {
                        Some(level) => {
                            difficulty = level;
                        },
                        None => {},
                    }
                },
                None => {},
            }
        }
        i += 1;
    }
    Some((language, difficulty))
}

/// The part of the machine that the button of the given emoji stands for.
pub open spec fn part_of_emoji(name: Seq<char>) -> Option<BygonePart> {
    if name == "🇨"@ {
        Some(BygonePart::Core)
    } else if name == "🇸"@ {
        Some(BygonePart::Sensor)
    } else if name == "🇱"@ {
        Some(BygonePart::LeftWing)
    } else if name == "🇷"@ {
        Some(BygonePart::RightWing)
    } else if name == "🇬"@ {
        Some(BygonePart::Gun)
    } else {
        None
    }
}

/// The part of the machine that the button of the given emoji stands for;
/// `None` for any other string.
pub fn bygone_part_from_emoji_name(name: &str) -> (r: Option<BygonePart>)
    ensures
        r == part_of_emoji(name@),
{
    if str_eq(name, "🇨") {
        Some(BygonePart::Core)
    } else if str_eq(name, "🇸") {
        Some(BygonePart::Sensor)
    } else if str_eq(name, "🇱") {
        Some(BygonePart::LeftWing)
    } else if str_eq(name, "🇷") {
        Some(BygonePart::RightWing)
    } else if str_eq(name, "🇬") {
        Some(BygonePart::Gun)
    } else {
        None
    }
}

} // verus!
