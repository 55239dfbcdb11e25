//! The controller: it turns what users do on the platform into inputs of
//! the engine.

use vstd::prelude::*;
use vstd::string::*;
use crate::command_parser::{bygone_part_from_emoji_name, part_of_emoji};
use crate::components::{GuildId, InteractionId, PlayerName, UserId};
use crate::events::{GameStartEvent, InputEvent, PlayerAttackEvent};
use crate::game_helpers::Difficulty;
use crate::localization::Localization;

verus! {

/// A battle could not be created.
#[derive(Clone, Copy, Debug, PartialEq, Eq, Structural, Hash)]
pub struct GameCreateError;

impl GameCreateError {
    /// What went wrong.
    pub fn to_string(&self) -> (r: String)
        ensures
            r@ == "need two messages to create a game"@,
    {
        String::from_str("need two messages to create a game")
    }
}

/// What an interaction carries.
#[derive(Debug)]
pub enum InteractionData {
    /// A button was pressed; the identifier of the button.
    MessageComponent { custom_id: String },
    /// Anything else.
    Other,
}

/// A user of the platform.
#[derive(Debug)]
pub struct User {
    pub id: UserId,
    pub name: String,
}

/// A member of a guild: the user, if known, and the name that the user
/// goes by in the guild, if any.
#[derive(Debug)]
pub struct PartialMember {
    pub user: Option<User>,
    pub nick: Option<String>,
}

/// What a user has done on the platform.
#[derive(Debug)]
pub struct Interaction {
    pub id: InteractionId,
    pub data: Option<InteractionData>,
    pub member: Option<PartialMember>,
    pub guild_id: Option<GuildId>,
}

/// Why an interaction is no attack.
#[derive(Clone, Copy, Debug, PartialEq, Eq, Structural, Hash)]
pub enum InteractionFault {
    /// The interaction carries something else than the press of a button.
    NotMessageComponent,
    /// The interaction carries nothing.
    EmptyData,
    /// The member is not known as a user.
    EmptyUser,
    /// The interaction comes from no member.
    EmptyMember,
    /// The interaction comes from no guild.
    EmptyGuildId,
    /// The button stands for no part of the machine.
    UnknownEmoji,
}

impl Interaction {
    /// Whether the interaction comes from a member who is known as a user.
    pub open spec fn has_user(self) -> bool {
        self.member.is_some() && self.member.unwrap().user.is_some()
    }

    /// The user that the interaction comes from.
    pub open spec fn user(self) -> User {
        self.member.unwrap().user.unwrap()
    }

    /// The name that the user plays under: the name in the guild, or else
    /// the name of the user.
    pub open spec fn player_name(self) -> Seq<char> {
        match self.member.unwrap().nick {
            Some(nick) => nick@,
            None => self.user().name@,
        }
    }

    /// Why the interaction is no attack, if it is none: the first of the
    /// faults that it has, in the order in which they are looked for.
    pub open spec fn fault(self) -> Option<InteractionFault> {
        match self.data {
            None => Some(InteractionFault::EmptyData),
            Some(InteractionData::Other) => Some(InteractionFault::NotMessageComponent),
            Some(InteractionData::MessageComponent { custom_id }) => if self.member.is_none() {
                Some(InteractionFault::EmptyMember)
            } else if self.member.unwrap().user.is_none() {
                Some(InteractionFault::EmptyUser)
            } else if self.guild_id.is_none() {
                Some(InteractionFault::EmptyGuildId)
            } else if part_of_emoji(custom_id@).is_none() {
                Some(InteractionFault::UnknownEmoji)
            } else {
                None
            },
        }
    }

    /// The identifier of the button that was pressed.
    pub open spec fn custom_id(self) -> Seq<char> {
        match self.data {
            Some(InteractionData::MessageComponent { custom_id }) => custom_id@,
            _ => Seq::empty(),
        }
    }
}

/// The name that the user of the interaction plays under.
fn player_name_of(member: &PartialMember, user: &User) -> (r: PlayerName)
    ensures
        r@ == match member.nick {
            Some(nick) => nick@,
            None => user.name@,
        },
{
    match &member.nick {
        Some(nick) => PlayerName(nick.clone()),
        None => PlayerName(user.name.clone()),
    }
}

/// Why the interaction is no attack, if it is none: see
/// `Interaction::fault`.
pub fn interaction_fault(interaction: &Interaction) -> (r: Option<InteractionFault>)
    ensures
        r == interaction.fault(),
{
    match &interaction.data {
        None => Some(InteractionFault::EmptyData),
        Some(InteractionData::Other) => Some(InteractionFault::NotMessageComponent),
        Some(InteractionData::MessageComponent { custom_id }) => {
            match &interaction.member {
                None => Some(InteractionFault::EmptyMember),
                Some(member) => {
                    if member.user.is_none() {
                        Some(InteractionFault::EmptyUser)
                    } else if interaction.guild_id.is_none() {
                        Some(InteractionFault::EmptyGuildId)
                    } else if bygone_part_from_emoji_name(custom_id.as_str()).is_none() {
                        Some(InteractionFault::UnknownEmoji)
                    } else {
                        None
                    }
                },
            }
        },
    }
}

/// The attack that the press of a button is: the user attacks, under the
/// name that they go by in the guild, the part of the machine that the
/// button stands for. An interaction with a fault is no attack.
pub fn process_interaction(interaction: Interaction) -> (r: Option<InputEvent>)
    ensures
        r.is_some() == interaction.fault().is_none(),
        r matches Some(event) ==> event matches InputEvent::PlayerAttack(ev) && ev.player
            == interaction.user().id && ev.player_name@ == interaction.player_name() && Some(
            ev.guild_id,
        ) == interaction.guild_id && Some(ev.target) == part_of_emoji(interaction.custom_id()),
{
    let emoji_name = match &interaction.data {
        Some(InteractionData::MessageComponent { custom_id }) => custom_id,
        Some(_) => {
            return None;
        },
        None => {
            return None;
        },
    };
    let member = match &interaction.member {
        Some(member) => member,
        None => {
            return None;
        },
    };
    let user = match &member.user {
        Some(user) => user,
        None => {
            return None;
        },
    };
    let guild_id = match interaction.guild_id {
        Some(guild_id) => guild_id,
        None => {
            return None;
        },
    };
    match bygone_part_from_emoji_name(emoji_name.as_str()) {
        Some(bygone_part) => {
            let user_name = player_name_of(member, user);
            Some(
                InputEvent::PlayerAttack(
                    PlayerAttackEvent::new(user.id, user_name, guild_id, bygone_part),
                ),
            )
        },
        None => None,
    }
}

/// The request for a battle that a command of a user is: in the user's
/// guild, under the name that they go by there, and tied to the
/// interaction. An interaction from no guild or from no known user is no
/// request.
pub fn start_game(localization: Localization, difficulty: Difficulty, interaction: &Interaction) -> (r:
    Option<InputEvent>)
    ensures
        r.is_some() == (interaction.has_user() && interaction.guild_id.is_some()),
        r matches Some(event) ==> event matches InputEvent::GameStart(ev) && ev.initial_player
            == interaction.user().id && ev.initial_player_name@ == interaction.player_name()
            && ev.difficulty == difficulty && Some(ev.guild_id) == interaction.guild_id
            && ev.interaction == interaction.id && ev.localization == localization,
{
    match (&interaction.member, interaction.guild_id) {
        (Some(member), Some(guild_id)) => {
            match &member.user {
                Some(user) => {
                    let initial_player_name = player_name_of(member, user);
                    Some(
                        InputEvent::GameStart(
                            GameStartEvent::new(
                                user.id,
                                initial_player_name,
                                difficulty,
                                guild_id,
                                interaction.id,
                                localization,
                            ),
                        ),
                    )
                },
                None => None,
            }
        },
        _ => None,
    }
}

} // verus!
