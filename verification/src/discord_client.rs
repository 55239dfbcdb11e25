//! What the client of the platform remembers of the messages it has sent,
//! and what it does with a request to the renderer: which call is due, and
//! what is remembered after the call.

use vstd::prelude::*;
use crate::components::{GuildId, InteractionId};
use crate::dice::Dice;
use crate::discord_renderer::{
    finished_game, lower_message, oneshot_message, progress_message, upper_message,
    DiscordRenderer, GameRenderError, MessageView, RenderedGame, RenderedGamePure,
    RenderedMessage, RenderedMessagePure, RenderedMessageView, NO_LOWER_MESSAGE,
};
use crate::events::{GameRenderPayload, GameRenderPayloadView};
use crate::game_helpers::FinishedGameStatus;
use crate::localization::Localization;

verus! {

/// The identifier of a message, as the platform gives it.
pub type MessageId = u64;

/// What is remembered of a message after `rendered` has been sent: a
/// message that was skipped stays as it was remembered.
pub open spec fn merged(rendered: RenderedMessage, cached: RenderedMessage) -> RenderedMessage {
    match rendered {
        RenderedMessage::Message(message) => RenderedMessage::Message(message),
        RenderedMessage::Skip => cached,
        RenderedMessage::Delete => RenderedMessage::Delete,
    }
}

/// Brings what is remembered of the two messages of a battle up to date
/// with what has been sent.
pub fn merge_with_cached(rendered_game: RenderedGame, cached: &mut RenderedGame)
    ensures
        final(cached).upper_message == merged(rendered_game.upper_message, old(cached).upper_message),
        final(cached).lower_message == merged(rendered_game.lower_message, old(cached).lower_message),
{
    match rendered_game.upper_message {
        RenderedMessage::Message(message) => {
            cached.upper_message = RenderedMessage::from(message);
        },
        RenderedMessage::Skip => {},
        RenderedMessage::Delete => {
            cached.upper_message = RenderedMessage::Delete;
        },
    }
    match rendered_game.lower_message {
        RenderedMessage::Message(message) => {
            cached.lower_message = RenderedMessage::from(message);
        },
        RenderedMessage::Skip => {},
        RenderedMessage::Delete => {
            cached.lower_message = RenderedMessage::Delete;
        },
    }
}

/// What is remembered of the messages of a guild's battle: the interaction
/// that opened the battle, the lower message, and what the two messages
/// show.
#[derive(Debug)]
pub struct CachedGame {
    pub interaction_id: InteractionId,
    pub followup_id: MessageId,
    pub rendered: RenderedGame,
}

/// What is to be done on the platform for a request to the renderer.
#[derive(Debug)]
pub enum RenderAction {
    /// The two messages of the battle are created.
    CreateGame(RenderedGamePure),
    /// The two messages of the battle are replaced.
    ReplaceGame { followup_id: MessageId, game: RenderedGamePure },
    /// Each of the two messages is replaced, left or deleted; after a
    /// battle that has ended the messages are forgotten.
    UpdateGame { followup_id: MessageId, game: RenderedGame, forget: bool },
    /// A message that stands for itself is created.
    CreateMessage(RenderedMessagePure),
    /// Nothing: no messages of this interaction are remembered.
    CacheNotFound,
    /// Nothing: the drawing could not be made.
    RenderFailed(GameRenderError),
}

/// What is to be done on the platform, as text and values.
pub enum RenderActionView {
    CreateGame((MessageView, MessageView)),
    ReplaceGame { followup_id: MessageId, game: (MessageView, MessageView) },
    UpdateGame {
        followup_id: MessageId,
        game: (RenderedMessageView, RenderedMessageView),
        forget: bool,
    },
    CreateMessage(MessageView),
    CacheNotFound,
    RenderFailed { id: GuildId, msg: Seq<char> },
}

impl View for RenderAction {
    type V = RenderActionView;

    open spec fn view(&self) -> RenderActionView {
        match self {
            RenderAction::CreateGame(game) => RenderActionView::CreateGame(game@),
            RenderAction::ReplaceGame { followup_id, game } => RenderActionView::ReplaceGame {
                followup_id: *followup_id,
                game: game@,
            },
            RenderAction::UpdateGame { followup_id, game, forget } => RenderActionView::UpdateGame {
                followup_id: *followup_id,
                game: game@,
                forget: *forget,
            },
            RenderAction::CreateMessage(message) => RenderActionView::CreateMessage(message@),
            RenderAction::CacheNotFound => RenderActionView::CacheNotFound,
            RenderAction::RenderFailed(error) => RenderActionView::RenderFailed {
                id: error.id,
                msg: error.msg@,
            },
        }
    }
}

/// How the call to the platform has gone.
#[derive(Clone, Copy, Debug, PartialEq, Eq, Structural, Hash)]
pub enum RenderOutcome {
    /// The messages were created; the lower message.
    Created(MessageId),
    /// The messages are as they were asked to be.
    Updated,
    /// The messages are as they were asked to be, and the lower message is
    /// deleted.
    LowerDeleted,
    /// The call has failed, or none was made.
    Failed,
}

/// Whether the messages of the interaction are remembered.
pub open spec fn remembers(entry: Option<CachedGame>, interaction_id: InteractionId) -> bool {
    entry.is_some() && entry.unwrap().interaction_id == interaction_id
}

/// What is to be done for a request to the renderer in a guild, where
/// `entry` is what is remembered of the guild and `pick` names the line
/// for a battle that has expired.
///
/// A battle that goes on has its two messages replaced where messages of
/// its interaction are remembered, and created where none are. A battle
/// that has ended, and the progress of a turn, change remembered messages
/// only: the end rewrites the upper message, deletes the lower and has
/// the messages forgotten; the progress writes the bar into the lower
/// message as it is remembered, and cannot be drawn where none is. A
/// message that stands for itself is created whatever is remembered.
pub open spec fn planned(
    entry: Option<CachedGame>,
    guild_id: GuildId,
    interaction_id: InteractionId,
    loc: Localization,
    payload: GameRenderPayloadView,
    pick: int,
) -> RenderActionView {
    match payload {
        GameRenderPayloadView::OngoingGame(game) => if remembers(entry, interaction_id) {
            RenderActionView::ReplaceGame {
                followup_id: entry.unwrap().followup_id,
                game: (upper_message(loc, game), lower_message(loc, game)),
            }
        } else {
            RenderActionView::CreateGame((upper_message(loc, game), lower_message(loc, game)))
        },
        GameRenderPayloadView::FinishedGame(status) => if remembers(entry, interaction_id) {
            RenderActionView::UpdateGame {
                followup_id: entry.unwrap().followup_id,
                game: finished_game(loc, status, pick),
                forget: true,
            }
        } else {
            RenderActionView::CacheNotFound
        },
        GameRenderPayloadView::TurnProgress(progress) => if remembers(entry, interaction_id) {
            match entry.unwrap().rendered.lower_message {
                RenderedMessage::Message(lower) => RenderActionView::UpdateGame {
                    followup_id: entry.unwrap().followup_id,
                    game: (
                        RenderedMessageView::Skip,
                        RenderedMessageView::Message(progress_message(lower@, loc, progress)),
                    ),
                    forget: false,
                },
                _ => RenderActionView::RenderFailed { id: guild_id, msg: NO_LOWER_MESSAGE@ },
            }
        } else {
            RenderActionView::CacheNotFound
        },
        GameRenderPayloadView::OneshotMessage(oneshot_type) => RenderActionView::CreateMessage(
            oneshot_message(loc, oneshot_type),
        ),
    }
}

/// What is remembered of a guild after the call for `action` has gone as
/// `outcome` says.
///
/// Messages that were created are remembered under their interaction.
/// Messages that were replaced or updated are remembered as they now are,
/// where the call went well and the lower message is still there. After a
/// battle that has ended nothing is remembered, however the call has
/// gone. In every other case what is remembered stays.
pub open spec fn cache_after(
    entry: Option<CachedGame>,
    interaction_id: InteractionId,
    action: RenderAction,
    outcome: RenderOutcome,
) -> Option<CachedGame> {
    match action {
        RenderAction::CreateGame(game) => match outcome {
            RenderOutcome::Created(followup_id) => Some(
                CachedGame {
                    interaction_id,
                    followup_id,
                    rendered: RenderedGame {
                        upper_message: RenderedMessage::Message(game.upper_message),
                        lower_message: RenderedMessage::Message(game.lower_message),
                    },
                },
            ),
            _ => entry,
        },
        RenderAction::ReplaceGame { followup_id, game } => if entry.is_some() && outcome
            == RenderOutcome::Updated {
            Some(
                CachedGame {
                    interaction_id: entry.unwrap().interaction_id,
                    followup_id: entry.unwrap().followup_id,
                    rendered: RenderedGame {
                        upper_message: RenderedMessage::Message(game.upper_message),
                        lower_message: RenderedMessage::Message(game.lower_message),
                    },
                },
            )
        } else {
            entry
        },
        RenderAction::UpdateGame { followup_id, game, forget } => if forget {
            None
        } else if entry.is_some() && outcome == RenderOutcome::Updated {
            Some(
                CachedGame {
                    interaction_id: entry.unwrap().interaction_id,
                    followup_id: entry.unwrap().followup_id,
                    rendered: RenderedGame {
                        upper_message: merged(
                            game.upper_message,
                            entry.unwrap().rendered.upper_message,
                        ),
                        lower_message: merged(
                            game.lower_message,
                            entry.unwrap().rendered.lower_message,
                        ),
                    },
                },
            )
        } else {
            entry
        },
        _ => entry,
    }
}

/// What is to be done for a request to the renderer, where `pick` names
/// the line for a battle that has expired: see `planned`.
pub fn plan_render_with(
    entry: &Option<CachedGame>,
    guild_id: GuildId,
    interaction_id: InteractionId,
    loc: &Localization,
    payload: GameRenderPayload,
    pick: usize,
) -> (r: RenderAction)
    requires
        payload@ == GameRenderPayloadView::FinishedGame(FinishedGameStatus::Expired) ==> pick
            < loc.expired@.len(),
    ensures
        r@ == planned(*entry, guild_id, interaction_id, *loc, payload@, pick as int),
{
    let cached = match entry {
        Some(cached) => if cached.interaction_id == interaction_id {
            Some(cached)
        } else {
            None
        },
        None => None,
    };
    match payload {
        GameRenderPayload::OngoingGame(game) => {
            let rendered = DiscordRenderer::render_ongoing_game(loc, &game);
            match cached {
                Some(cached) => RenderAction::ReplaceGame {
                    followup_id: cached.followup_id,
                    game: rendered,
                },
                None => RenderAction::CreateGame(rendered),
            }
        },
        GameRenderPayload::FinishedGame(status) => {
            match cached {
                Some(cached) => RenderAction::UpdateGame {
                    followup_id: cached.followup_id,
                    game: DiscordRenderer::render_finished_game_with(loc, status, pick),
                    forget: true,
                },
                None => RenderAction::CacheNotFound,
            }
        },
        GameRenderPayload::TurnProgress(progress) => {
            match cached {
                Some(cached) => {
                    match DiscordRenderer::render_turn_progress(
                        guild_id,
                        &cached.rendered,
                        loc,
                        progress,
                    ) {
                        Ok(game) => RenderAction::UpdateGame {
                            followup_id: cached.followup_id,
                            game,
                            forget: false,
                        },
                        Err(error) => RenderAction::RenderFailed(error),
                    }
                },
                None => RenderAction::CacheNotFound,
            }
        },
        GameRenderPayload::OneshotMessage(oneshot_type) => RenderAction::CreateMessage(
            DiscordRenderer::render_oneshot(oneshot_type, loc),
        ),
    }
}

/// What is to be done for a request to the renderer; the dice pick the
/// line for a battle that has expired.
pub fn plan_render<D: Dice>(
    entry: &Option<CachedGame>,
    guild_id: GuildId,
    interaction_id: InteractionId,
    loc: &Localization,
    payload: GameRenderPayload,
    rng: &mut D,
) -> (r: RenderAction)
    requires
        payload@ == GameRenderPayloadView::FinishedGame(FinishedGameStatus::Expired)
            ==> loc.expired@.len() > 0,
    ensures
        exists|pick: int|
            (payload@ == GameRenderPayloadView::FinishedGame(FinishedGameStatus::Expired) ==> 0
                <= pick < loc.expired@.len()) && r@ == #[trigger] planned(
                *entry,
                guild_id,
                interaction_id,
                *loc,
                payload@,
                pick,
            ),
{
    let expired = match &payload {
        GameRenderPayload::FinishedGame(status) => match status {
            FinishedGameStatus::Expired => true,
            _ => false,
        },
        _ => false,
    };
    let pick = if expired {
        rng.between(0, loc.expired.len() - 1)
    } else {
        0
    };
    let ghost payload_view = payload@;
    let r = plan_render_with(entry, guild_id, interaction_id, loc, payload, pick);
    proof {
        assert(r@ == planned(*entry, guild_id, interaction_id, *loc, payload_view, pick as int));
    }
    r
}

/// What is remembered of a guild after the call for `action` has gone as
/// `outcome` says: see `cache_after`.
pub fn next_cache(
    entry: Option<CachedGame>,
    interaction_id: InteractionId,
    action: RenderAction,
    outcome: RenderOutcome,
) -> (r: Option<CachedGame>)
    ensures
        r == cache_after(entry, interaction_id, action, outcome),
{
    match action {
        RenderAction::CreateGame(game) => match outcome {
            RenderOutcome::Created(followup_id) => Some(
                CachedGame { interaction_id, followup_id, rendered: RenderedGame::from(game) },
            ),
            _ => entry,
        },
        RenderAction::ReplaceGame { followup_id: _, game } => match (entry, outcome) {
            (Some(cached), RenderOutcome::Updated) => {
                let mut cached = cached;
                merge_with_cached(RenderedGame::from(game), &mut cached.rendered);
                Some(cached)
            },
            (entry, _) => entry,
        },
        RenderAction::UpdateGame { followup_id: _, game, forget } => {
            if forget {
                None
            } else {
                match (entry, outcome) {
                    (Some(cached), RenderOutcome::Updated) => {
                        let mut cached = cached;
                        merge_with_cached(game, &mut cached.rendered);
                        Some(cached)
                    },
                    (entry, _) => entry,
                }
            }
        },
        _ => entry,
    }
}

} // verus!
