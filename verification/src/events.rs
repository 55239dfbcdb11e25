//! The events that the subsystems of the engine hand to each other, and the
//! bus that carries them within a tick.

use vstd::prelude::*;
use crate::bundles::BygoneParts;
use crate::components::{
    Attack, Bygone03Stage, BygonePart, GameId, GuildId, InteractionId, PlayerName, UserId,
    Vitality,
};
use crate::game_helpers::{Difficulty, FinishedGameStatus};
use crate::localization::{Localization, LocalizationView};

verus! {

/// The handle of a row of the world.
#[derive(Clone, Copy, Debug, PartialEq, Eq, Structural, PartialOrd, Ord, Hash)]
pub struct Entity(pub u64);

/// An entity leaves the resolution of attacks.
#[derive(Clone, Copy, Debug, PartialEq, Eq, Structural, PartialOrd, Ord, Hash)]
pub struct DeactivateEvent(pub Entity);

/// A part of a machine has died.
#[derive(Clone, Copy, Debug, PartialEq, Eq, Structural, PartialOrd, Ord, Hash)]
pub struct BygonePartDeathEvent {
    pub entity: Entity,
    pub part: BygonePart,
    pub guild_id: GuildId,
}

impl BygonePartDeathEvent {
    pub fn new(entity: Entity, part: BygonePart, guild_id: GuildId) -> (r: Self)
        ensures
            r == (BygonePartDeathEvent { entity, part, guild_id }),
    {
        BygonePartDeathEvent { entity, part, guild_id }
    }
}

/// A player attacks a part of the machine of their guild.
#[derive(Debug, PartialEq, Eq, PartialOrd, Ord, Hash)]
pub struct PlayerAttackEvent {
    pub player: UserId,
    pub player_name: PlayerName,
    pub guild_id: GuildId,
    pub target: BygonePart,
}

impl PlayerAttackEvent {
    pub fn new(player: UserId, player_name: PlayerName, guild_id: GuildId, target: BygonePart) -> (r:
        Self)
        ensures
            r == (PlayerAttackEvent { player, player_name, guild_id, target }),
    {
        PlayerAttackEvent { player, player_name, guild_id, target }
    }
}

impl Clone for PlayerAttackEvent {
    fn clone(&self) -> (r: Self)
        ensures
            r == *self,
    {
        PlayerAttackEvent {
            player: self.player,
            player_name: self.player_name.clone(),
            guild_id: self.guild_id,
            target: self.target,
        }
    }
}

/// The machine of a battle attacks.
#[derive(Clone, Copy, Debug, PartialEq, Eq, Structural, PartialOrd, Ord, Hash)]
pub struct EnemyAttackEvent {
    pub guild_id: GuildId,
    pub game_id: GameId,
}

impl EnemyAttackEvent {
    pub fn new(guild_id: GuildId, game_id: GameId) -> (r: Self)
        ensures
            r == (EnemyAttackEvent { guild_id, game_id }),
    {
        EnemyAttackEvent { guild_id, game_id }
    }
}

/// A user asks for a battle in their guild.
#[derive(Debug)]
pub struct GameStartEvent {
    pub initial_player: UserId,
    pub initial_player_name: PlayerName,
    pub difficulty: Difficulty,
    pub guild_id: GuildId,
    pub interaction: InteractionId,
    pub localization: Localization,
}

impl GameStartEvent {
    pub fn new(
        initial_player: UserId,
        initial_player_name: PlayerName,
        difficulty: Difficulty,
        guild_id: GuildId,
        interaction: InteractionId,
        localization: Localization,
    ) -> (r: Self)
        ensures
            r == (GameStartEvent {
                initial_player,
                initial_player_name,
                difficulty,
                guild_id,
                interaction,
                localization,
            }),
    {
        GameStartEvent {
            initial_player,
            initial_player_name,
            difficulty,
            guild_id,
            interaction,
            localization,
        }
    }

    /// Whether two requests say the same: the same fields, and
    /// localizations with the same text.
    pub open spec fn same(self, other: GameStartEvent) -> bool {
        &&& self.initial_player == other.initial_player
        &&& self.initial_player_name == other.initial_player_name
        &&& self.difficulty == other.difficulty
        &&& self.guild_id == other.guild_id
        &&& self.interaction == other.interaction
        &&& self.localization@ == other.localization@
    }
}

impl Clone for GameStartEvent {
    fn clone(&self) -> (r: Self)
        ensures
            r.same(*self),
    {
        GameStartEvent {
            initial_player: self.initial_player,
            initial_player_name: self.initial_player_name.clone(),
            difficulty: self.difficulty,
            guild_id: self.guild_id,
            interaction: self.interaction,
            localization: self.localization.clone(),
        }
    }
}

/// The battle of a guild is to be drawn anew.
#[derive(Clone, Copy, Debug, PartialEq, Eq, Structural, Hash)]
pub struct GameDrawEvent {
    pub guild_id: GuildId,
}

impl GameDrawEvent {
    pub fn new(guild_id: GuildId) -> (r: Self)
        ensures
            r == (GameDrawEvent { guild_id }),
    {
        GameDrawEvent { guild_id }
    }
}

/// A turn of a battle has ended.
#[derive(Clone, Copy, Debug, PartialEq, Eq, Structural, Hash)]
pub struct TurnEndEvent {
    pub game_id: GameId,
}

impl TurnEndEvent {
    pub fn new(game_id: GameId) -> (r: Self)
        ensures
            r == (TurnEndEvent { game_id }),
    {
        TurnEndEvent { game_id }
    }
}

/// The turn of a guild's battle has progressed; `progress` is the share of
/// the turn that has passed, in percent.
#[derive(Clone, Copy, Debug, PartialEq, Eq, Structural, Hash)]
pub struct ProgressBarUpdateEvent {
    pub guild_id: GuildId,
    pub progress: i32,
}

impl ProgressBarUpdateEvent {
    pub fn new(guild_id: GuildId, progress: i32) -> (r: Self)
        ensures
            r == (ProgressBarUpdateEvent { guild_id, progress }),
    {
        ProgressBarUpdateEvent { guild_id, progress }
    }
}

/// A player joins a battle.
#[derive(Debug, PartialEq, Eq, PartialOrd, Ord, Hash)]
pub struct PlayerJoinEvent {
    pub player: UserId,
    pub player_name: PlayerName,
    pub game_id: GameId,
    pub guild_id: GuildId,
}

impl PlayerJoinEvent {
    pub fn new(player: UserId, player_name: PlayerName, game_id: GameId, guild_id: GuildId) -> (r:
        Self)
        ensures
            r == (PlayerJoinEvent { player, player_name, game_id, guild_id }),
    {
        PlayerJoinEvent { player, player_name, game_id, guild_id }
    }
}

impl Clone for PlayerJoinEvent {
    fn clone(&self) -> (r: Self)
        ensures
            r == *self,
    {
        PlayerJoinEvent {
            player: self.player,
            player_name: self.player_name.clone(),
            game_id: self.game_id,
            guild_id: self.guild_id,
        }
    }
}

/// A machine is to be made for a battle.
#[derive(Clone, Copy, Debug, PartialEq, Eq, Structural, PartialOrd, Ord, Hash)]
pub struct BygoneSpawnEvent {
    pub difficulty: Difficulty,
    pub game_id: GameId,
}

impl BygoneSpawnEvent {
    pub fn new(difficulty: Difficulty, game_id: GameId) -> (r: Self)
        ensures
            r == (BygoneSpawnEvent { difficulty, game_id }),
    {
        BygoneSpawnEvent { difficulty, game_id }
    }
}

/// The entities of a battle that has been replaced are to be removed.
#[derive(Clone, Copy, Debug, PartialEq, Eq, Structural, PartialOrd, Ord, Hash)]
pub struct DeallocateGameResourcesEvent {
    pub game_id: GameId,
}

impl DeallocateGameResourcesEvent {
    pub fn new(game_id: GameId) -> (r: Self)
        ensures
            r == (DeallocateGameResourcesEvent { game_id }),
    {
        DeallocateGameResourcesEvent { game_id }
    }
}

/// The queues of the events of one tick, one queue for each kind.
#[derive(Debug)]
pub struct Events {
    pub battle_log: Vec<(GuildId, BattleLogEvent)>,
    pub part_death: Vec<BygonePartDeathEvent>,
    pub deactivate: Vec<DeactivateEvent>,
    pub delayed: Vec<DelayedEvent>,
    pub enemy_attack: Vec<EnemyAttackEvent>,
    pub game_draw: Vec<GameDrawEvent>,
    pub game_start: Vec<GameStartEvent>,
    pub player_attack: Vec<(GameId, PlayerAttackEvent)>,
    pub player_join: Vec<PlayerJoinEvent>,
    pub bygone_spawn: Vec<BygoneSpawnEvent>,
    pub deallocate: Vec<DeallocateGameResourcesEvent>,
    pub turn_end: Vec<TurnEndEvent>,
    pub progress_bar_update: Vec<ProgressBarUpdateEvent>,
}

impl Events {
    /// Whether every queue but that of the delayed events is empty.
    pub open spec fn drained(self) -> bool {
        &&& self.battle_log@.len() == 0
        &&& self.part_death@.len() == 0
        &&& self.deactivate@.len() == 0
        &&& self.enemy_attack@.len() == 0
        &&& self.game_draw@.len() == 0
        &&& self.game_start@.len() == 0
        &&& self.player_attack@.len() == 0
        &&& self.player_join@.len() == 0
        &&& self.bygone_spawn@.len() == 0
        &&& self.deallocate@.len() == 0
        &&& self.turn_end@.len() == 0
        &&& self.progress_bar_update@.len() == 0
    }

    /// Whether every queue but that of the delayed events is empty.
    pub fn is_drained(&self) -> (r: bool)
        ensures
            r == self.drained(),
    {
        self.battle_log.len() == 0 && self.part_death.len() == 0 && self.deactivate.len() == 0
            && self.enemy_attack.len() == 0 && self.game_draw.len() == 0 && self.game_start.len()
            == 0 && self.player_attack.len() == 0 && self.player_join.len() == 0
            && self.bygone_spawn.len() == 0 && self.deallocate.len() == 0 && self.turn_end.len()
            == 0 && self.progress_bar_update.len() == 0
    }

    /// Empties every queue but that of the delayed events, which wait for
    /// the next tick.
    pub fn drain(&mut self)
        ensures
            final(self).drained(),
            final(self).delayed == old(self).delayed,
    {
        self.battle_log.clear();
        self.part_death.clear();
        self.deactivate.clear();
        self.enemy_attack.clear();
        self.game_draw.clear();
        self.game_start.clear();
        self.player_attack.clear();
        self.player_join.clear();
        self.bygone_spawn.clear();
        self.deallocate.clear();
        self.turn_end.clear();
        self.progress_bar_update.clear();
    }
}

/// Sets up the queues of the events.
#[derive(Clone, Copy, Debug, PartialEq, Eq, Structural, PartialOrd, Ord, Hash)]
pub struct EventsPlugin;

impl EventsPlugin {
    /// A queue for each kind of event, all empty.
    pub fn build(&self) -> (r: Events)
        ensures
            r.drained(),
            r.delayed@.len() == 0,
    {
        Events {
            battle_log: Vec::new(),
            part_death: Vec::new(),
            deactivate: Vec::new(),
            delayed: Vec::new(),
            enemy_attack: Vec::new(),
            game_draw: Vec::new(),
            game_start: Vec::new(),
            player_attack: Vec::new(),
            player_join: Vec::new(),
            bygone_spawn: Vec::new(),
            deallocate: Vec::new(),
            turn_end: Vec::new(),
            progress_bar_update: Vec::new(),
        }
    }
}

impl Default for EventsPlugin {
    fn default() -> (r: Self) {
        EventsPlugin
    }
}

/// What the battle log is told.
#[derive(Debug, PartialEq, Eq, PartialOrd, Ord, Hash)]
pub enum BattleLogEvent {
    PlayerDead(PlayerName),
    PlayerHit(PlayerName, BygonePart),
    PlayerMiss(PlayerName),
    BygoneHit(PlayerName),
    BygoneMiss,
    BygoneDead,
}

impl Clone for BattleLogEvent {
    fn clone(&self) -> (r: Self)
        ensures
            r == *self,
    {
        match self {
            BattleLogEvent::PlayerDead(name) => BattleLogEvent::PlayerDead(name.clone()),
            BattleLogEvent::PlayerHit(name, part) => BattleLogEvent::PlayerHit(name.clone(), *part),
            BattleLogEvent::PlayerMiss(name) => BattleLogEvent::PlayerMiss(name.clone()),
            BattleLogEvent::BygoneHit(name) => BattleLogEvent::BygoneHit(name.clone()),
            BattleLogEvent::BygoneMiss => BattleLogEvent::BygoneMiss,
            BattleLogEvent::BygoneDead => BattleLogEvent::BygoneDead,
        }
    }
}

/// What comes in from the platform.
#[derive(Debug)]
pub enum InputEvent {
    GameStart(GameStartEvent),
    PlayerAttack(PlayerAttackEvent),
}

/// An event that is held back for a while before it takes effect.
#[derive(Debug)]
pub enum DelayedEvent {
    GameDraw(GameDrawEvent),
    PlayerAttack((GameId, PlayerAttackEvent)),
}

impl Clone for DelayedEvent {
    fn clone(&self) -> (r: Self)
        ensures
            r == *self,
    {
        match self {
            DelayedEvent::GameDraw(ev) => DelayedEvent::GameDraw(*ev),
            DelayedEvent::PlayerAttack((game_id, ev)) => DelayedEvent::PlayerAttack(
                (*game_id, ev.clone()),
            ),
        }
    }
}

/// The state of a battle that goes on, as it is to be shown.
#[derive(Debug)]
pub struct OngoingGamePayload {
    pub bygone_parts: BygoneParts,
    pub bygone_attack: Attack,
    pub bygone_stage: Bygone03Stage,
    pub battle_log_lines: Vec<String>,
    pub players: Vec<(PlayerName, Vitality)>,
}

/// What an ongoing battle shows, as text and values.
pub struct OngoingGameView {
    pub bygone_parts: BygoneParts,
    pub bygone_attack: Attack,
    pub bygone_stage: Bygone03Stage,
    pub battle_log_lines: Seq<Seq<char>>,
    pub players: Seq<(Seq<char>, Vitality)>,
}

impl View for OngoingGamePayload {
    type V = OngoingGameView;

    open spec fn view(&self) -> OngoingGameView {
        OngoingGameView {
            bygone_parts: self.bygone_parts,
            bygone_attack: self.bygone_attack,
            bygone_stage: self.bygone_stage,
            battle_log_lines: self.battle_log_lines@.map_values(|line: String| line@),
            players: self.players@.map_values(|player: (PlayerName, Vitality)| (player.0@, player.1)),
        }
    }
}

/// A message that stands for itself, outside any battle.
#[derive(Clone, Copy, Debug, PartialEq, Eq, Structural, Hash)]
pub enum OneshotType {
    /// The machine is not ready again yet; the seconds that are left.
    Cooldown(u64),
    OtherGameInProgress,
}

/// What is to be shown.
#[derive(Debug)]
pub enum GameRenderPayload {
    OngoingGame(OngoingGamePayload),
    FinishedGame(FinishedGameStatus),
    /// The share of the turn that has passed, in percent.
    TurnProgress(i32),
    OneshotMessage(OneshotType),
}

/// What is to be shown, as text and values.
pub enum GameRenderPayloadView {
    OngoingGame(OngoingGameView),
    FinishedGame(FinishedGameStatus),
    TurnProgress(i32),
    OneshotMessage(OneshotType),
}

impl View for GameRenderPayload {
    type V = GameRenderPayloadView;

    open spec fn view(&self) -> GameRenderPayloadView {
        match self {
            GameRenderPayload::OngoingGame(payload) => GameRenderPayloadView::OngoingGame(payload@),
            GameRenderPayload::FinishedGame(status) => GameRenderPayloadView::FinishedGame(*status),
            GameRenderPayload::TurnProgress(progress) => GameRenderPayloadView::TurnProgress(
                *progress,
            ),
            GameRenderPayload::OneshotMessage(oneshot) => GameRenderPayloadView::OneshotMessage(
                *oneshot,
            ),
        }
    }
}

/// A request to the renderer, as text and values.
pub struct GameRenderEventView {
    pub guild_id: GuildId,
    pub interaction_id: InteractionId,
    pub loc: LocalizationView,
    pub payload: GameRenderPayloadView,
}

/// A request to the renderer of a guild's battle.
#[derive(Debug)]
pub struct GameRenderEvent {
    pub guild_id: GuildId,
    pub interaction_id: InteractionId,
    pub loc: Localization,
    pub payload: GameRenderPayload,
}

impl View for GameRenderEvent {
    type V = GameRenderEventView;

    open spec fn view(&self) -> GameRenderEventView {
        GameRenderEventView {
            guild_id: self.guild_id,
            interaction_id: self.interaction_id,
            loc: self.loc@,
            payload: self.payload@,
        }
    }
}

/// The requests as text and values.
pub open spec fn render_views(events: Seq<GameRenderEvent>) -> Seq<GameRenderEventView> {
    events.map_values(|ev: GameRenderEvent| ev@)
}

impl GameRenderEvent {
    pub fn new(
        guild_id: GuildId,
        interaction_id: InteractionId,
        loc: Localization,
        payload: GameRenderPayload,
    ) -> (r: Self)
        ensures
            r == (GameRenderEvent { guild_id, interaction_id, loc, payload }),
    {
        GameRenderEvent { guild_id, interaction_id, loc, payload }
    }
}

} // verus!
