//! The render producer: on each drawing and each report of progress it
//! tells the renderer what to show.

use vstd::prelude::*;
use crate::battle_log::BattleLog;
use crate::bundles::BygoneParts;
use crate::combat::enemy_of;
use crate::components::{Attack, Bygone03Stage, GameId, GuildId, PlayerName, Vitality};
use crate::events::{
    render_views, GameDrawEvent, GameRenderEvent, GameRenderEventView, GameRenderPayload,
    GameRenderPayloadView, OngoingGamePayload, OngoingGameView, ProgressBarUpdateEvent,
};
use crate::game_helpers::GameStatus;
use crate::registry::GameRegistry;
use crate::world::{PlayerRow, World};

verus! {

/// What the renderer is told of a report of progress: the progress of the
/// turn of the guild's battle, if the guild has a battle that goes on.
pub open spec fn progress_view(games: GameRegistry, ev: ProgressBarUpdateEvent) -> Seq<
    GameRenderEventView,
> {
    if games.has(ev.guild_id) && games.game(ev.guild_id).status == GameStatus::Ongoing {
        seq![
            GameRenderEventView {
                guild_id: ev.guild_id,
                interaction_id: games.game(ev.guild_id).interaction_id,
                loc: games.game(ev.guild_id).localization@,
                payload: GameRenderPayloadView::TurnProgress(ev.progress),
            },
        ]
    } else {
        Seq::empty()
    }
}

/// What the renderer is told of the first `n` reports of progress.
pub open spec fn progress_views(games: GameRegistry, events: Seq<ProgressBarUpdateEvent>, n: nat) -> Seq<
    GameRenderEventView,
>
    decreases n,
{
    if n == 0 {
        Seq::empty()
    } else {
        progress_views(games, events, (n - 1) as nat) + progress_view(games, events[n - 1])
    }
}

/// The names and the vitality of the players of the battle, in their
/// order.
pub open spec fn roster(players: Seq<PlayerRow>, game_id: GameId) -> Seq<(Seq<char>, Vitality)>
    decreases players.len(),
{
    if players.len() == 0 {
        Seq::empty()
    } else if players.last().bundle.game_id == game_id {
        roster(players.drop_last(), game_id).push(
            (players.last().bundle.name@, players.last().bundle.vitality),
        )
    } else {
        roster(players.drop_last(), game_id)
    }
}

/// The state of the battle `game_id` as it is shown: the machine of the
/// battle, or a machine without health where the battle has none; the
/// given lines of the log; and the players of the battle.
pub open spec fn snapshot(world: World, game_id: GameId, lines: Seq<Seq<char>>) -> OngoingGameView {
    match enemy_of(world.enemies@, game_id) {
        Some(e) => OngoingGameView {
            bygone_parts: world.enemies@[e].bundle.parts,
            bygone_attack: world.enemies@[e].bundle.attack,
            bygone_stage: world.enemies@[e].bundle.stage,
            battle_log_lines: lines,
            players: roster(world.players@, game_id),
        },
        None => OngoingGameView {
            bygone_parts: BygoneParts {
                core: Vitality::fresh(0, 0),
                sensor: Vitality::fresh(0, 0),
                gun: Vitality::fresh(0, 0),
                left_wing: Vitality::fresh(0, 0),
                right_wing: Vitality::fresh(0, 0),
            },
            bygone_attack: Attack::of(0, 0),
            bygone_stage: Bygone03Stage::Armored,
            battle_log_lines: lines,
            players: roster(world.players@, game_id),
        },
    }
}

/// What the renderer is told of a drawing, where `log` is the text of the
/// battle log: how the guild's battle has ended, or the state of the
/// battle that goes on with the lines that the log holds for the guild;
/// nothing where the guild has no battle.
pub open spec fn draw_view(
    games: GameRegistry,
    world: World,
    log: Map<GuildId, Seq<Seq<char>>>,
    ev: GameDrawEvent,
) -> Seq<GameRenderEventView> {
    if games.has(ev.guild_id) {
        let game = games.game(ev.guild_id);
        seq![
            GameRenderEventView {
                guild_id: ev.guild_id,
                interaction_id: game.interaction_id,
                loc: game.localization@,
                payload: match game.status {
                    GameStatus::Finished(status) => GameRenderPayloadView::FinishedGame(status),
                    GameStatus::Ongoing => GameRenderPayloadView::OngoingGame(
                        snapshot(world, game.id, log[ev.guild_id]),
                    ),
                },
            },
        ]
    } else {
        Seq::empty()
    }
}

/// The text of the battle log after a drawing: the lines of a guild whose
/// battle goes on have been taken out.
pub open spec fn log_after_draw(
    games: GameRegistry,
    log: Map<GuildId, Seq<Seq<char>>>,
    ev: GameDrawEvent,
) -> Map<GuildId, Seq<Seq<char>>> {
    if games.has(ev.guild_id) && games.game(ev.guild_id).status == GameStatus::Ongoing {
        log.insert(ev.guild_id, Seq::empty())
    } else {
        log
    }
}

/// The text of the battle log after the first `n` drawings.
pub open spec fn log_after_draws(
    games: GameRegistry,
    log: Map<GuildId, Seq<Seq<char>>>,
    events: Seq<GameDrawEvent>,
    n: nat,
) -> Map<GuildId, Seq<Seq<char>>>
    decreases n,
{
    if n == 0 {
        log
    } else {
        log_after_draw(games, log_after_draws(games, log, events, (n - 1) as nat), events[n - 1])
    }
}

/// What the renderer is told of the first `n` drawings, each with the
/// log as the drawings before it have left it.
pub open spec fn draw_views(
    games: GameRegistry,
    world: World,
    log: Map<GuildId, Seq<Seq<char>>>,
    events: Seq<GameDrawEvent>,
    n: nat,
) -> Seq<GameRenderEventView>
    decreases n,
{
    if n == 0 {
        Seq::empty()
    } else {
        draw_views(games, world, log, events, (n - 1) as nat) + draw_view(
            games,
            world,
            log_after_draws(games, log, events, (n - 1) as nat),
            events[n - 1],
        )
    }
}

/// The names and the vitality of the players of the battle, in their
/// order.
pub fn collect_roster(players: &Vec<PlayerRow>, game_id: GameId) -> (r: Vec<(PlayerName, Vitality)>)
    ensures
        r@.map_values(|player: (PlayerName, Vitality)| (player.0@, player.1)) == roster(
            players@,
            game_id,
        ),
{
    let mut out: Vec<(PlayerName, Vitality)> = Vec::new();
    let n = players.len();
    let mut i: usize = 0;
    while i < n
        invariant
            i <= n,
            n == players@.len(),
            out@.map_values(|player: (PlayerName, Vitality)| (player.0@, player.1)) == roster(
                players@.take(i as int),
                game_id,
            ),
        decreases n - i,
    {
        let ghost before = out@;
        proof {
            assert(players@.take(i + 1).drop_last() == players@.take(i as int));
            assert(players@.take(i + 1).last() == players@[i as int]);
        }
        if players[i].bundle.game_id.0 == game_id.0 {
            let entry = (players[i].bundle.name.clone(), players[i].bundle.vitality);
            out.push(entry);
            proof {
                assert(out@.map_values(|player: (PlayerName, Vitality)| (player.0@, player.1))
                    =~= before.map_values(|player: (PlayerName, Vitality)| (player.0@, player.1)).push(
                    (entry.0@, entry.1),
                ));
            }
        }
        i += 1;
    }
    proof {
        assert(players@.take(n as int) == players@);
    }
    out
}

/// The state of the battle `game_id` as it is shown, with the given lines
/// of the log.
pub fn take_snapshot(world: &World, game_id: GameId, lines: Vec<String>) -> (r: OngoingGamePayload)
    requires
        world.wf(),
    ensures
        r@ == snapshot(*world, game_id, lines@.map_values(|line: String| line@)),
{
    let players = collect_roster(&world.players, game_id);
    match world.find_enemy(game_id) {
        Some(e) => {
            proof {
                let chosen = enemy_of(world.enemies@, game_id).unwrap();
                assert(world.enemies@[e as int].bundle.game_id == game_id);
                assert(world.enemies@[chosen].bundle.game_id == game_id);
                assert(chosen == e);
            }
            OngoingGamePayload {
                bygone_parts: world.enemies[e].bundle.parts,
                bygone_attack: world.enemies[e].bundle.attack,
                bygone_stage: world.enemies[e].bundle.stage,
                battle_log_lines: lines,
                players,
            }
        },
        None => OngoingGamePayload {
            bygone_parts: BygoneParts::default(),
            bygone_attack: Attack::default(),
            bygone_stage: Bygone03Stage::Armored,
            battle_log_lines: lines,
            players,
        },
    }
}

/// Tells the renderer what to show: first the progress of the turn for
/// each report of progress in a guild whose battle goes on, then for each
/// drawing the end of the guild's battle or its state. The lines of the
/// log that a drawing shows are taken out of the log.
pub fn render(
    games: &GameRegistry,
    world: &World,
    battle_log: &mut BattleLog,
    ev_game_draw: &Vec<GameDrawEvent>,
    ev_progress_bar_update: &Vec<ProgressBarUpdateEvent>,
    ev_render: &mut Vec<GameRenderEvent>,
)
    requires
        games.wf(),
        world.wf(),
        old(battle_log).wf(),
    ensures
        final(battle_log).wf(),
        final(battle_log).texts() == log_after_draws(
            *games,
            old(battle_log).texts(),
            ev_game_draw@,
            ev_game_draw@.len(),
        ),
        render_views(final(ev_render)@) == render_views(old(ev_render)@) + progress_views(
            *games,
            ev_progress_bar_update@,
            ev_progress_bar_update@.len(),
        ) + draw_views(
            *games,
            *world,
            old(battle_log).texts(),
            ev_game_draw@,
            ev_game_draw@.len(),
        ),
{
    let n = ev_progress_bar_update.len();
    let mut i: usize = 0;
    while i < n
        invariant
            i <= n,
            n == ev_progress_bar_update@.len(),
            games.wf(),
            *battle_log == *old(battle_log),
            render_views(ev_render@) == render_views(old(ev_render)@) + progress_views(
                *games,
                ev_progress_bar_update@,
                i as nat,
            ),
        decreases n - i,
    {
        let ev = ev_progress_bar_update[i];
        let ghost before = ev_render@;
        match games.get(ev.guild_id) {
            Some(game) => {
                proof {
                    assert(games@.contains_key(ev.guild_id) == games.has(ev.guild_id));
                    assert(games@[ev.guild_id] == games.game(ev.guild_id));
                }
                match game.status {
                    GameStatus::Ongoing => {
                        let event = GameRenderEvent {
                            guild_id: ev.guild_id,
                            interaction_id: game.interaction_id,
                            loc: game.localization.clone(),
                            payload: GameRenderPayload::TurnProgress(ev.progress),
                        };
                        ev_render.push(event);
                        proof {
                            assert(render_views(ev_render@) =~= render_views(before).push(event@));
                        }
                    },
                    _ => {},
                }
            },
            None => {
                proof {
                    assert(games@.contains_key(ev.guild_id) == games.has(ev.guild_id));
                }
            },
        }
        proof {
            assert(render_views(ev_render@) =~= render_views(old(ev_render)@) + progress_views(
                *games,
                ev_progress_bar_update@,
                (i + 1) as nat,
            ));
        }
        i += 1;
    }
    let ghost base = render_views(ev_render@);
    let ghost log = battle_log.texts();
    let m = ev_game_draw.len();
    let mut k: usize = 0;
    while k < m
        invariant
            k <= m,
            m == ev_game_draw@.len(),
            games.wf(),
            world.wf(),
            battle_log.wf(),
            battle_log.texts() == log_after_draws(*games, log, ev_game_draw@, k as nat),
            render_views(ev_render@) == base + draw_views(
                *games,
                *world,
                log,
                ev_game_draw@,
                k as nat,
            ),
        decreases m - k,
    {
        let ev = ev_game_draw[k];
        let ghost before = ev_render@;
        let ghost log_before = battle_log.texts();
        match games.get(ev.guild_id) {
            Some(game) => {
                proof {
                    assert(games@.contains_key(ev.guild_id) == games.has(ev.guild_id));
                    assert(games@[ev.guild_id] == games.game(ev.guild_id));
                }
                let payload = match game.status {
                    GameStatus::Finished(finished_status) => GameRenderPayload::FinishedGame(
                        finished_status,
                    ),
                    GameStatus::Ongoing => {
                        let battle_log_lines = battle_log.take(ev.guild_id);
                        GameRenderPayload::OngoingGame(
                            take_snapshot(world, game.id, battle_log_lines),
                        )
                    },
                };
                let event = GameRenderEvent {
                    guild_id: ev.guild_id,
                    interaction_id: game.interaction_id,
                    loc: game.localization.clone(),
                    payload,
                };
                ev_render.push(event);
                proof {
                    assert(render_views(ev_render@) =~= render_views(before).push(event@));
                    assert(draw_view(*games, *world, log_before, ev) =~= seq![event@]);
                }
            },
            None => {
                proof {
                    assert(games@.contains_key(ev.guild_id) == games.has(ev.guild_id));
                }
            },
        }
        proof {
            assert(render_views(ev_render@) =~= base + draw_views(
                *games,
                *world,
                log,
                ev_game_draw@,
                (k + 1) as nat,
            ));
        }
        k += 1;
    }
}

} // verus!
