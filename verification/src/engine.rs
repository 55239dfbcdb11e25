//! The engine: the state of all battles, and the tick that takes it from
//! one moment to the next by visiting the subsystems in their fixed order.

use vstd::prelude::*;
use crate::battle_log::{
    after_events, after_joins as log_after_joins, event_picks_fit, join_picks_fit, log_battle,
    BattleLog,
};
use crate::bundles::BygoneStats;
use crate::clock::{Clock, Moment};
use crate::combat::{
    assaulted, assaults_deaths, assaults_log, damage_bygone, damage_players, defeat_log, defeats,
    draws_fit, enemy_after_deaths, process_bygone_part_death, rolls_fit, strikes_deactivations,
    strikes_log, struck,
};
use crate::delay::{
    arrived, delay_events, ready_count, released_attacks, released_draws, DelayQueue,
};
use crate::dice::Dice;
use crate::dispatcher::{listen, Dispatch};
use crate::events::{render_views, Events, EventsPlugin, GameRenderEvent, InputEvent};
use crate::game_helpers::EventDelay;
use crate::registry::GameRegistry;
use crate::render::{draw_views, log_after_draws, progress_views, render};
use crate::seqs::kept;
use crate::spawners::{after_joins, after_spawns, spawn_bygones, spawn_players, stats_fit};
use crate::state_driver::{
    cleanup, deactivate, enemies_after_despawns, enemy_after_deactivation, entry_after_cleanup,
    entry_after_status, expiry_draws, player_after_deactivation, player_after_turn_end,
    players_after_despawns, ready_players, status_draws, update_game_status,
};
use crate::timers::{
    due_draws, due_enemy_attacks, due_progress, due_turn_ends, running, started, ticked,
    turn_timer, TurnTimers,
};
use crate::world::World;

verus! {

/// The parts of the engine that a step may change.
pub struct Touched {
    pub world: bool,
    pub games: bool,
    pub battle_log: bool,
    pub timers: bool,
    pub delayed: bool,
    pub ev_battle_log: bool,
    pub ev_part_death: bool,
    pub ev_deactivate: bool,
    pub ev_delayed: bool,
    pub ev_enemy_attack: bool,
    pub ev_game_draw: bool,
    pub ev_game_start: bool,
    pub ev_player_attack: bool,
    pub ev_player_join: bool,
    pub ev_bygone_spawn: bool,
    pub ev_deallocate: bool,
    pub ev_turn_end: bool,
    pub ev_progress_bar_update: bool,
}

impl Touched {
    /// No part.
    pub open spec fn nothing() -> Touched {
        Touched {
            world: false,
            games: false,
            battle_log: false,
            timers: false,
            delayed: false,
            ev_battle_log: false,
            ev_part_death: false,
            ev_deactivate: false,
            ev_delayed: false,
            ev_enemy_attack: false,
            ev_game_draw: false,
            ev_game_start: false,
            ev_player_attack: false,
            ev_player_join: false,
            ev_bygone_spawn: false,
            ev_deallocate: false,
            ev_turn_end: false,
            ev_progress_bar_update: false,
        }
    }
}

/// The state of all battles.
#[derive(Debug)]
pub struct Engine {
    pub world: World,
    pub games: GameRegistry,
    pub battle_log: BattleLog,
    pub timers: TurnTimers,
    pub delayed: DelayQueue,
    pub events: Events,
    pub event_delay: EventDelay,
}

impl Engine {
    /// The invariant of the engine between two ticks: the world, the
    /// registry, the log and the timers are well-formed, and no event
    /// waits in a queue but the delayed ones.
    pub open spec fn wf(self) -> bool {
        &&& self.world.wf()
        &&& self.games.wf()
        &&& self.battle_log.wf()
        &&& self.timers.wf()
        &&& self.events.drained()
    }

    /// Whether the engine is well-formed, as a tick asks.
    pub fn is_wf(&self) -> (r: bool)
        ensures
            r == self.wf(),
    {
        self.world.is_wf() && self.games.is_wf() && self.battle_log.is_wf() && self.timers.is_wf()
            && self.events.is_drained()
    }

    /// An engine without battles, in which delayed events wait for
    /// `event_delay`.
    pub fn new(event_delay: EventDelay) -> (r: Self)
        ensures
            r.wf(),
            r.event_delay == event_delay,
            r.world.players@.len() == 0,
            r.world.enemies@.len() == 0,
            r.world.next_entity == 0,
            r.games.entries@.len() == 0,
            r.timers.entries@.len() == 0,
            r.delayed.buffer@.len() == 0,
            r.events.delayed@.len() == 0,
    {
        Engine {
            world: World::new(),
            games: GameRegistry::new(),
            battle_log: BattleLog::new(),
            timers: TurnTimers::new(),
            delayed: DelayQueue::new(),
            events: EventsPlugin.build(),
            event_delay,
        }
    }

    /// Whether `post` differs from `self` in no part but those that are
    /// touched; the delay of the events is never touched.
    pub open spec fn same_but(self, post: Engine, touched: Touched) -> bool {
        &&& post.event_delay == self.event_delay
        &&& touched.world || post.world == self.world
        &&& touched.games || post.games == self.games
        &&& touched.battle_log || post.battle_log == self.battle_log
        &&& touched.timers || post.timers == self.timers
        &&& touched.delayed || post.delayed == self.delayed
        &&& touched.ev_battle_log || post.events.battle_log == self.events.battle_log
        &&& touched.ev_part_death || post.events.part_death == self.events.part_death
        &&& touched.ev_deactivate || post.events.deactivate == self.events.deactivate
        &&& touched.ev_delayed || post.events.delayed == self.events.delayed
        &&& touched.ev_enemy_attack || post.events.enemy_attack == self.events.enemy_attack
        &&& touched.ev_game_draw || post.events.game_draw == self.events.game_draw
        &&& touched.ev_game_start || post.events.game_start == self.events.game_start
        &&& touched.ev_player_attack || post.events.player_attack == self.events.player_attack
        &&& touched.ev_player_join || post.events.player_join == self.events.player_join
        &&& touched.ev_bygone_spawn || post.events.bygone_spawn == self.events.bygone_spawn
        &&& touched.ev_deallocate || post.events.deallocate == self.events.deallocate
        &&& touched.ev_turn_end || post.events.turn_end == self.events.turn_end
        &&& touched.ev_progress_bar_update || post.events.progress_bar_update
            == self.events.progress_bar_update
    }

    /// What the dispatcher works on in this engine, with `render` for
    /// what the renderer has been told.
    pub open spec fn dispatch(self, render: Seq<GameRenderEvent>) -> Dispatch {
        Dispatch {
            games: self.games,
            battle_log: self.battle_log,
            render,
            game_start: self.events.game_start@,
            player_attack: self.events.player_attack@,
            delayed: self.events.delayed@,
            player_join: self.events.player_join@,
            bygone_spawn: self.events.bygone_spawn@,
            deallocate: self.events.deallocate@,
        }
    }

    /// Whether `post` is what the dispatcher makes of `self` with the
    /// inputs at `now`, telling the renderer `out`.
    pub open spec fn dispatched(
        self,
        post: Engine,
        out: Seq<GameRenderEvent>,
        inputs: Seq<InputEvent>,
        now: Moment,
    ) -> bool {
        &&& self.dispatch(Seq::empty()).after_inputs(
            post.dispatch(out),
            inputs,
            inputs.len(),
            now.wall,
            self.world,
        )
        &&& self.same_but(
            post,
            Touched {
                games: true,
                battle_log: true,
                ev_game_start: true,
                ev_player_attack: true,
                ev_delayed: true,
                ev_player_join: true,
                ev_bygone_spawn: true,
                ev_deallocate: true,
                ..Touched::nothing()
            },
        )
    }

    /// Whether `post` is what the delay queue makes of `self` at `now`:
    /// what has waited long enough is released, and the delayed events of
    /// this tick are taken into the queue.
    pub open spec fn released(self, post: Engine, now: Moment) -> bool {
        let count = ready_count(self.delayed.buffer@, now.monotonic, self.event_delay);
        &&& post.delayed.buffer@ == self.delayed.buffer@.skip(count as int) + arrived(
            self.events.delayed@,
            now.monotonic,
        )
        &&& post.events.game_draw@ == self.events.game_draw@ + released_draws(
            self.delayed.buffer@,
            count,
        )
        &&& post.events.player_attack@ == self.events.player_attack@ + released_attacks(
            self.delayed.buffer@,
            count,
        )
        &&& post.events.delayed@ == Seq::<crate::events::DelayedEvent>::empty()
        &&& self.same_but(
            post,
            Touched {
                delayed: true,
                ev_game_draw: true,
                ev_player_attack: true,
                ev_delayed: true,
                ..Touched::nothing()
            },
        )
    }

    /// Whether `post` is what the turn timers make of `self` at `now`.
    pub open spec fn timed(self, post: Engine, now: Moment) -> bool {
        let entries = self.timers.entries@;
        &&& post.timers.entries@ == started(
            kept(ticked(entries, now.monotonic), running()),
            self.events.player_attack@,
            now.monotonic,
            self.events.player_attack@.len(),
        )
        &&& post.events.enemy_attack@ == self.events.enemy_attack@ + due_enemy_attacks(
            entries,
            now.monotonic,
            entries.len(),
        )
        &&& post.events.turn_end@ == self.events.turn_end@ + due_turn_ends(
            entries,
            now.monotonic,
            entries.len(),
        )
        &&& post.events.game_draw@ == self.events.game_draw@ + due_draws(
            entries,
            now.monotonic,
            entries.len(),
        )
        &&& post.events.progress_bar_update@ == self.events.progress_bar_update@ + due_progress(
            entries,
            now.monotonic,
            entries.len(),
        )
        &&& self.same_but(
            post,
            Touched {
                timers: true,
                ev_enemy_attack: true,
                ev_turn_end: true,
                ev_game_draw: true,
                ev_progress_bar_update: true,
                ..Touched::nothing()
            },
        )
    }

    /// Whether `post` is what the intake of a tick at `now` makes of
    /// `self`: the dispatcher, then the delay queue, then the turn timers.
    #[verifier::opaque]
    pub open spec fn taken_in(
        self,
        post: Engine,
        out: Seq<GameRenderEvent>,
        inputs: Seq<InputEvent>,
        now: Moment,
    ) -> bool {
        exists|a: Engine, b: Engine|
            #![trigger self.dispatched(a, out, inputs, now), a.released(b, now)]
            self.dispatched(a, out, inputs, now) && a.released(b, now) && b.timed(post, now)
    }

    /// Whether `post` is what the spawner of the machines makes of `self`
    /// with the given stats.
    pub open spec fn bygones_spawned(self, post: Engine, stats: Seq<BygoneStats>) -> bool {
        &&& stats_fit(self.events.bygone_spawn@, stats)
        &&& post.world.players@ == self.world.players@
        &&& (post.world.enemies@, post.world.next_entity) == after_spawns(
            self.world.enemies@,
            self.world.next_entity,
            self.events.bygone_spawn@,
            stats,
            self.events.bygone_spawn@.len(),
        )
        &&& self.same_but(post, Touched { world: true, ..Touched::nothing() })
    }

    /// Whether `post` is what the spawner of the players makes of `self`.
    pub open spec fn players_spawned(self, post: Engine) -> bool {
        &&& post.world.enemies@ == self.world.enemies@
        &&& (post.world.players@, post.world.next_entity) == after_joins(
            self.world.players@,
            self.world.next_entity,
            self.events.player_join@,
            self.events.player_join@.len(),
        )
        &&& self.same_but(post, Touched { world: true, ..Touched::nothing() })
    }

    /// Whether `post` is what the growth of a tick makes of `self`: the
    /// machines of new battles are added, with stats that the dice have
    /// drawn, and then those who join.
    #[verifier::opaque]
    pub open spec fn grown(self, post: Engine) -> bool {
        exists|a: Engine, stats: Seq<BygoneStats>|
            #![trigger self.bygones_spawned(a, stats)]
            self.bygones_spawned(a, stats) && a.players_spawned(post)
    }

    /// Whether `post` is what the attacks of the players make of `self`
    /// with the given rolls.
    pub open spec fn bygone_damaged(self, post: Engine, rolls: Seq<isize>) -> bool {
        let attacks = self.events.player_attack@;
        &&& rolls_fit(self.world.players@, self.world.enemies@, attacks, rolls)
        &&& assaulted(self.world, post.world, attacks, rolls)
        &&& post.events.battle_log@ == self.events.battle_log@ + assaults_log(
            self.world.players@,
            self.world.enemies@,
            attacks,
            rolls,
            rolls.len(),
        )
        &&& post.events.part_death@ == self.events.part_death@ + assaults_deaths(
            self.world.players@,
            self.world.enemies@,
            attacks,
            rolls,
            rolls.len(),
        )
        &&& self.same_but(
            post,
            Touched { world: true, ev_battle_log: true, ev_part_death: true, ..Touched::nothing() },
        )
    }

    /// Whether `post` is what the deaths of parts make of `self`.
    pub open spec fn parts_died(self, post: Engine) -> bool {
        let deaths = self.events.part_death@;
        &&& post.world.players@ == self.world.players@
        &&& post.world.next_entity == self.world.next_entity
        &&& post.world.enemies@.len() == self.world.enemies@.len()
        &&& forall|i: int|
            0 <= i < self.world.enemies@.len() ==> #[trigger] post.world.enemies@[i]
                == enemy_after_deaths(self.world.enemies@[i], deaths, deaths.len())
        &&& post.events.deactivate@ == self.events.deactivate@ + defeats(
            self.world.enemies@,
            deaths,
            deaths.len(),
        )
        &&& post.events.battle_log@ == self.events.battle_log@ + defeat_log(
            self.world.enemies@,
            deaths,
            deaths.len(),
        )
        &&& self.same_but(
            post,
            Touched { world: true, ev_battle_log: true, ev_deactivate: true, ..Touched::nothing() },
        )
    }

    /// Whether `post` is what the attacks of the machines make of `self`
    /// with the given draws.
    pub open spec fn players_damaged(self, post: Engine, draws: Seq<(usize, isize)>) -> bool {
        let attacks = self.events.enemy_attack@;
        &&& draws_fit(self.world.players@, self.world.enemies@, attacks, draws)
        &&& struck(self.world, post.world, attacks, draws)
        &&& post.events.battle_log@ == self.events.battle_log@ + strikes_log(
            self.world.players@,
            self.world.enemies@,
            attacks,
            draws,
            attacks.len(),
        )
        &&& post.events.deactivate@ == self.events.deactivate@ + strikes_deactivations(
            self.world.players@,
            self.world.enemies@,
            attacks,
            draws,
            attacks.len(),
        )
        &&& self.same_but(
            post,
            Touched { world: true, ev_battle_log: true, ev_deactivate: true, ..Touched::nothing() },
        )
    }

    /// Whether `post` is what the combat of a tick makes of `self`: the
    /// attacks of the players, then the deaths of parts, then the attacks
    /// of the machines, with what the dice have rolled and drawn.
    #[verifier::opaque]
    pub open spec fn fought(self, post: Engine) -> bool {
        exists|a: Engine, b: Engine, rolls: Seq<isize>, draws: Seq<(usize, isize)>|
            #![trigger self.bygone_damaged(a, rolls), b.players_damaged(post, draws)]
            self.bygone_damaged(a, rolls) && a.parts_died(b) && b.players_damaged(post, draws)
    }

    /// Whether `post` is what the decision of the battles makes of `self`.
    pub open spec fn status_updated(self, post: Engine) -> bool {
        &&& post.games.entries@.len() == self.games.entries@.len()
        &&& forall|k: int|
            0 <= k < self.games.entries@.len() ==> #[trigger] post.games.entries@[k]
                == entry_after_status(self.games.entries@[k], self.world, self.events.deactivate@)
        &&& post.events.game_draw@ == self.events.game_draw@ + status_draws(
            self.games.entries@,
            self.world,
            self.events.deactivate@,
            self.games.entries@.len(),
        )
        &&& self.same_but(post, Touched { games: true, ev_game_draw: true, ..Touched::nothing() })
    }

    /// Whether `post` is what the leaving of the fallen makes of `self`.
    pub open spec fn fallen_left(self, post: Engine) -> bool {
        &&& post.world.next_entity == self.world.next_entity
        &&& post.world.players@.len() == self.world.players@.len()
        &&& post.world.enemies@.len() == self.world.enemies@.len()
        &&& forall|i: int|
            0 <= i < self.world.players@.len() ==> #[trigger] post.world.players@[i]
                == player_after_deactivation(self.world.players@[i], self.events.deactivate@)
        &&& forall|i: int|
            0 <= i < self.world.enemies@.len() ==> #[trigger] post.world.enemies@[i]
                == enemy_after_deactivation(self.world.enemies@[i], self.events.deactivate@)
        &&& self.same_but(post, Touched { world: true, ..Touched::nothing() })
    }

    /// Whether `post` is what the ends of turns make of `self`.
    pub open spec fn readied(self, post: Engine) -> bool {
        &&& post.world.next_entity == self.world.next_entity
        &&& post.world.enemies@ == self.world.enemies@
        &&& post.world.players@.len() == self.world.players@.len()
        &&& forall|i: int|
            0 <= i < self.world.players@.len() ==> #[trigger] post.world.players@[i]
                == player_after_turn_end(self.world.players@[i], self.events.turn_end@)
        &&& self.same_but(post, Touched { world: true, ..Touched::nothing() })
    }

    /// Whether `post` is what the settling of a tick makes of `self`: the
    /// battles are decided, then the fallen leave the resolution, then the
    /// players of ended turns are made ready.
    #[verifier::opaque]
    pub open spec fn settled(self, post: Engine) -> bool {
        exists|a: Engine, b: Engine|
            #![trigger self.status_updated(a), a.fallen_left(b)]
            self.status_updated(a) && a.fallen_left(b) && b.readied(post)
    }

    /// Whether `post` is what the writing of the log makes of `self` with
    /// the given picks of templates.
    pub open spec fn logged(self, post: Engine, event_picks: Seq<usize>, join_picks: Seq<usize>) -> bool {
        &&& event_picks_fit(self.games, self.events.battle_log@, event_picks)
        &&& join_picks_fit(self.games, self.events.player_join@, join_picks)
        &&& post.battle_log.texts() == log_after_joins(
            after_events(
                self.battle_log.texts(),
                self.games,
                self.events.battle_log@,
                event_picks,
                self.events.battle_log@.len(),
            ),
            self.games,
            self.events.player_join@,
            join_picks,
            self.events.player_join@.len(),
        )
        &&& self.same_but(post, Touched { battle_log: true, ..Touched::nothing() })
    }

    /// Whether `post` is what the render producer makes of `self`, telling
    /// the renderer `out_after` after `out_before`.
    pub open spec fn shown(
        self,
        post: Engine,
        out_before: Seq<GameRenderEvent>,
        out_after: Seq<GameRenderEvent>,
    ) -> bool {
        &&& post.battle_log.texts() == log_after_draws(
            self.games,
            self.battle_log.texts(),
            self.events.game_draw@,
            self.events.game_draw@.len(),
        )
        &&& render_views(out_after) == render_views(out_before) + progress_views(
            self.games,
            self.events.progress_bar_update@,
            self.events.progress_bar_update@.len(),
        ) + draw_views(
            self.games,
            self.world,
            self.battle_log.texts(),
            self.events.game_draw@,
            self.events.game_draw@.len(),
        )
        &&& self.same_but(post, Touched { battle_log: true, ..Touched::nothing() })
    }

    /// Whether `post` is what the cleanup at `now` makes of `self`, with
    /// the queues emptied after it.
    pub open spec fn cleaned(self, post: Engine, now: Moment) -> bool {
        &&& post.games.entries@.len() == self.games.entries@.len()
        &&& forall|k: int|
            0 <= k < self.games.entries@.len() ==> #[trigger] post.games.entries@[k]
                == entry_after_cleanup(self.games.entries@[k], now.wall)
        &&& post.events.delayed@ == self.events.delayed@ + expiry_draws(
            self.games.entries@,
            now.wall,
            self.games.entries@.len(),
        )
        &&& post.world.next_entity == self.world.next_entity
        &&& post.world.players@ == players_after_despawns(
            self.world.players@,
            self.events.deallocate@,
            self.events.deallocate@.len(),
        )
        &&& post.world.enemies@ == enemies_after_despawns(
            self.world.enemies@,
            self.events.deallocate@,
            self.events.deallocate@.len(),
        )
        &&& post.events.drained()
        &&& post.event_delay == self.event_delay
        &&& post.battle_log == self.battle_log
        &&& post.timers == self.timers
        &&& post.delayed == self.delayed
    }

    /// Whether `post` is what the output of a tick at `now` makes of
    /// `self`: the log is written from templates that the dice have
    /// picked, the renderer is told what to show, and the cleanup is done.
    #[verifier::opaque]
    pub open spec fn put_out(
        self,
        post: Engine,
        out_before: Seq<GameRenderEvent>,
        out_after: Seq<GameRenderEvent>,
        now: Moment,
    ) -> bool {
        exists|a: Engine, b: Engine, event_picks: Seq<usize>, join_picks: Seq<usize>|
            #![trigger self.logged(a, event_picks, join_picks), b.cleaned(post, now)]
            self.logged(a, event_picks, join_picks) && a.shown(b, out_before, out_after)
                && b.cleaned(post, now)
    }

    /// Whether `post` is what a tick at `now` makes of `self` with the
    /// inputs, telling the renderer `out`: the intake, the growth, the
    /// combat, the settling and the output, in this order. What the
    /// dispatcher tells the renderer comes first in `out`.
    pub open spec fn ticked(
        self,
        post: Engine,
        out: Seq<GameRenderEvent>,
        inputs: Seq<InputEvent>,
        now: Moment,
    ) -> bool {
        exists|a: Engine, b: Engine, c: Engine, d: Engine, first: Seq<GameRenderEvent>|
            #![trigger self.taken_in(a, first, inputs, now), a.grown(b), b.fought(c), c.settled(d)]
            self.taken_in(a, first, inputs, now) && a.grown(b) && b.fought(c) && c.settled(d)
                && d.put_out(post, first, out, now)
    }

    /// Whether the world, the registry, the log and the timers are
    /// well-formed.
    pub open spec fn sound(self) -> bool {
        &&& self.world.wf()
        &&& self.games.wf()
        &&& self.battle_log.wf()
        &&& self.timers.wf()
    }

    /// The intake of a tick: the inputs are dispatched, the delayed events
    /// released, and the timers advanced.
    fn intake(&mut self, inputs: Vec<InputEvent>, now: Moment, ev_render: &mut Vec<GameRenderEvent>)
        requires
            old(self).sound(),
            old(ev_render)@.len() == 0,
        ensures
            final(self).sound(),
            old(self).taken_in(*final(self), final(ev_render)@, inputs@, now),
    {
        let ghost pre = *self;
        let ghost all = inputs@;
        listen(
            inputs,
            now.wall,
            &self.world,
            &mut self.games,
            &mut self.battle_log,
            ev_render,
            &mut self.events.game_start,
            &mut self.events.player_attack,
            &mut self.events.delayed,
            &mut self.events.player_join,
            &mut self.events.bygone_spawn,
            &mut self.events.deallocate,
        );
        let ghost a = *self;
        proof {
            assert(old(ev_render)@ =~= Seq::<GameRenderEvent>::empty());
            assert(pre.dispatched(a, ev_render@, all, now));
        }
        delay_events(
            &self.event_delay,
            &mut self.delayed,
            now.monotonic,
            &self.events.delayed,
            &mut self.events.game_draw,
            &mut self.events.player_attack,
        );
        self.events.delayed.clear();
        let ghost b = *self;
        proof {
            assert(a.released(b, now));
        }
        turn_timer(
            &mut self.timers,
            now.monotonic,
            &self.events.player_attack,
            &mut self.events.enemy_attack,
            &mut self.events.game_draw,
            &mut self.events.turn_end,
            &mut self.events.progress_bar_update,
        );
        proof {
            assert(b.timed(*self, now));
            reveal(Engine::taken_in);
        }
    }

    /// The growth of a tick: the machines of new battles and those who
    /// join are added to the world.
    fn grow<D: Dice>(&mut self, rng: &mut D)
        requires
            old(self).sound(),
        ensures
            final(self).sound(),
            old(self).grown(*final(self)),
    {
        let ghost pre = *self;
        spawn_bygones(&mut self.world, rng, &self.events.bygone_spawn);
        let ghost a = *self;
        proof {
            let stats = choose|stats: Seq<BygoneStats>|
                (#[trigger] stats_fit(pre.events.bygone_spawn@, stats)) && (
                a.world.enemies@,
                a.world.next_entity,
            ) == after_spawns(
                    pre.world.enemies@,
                    pre.world.next_entity,
                    pre.events.bygone_spawn@,
                    stats,
                    pre.events.bygone_spawn@.len(),
                );
            assert(pre.bygones_spawned(a, stats));
        }
        spawn_players(&mut self.world, &self.events.player_join);
        proof {
            assert(a.players_spawned(*self));
            reveal(Engine::grown);
        }
    }

    /// The combat of a tick: the attacks of the players, the deaths of
    /// parts and the attacks of the machines are resolved, in this order.
    fn fight<D: Dice>(&mut self, rng: &mut D)
        requires
            old(self).sound(),
        ensures
            final(self).sound(),
            old(self).fought(*final(self)),
    {
        let ghost pre = *self;
        damage_bygone(
            &mut self.world,
            rng,
            &self.events.player_attack,
            &mut self.events.part_death,
            &mut self.events.battle_log,
        );
        let ghost a = *self;
        let ghost rolls = choose|rolls: Seq<isize>|
            {
                &&& rolls_fit(pre.world.players@, pre.world.enemies@, pre.events.player_attack@, rolls)
                &&& #[trigger] assaulted(pre.world, a.world, pre.events.player_attack@, rolls)
                &&& a.events.battle_log@ == pre.events.battle_log@ + assaults_log(
                    pre.world.players@,
                    pre.world.enemies@,
                    pre.events.player_attack@,
                    rolls,
                    rolls.len(),
                )
                &&& a.events.part_death@ == pre.events.part_death@ + assaults_deaths(
                    pre.world.players@,
                    pre.world.enemies@,
                    pre.events.player_attack@,
                    rolls,
                    rolls.len(),
                )
            };
        proof {
            assert(pre.bygone_damaged(a, rolls));
        }
        process_bygone_part_death(
            &mut self.world,
            &self.events.part_death,
            &mut self.events.battle_log,
            &mut self.events.deactivate,
        );
        let ghost b = *self;
        proof {
            assert(a.parts_died(b));
        }
        damage_players(
            &mut self.world,
            rng,
            &self.events.enemy_attack,
            &mut self.events.battle_log,
            &mut self.events.deactivate,
        );
        proof {
            let post = *self;
            let draws = choose|draws: Seq<(usize, isize)>|
                {
                    &&& draws_fit(b.world.players@, b.world.enemies@, b.events.enemy_attack@, draws)
                    &&& #[trigger] struck(b.world, post.world, b.events.enemy_attack@, draws)
                    &&& post.events.battle_log@ == b.events.battle_log@ + strikes_log(
                        b.world.players@,
                        b.world.enemies@,
                        b.events.enemy_attack@,
                        draws,
                        b.events.enemy_attack@.len(),
                    )
                    &&& post.events.deactivate@ == b.events.deactivate@ + strikes_deactivations(
                        b.world.players@,
                        b.world.enemies@,
                        b.events.enemy_attack@,
                        draws,
                        b.events.enemy_attack@.len(),
                    )
                };
            assert(b.players_damaged(post, draws));
            reveal(Engine::fought);
        }
    }

    /// The settling of a tick: the battles that are decided get their
    /// status, the fallen leave the resolution, and the players of ended
    /// turns are made ready.
    fn settle(&mut self)
        requires
            old(self).sound(),
        ensures
            final(self).sound(),
            old(self).settled(*final(self)),
    {
        let ghost pre = *self;
        update_game_status(
            &mut self.games,
            &self.world,
            &self.events.deactivate,
            &mut self.events.game_draw,
        );
        let ghost a = *self;
        proof {
            assert(pre.status_updated(a));
        }
        deactivate(&mut self.world, &self.events.deactivate);
        let ghost b = *self;
        proof {
            assert(a.fallen_left(b));
        }
        ready_players(&mut self.world, &self.events.turn_end);
        proof {
            assert(b.readied(*self));
            reveal(Engine::settled);
        }
    }

    /// The output of a tick: the log is written, the renderer is told what
    /// to show, what has expired or been replaced is cleaned up, and the
    /// queues are emptied.
    fn output<D: Dice>(&mut self, now: Moment, rng: &mut D, ev_render: &mut Vec<GameRenderEvent>)
        requires
            old(self).sound(),
        ensures
            final(self).wf(),
            old(self).put_out(*final(self), old(ev_render)@, final(ev_render)@, now),
    {
        let ghost pre = *self;
        log_battle(
            &self.games,
            rng,
            &mut self.battle_log,
            &self.events.battle_log,
            &self.events.player_join,
        );
        let ghost a = *self;
        proof {
            let found = choose|event_picks: Seq<usize>, join_picks: Seq<usize>|
                {
                    &&& #[trigger] event_picks_fit(pre.games, pre.events.battle_log@, event_picks)
                    &&& #[trigger] join_picks_fit(pre.games, pre.events.player_join@, join_picks)
                    &&& a.battle_log.texts() == log_after_joins(
                        after_events(
                            pre.battle_log.texts(),
                            pre.games,
                            pre.events.battle_log@,
                            event_picks,
                            pre.events.battle_log@.len(),
                        ),
                        pre.games,
                        pre.events.player_join@,
                        join_picks,
                        pre.events.player_join@.len(),
                    )
                };
            assert(pre.logged(a, found.0, found.1));
        }
        render(
            &self.games,
            &self.world,
            &mut self.battle_log,
            &self.events.game_draw,
            &self.events.progress_bar_update,
            ev_render,
        );
        let ghost b = *self;
        proof {
            assert(a.shown(b, old(ev_render)@, ev_render@));
        }
        cleanup(
            &mut self.world,
            &mut self.games,
            now.wall,
            &self.events.deallocate,
            &mut self.events.delayed,
        );
        self.events.drain();
        proof {
            assert(b.cleaned(*self, now));
            reveal(Engine::put_out);
        }
    }

    /// Takes the engine through one tick at `now`: the inputs are
    /// dispatched, the delayed events released, the timers advanced, those
    /// who join and the machines of new battles are added, the attacks of
    /// the players, the deaths of parts and the attacks of the machines are
    /// resolved, the battles that are decided get their status, the fallen
    /// leave the resolution and the players of ended turns are made ready,
    /// the log is written, the renderer is told what to show, and what has
    /// expired or been replaced is cleaned up. The result is what the
    /// renderer is told, in its order. See `ticked`.
    pub fn tick_at<D: Dice>(&mut self, inputs: Vec<InputEvent>, now: Moment, rng: &mut D) -> (r: Vec<
        GameRenderEvent,
    >)
        requires
            old(self).wf(),
        ensures
            final(self).wf(),
            old(self).ticked(*final(self), r@, inputs@, now),
    {
        let ghost pre = *self;
        let ghost all = inputs@;
        let mut ev_render: Vec<GameRenderEvent> = Vec::new();
        self.intake(inputs, now, &mut ev_render);
        let ghost a = *self;
        let ghost first = ev_render@;
        self.grow(rng);
        let ghost b = *self;
        self.fight(rng);
        let ghost c = *self;
        self.settle();
        let ghost d = *self;
        self.output(now, rng, &mut ev_render);
        proof {
            assert(pre.taken_in(a, first, all, now));
            assert(a.grown(b));
            assert(b.fought(c));
            assert(c.settled(d));
            assert(d.put_out(*self, first, ev_render@, now));
        }
        ev_render
    }

    /// Takes the engine through one tick at the time that `clock` shows:
    /// see `tick_at`.
    pub fn tick<D: Dice>(&mut self, clock: &Clock, inputs: Vec<InputEvent>, rng: &mut D) -> (r: Vec<
        GameRenderEvent,
    >)
        requires
            old(self).wf(),
        ensures
            final(self).wf(),
            exists|now: Moment| old(self).ticked(*final(self), r@, inputs@, now),
    {
        let now = clock.now();
        self.tick_at(inputs, now, rng)
    }
}

} // verus!
