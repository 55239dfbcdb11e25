//! What a battle is made of besides its entities: the difficulty, the turn
//! timer, the status, and the record of the battle in the registry.

use vstd::prelude::*;
use vstd::string::*;
use vstd::std_specs::convert::FromSpecImpl;
use crate::components::{GameId, InteractionId};
use crate::localization::Localization;
use crate::text::str_eq;

verus! {

/// Nanoseconds in a second.
pub const NANOS_PER_SEC: u128 = 1_000_000_000;

/// Nanoseconds in a millisecond.
pub const NANOS_PER_MILLI: u128 = 1_000_000;

/// How hard a battle is: it sets the health of the machine's parts and the
/// damage of its attack.
#[derive(Clone, Copy, Debug, PartialEq, Eq, Structural, PartialOrd, Ord, Hash)]
pub enum Difficulty {
    Easy,
    Medium,
    Hard,
    RealBullets,
}

impl Difficulty {
    /// The name of the difficulty.
    pub open spec fn name(self) -> Seq<char> {
        match self {
            Difficulty::Easy => "Easy"@,
            Difficulty::Medium => "Medium"@,
            Difficulty::Hard => "Hard"@,
            Difficulty::RealBullets => "RealBullets"@,
        }
    }

    /// The least and the greatest health that a part of the machine starts
    /// with.
    pub open spec fn spec_parts_health_range(self) -> (usize, usize) {
        match self {
            Difficulty::Easy => (1, 1),
            Difficulty::Medium => (1, 2),
            Difficulty::Hard => (1, 3),
            Difficulty::RealBullets => (1, 3),
        }
    }

    /// The least and the greatest damage of the machine's attack.
    pub open spec fn spec_attack_range(self) -> (usize, usize) {
        match self {
            Difficulty::Easy => (1, 1),
            Difficulty::Medium => (1, 2),
            Difficulty::Hard => (1, 3),
            Difficulty::RealBullets => (6, 6),
        }
    }

    #[verifier::when_used_as_spec(spec_parts_health_range)]
    pub fn parts_health_range(self) -> (r: (usize, usize))
        ensures
            r == self.parts_health_range(),
            1 <= r.0 <= r.1,
    {
        match self {
            Difficulty::Easy => (1, 1),
            Difficulty::Medium => (1, 2),
            Difficulty::Hard => (1, 3),
            Difficulty::RealBullets => (1, 3),
        }
    }

    #[verifier::when_used_as_spec(spec_attack_range)]
    pub fn attack_range(self) -> (r: (usize, usize))
        ensures
            r == self.attack_range(),
            1 <= r.0 <= r.1,
    {
        match self {
            Difficulty::Easy => (1, 1),
            Difficulty::Medium => (1, 2),
            Difficulty::Hard => (1, 3),
            Difficulty::RealBullets => (6, 6),
        }
    }

    /// The difficulty of a name; `None` for any other string.
    pub fn from_str(name: &str) -> (r: Option<Self>)
        ensures
            r == if name@ == "Easy"@ {
                Some(Difficulty::Easy)
            } else if name@ == "Medium"@ {
                Some(Difficulty::Medium)
            } else if name@ == "Hard"@ {
                Some(Difficulty::Hard)
            } else if name@ == "RealBullets"@ {
                Some(Difficulty::RealBullets)
            } else {
                None
            },
    {
        if str_eq(name, "Easy") {
            Some(Difficulty::Easy)
        } else if str_eq(name, "Medium") {
            Some(Difficulty::Medium)
        } else if str_eq(name, "Hard") {
            Some(Difficulty::Hard)
        } else if str_eq(name, "RealBullets") {
            Some(Difficulty::RealBullets)
        } else {
            None
        }
    }

    /// The name of the difficulty.
    pub fn as_str(self) -> (r: &'static str)
        ensures
            r@ == self.name(),
    {
        match self {
            Difficulty::Easy => "Easy",
            Difficulty::Medium => "Medium",
            Difficulty::Hard => "Hard",
            Difficulty::RealBullets => "RealBullets",
        }
    }

    /// The name of the difficulty, owned.
    pub fn to_string(self) -> (r: String)
        ensures
            r@ == self.name(),
    {
        String::from_str(self.as_str())
    }
}

/// How long a delayed event waits, in nanoseconds.
#[derive(Clone, Copy, Debug, PartialEq, Eq, Structural, PartialOrd, Ord, Hash)]
pub struct EventDelay(pub u128);

impl EventDelay {
    /// A delay of `millis` milliseconds.
    pub fn from_millis(millis: u64) -> (r: Self)
        ensures
            r.0 == millis * NANOS_PER_MILLI,
    {
        EventDelay(millis as u128 * NANOS_PER_MILLI)
    }
}

impl Default for EventDelay {
    fn default() -> (r: Self)
        ensures
            r.0 == 0,
    {
        EventDelay(0)
    }
}

/// What a timer says is due in a tick.
#[derive(Clone, Copy, Debug, PartialEq, Eq, Structural, Hash)]
pub struct TimerSignals {
    /// The machine attacks.
    pub enemy_attack: bool,
    /// The turn ends.
    pub turn_end: bool,
    /// The progress bar takes a step; the share of the turn that has
    /// passed, in percent.
    pub progress: Option<i32>,
}

/// The clock of one turn of one battle. It starts with the first attack
/// of the turn, lets the machine attack once shortly before the turn's end,
/// ends the turn once, and reports progress in between.
#[derive(Clone, Copy, Debug, PartialEq, Eq, Structural, Hash)]
pub struct GameTimer {
    start: u128,
    enemy_attacked: bool,
    turn_ended: bool,
    progress_bar_ticks: u64,
}

impl GameTimer {
    /// Seconds that a turn lasts.
    pub const TURN_DURATION_SECS: u64 = 10;

    /// Seconds between two steps of the progress bar.
    pub const PROGRESS_BAR_TICK_SECS: u64 = 2;

    /// Nanoseconds that a turn lasts.
    pub const TURN_DURATION: u128 = 10_000_000_000;

    /// Nanoseconds after which the machine attacks.
    pub const ENEMY_ATTACK_DELAY: u128 = 9_500_000_000;

    pub closed spec fn start(self) -> u128 {
        self.start
    }

    pub closed spec fn enemy_attacked(self) -> bool {
        self.enemy_attacked
    }

    pub closed spec fn turn_ended(self) -> bool {
        self.turn_ended
    }

    pub closed spec fn progress_bar_ticks(self) -> u64 {
        self.progress_bar_ticks
    }

    /// The timer with the given parts.
    pub closed spec fn of(
        start: u128,
        enemy_attacked: bool,
        turn_ended: bool,
        progress_bar_ticks: u64,
    ) -> GameTimer {
        GameTimer { start, enemy_attacked, turn_ended, progress_bar_ticks }
    }

    /// Whether the timer has the given parts.
    pub open spec fn holds(
        self,
        start: u128,
        enemy_attacked: bool,
        turn_ended: bool,
        progress_bar_ticks: int,
    ) -> bool {
        &&& self.start() == start
        &&& self.enemy_attacked() == enemy_attacked
        &&& self.turn_ended() == turn_ended
        &&& self.progress_bar_ticks() == progress_bar_ticks
    }

    /// A timer is told by its parts: the timer of given parts has these,
    /// and two timers with the same parts are the same.
    pub proof fn lemma_of(
        start: u128,
        enemy_attacked: bool,
        turn_ended: bool,
        progress_bar_ticks: u64,
    )
        ensures
            GameTimer::of(start, enemy_attacked, turn_ended, progress_bar_ticks).holds(
                start,
                enemy_attacked,
                turn_ended,
                progress_bar_ticks as int,
            ),
            forall|timer: GameTimer|
                timer.holds(start, enemy_attacked, turn_ended, progress_bar_ticks as int) ==> timer
                    == #[trigger] GameTimer::of(
                    timer.start(),
                    timer.enemy_attacked(),
                    timer.turn_ended(),
                    timer.progress_bar_ticks(),
                ),
    {
    }

    /// The timer after a tick has the parts that the tick has left.
    pub proof fn lemma_after_tick(timer: GameTimer, now: u128)
        ensures
            timer.after_tick(now).holds(
                timer.start(),
                timer.enemy_attacked() || timer.enemy_attack_due(now),
                timer.turn_ended() || timer.turn_end_due(now),
                if timer.progress_reported(now) {
                    timer.ticks_after_progress(now)
                } else {
                    timer.progress_bar_ticks() as int
                },
            ),
    {
    }

    /// The nanoseconds from the timer's start to `now`; zero where `now`
    /// lies before the start.
    pub open spec fn elapsed(self, now: u128) -> int {
        if now >= self.start() {
            now - self.start()
        } else {
            0
        }
    }

    /// The whole seconds from the timer's start to `now`.
    pub open spec fn elapsed_secs(self, now: u128) -> int {
        self.elapsed(now) / (NANOS_PER_SEC as int)
    }

    pub open spec fn spec_timer_finished(&self, now: u128) -> bool {
        self.elapsed(now) > Self::TURN_DURATION
    }

    pub open spec fn spec_depleted(&self) -> bool {
        self.enemy_attacked() && self.turn_ended()
    }

    /// Whether the machine attacks at `now`: within the turn, after the
    /// delay, and not before in this turn.
    pub open spec fn enemy_attack_due(self, now: u128) -> bool {
        &&& !self.timer_finished(now)
        &&& !self.enemy_attacked()
        &&& self.elapsed(now) >= Self::ENEMY_ATTACK_DELAY
    }

    /// Whether the turn ends at `now`: after its duration, and not before.
    pub open spec fn turn_end_due(self, now: u128) -> bool {
        !self.turn_ended() && self.timer_finished(now)
    }

    /// The second at which the progress bar takes its next step.
    pub open spec fn next_progress_bar_pos(self) -> int {
        if (self.progress_bar_ticks() + 1) * Self::PROGRESS_BAR_TICK_SECS
            < Self::TURN_DURATION_SECS {
            (self.progress_bar_ticks() + 1) * Self::PROGRESS_BAR_TICK_SECS
        } else {
            Self::TURN_DURATION_SECS as int
        }
    }

    /// Whether the progress bar takes a step at `now`.
    pub open spec fn progress_due(self, now: u128) -> bool {
        !self.timer_finished(now) && self.elapsed_secs(now) >= self.next_progress_bar_pos()
    }

    /// The steps that the progress bar has taken after a step at `now`:
    /// one more, and one for each further interval that has passed by then.
    pub open spec fn ticks_after_progress(self, now: u128) -> int {
        let ticks = self.progress_bar_ticks() + 1 + (self.elapsed_secs(now)
            - self.next_progress_bar_pos()) / (Self::PROGRESS_BAR_TICK_SECS as int);
        if ticks > u64::MAX {
            u64::MAX as int
        } else {
            ticks
        }
    }

    /// The share of the turn that has passed at `now`, in percent.
    pub open spec fn progress_percent(self, now: u128) -> int {
        self.elapsed_secs(now) * 100 / (Self::TURN_DURATION_SECS as int)
    }

    /// The timer after a tick at `now`. Within the turn and after the
    /// delay the machine attacks, once. After the turn's duration the turn
    /// ends, once. In a tick in which neither happens, the progress bar
    /// takes a step if one is due.
    pub open spec fn after_tick(self, now: u128) -> GameTimer {
        GameTimer::of(
            self.start(),
            self.enemy_attacked() || self.enemy_attack_due(now),
            self.turn_ended() || self.turn_end_due(now),
            if self.progress_reported(now) {
                self.ticks_after_progress(now) as u64
            } else {
                self.progress_bar_ticks()
            },
        )
    }

    /// Whether a tick at `now` reports the progress of the turn.
    pub open spec fn progress_reported(self, now: u128) -> bool {
        !self.enemy_attack_due(now) && !self.turn_end_due(now) && self.progress_due(now)
    }

    /// A timer of a turn that starts at `now`.
    pub fn new(now: u128) -> (r: Self)
        ensures
            r == GameTimer::of(now, false, false, 0),
            r.start() == now,
            !r.enemy_attacked(),
            !r.turn_ended(),
            r.progress_bar_ticks() == 0,
    {
        Self { start: now, enemy_attacked: false, turn_ended: false, progress_bar_ticks: 0 }
    }

    /// Whether the timer has nothing left to do.
    #[verifier::when_used_as_spec(spec_depleted)]
    pub fn depleted(&self) -> (r: bool)
        ensures
            r == self.depleted(),
    {
        self.enemy_attacked && self.turn_ended
    }

    fn elapsed_nanos(&self, now: u128) -> (r: u128)
        ensures
            r == self.elapsed(now),
    {
        if now >= self.start {
            now - self.start
        } else {
            0
        }
    }

    /// Whether the machine attacks now; if so, it will not again in this
    /// turn.
    pub fn enemy_attack(&mut self, now: u128) -> (r: bool)
        ensures
            r == old(self).enemy_attack_due(now),
            *final(self) == GameTimer::of(
                old(self).start(),
                old(self).enemy_attacked() || r,
                old(self).turn_ended(),
                old(self).progress_bar_ticks(),
            ),
            final(self).holds(
                old(self).start(),
                old(self).enemy_attacked() || r,
                old(self).turn_ended(),
                old(self).progress_bar_ticks() as int,
            ),
    {
        if self.timer_finished(now) || self.enemy_attacked || self.elapsed_nanos(now)
            < Self::ENEMY_ATTACK_DELAY {
            false
        } else {
            self.enemy_attacked = true;
            true
        }
    }

    /// Whether the turn ends now; if so, it will not again.
    pub fn turn_end(&mut self, now: u128) -> (r: bool)
        ensures
            r == old(self).turn_end_due(now),
            *final(self) == GameTimer::of(
                old(self).start(),
                old(self).enemy_attacked(),
                old(self).turn_ended() || r,
                old(self).progress_bar_ticks(),
            ),
            final(self).holds(
                old(self).start(),
                old(self).enemy_attacked(),
                old(self).turn_ended() || r,
                old(self).progress_bar_ticks() as int,
            ),
    {
        if self.turn_ended || !self.timer_finished(now) {
            false
        } else {
            self.turn_ended = true;
            true
        }
    }

    /// The progress of the turn in percent, if the progress bar takes a
    /// step now.
    pub fn progress_bar_update(&mut self, now: u128) -> (r: Option<i32>)
        ensures
            r.is_some() == old(self).progress_due(now),
            r matches Some(percent) ==> percent == old(self).progress_percent(now) && 0 <= percent
                <= 100,
            *final(self) == GameTimer::of(
                old(self).start(),
                old(self).enemy_attacked(),
                old(self).turn_ended(),
                if r.is_some() {
                    old(self).ticks_after_progress(now) as u64
                } else {
                    old(self).progress_bar_ticks()
                },
            ),
            final(self).holds(
                old(self).start(),
                old(self).enemy_attacked(),
                old(self).turn_ended(),
                if r.is_some() {
                    old(self).ticks_after_progress(now)
                } else {
                    old(self).progress_bar_ticks() as int
                },
            ),
    {
        if self.timer_finished(now) {
            return None;
        }
        let elapsed: u128 = self.elapsed_nanos(now) / NANOS_PER_SEC;
        assert(Self::PROGRESS_BAR_TICK_SECS == 2 && Self::TURN_DURATION_SECS == 10);
        let stepped: u128 = (self.progress_bar_ticks as u128 + 1) * 2;
        let next_progress_bar_pos: u128 = if stepped < Self::TURN_DURATION_SECS as u128 {
            stepped
        } else {
            Self::TURN_DURATION_SECS as u128
        };
        if elapsed >= next_progress_bar_pos {
            let ticks: u128 = self.progress_bar_ticks as u128 + 1 + (elapsed
                - next_progress_bar_pos) / 2;
            self.progress_bar_ticks = if ticks > u64::MAX as u128 {
                u64::MAX
            } else {
                ticks as u64
            };
            Some((elapsed * 100 / 10) as i32)
        } else {
            None
        }
    }

    /// Takes the timer through a tick at `now`, and tells what is due: see
    /// `after_tick`.
    pub fn tick(&mut self, now: u128) -> (r: TimerSignals)
        ensures
            *final(self) == old(self).after_tick(now),
            final(self).holds(
                old(self).start(),
                old(self).enemy_attacked() || old(self).enemy_attack_due(now),
                old(self).turn_ended() || old(self).turn_end_due(now),
                if old(self).progress_reported(now) {
                    old(self).ticks_after_progress(now)
                } else {
                    old(self).progress_bar_ticks() as int
                },
            ),
            r.enemy_attack == old(self).enemy_attack_due(now),
            r.turn_end == old(self).turn_end_due(now),
            r.progress.is_some() == old(self).progress_reported(now),
            r.progress matches Some(percent) ==> percent == old(self).progress_percent(now) && 0
                <= percent <= 100,
    {
        let enemy_attack = self.enemy_attack(now);
        let turn_end = self.turn_end(now);
        let progress = if !enemy_attack && !turn_end {
            self.progress_bar_update(now)
        } else {
            None
        };
        TimerSignals { enemy_attack, turn_end, progress }
    }

    /// Whether the turn's duration has passed.
    #[verifier::when_used_as_spec(spec_timer_finished)]
    pub fn timer_finished(&self, now: u128) -> (r: bool)
        ensures
            r == self.timer_finished(now),
    {
        self.elapsed_nanos(now) > Self::TURN_DURATION
    }

    /// A timer acts at most once as the machine's attack and at most once
    /// as the turn's end: what has fired stays fired.
    pub proof fn lemma_fires_once(timer: GameTimer, now: u128, later: u128)
        ensures
            timer.enemy_attack_due(now) ==> !GameTimer::of(
                timer.start(),
                true,
                timer.turn_ended(),
                timer.progress_bar_ticks(),
            ).enemy_attack_due(later),
            timer.turn_end_due(now) ==> !GameTimer::of(
                timer.start(),
                timer.enemy_attacked(),
                true,
                timer.progress_bar_ticks(),
            ).turn_end_due(later),
    {
    }
}

/// How a battle has ended.
#[derive(Clone, Copy, Debug, PartialEq, Eq, Structural, Hash)]
pub enum FinishedGameStatus {
    Won,
    Lost,
    Expired,
}

/// Whether a battle goes on, and if not, how it has ended.
#[derive(Clone, Copy, Debug, PartialEq, Eq, Structural, Hash)]
pub enum GameStatus {
    Ongoing,
    Finished(FinishedGameStatus),
}

impl From<FinishedGameStatus> for GameStatus {
    fn from(status: FinishedGameStatus) -> (r: Self) {
        GameStatus::Finished(status)
    }
}

impl FromSpecImpl<FinishedGameStatus> for GameStatus {
    open spec fn obeys_from_spec() -> bool {
        true
    }

    open spec fn from_spec(status: FinishedGameStatus) -> Self {
        GameStatus::Finished(status)
    }
}

/// The record of a battle in the registry.
#[derive(Debug)]
pub struct Game {
    /// When the battle started: nanoseconds on the wall clock.
    pub start_time: u128,
    pub id: GameId,
    pub interaction_id: InteractionId,
    pub localization: Localization,
    pub status: GameStatus,
}

impl Game {
    /// The whole seconds from the battle's start to `now`; zero where the
    /// wall clock has gone back behind the start.
    pub open spec fn age_secs(self, now: u128) -> int {
        if now >= self.start_time {
            (now - self.start_time) / (NANOS_PER_SEC as int)
        } else {
            0
        }
    }

    /// A battle that starts at `now` and goes on.
    pub fn new(
        game_id: GameId,
        interaction_id: InteractionId,
        localization: Localization,
        now: u128,
    ) -> (r: Self)
        ensures
            r.start_time == now,
            r.id == game_id,
            r.interaction_id == interaction_id,
            r.localization == localization,
            r.status == GameStatus::Ongoing,
    {
        Self { start_time: now, id: game_id, interaction_id, localization, status: GameStatus::Ongoing }
    }

    /// The whole seconds that the battle has lasted at `now`, at most
    /// `u64::MAX`.
    pub fn duration_secs(&self, now: u128) -> (r: u64)
        ensures
            r == if self.age_secs(now) > u64::MAX {
                u64::MAX as int
            } else {
                self.age_secs(now)
            },
    {
        if now >= self.start_time {
            let secs: u128 = (now - self.start_time) / NANOS_PER_SEC;
            if secs > u64::MAX as u128 {
                u64::MAX
            } else {
                secs as u64
            }
        } else {
            0
        }
    }
}

} // verus!
