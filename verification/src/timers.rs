//! The turn timers: one clock for each battle in which a turn goes on.

use vstd::prelude::*;
use crate::components::{GameId, GuildId};
use crate::events::{
    EnemyAttackEvent, GameDrawEvent, PlayerAttackEvent, ProgressBarUpdateEvent, TurnEndEvent,
};
use crate::game_helpers::GameTimer;
use crate::seqs::{kept, lemma_kept_order, lemma_kept_origin, origin};

verus! {

/// The timer of the turn of one battle.
#[derive(Clone, Copy, Debug, PartialEq, Eq, Structural, Hash)]
pub struct TimerEntry {
    pub guild_id: GuildId,
    pub game_id: GameId,
    pub timer: GameTimer,
}

/// Whether no two timers belong to the same battle of the same guild.
pub open spec fn one_timer_per_game(entries: Seq<TimerEntry>) -> bool {
    forall|i: int, j: int|
        0 <= i < j < entries.len() ==> !((#[trigger] entries[i]).guild_id == (
        #[trigger] entries[j]).guild_id && entries[i].game_id == entries[j].game_id)
}

/// Whether the battle of the guild has a timer.
pub open spec fn has_timer(entries: Seq<TimerEntry>, guild_id: GuildId, game_id: GameId) -> bool {
    exists|i: int|
        0 <= i < entries.len() && (#[trigger] entries[i]).guild_id == guild_id && entries[i].game_id
            == game_id
}

/// The condition of a timer that still has something to do.
pub open spec fn running() -> spec_fn(TimerEntry) -> bool {
    |entry: TimerEntry| !entry.timer.depleted()
}

/// The entry after a tick of its timer at `now`.
pub open spec fn entry_after_tick(entry: TimerEntry, now: u128) -> TimerEntry {
    TimerEntry {
        guild_id: entry.guild_id,
        game_id: entry.game_id,
        timer: entry.timer.after_tick(now),
    }
}

/// The entry of each timer after a tick at `now`.
pub open spec fn ticked(entries: Seq<TimerEntry>, now: u128) -> Seq<TimerEntry> {
    Seq::new(entries.len(), |i: int| entry_after_tick(entries[i], now))
}

/// The attacks of the machines that the first `n` timers bring about at
/// `now`.
pub open spec fn due_enemy_attacks(entries: Seq<TimerEntry>, now: u128, n: nat) -> Seq<
    EnemyAttackEvent,
>
    decreases n,
{
    if n == 0 {
        Seq::empty()
    } else if entries[n - 1].timer.enemy_attack_due(now) {
        due_enemy_attacks(entries, now, (n - 1) as nat).push(
            EnemyAttackEvent { guild_id: entries[n - 1].guild_id, game_id: entries[n - 1].game_id },
        )
    } else {
        due_enemy_attacks(entries, now, (n - 1) as nat)
    }
}

/// The ends of turns that the first `n` timers bring about at `now`.
pub open spec fn due_turn_ends(entries: Seq<TimerEntry>, now: u128, n: nat) -> Seq<TurnEndEvent>
    decreases n,
{
    if n == 0 {
        Seq::empty()
    } else if entries[n - 1].timer.turn_end_due(now) {
        due_turn_ends(entries, now, (n - 1) as nat).push(
            TurnEndEvent { game_id: entries[n - 1].game_id },
        )
    } else {
        due_turn_ends(entries, now, (n - 1) as nat)
    }
}

/// The drawings that the first `n` timers bring about at `now`: one with
/// each end of a turn.
pub open spec fn due_draws(entries: Seq<TimerEntry>, now: u128, n: nat) -> Seq<GameDrawEvent>
    decreases n,
{
    if n == 0 {
        Seq::empty()
    } else if entries[n - 1].timer.turn_end_due(now) {
        due_draws(entries, now, (n - 1) as nat).push(
            GameDrawEvent { guild_id: entries[n - 1].guild_id },
        )
    } else {
        due_draws(entries, now, (n - 1) as nat)
    }
}

/// The reports of progress that the first `n` timers bring about at `now`.
pub open spec fn due_progress(entries: Seq<TimerEntry>, now: u128, n: nat) -> Seq<
    ProgressBarUpdateEvent,
>
    decreases n,
{
    if n == 0 {
        Seq::empty()
    } else if entries[n - 1].timer.progress_reported(now) {
        due_progress(entries, now, (n - 1) as nat).push(
            ProgressBarUpdateEvent {
                guild_id: entries[n - 1].guild_id,
                progress: entries[n - 1].timer.progress_percent(now) as i32,
            },
        )
    } else {
        due_progress(entries, now, (n - 1) as nat)
    }
}

/// The timers after the first `n` attacks at `now`: an attack in a battle
/// without a timer starts one.
pub open spec fn started(
    entries: Seq<TimerEntry>,
    events: Seq<(GameId, PlayerAttackEvent)>,
    now: u128,
    n: nat,
) -> Seq<TimerEntry>
    decreases n,
{
    if n == 0 {
        entries
    } else {
        let before = started(entries, events, now, (n - 1) as nat);
        let guild_id = events[n - 1].1.guild_id;
        let game_id = events[n - 1].0;
        if has_timer(before, guild_id, game_id) {
            before
        } else {
            before.push(TimerEntry { guild_id, game_id, timer: GameTimer::of(now, false, false, 0) })
        }
    }
}

/// The timers of all battles.
#[derive(Debug)]
pub struct TurnTimers {
    pub entries: Vec<TimerEntry>,
}

impl TurnTimers {
    /// The invariant of the timers: a battle of a guild has at most one.
    pub open spec fn wf(self) -> bool {
        one_timer_per_game(self.entries@)
    }

    /// No timers.
    pub fn new() -> (r: Self)
        ensures
            r.wf(),
            r.entries@.len() == 0,
    {
        TurnTimers { entries: Vec::new() }
    }

    /// Whether the timers are well-formed.
    pub fn is_wf(&self) -> (r: bool)
        ensures
            r == self.wf(),
    {
        let n = self.entries.len();
        let mut i: usize = 0;
        while i < n
            invariant
                i <= n,
                n == self.entries@.len(),
                forall|a: int, b: int|
                    0 <= a < i && a < b < n ==> !((#[trigger] self.entries@[a]).guild_id == (
                    #[trigger] self.entries@[b]).guild_id && self.entries@[a].game_id
                        == self.entries@[b].game_id),
            decreases n - i,
        {
            let mut j: usize = i + 1;
            while j < n
                invariant
                    i < j <= n,
                    n == self.entries@.len(),
                    forall|b: int|
                        i < b < j ==> !(self.entries@[i as int].guild_id == (
                        #[trigger] self.entries@[b]).guild_id && self.entries@[i as int].game_id
                            == self.entries@[b].game_id),
                decreases n - j,
            {
                if self.entries[i].guild_id == self.entries[j].guild_id && self.entries[i].game_id.0
                    == self.entries[j].game_id.0 {
                    return false;
                }
                j += 1;
            }
            i += 1;
        }
        true
    }

    /// Whether the battle of the guild has a timer.
    pub fn contains(&self, guild_id: GuildId, game_id: GameId) -> (r: bool)
        ensures
            r == has_timer(self.entries@, guild_id, game_id),
    {
        let n = self.entries.len();
        let mut i: usize = 0;
        while i < n
            invariant
                i <= n,
                n == self.entries@.len(),
                forall|k: int|
                    0 <= k < i ==> !((#[trigger] self.entries@[k]).guild_id == guild_id
                        && self.entries@[k].game_id == game_id),
            decreases n - i,
        {
            if self.entries[i].guild_id == guild_id && self.entries[i].game_id.0 == game_id.0 {
                return true;
            }
            i += 1;
        }
        false
    }
}

/// Of timers of which no two belong to the same battle, those that are
/// kept are such timers too.
pub proof fn lemma_kept_timers(entries: Seq<TimerEntry>, keep: spec_fn(TimerEntry) -> bool)
    requires
        one_timer_per_game(entries),
    ensures
        one_timer_per_game(kept(entries, keep)),
{
    let k = kept(entries, keep);
    assert forall|i: int, j: int| 0 <= i < j < k.len() implies !((#[trigger] k[i]).guild_id == (
    #[trigger] k[j]).guild_id && k[i].game_id == k[j].game_id) by {
        lemma_kept_origin(entries, keep, i);
        lemma_kept_origin(entries, keep, j);
        lemma_kept_order(entries, keep, i, j);
        let oi = origin(entries, keep, i);
        let oj = origin(entries, keep, j);
        assert(!(entries[oi].guild_id == entries[oj].guild_id && entries[oi].game_id
            == entries[oj].game_id));
    }
}

/// Takes every timer through a tick at `now` and announces what is due:
/// the attack of the machine, the end of the turn with a drawing, or the
/// progress of the turn. Then the timers that have nothing left to do are
/// dropped. Then each attack of a player in a battle without a timer
/// starts one: the turn begins with its first attack.
pub fn turn_timer(
    timers: &mut TurnTimers,
    now: u128,
    ev_player_attack: &Vec<(GameId, PlayerAttackEvent)>,
    ev_enemy_attack: &mut Vec<EnemyAttackEvent>,
    ev_game_draw: &mut Vec<GameDrawEvent>,
    ev_turn_end: &mut Vec<TurnEndEvent>,
    ev_progress_bar_update: &mut Vec<ProgressBarUpdateEvent>,
)
    requires
        old(timers).wf(),
    ensures
        final(timers).wf(),
        final(timers).entries@ == started(
            kept(ticked(old(timers).entries@, now), running()),
            ev_player_attack@,
            now,
            ev_player_attack@.len(),
        ),
        final(ev_enemy_attack)@ == old(ev_enemy_attack)@ + due_enemy_attacks(
            old(timers).entries@,
            now,
            old(timers).entries@.len(),
        ),
        final(ev_turn_end)@ == old(ev_turn_end)@ + due_turn_ends(
            old(timers).entries@,
            now,
            old(timers).entries@.len(),
        ),
        final(ev_game_draw)@ == old(ev_game_draw)@ + due_draws(
            old(timers).entries@,
            now,
            old(timers).entries@.len(),
        ),
        final(ev_progress_bar_update)@ == old(ev_progress_bar_update)@ + due_progress(
            old(timers).entries@,
            now,
            old(timers).entries@.len(),
        ),
{
    let ghost pre = timers.entries@;
    let n = timers.entries.len();
    let mut i: usize = 0;
    while i < n
        invariant
            i <= n,
            n == pre.len(),
            timers.entries@.len() == n,
            forall|k: int| 0 <= k < i ==> #[trigger] timers.entries@[k] == entry_after_tick(pre[k], now),
            forall|k: int| i <= k < n ==> #[trigger] timers.entries@[k] == pre[k],
            ev_enemy_attack@ == old(ev_enemy_attack)@ + due_enemy_attacks(pre, now, i as nat),
            ev_turn_end@ == old(ev_turn_end)@ + due_turn_ends(pre, now, i as nat),
            ev_game_draw@ == old(ev_game_draw)@ + due_draws(pre, now, i as nat),
            ev_progress_bar_update@ == old(ev_progress_bar_update)@ + due_progress(
                pre,
                now,
                i as nat,
            ),
        decreases n - i,
    {
        let guild_id = timers.entries[i].guild_id;
        let game_id = timers.entries[i].game_id;
        let signals = timers.entries[i].timer.tick(now);
        if signals.enemy_attack {
            ev_enemy_attack.push(EnemyAttackEvent::new(guild_id, game_id));
        }
        if signals.turn_end {
            ev_turn_end.push(TurnEndEvent::new(game_id));
            ev_game_draw.push(GameDrawEvent::new(guild_id));
        }
        match signals.progress {
            Some(progress) => {
                ev_progress_bar_update.push(ProgressBarUpdateEvent::new(guild_id, progress));
            },
            None => {},
        }
        proof {
            assert(ev_enemy_attack@ =~= old(ev_enemy_attack)@ + due_enemy_attacks(
                pre,
                now,
                (i + 1) as nat,
            ));
            assert(ev_turn_end@ =~= old(ev_turn_end)@ + due_turn_ends(pre, now, (i + 1) as nat));
            assert(ev_game_draw@ =~= old(ev_game_draw)@ + due_draws(pre, now, (i + 1) as nat));
            assert(ev_progress_bar_update@ =~= old(ev_progress_bar_update)@ + due_progress(
                pre,
                now,
                (i + 1) as nat,
            ));
        }
        i += 1;
    }
    proof {
        assert(timers.entries@ =~= ticked(pre, now));
        assert(one_timer_per_game(timers.entries@)) by {
            assert forall|a: int, b: int| 0 <= a < b < timers.entries@.len() implies !((
            #[trigger] timers.entries@[a]).guild_id == (#[trigger] timers.entries@[b]).guild_id
                && timers.entries@[a].game_id == timers.entries@[b].game_id) by {
                assert(!(pre[a].guild_id == pre[b].guild_id && pre[a].game_id == pre[b].game_id));
            }
        }
    }
    let ghost all = timers.entries@;
    let mut left: Vec<TimerEntry> = Vec::new();
    let mut j: usize = 0;
    while j < n
        invariant
            j <= n,
            n == all.len(),
            timers.entries@ == all,
            left@ == kept(all.take(j as int), running()),
        decreases n - j,
    {
        proof {
            assert(all.take(j + 1).drop_last() == all.take(j as int));
        }
        if !timers.entries[j].timer.depleted() {
            left.push(timers.entries[j]);
        }
        j += 1;
    }
    proof {
        assert(all.take(n as int) == all);
        lemma_kept_timers(all, running());
    }
    timers.entries = left;
    let ghost base = timers.entries@;
    let m = ev_player_attack.len();
    let mut k: usize = 0;
    while k < m
        invariant
            k <= m,
            m == ev_player_attack@.len(),
            timers.wf(),
            timers.entries@ == started(base, ev_player_attack@, now, k as nat),
        decreases m - k,
    {
        let guild_id = ev_player_attack[k].1.guild_id;
        let game_id = ev_player_attack[k].0;
        if !timers.contains(guild_id, game_id) {
            timers.entries.push(TimerEntry { guild_id, game_id, timer: GameTimer::new(now) });
        }
        k += 1;
    }
}

} // verus!
