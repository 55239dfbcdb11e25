//! The delay queue: events that take effect only after they have waited
//! for a fixed time, in the order in which they came.

use vstd::prelude::*;
use std::collections::VecDeque;
use crate::components::GameId;
use crate::events::{DelayedEvent, GameDrawEvent, PlayerAttackEvent};
use crate::game_helpers::EventDelay;

verus! {

/// Whether an event that arrived at `arrival` has waited for more than
/// `delay` at `now`.
pub open spec fn has_waited(arrival: u128, now: u128, delay: EventDelay) -> bool {
    now >= arrival && now - arrival > delay.0
}

/// The number of events at the front of the queue that have waited for
/// more than `delay` at `now`.
pub open spec fn ready_count(buffer: Seq<(u128, DelayedEvent)>, now: u128, delay: EventDelay) -> nat
    decreases buffer.len(),
{
    if buffer.len() == 0 || !has_waited(buffer[0].0, now, delay) {
        0
    } else {
        1 + ready_count(buffer.skip(1), now, delay)
    }
}

/// The drawings among the first `n` events of the queue, in their order.
pub open spec fn released_draws(buffer: Seq<(u128, DelayedEvent)>, n: nat) -> Seq<GameDrawEvent>
    decreases n,
{
    if n == 0 {
        Seq::empty()
    } else {
        match buffer[n - 1].1 {
            DelayedEvent::GameDraw(ev) => released_draws(buffer, (n - 1) as nat).push(ev),
            DelayedEvent::PlayerAttack(_) => released_draws(buffer, (n - 1) as nat),
        }
    }
}

/// The attacks among the first `n` events of the queue, in their order.
pub open spec fn released_attacks(buffer: Seq<(u128, DelayedEvent)>, n: nat) -> Seq<
    (GameId, PlayerAttackEvent),
>
    decreases n,
{
    if n == 0 {
        Seq::empty()
    } else {
        match buffer[n - 1].1 {
            DelayedEvent::GameDraw(_) => released_attacks(buffer, (n - 1) as nat),
            DelayedEvent::PlayerAttack(ev) => released_attacks(buffer, (n - 1) as nat).push(ev),
        }
    }
}

/// The events with the time of their arrival.
pub open spec fn arrived(events: Seq<DelayedEvent>, now: u128) -> Seq<(u128, DelayedEvent)> {
    Seq::new(events.len(), |i: int| (now, events[i]))
}

/// The events that wait, each with the time of its arrival, the oldest
/// first.
#[derive(Debug)]
pub struct DelayQueue {
    pub buffer: VecDeque<(u128, DelayedEvent)>,
}

impl DelayQueue {
    /// An empty queue.
    pub fn new() -> (r: Self)
        ensures
            r.buffer@.len() == 0,
    {
        DelayQueue { buffer: VecDeque::new() }
    }
}

/// The count of the ready events of a queue goes on behind its first
/// ready event.
proof fn lemma_ready_count_skip(buffer: Seq<(u128, DelayedEvent)>, now: u128, delay: EventDelay, k: nat)
    requires
        k <= ready_count(buffer, now, delay),
    ensures
        k <= buffer.len(),
        ready_count(buffer, now, delay) == k + ready_count(buffer.skip(k as int), now, delay),
    decreases k,
{
    if k == 0 {
        assert(buffer.skip(0) == buffer);
    } else {
        lemma_ready_count_skip(buffer.skip(1), now, delay, (k - 1) as nat);
        assert(buffer.skip(1).skip(k - 1) == buffer.skip(k as int));
    }
}

/// Releases from the front of the queue every event that has waited for
/// more than the delay at `now`, the drawings to the drawings and the
/// attacks to the attacks, and stops at the first event that has not. Then
/// the new events join the queue at its end, arrived at `now`.
pub fn delay_events(
    delay: &EventDelay,
    buffer: &mut DelayQueue,
    now: u128,
    ev_delayed: &Vec<DelayedEvent>,
    ev_game_draw: &mut Vec<GameDrawEvent>,
    ev_player_attack: &mut Vec<(GameId, PlayerAttackEvent)>,
)
    ensures
        final(buffer).buffer@ == old(buffer).buffer@.skip(
            ready_count(old(buffer).buffer@, now, *delay) as int,
        ) + arrived(ev_delayed@, now),
        final(ev_game_draw)@ == old(ev_game_draw)@ + released_draws(
            old(buffer).buffer@,
            ready_count(old(buffer).buffer@, now, *delay),
        ),
        final(ev_player_attack)@ == old(ev_player_attack)@ + released_attacks(
            old(buffer).buffer@,
            ready_count(old(buffer).buffer@, now, *delay),
        ),
{
    let ghost pre = buffer.buffer@;
    let ghost total = ready_count(pre, now, *delay);
    let mut released: usize = 0;
    let waiting = buffer.buffer.len();
    proof {
        lemma_ready_count_skip(pre, now, *delay, 0);
        assert(pre.skip(0) == pre);
    }
    loop
        invariant
            released <= total,
            released <= pre.len(),
            pre.len() == waiting,
            total == ready_count(pre, now, *delay),
            buffer.buffer@ == pre.skip(released as int),
            total == released + ready_count(buffer.buffer@, now, *delay),
            ev_game_draw@ == old(ev_game_draw)@ + released_draws(pre, released as nat),
            ev_player_attack@ == old(ev_player_attack)@ + released_attacks(pre, released as nat),
        ensures
            released == total,
        decreases pre.len() - released,
    {
        if buffer.buffer.len() == 0 {
            break;
        }
        let arrival = buffer.buffer[0].0;
        if !(now >= arrival && now - arrival > delay.0) {
            break;
        }
        proof {
            assert(buffer.buffer@.len() > 0);
            assert(released < pre.len());
        }
        let event = buffer.buffer.pop_front().unwrap();
        proof {
            assert(buffer.buffer@ == pre.skip(released as int).skip(1));
            assert(pre.skip(released as int).skip(1) == pre.skip(released + 1));
            assert(event == pre[released as int]);
        }
        match event.1 {
            DelayedEvent::GameDraw(ev) => {
                ev_game_draw.push(ev);
            },
            DelayedEvent::PlayerAttack(ev) => {
                ev_player_attack.push(ev);
            },
        }
        released += 1;
        proof {
            assert(ev_game_draw@ =~= old(ev_game_draw)@ + released_draws(pre, released as nat));
            assert(ev_player_attack@ =~= old(ev_player_attack)@ + released_attacks(
                pre,
                released as nat,
            ));
        }
    }
    let ghost rest = buffer.buffer@;
    let n = ev_delayed.len();
    let mut i: usize = 0;
    while i < n
        invariant
            i <= n,
            n == ev_delayed@.len(),
            buffer.buffer@ == rest + arrived(ev_delayed@.take(i as int), now),
        decreases n - i,
    {
        buffer.buffer.push_back((now, ev_delayed[i].clone()));
        proof {
            assert(buffer.buffer@ =~= rest + arrived(ev_delayed@.take(i + 1), now));
        }
        i += 1;
    }
    proof {
        assert(ev_delayed@.take(n as int) == ev_delayed@);
    }
}

} // verus!
