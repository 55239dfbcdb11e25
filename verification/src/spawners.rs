//! The spawners: they add the players who join and the machines of new
//! battles to the world.

use vstd::prelude::*;
use crate::bundles::{Bygone03Bundle, BygoneStats, PlayerBundle};
use crate::components::{GameId, UserId, UserIdComponent};
use crate::dice::Dice;
use crate::events::{BygoneSpawnEvent, Entity, PlayerJoinEvent};
use crate::world::{one_enemy_per_game, EnemyRow, PlayerRow, World};

verus! {

/// Whether `user` has a row in the battle `game_id` among `players`.
pub open spec fn has_row(players: Seq<PlayerRow>, user: UserId, game_id: GameId) -> bool {
    exists|i: int|
        0 <= i < players.len() && (#[trigger] players[i]).bundle.user_id == UserIdComponent(user)
            && players[i].bundle.game_id == game_id
}

/// Whether the battle `game_id` has a machine among `enemies`.
pub open spec fn has_machine(enemies: Seq<EnemyRow>, game_id: GameId) -> bool {
    exists|i: int| 0 <= i < enemies.len() && (#[trigger] enemies[i]).bundle.game_id == game_id
}

/// The players and the next free handle after the first `n` events. Who
/// joins gets a row under the next free handle, unless they have one in
/// that battle already or no handle is free.
pub open spec fn after_joins(
    players: Seq<PlayerRow>,
    next_entity: u64,
    events: Seq<PlayerJoinEvent>,
    n: nat,
) -> (Seq<PlayerRow>, u64)
    decreases n,
{
    if n == 0 {
        (players, next_entity)
    } else {
        let (before, next) = after_joins(players, next_entity, events, (n - 1) as nat);
        let ev = events[n - 1];
        if !has_row(before, ev.player, ev.game_id) && next < u64::MAX {
            (
                before.push(
                    PlayerRow {
                        entity: Entity(next),
                        bundle: PlayerBundle::joined(ev.player, ev.player_name, ev.game_id),
                    },
                ),
                (next + 1) as u64,
            )
        } else {
            (before, next)
        }
    }
}

/// Adds a row for each player who joins: see `after_joins`.
pub fn spawn_players(world: &mut World, ev_player_join: &Vec<PlayerJoinEvent>)
    requires
        old(world).wf(),
    ensures
        final(world).wf(),
        final(world).enemies@ == old(world).enemies@,
        (final(world).players@, final(world).next_entity) == after_joins(
            old(world).players@,
            old(world).next_entity,
            ev_player_join@,
            ev_player_join@.len(),
        ),
{
    let n = ev_player_join.len();
    let mut k: usize = 0;
    while k < n
        invariant
            k <= n,
            n == ev_player_join@.len(),
            world.wf(),
            world.enemies@ == old(world).enemies@,
            (world.players@, world.next_entity) == after_joins(
                old(world).players@,
                old(world).next_entity,
                ev_player_join@,
                k as nat,
            ),
        decreases n - k,
    {
        let ev = &ev_player_join[k];
        let _ = world.spawn_player(PlayerBundle::new(ev.player, ev.player_name.clone(), ev.game_id));
        k += 1;
    }
}

/// The machines and the next free handle after the first `n` events, where
/// `stats[k]` is what the dice have drawn for the event at `k`. A new
/// battle gets a machine under the next free handle, unless it has one
/// already or no handle is free.
pub open spec fn after_spawns(
    enemies: Seq<EnemyRow>,
    next_entity: u64,
    events: Seq<BygoneSpawnEvent>,
    stats: Seq<BygoneStats>,
    n: nat,
) -> (Seq<EnemyRow>, u64)
    decreases n,
{
    if n == 0 {
        (enemies, next_entity)
    } else {
        let (before, next) = after_spawns(enemies, next_entity, events, stats, (n - 1) as nat);
        let ev = events[n - 1];
        if !has_machine(before, ev.game_id) && next < u64::MAX {
            (
                before.push(
                    EnemyRow {
                        entity: Entity(next),
                        bundle: Bygone03Bundle::made(stats[n - 1], ev.game_id),
                    },
                ),
                (next + 1) as u64,
            )
        } else {
            (before, next)
        }
    }
}

/// However many machines are to be made, no battle gets a second one, and
/// the machines that were there stay in their places as they are.
pub proof fn lemma_spawns_keep_one_machine_per_game(
    enemies: Seq<EnemyRow>,
    next_entity: u64,
    events: Seq<BygoneSpawnEvent>,
    stats: Seq<BygoneStats>,
    n: nat,
)
    requires
        one_enemy_per_game(enemies),
    ensures
        one_enemy_per_game(after_spawns(enemies, next_entity, events, stats, n).0),
        enemies.len() <= after_spawns(enemies, next_entity, events, stats, n).0.len(),
        forall|i: int|
            0 <= i < enemies.len() ==> #[trigger] after_spawns(
                enemies,
                next_entity,
                events,
                stats,
                n,
            ).0[i] == enemies[i],
    decreases n,
{
    if n > 0 {
        lemma_spawns_keep_one_machine_per_game(enemies, next_entity, events, stats, (n - 1) as nat);
        let (before, next) = after_spawns(enemies, next_entity, events, stats, (n - 1) as nat);
        let after = after_spawns(enemies, next_entity, events, stats, n).0;
        let ev = events[n - 1];
        if !has_machine(before, ev.game_id) && next < u64::MAX {
            assert forall|i: int, j: int| 0 <= i < j < after.len() implies (
            #[trigger] after[i]).bundle.game_id != (#[trigger] after[j]).bundle.game_id by {
                if j < before.len() {
                    assert(before[i].bundle.game_id != before[j].bundle.game_id);
                } else {
                    assert(before[i].bundle.game_id != ev.game_id);
                }
            }
        }
    }
}

/// One request for a machine in a battle that has none adds exactly one:
/// at the end of the rows, under the next free handle, made of the stats
/// drawn, and no other row belongs to that battle. Where no handle is
/// free, or the battle has a machine, nothing is added.
pub proof fn lemma_one_spawn(
    enemies: Seq<EnemyRow>,
    next_entity: u64,
    ev: BygoneSpawnEvent,
    stats: BygoneStats,
)
    ensures
        !has_machine(enemies, ev.game_id) && next_entity < u64::MAX ==> {
            let after = after_spawns(enemies, next_entity, seq![ev], seq![stats], 1);
            &&& after.0 == enemies.push(
                EnemyRow {
                    entity: Entity(next_entity),
                    bundle: Bygone03Bundle::made(stats, ev.game_id),
                },
            )
            &&& after.1 == next_entity + 1
            &&& after.0[enemies.len() as int].bundle.has_stats(stats)
            &&& forall|i: int|
                0 <= i < after.0.len() ==> ((#[trigger] after.0[i]).bundle.game_id == ev.game_id
                    <==> i == enemies.len())
        },
        has_machine(enemies, ev.game_id) || next_entity == u64::MAX ==> after_spawns(
            enemies,
            next_entity,
            seq![ev],
            seq![stats],
            1,
        ) == (enemies, next_entity),
{
    reveal_with_fuel(after_spawns, 2);
    Bygone03Bundle::lemma_made(stats, ev.game_id);
    if !has_machine(enemies, ev.game_id) && next_entity < u64::MAX {
        let after = after_spawns(enemies, next_entity, seq![ev], seq![stats], 1);
        assert forall|i: int| 0 <= i < after.0.len() implies ((
        #[trigger] after.0[i]).bundle.game_id == ev.game_id <==> i == enemies.len()) by {
            if i < enemies.len() {
                assert(enemies[i].bundle.game_id != ev.game_id);
            }
        }
    }
}

/// Whether `stats` holds for each event stats within the ranges of the
/// event's difficulty.
pub open spec fn stats_fit(events: Seq<BygoneSpawnEvent>, stats: Seq<BygoneStats>) -> bool {
    &&& stats.len() == events.len()
    &&& forall|k: int|
        0 <= k < events.len() ==> (#[trigger] stats[k]).within(
            events[k].difficulty.parts_health_range(),
            events[k].difficulty.attack_range(),
        )
}

/// Draws from the dice the stats of the machine of each event, in the
/// order of the events.
pub fn spawn_bygones_stats<D: Dice>(rng: &mut D, ev_bygone_spawn: &Vec<BygoneSpawnEvent>) -> (stats:
    Vec<BygoneStats>)
    ensures
        stats_fit(ev_bygone_spawn@, stats@),
{
    let n = ev_bygone_spawn.len();
    let mut stats: Vec<BygoneStats> = Vec::new();
    let mut k: usize = 0;
    while k < n
        invariant
            k <= n,
            n == ev_bygone_spawn@.len(),
            stats@.len() == k,
            forall|j: int|
                0 <= j < k ==> (#[trigger] stats@[j]).within(
                    ev_bygone_spawn@[j].difficulty.parts_health_range(),
                    ev_bygone_spawn@[j].difficulty.attack_range(),
                ),
        decreases n - k,
    {
        let difficulty = ev_bygone_spawn[k].difficulty;
        stats.push(BygoneStats::roll(difficulty.parts_health_range(), difficulty.attack_range(), rng));
        k += 1;
    }
    stats
}

/// Adds the machine of each new battle, made of the given stats: see
/// `after_spawns`.
pub fn spawn_bygones_with(
    world: &mut World,
    stats: &Vec<BygoneStats>,
    ev_bygone_spawn: &Vec<BygoneSpawnEvent>,
)
    requires
        old(world).wf(),
        stats@.len() == ev_bygone_spawn@.len(),
    ensures
        final(world).wf(),
        final(world).players@ == old(world).players@,
        (final(world).enemies@, final(world).next_entity) == after_spawns(
            old(world).enemies@,
            old(world).next_entity,
            ev_bygone_spawn@,
            stats@,
            ev_bygone_spawn@.len(),
        ),
{
    let n = ev_bygone_spawn.len();
    let mut k: usize = 0;
    while k < n
        invariant
            k <= n,
            n == ev_bygone_spawn@.len(),
            n == stats@.len(),
            world.wf(),
            world.players@ == old(world).players@,
            (world.enemies@, world.next_entity) == after_spawns(
                old(world).enemies@,
                old(world).next_entity,
                ev_bygone_spawn@,
                stats@,
                k as nat,
            ),
        decreases n - k,
    {
        let ev = ev_bygone_spawn[k];
        let _ = world.spawn_enemy(Bygone03Bundle::from_stats(stats[k], ev.game_id));
        k += 1;
    }
}

/// Adds the machine of each new battle, with stats that the dice draw
/// within the ranges of the battle's difficulty.
pub fn spawn_bygones<D: Dice>(
    world: &mut World,
    rng: &mut D,
    ev_bygone_spawn: &Vec<BygoneSpawnEvent>,
)
    requires
        old(world).wf(),
    ensures
        final(world).wf(),
        final(world).players@ == old(world).players@,
        exists|stats: Seq<BygoneStats>|
            (#[trigger] stats_fit(ev_bygone_spawn@, stats)) && (
            final(world).enemies@,
            final(world).next_entity,
        ) == after_spawns(
                old(world).enemies@,
                old(world).next_entity,
                ev_bygone_spawn@,
                stats,
                ev_bygone_spawn@.len(),
            ),
{
    let stats = spawn_bygones_stats(rng, ev_bygone_spawn);
    spawn_bygones_with(world, &stats, ev_bygone_spawn);
    proof {
        assert(stats_fit(ev_bygone_spawn@, stats@));
    }
}

} // verus!
