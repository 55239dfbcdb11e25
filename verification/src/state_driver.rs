//! The state-machine driver: it takes the entities that have fallen out of
//! the resolution, decides which battles are won or lost, makes the
//! players ready for the next turn, and cleans up after battles that have
//! expired or have been replaced.

use vstd::prelude::*;
use crate::bundles::{Bygone03Bundle, PlayerBundle};
use crate::components::{GameId, Ready};
use crate::dispatcher::MAX_GAME_DURATION_SECS;
use crate::events::{
    DeactivateEvent, DeallocateGameResourcesEvent, DelayedEvent, Entity, GameDrawEvent,
    TurnEndEvent,
};
use crate::game_helpers::{FinishedGameStatus, Game, GameStatus};
use crate::registry::{GameEntry, GameRegistry};
use crate::seqs::kept;
use crate::world::{
    enemy_outside, healths_bounded, lemma_wf_kept, player_outside, same_enemies, same_players,
    EnemyRow, PlayerRow, World,
};

verus! {

/// Whether the entity is among those that leave the resolution.
pub open spec fn deactivated(events: Seq<DeactivateEvent>, entity: Entity) -> bool {
    exists|k: int| 0 <= k < events.len() && (#[trigger] events[k]).0 == entity
}

/// Whether the entity is among those that leave the resolution.
pub fn is_deactivated(events: &Vec<DeactivateEvent>, entity: Entity) -> (r: bool)
    ensures
        r == deactivated(events@, entity),
{
    let n = events.len();
    let mut k: usize = 0;
    while k < n
        invariant
            k <= n,
            n == events@.len(),
            forall|j: int| 0 <= j < k ==> (#[trigger] events@[j]).0 != entity,
        decreases n - k,
    {
        if events[k].0.0 == entity.0 {
            return true;
        }
        k += 1;
    }
    false
}

/// The player after the deactivations: without the tag of the active
/// where the player is among the deactivated.
pub open spec fn player_after_deactivation(row: PlayerRow, events: Seq<DeactivateEvent>) -> PlayerRow {
    if deactivated(events, row.entity) {
        PlayerRow { entity: row.entity, bundle: PlayerBundle { _active: None, ..row.bundle } }
    } else {
        row
    }
}

/// The machine after the deactivations: without the tag of the active
/// where the machine is among the deactivated.
pub open spec fn enemy_after_deactivation(row: EnemyRow, events: Seq<DeactivateEvent>) -> EnemyRow {
    if deactivated(events, row.entity) {
        EnemyRow { entity: row.entity, bundle: Bygone03Bundle { _active: None, ..row.bundle } }
    } else {
        row
    }
}

/// Takes the tag of the active from every entity that is to leave the
/// resolution.
pub fn deactivate(world: &mut World, ev_deactivate: &Vec<DeactivateEvent>)
    requires
        old(world).wf(),
    ensures
        final(world).wf(),
        final(world).next_entity == old(world).next_entity,
        final(world).players@.len() == old(world).players@.len(),
        final(world).enemies@.len() == old(world).enemies@.len(),
        forall|i: int|
            0 <= i < old(world).players@.len() ==> #[trigger] final(world).players@[i]
                == player_after_deactivation(old(world).players@[i], ev_deactivate@),
        forall|i: int|
            0 <= i < old(world).enemies@.len() ==> #[trigger] final(world).enemies@[i]
                == enemy_after_deactivation(old(world).enemies@[i], ev_deactivate@),
{
    let ghost pre = *world;
    let n = world.players.len();
    let mut i: usize = 0;
    while i < n
        invariant
            i <= n,
            n == pre.players@.len(),
            world.players@.len() == n,
            world.enemies@ == pre.enemies@,
            world.next_entity == pre.next_entity,
            forall|j: int|
                0 <= j < i ==> #[trigger] world.players@[j] == player_after_deactivation(
                    pre.players@[j],
                    ev_deactivate@,
                ),
            forall|j: int| i <= j < n ==> #[trigger] world.players@[j] == pre.players@[j],
        decreases n - i,
    {
        if is_deactivated(ev_deactivate, world.players[i].entity) {
            world.players[i].bundle._active = None;
        }
        i += 1;
    }
    let m = world.enemies.len();
    let mut j: usize = 0;
    while j < m
        invariant
            j <= m,
            m == pre.enemies@.len(),
            world.enemies@.len() == m,
            world.players@.len() == pre.players@.len(),
            world.next_entity == pre.next_entity,
            forall|i: int|
                0 <= i < pre.players@.len() ==> #[trigger] world.players@[i]
                    == player_after_deactivation(pre.players@[i], ev_deactivate@),
            forall|i: int|
                0 <= i < j ==> #[trigger] world.enemies@[i] == enemy_after_deactivation(
                    pre.enemies@[i],
                    ev_deactivate@,
                ),
            forall|i: int| j <= i < m ==> #[trigger] world.enemies@[i] == pre.enemies@[i],
        decreases m - j,
    {
        if is_deactivated(ev_deactivate, world.enemies[j].entity) {
            world.enemies[j].bundle._active = None;
        }
        j += 1;
    }
    proof {
        assert(same_players(world.players@, pre.players@)) by {
            assert forall|i: int| 0 <= i < world.players@.len() implies (
            #[trigger] world.players@[i]).entity == pre.players@[i].entity
                && world.players@[i].bundle.user_id == pre.players@[i].bundle.user_id
                && world.players@[i].bundle.game_id == pre.players@[i].bundle.game_id by {
                assert(world.players@[i] == player_after_deactivation(
                    pre.players@[i],
                    ev_deactivate@,
                ));
            }
        }
        assert(same_enemies(world.enemies@, pre.enemies@)) by {
            assert forall|i: int| 0 <= i < world.enemies@.len() implies (
            #[trigger] world.enemies@[i]).entity == pre.enemies@[i].entity
                && world.enemies@[i].bundle.game_id == pre.enemies@[i].bundle.game_id by {
                assert(world.enemies@[i] == enemy_after_deactivation(
                    pre.enemies@[i],
                    ev_deactivate@,
                ));
            }
        }
        assert(healths_bounded(world.players@, world.enemies@)) by {
            assert forall|i: int| 0 <= i < world.players@.len() implies (
            #[trigger] world.players@[i]).bundle.wf() by {
                assert(pre.players@[i].bundle.wf());
                assert(world.players@[i] == player_after_deactivation(
                    pre.players@[i],
                    ev_deactivate@,
                ));
            }
            assert forall|i: int| 0 <= i < world.enemies@.len() implies (
            #[trigger] world.enemies@[i]).bundle.wf() by {
                assert(pre.enemies@[i].bundle.wf());
                assert(world.enemies@[i] == enemy_after_deactivation(
                    pre.enemies@[i],
                    ev_deactivate@,
                ));
            }
        }
        lemma_wf_kept(pre, *world);
    }
}

/// Whether every active machine of the battle is among the deactivated.
pub open spec fn enemies_out(world: World, events: Seq<DeactivateEvent>, game_id: GameId) -> bool {
    forall|i: int|
        0 <= i < world.enemies@.len() && (#[trigger] world.enemies@[i]).bundle.is_active()
            && world.enemies@[i].bundle.game_id == game_id ==> deactivated(
            events,
            world.enemies@[i].entity,
        )
}

/// Whether every active player of the battle is among the deactivated.
pub open spec fn players_out(world: World, events: Seq<DeactivateEvent>, game_id: GameId) -> bool {
    forall|i: int|
        0 <= i < world.players@.len() && (#[trigger] world.players@[i]).bundle.is_active()
            && world.players@[i].bundle.game_id == game_id ==> deactivated(
            events,
            world.players@[i].entity,
        )
}

/// The status of a battle after this tick. A battle that goes on and has
/// entities in the world is won when no active machine of it is left, and
/// else lost when no active player of it is left.
pub open spec fn status_after(game: Game, world: World, events: Seq<DeactivateEvent>) -> GameStatus {
    if game.status != GameStatus::Ongoing || !world.has_game(game.id) {
        game.status
    } else if enemies_out(world, events, game.id) {
        GameStatus::Finished(FinishedGameStatus::Won)
    } else if players_out(world, events, game.id) {
        GameStatus::Finished(FinishedGameStatus::Lost)
    } else {
        GameStatus::Ongoing
    }
}

/// The entry with the status of its battle after this tick.
pub open spec fn entry_after_status(entry: GameEntry, world: World, events: Seq<DeactivateEvent>) -> GameEntry {
    GameEntry {
        guild_id: entry.guild_id,
        game: Game { status: status_after(entry.game, world, events), ..entry.game },
    }
}

/// The drawings that are due after this tick's changes of status among
/// the first `n` entries: one for each battle whose status has changed.
pub open spec fn status_draws(
    entries: Seq<GameEntry>,
    world: World,
    events: Seq<DeactivateEvent>,
    n: nat,
) -> Seq<GameDrawEvent>
    decreases n,
{
    if n == 0 {
        Seq::empty()
    } else if status_after(entries[n - 1].game, world, events) != entries[n - 1].game.status {
        status_draws(entries, world, events, (n - 1) as nat).push(
            GameDrawEvent { guild_id: entries[n - 1].guild_id },
        )
    } else {
        status_draws(entries, world, events, (n - 1) as nat)
    }
}

/// Whether the world holds a row of the battle.
pub fn has_game(world: &World, game_id: GameId) -> (r: bool)
    ensures
        r == world.has_game(game_id),
{
    let n = world.players.len();
    let mut i: usize = 0;
    while i < n
        invariant
            i <= n,
            n == world.players@.len(),
            forall|k: int| 0 <= k < i ==> (#[trigger] world.players@[k]).bundle.game_id != game_id,
        decreases n - i,
    {
        if world.players[i].bundle.game_id.0 == game_id.0 {
            return true;
        }
        i += 1;
    }
    world.find_enemy(game_id).is_some()
}

/// Whether every active machine of the battle is among the deactivated.
pub fn all_enemies_out(world: &World, events: &Vec<DeactivateEvent>, game_id: GameId) -> (r: bool)
    ensures
        r == enemies_out(*world, events@, game_id),
{
    let n = world.enemies.len();
    let mut i: usize = 0;
    while i < n
        invariant
            i <= n,
            n == world.enemies@.len(),
            forall|k: int|
                0 <= k < i && (#[trigger] world.enemies@[k]).bundle.is_active()
                    && world.enemies@[k].bundle.game_id == game_id ==> deactivated(
                    events@,
                    world.enemies@[k].entity,
                ),
        decreases n - i,
    {
        let row = &world.enemies[i];
        if row.bundle._active.is_some() && row.bundle.game_id.0 == game_id.0 && !is_deactivated(
            events,
            row.entity,
        ) {
            return false;
        }
        i += 1;
    }
    true
}

/// Whether every active player of the battle is among the deactivated.
pub fn all_players_out(world: &World, events: &Vec<DeactivateEvent>, game_id: GameId) -> (r: bool)
    ensures
        r == players_out(*world, events@, game_id),
{
    let n = world.players.len();
    let mut i: usize = 0;
    while i < n
        invariant
            i <= n,
            n == world.players@.len(),
            forall|k: int|
                0 <= k < i && (#[trigger] world.players@[k]).bundle.is_active()
                    && world.players@[k].bundle.game_id == game_id ==> deactivated(
                    events@,
                    world.players@[k].entity,
                ),
        decreases n - i,
    {
        let row = &world.players[i];
        if row.bundle._active.is_some() && row.bundle.game_id.0 == game_id.0 && !is_deactivated(
            events,
            row.entity,
        ) {
            return false;
        }
        i += 1;
    }
    true
}

/// Decides for every battle that goes on whether it is won or lost by
/// now: see `status_after`. A battle whose status changes is to be drawn.
pub fn update_game_status(
    games: &mut GameRegistry,
    world: &World,
    ev_deactivate: &Vec<DeactivateEvent>,
    ev_game_draw: &mut Vec<GameDrawEvent>,
)
    requires
        old(games).wf(),
    ensures
        final(games).wf(),
        final(games).entries@.len() == old(games).entries@.len(),
        forall|k: int|
            0 <= k < old(games).entries@.len() ==> #[trigger] final(games).entries@[k]
                == entry_after_status(old(games).entries@[k], *world, ev_deactivate@),
        final(ev_game_draw)@ == old(ev_game_draw)@ + status_draws(
            old(games).entries@,
            *world,
            ev_deactivate@,
            old(games).entries@.len(),
        ),
{
    let ghost pre = *games;
    let n = games.entries.len();
    let mut k: usize = 0;
    while k < n
        invariant
            k <= n,
            n == pre.entries@.len(),
            games.entries@.len() == n,
            forall|j: int|
                0 <= j < k ==> #[trigger] games.entries@[j] == entry_after_status(
                    pre.entries@[j],
                    *world,
                    ev_deactivate@,
                ),
            forall|j: int| k <= j < n ==> #[trigger] games.entries@[j] == pre.entries@[j],
            ev_game_draw@ == old(ev_game_draw)@ + status_draws(
                pre.entries@,
                *world,
                ev_deactivate@,
                k as nat,
            ),
        decreases n - k,
    {
        let guild_id = games.entries[k].guild_id;
        let game_id = games.entries[k].game.id;
        let ongoing = match games.entries[k].game.status {
            GameStatus::Ongoing => true,
            _ => false,
        };
        if ongoing && has_game(world, game_id) {
            if all_enemies_out(world, ev_deactivate, game_id) {
                games.entries[k].game.status = GameStatus::from(FinishedGameStatus::Won);
                ev_game_draw.push(GameDrawEvent::new(guild_id));
            } else if all_players_out(world, ev_deactivate, game_id) {
                games.entries[k].game.status = GameStatus::from(FinishedGameStatus::Lost);
                ev_game_draw.push(GameDrawEvent::new(guild_id));
            }
        }
        proof {
            assert(ev_game_draw@ =~= old(ev_game_draw)@ + status_draws(
                pre.entries@,
                *world,
                ev_deactivate@,
                (k + 1) as nat,
            ));
        }
        k += 1;
    }
    proof {
        assert forall|i: int, j: int| 0 <= i < j < games.entries@.len() implies (
        #[trigger] games.entries@[i]).guild_id != (#[trigger] games.entries@[j]).guild_id by {
            assert(pre.entries@[i].guild_id != pre.entries@[j].guild_id);
        }
    }
}

/// Whether a turn of the battle has ended.
pub open spec fn turn_ended(events: Seq<TurnEndEvent>, game_id: GameId) -> bool {
    exists|k: int| 0 <= k < events.len() && (#[trigger] events[k]).game_id == game_id
}

/// The player after the ends of turns: an active player of a battle whose
/// turn has ended is ready.
pub open spec fn player_after_turn_end(row: PlayerRow, events: Seq<TurnEndEvent>) -> PlayerRow {
    if row.bundle.is_active() && !row.bundle.is_ready() && turn_ended(events, row.bundle.game_id) {
        PlayerRow { entity: row.entity, bundle: PlayerBundle { _ready: Some(Ready), ..row.bundle } }
    } else {
        row
    }
}

/// Only the end of a turn makes a player ready again: without an end of a
/// turn of the player's battle the player stays as they are, and the
/// leaving of the fallen changes the tag of the ready of no player.
pub proof fn lemma_ready_only_by_turn_end(
    row: PlayerRow,
    turn_ends: Seq<TurnEndEvent>,
    deactivations: Seq<DeactivateEvent>,
)
    ensures
        !turn_ended(turn_ends, row.bundle.game_id) ==> player_after_turn_end(row, turn_ends) == row,
        player_after_deactivation(row, deactivations).bundle._ready == row.bundle._ready,
{
}

/// Whether a turn of the battle has ended.
pub fn has_turn_ended(events: &Vec<TurnEndEvent>, game_id: GameId) -> (r: bool)
    ensures
        r == turn_ended(events@, game_id),
{
    let n = events.len();
    let mut k: usize = 0;
    while k < n
        invariant
            k <= n,
            n == events@.len(),
            forall|j: int| 0 <= j < k ==> (#[trigger] events@[j]).game_id != game_id,
        decreases n - k,
    {
        if events[k].game_id.0 == game_id.0 {
            return true;
        }
        k += 1;
    }
    false
}

/// Makes every active player of a battle whose turn has ended ready
/// again.
pub fn ready_players(world: &mut World, ev_turn_end: &Vec<TurnEndEvent>)
    requires
        old(world).wf(),
    ensures
        final(world).wf(),
        final(world).next_entity == old(world).next_entity,
        final(world).enemies@ == old(world).enemies@,
        final(world).players@.len() == old(world).players@.len(),
        forall|i: int|
            0 <= i < old(world).players@.len() ==> #[trigger] final(world).players@[i]
                == player_after_turn_end(old(world).players@[i], ev_turn_end@),
{
    let ghost pre = *world;
    let n = world.players.len();
    let mut i: usize = 0;
    while i < n
        invariant
            i <= n,
            n == pre.players@.len(),
            world.players@.len() == n,
            world.enemies@ == pre.enemies@,
            world.next_entity == pre.next_entity,
            forall|j: int|
                0 <= j < i ==> #[trigger] world.players@[j] == player_after_turn_end(
                    pre.players@[j],
                    ev_turn_end@,
                ),
            forall|j: int| i <= j < n ==> #[trigger] world.players@[j] == pre.players@[j],
        decreases n - i,
    {
        if world.players[i].bundle._active.is_some() && world.players[i].bundle._ready.is_none()
            && has_turn_ended(ev_turn_end, world.players[i].bundle.game_id) {
            world.players[i].bundle._ready = Some(Ready);
        }
        i += 1;
    }
    proof {
        assert(same_players(world.players@, pre.players@)) by {
            assert forall|i: int| 0 <= i < world.players@.len() implies (
            #[trigger] world.players@[i]).entity == pre.players@[i].entity
                && world.players@[i].bundle.user_id == pre.players@[i].bundle.user_id
                && world.players@[i].bundle.game_id == pre.players@[i].bundle.game_id by {
                assert(world.players@[i] == player_after_turn_end(pre.players@[i], ev_turn_end@));
            }
        }
        assert(same_enemies(world.enemies@, pre.enemies@));
        assert(healths_bounded(world.players@, world.enemies@)) by {
            assert forall|i: int| 0 <= i < world.players@.len() implies (
            #[trigger] world.players@[i]).bundle.wf() by {
                assert(pre.players@[i].bundle.wf());
                assert(world.players@[i] == player_after_turn_end(pre.players@[i], ev_turn_end@));
            }
            assert forall|i: int| 0 <= i < world.enemies@.len() implies (
            #[trigger] world.enemies@[i]).bundle.wf() by {
                assert(pre.enemies@[i].bundle.wf());
            }
        }
        lemma_wf_kept(pre, *world);
    }
}

/// Whether the battle has gone on for too long at `now`.
pub open spec fn expires(game: Game, now: u128) -> bool {
    game.status == GameStatus::Ongoing && game.age_secs(now) >= MAX_GAME_DURATION_SECS
}

/// The entry after the cleanup at `now`: a battle that has gone on for too
/// long has expired.
pub open spec fn entry_after_cleanup(entry: GameEntry, now: u128) -> GameEntry {
    if expires(entry.game, now) {
        GameEntry {
            guild_id: entry.guild_id,
            game: Game {
                status: GameStatus::Finished(FinishedGameStatus::Expired),
                ..entry.game
            },
        }
    } else {
        entry
    }
}

/// The delayed drawings of the battles among the first `n` entries that
/// expire at `now`.
pub open spec fn expiry_draws(entries: Seq<GameEntry>, now: u128, n: nat) -> Seq<DelayedEvent>
    decreases n,
{
    if n == 0 {
        Seq::empty()
    } else if expires(entries[n - 1].game, now) {
        expiry_draws(entries, now, (n - 1) as nat).push(
            DelayedEvent::GameDraw(GameDrawEvent { guild_id: entries[n - 1].guild_id }),
        )
    } else {
        expiry_draws(entries, now, (n - 1) as nat)
    }
}

/// The players that are left when the rows of the battles of the first
/// `n` events are removed.
pub open spec fn players_after_despawns(
    players: Seq<PlayerRow>,
    events: Seq<DeallocateGameResourcesEvent>,
    n: nat,
) -> Seq<PlayerRow>
    decreases n,
{
    if n == 0 {
        players
    } else {
        kept(
            players_after_despawns(players, events, (n - 1) as nat),
            player_outside(events[n - 1].game_id),
        )
    }
}

/// The machines that are left when the rows of the battles of the first
/// `n` events are removed.
pub open spec fn enemies_after_despawns(
    enemies: Seq<EnemyRow>,
    events: Seq<DeallocateGameResourcesEvent>,
    n: nat,
) -> Seq<EnemyRow>
    decreases n,
{
    if n == 0 {
        enemies
    } else {
        kept(
            enemies_after_despawns(enemies, events, (n - 1) as nat),
            enemy_outside(events[n - 1].game_id),
        )
    }
}

/// Lets the battles expire that have gone on for too long at `now`, each
/// with a delayed drawing, and removes the rows of the battles that have
/// been replaced.
pub fn cleanup(
    world: &mut World,
    games: &mut GameRegistry,
    now: u128,
    ev_deallocate_game_resources: &Vec<DeallocateGameResourcesEvent>,
    ev_delayed: &mut Vec<DelayedEvent>,
)
    requires
        old(world).wf(),
        old(games).wf(),
    ensures
        final(world).wf(),
        final(games).wf(),
        final(games).entries@.len() == old(games).entries@.len(),
        forall|k: int|
            0 <= k < old(games).entries@.len() ==> #[trigger] final(games).entries@[k]
                == entry_after_cleanup(old(games).entries@[k], now),
        final(ev_delayed)@ == old(ev_delayed)@ + expiry_draws(
            old(games).entries@,
            now,
            old(games).entries@.len(),
        ),
        final(world).next_entity == old(world).next_entity,
        final(world).players@ == players_after_despawns(
            old(world).players@,
            ev_deallocate_game_resources@,
            ev_deallocate_game_resources@.len(),
        ),
        final(world).enemies@ == enemies_after_despawns(
            old(world).enemies@,
            ev_deallocate_game_resources@,
            ev_deallocate_game_resources@.len(),
        ),
{
    let ghost pre = *games;
    let n = games.entries.len();
    let mut k: usize = 0;
    while k < n
        invariant
            k <= n,
            n == pre.entries@.len(),
            games.entries@.len() == n,
            *world == *old(world),
            forall|j: int|
                0 <= j < k ==> #[trigger] games.entries@[j] == entry_after_cleanup(
                    pre.entries@[j],
                    now,
                ),
            forall|j: int| k <= j < n ==> #[trigger] games.entries@[j] == pre.entries@[j],
            ev_delayed@ == old(ev_delayed)@ + expiry_draws(pre.entries@, now, k as nat),
        decreases n - k,
    {
        let ongoing = match games.entries[k].game.status {
            GameStatus::Ongoing => true,
            _ => false,
        };
        if ongoing && games.entries[k].game.duration_secs(now) >= MAX_GAME_DURATION_SECS {
            games.entries[k].game.status = GameStatus::from(FinishedGameStatus::Expired);
            let guild_id = games.entries[k].guild_id;
            ev_delayed.push(DelayedEvent::GameDraw(GameDrawEvent::new(guild_id)));
        }
        proof {
            assert(ev_delayed@ =~= old(ev_delayed)@ + expiry_draws(pre.entries@, now, (k + 1) as nat));
        }
        k += 1;
    }
    proof {
        assert forall|i: int, j: int| 0 <= i < j < games.entries@.len() implies (
        #[trigger] games.entries@[i]).guild_id != (#[trigger] games.entries@[j]).guild_id by {
            assert(pre.entries@[i].guild_id != pre.entries@[j].guild_id);
        }
    }
    let m = ev_deallocate_game_resources.len();
    let mut e: usize = 0;
    while e < m
        invariant
            e <= m,
            m == ev_deallocate_game_resources@.len(),
            world.wf(),
            world.next_entity == old(world).next_entity,
            world.players@ == players_after_despawns(
                old(world).players@,
                ev_deallocate_game_resources@,
                e as nat,
            ),
            world.enemies@ == enemies_after_despawns(
                old(world).enemies@,
                ev_deallocate_game_resources@,
                e as nat,
            ),
        decreases m - e,
    {
        world.despawn_game(ev_deallocate_game_resources[e].game_id);
        e += 1;
    }
}

} // verus!
