//! The world: the rows of all players and all machines, each under a handle
//! of its own, and each tied to its battle by the battle's identity alone.

use vstd::prelude::*;
use crate::bundles::{Bygone03Bundle, PlayerBundle};
use crate::components::{GameId, UserId, UserIdComponent};
use crate::events::Entity;
use crate::seqs::{kept, lemma_kept_order, lemma_kept_origin, origin};

verus! {

/// A player under its handle.
#[derive(Debug)]
pub struct PlayerRow {
    pub entity: Entity,
    pub bundle: PlayerBundle,
}

/// A machine under its handle.
#[derive(Clone, Copy, Debug, PartialEq, Eq, Structural, Hash)]
pub struct EnemyRow {
    pub entity: Entity,
    pub bundle: Bygone03Bundle,
}

impl Clone for PlayerRow {
    fn clone(&self) -> (r: Self)
        ensures
            r == *self,
    {
        PlayerRow {
            entity: self.entity,
            bundle: PlayerBundle {
                user_id: self.bundle.user_id,
                name: self.bundle.name.clone(),
                game_id: self.bundle.game_id,
                vitality: self.bundle.vitality,
                attack: self.bundle.attack,
                _player: self.bundle._player,
                _active: self.bundle._active,
                _ready: self.bundle._ready,
            },
        }
    }
}

/// The rows of all battles.
#[derive(Debug)]
pub struct World {
    pub players: Vec<PlayerRow>,
    pub enemies: Vec<EnemyRow>,
    pub next_entity: u64,
}

/// Whether no two players of `players` are the same user in the same
/// battle.
pub open spec fn one_row_per_player(players: Seq<PlayerRow>) -> bool {
    forall|i: int, j: int|
        0 <= i < j < players.len() ==> !((#[trigger] players[i]).bundle.user_id == (
        #[trigger] players[j]).bundle.user_id && players[i].bundle.game_id
            == players[j].bundle.game_id)
}

/// Whether no two machines of `enemies` belong to the same battle.
pub open spec fn one_enemy_per_game(enemies: Seq<EnemyRow>) -> bool {
    forall|i: int, j: int|
        0 <= i < j < enemies.len() ==> (#[trigger] enemies[i]).bundle.game_id != (
        #[trigger] enemies[j]).bundle.game_id
}

/// Whether the handles of `players` rise along the sequence and lie below
/// `bound`.
pub open spec fn players_in_order(players: Seq<PlayerRow>, bound: u64) -> bool {
    &&& forall|i: int, j: int|
        0 <= i < j < players.len() ==> (#[trigger] players[i]).entity.0 < (
        #[trigger] players[j]).entity.0
    &&& forall|i: int| 0 <= i < players.len() ==> (#[trigger] players[i]).entity.0 < bound
}

/// Whether the handles of `enemies` rise along the sequence and lie below
/// `bound`.
pub open spec fn enemies_in_order(enemies: Seq<EnemyRow>, bound: u64) -> bool {
    &&& forall|i: int, j: int|
        0 <= i < j < enemies.len() ==> (#[trigger] enemies[i]).entity.0 < (
        #[trigger] enemies[j]).entity.0
    &&& forall|i: int| 0 <= i < enemies.len() ==> (#[trigger] enemies[i]).entity.0 < bound
}

/// Whether no player and no machine share a handle.
pub open spec fn handles_apart(players: Seq<PlayerRow>, enemies: Seq<EnemyRow>) -> bool {
    forall|i: int, j: int|
        0 <= i < players.len() && 0 <= j < enemies.len() ==> (#[trigger] players[i]).entity != (
        #[trigger] enemies[j]).entity
}

/// Whether no row holds more health than its maximum.
pub open spec fn healths_bounded(players: Seq<PlayerRow>, enemies: Seq<EnemyRow>) -> bool {
    &&& forall|i: int| 0 <= i < players.len() ==> (#[trigger] players[i]).bundle.wf()
    &&& forall|i: int| 0 <= i < enemies.len() ==> (#[trigger] enemies[i]).bundle.wf()
}

/// Whether two sequences of players hold the same players in the same
/// places: the same handles, users and battles.
pub open spec fn same_players(a: Seq<PlayerRow>, b: Seq<PlayerRow>) -> bool {
    &&& a.len() == b.len()
    &&& forall|i: int|
        0 <= i < a.len() ==> (#[trigger] a[i]).entity == b[i].entity && a[i].bundle.user_id
            == b[i].bundle.user_id && a[i].bundle.game_id == b[i].bundle.game_id
}

/// Whether two sequences of machines hold the same machines in the same
/// places: the same handles and battles.
pub open spec fn same_enemies(a: Seq<EnemyRow>, b: Seq<EnemyRow>) -> bool {
    &&& a.len() == b.len()
    &&& forall|i: int|
        0 <= i < a.len() ==> (#[trigger] a[i]).entity == b[i].entity && a[i].bundle.game_id
            == b[i].bundle.game_id
}

/// The condition of a player that belongs to a battle other than `game_id`.
pub open spec fn player_outside(game_id: GameId) -> spec_fn(PlayerRow) -> bool {
    |row: PlayerRow| row.bundle.game_id != game_id
}

/// The condition of a machine that belongs to a battle other than
/// `game_id`.
pub open spec fn enemy_outside(game_id: GameId) -> spec_fn(EnemyRow) -> bool {
    |row: EnemyRow| row.bundle.game_id != game_id
}

/// The place of the row of `user` that stands last, in whatever battle the
/// row is; none where the user has no row at all.
pub open spec fn last_row_of(players: Seq<PlayerRow>, user: UserId) -> Option<int>
    decreases players.len(),
{
    if players.len() == 0 {
        None
    } else if players.last().bundle.user_id == UserIdComponent(user) {
        Some(players.len() - 1)
    } else {
        last_row_of(players.drop_last(), user)
    }
}

/// The last row of a user is a row of that user, and there is none
/// exactly where no row is the user's.
pub proof fn lemma_last_row_of(players: Seq<PlayerRow>, user: UserId)
    ensures
        last_row_of(players, user) matches Some(i) ==> 0 <= i < players.len()
            && players[i].bundle.user_id == UserIdComponent(user) && forall|k: int|
            i < k < players.len() ==> (#[trigger] players[k]).bundle.user_id != UserIdComponent(
                user,
            ),
        last_row_of(players, user).is_none() <==> forall|k: int|
            0 <= k < players.len() ==> (#[trigger] players[k]).bundle.user_id != UserIdComponent(
                user,
            ),
    decreases players.len(),
{
    if players.len() > 0 {
        lemma_last_row_of(players.drop_last(), user);
        if players.last().bundle.user_id != UserIdComponent(user) {
            assert forall|k: int| 0 <= k < players.len() - 1 implies players.drop_last()[k]
                == players[k] by {}
            if last_row_of(players, user).is_none() {
                assert forall|k: int| 0 <= k < players.len() implies (
                #[trigger] players[k]).bundle.user_id != UserIdComponent(user) by {
                    if k < players.len() - 1 {
                        assert(players.drop_last()[k] == players[k]);
                    }
                }
            } else {
                let i = last_row_of(players, user).unwrap();
                assert(players.drop_last()[i] == players[i]);
                assert forall|k: int| i < k < players.len() implies (
                #[trigger] players[k]).bundle.user_id != UserIdComponent(user) by {
                    if k < players.len() - 1 {
                        assert(players.drop_last()[k] == players[k]);
                    }
                }
                assert(players[i].bundle.user_id == UserIdComponent(user));
            }
        } else {
            assert(players[players.len() - 1].bundle.user_id == UserIdComponent(user));
        }
    }
}

impl World {
    /// The invariant of the world: each handle is used once and lies below
    /// the next free one; a battle has at most one machine; a user has at
    /// most one row in a battle; no health exceeds its maximum.
    pub open spec fn wf(self) -> bool {
        &&& players_in_order(self.players@, self.next_entity)
        &&& enemies_in_order(self.enemies@, self.next_entity)
        &&& handles_apart(self.players@, self.enemies@)
        &&& one_row_per_player(self.players@)
        &&& one_enemy_per_game(self.enemies@)
        &&& healths_bounded(self.players@, self.enemies@)
    }

    /// Whether a row of the battle `game_id` exists.
    pub open spec fn has_game(self, game_id: GameId) -> bool {
        ||| exists|i: int|
            0 <= i < self.players@.len() && (#[trigger] self.players@[i]).bundle.game_id == game_id
        ||| exists|i: int|
            0 <= i < self.enemies@.len() && (#[trigger] self.enemies@[i]).bundle.game_id == game_id
    }

    /// Whether `user` has a row in the battle `game_id`.
    pub open spec fn has_player(self, user: UserId, game_id: GameId) -> bool {
        exists|i: int|
            0 <= i < self.players@.len() && (#[trigger] self.players@[i]).bundle.user_id
                == UserIdComponent(user) && self.players@[i].bundle.game_id == game_id
    }

    /// Whether the battle `game_id` has a machine.
    pub open spec fn has_enemy(self, game_id: GameId) -> bool {
        exists|i: int|
            0 <= i < self.enemies@.len() && (#[trigger] self.enemies@[i]).bundle.game_id == game_id
    }

    /// Whether a row stands under the handle `entity`.
    pub open spec fn has_entity(self, entity: Entity) -> bool {
        ||| exists|i: int|
            0 <= i < self.players@.len() && (#[trigger] self.players@[i]).entity == entity
        ||| exists|i: int|
            0 <= i < self.enemies@.len() && (#[trigger] self.enemies@[i]).entity == entity
    }

    /// A world without rows.
    pub fn new() -> (r: Self)
        ensures
            r.wf(),
            r.players@.len() == 0,
            r.enemies@.len() == 0,
            r.next_entity == 0,
    {
        World { players: Vec::new(), enemies: Vec::new(), next_entity: 0 }
    }

    /// Whether the world is well-formed.
    pub fn is_wf(&self) -> (r: bool)
        ensures
            r == self.wf(),
    {
        let n = self.players.len();
        let m = self.enemies.len();
        let mut i: usize = 0;
        while i < n
            invariant
                i <= n,
                n == self.players@.len(),
                m == self.enemies@.len(),
                forall|a: int, b: int|
                    0 <= a < i && a < b < n ==> (#[trigger] self.players@[a]).entity.0 < (
                    #[trigger] self.players@[b]).entity.0 && !(self.players@[a].bundle.user_id
                        == self.players@[b].bundle.user_id && self.players@[a].bundle.game_id
                        == self.players@[b].bundle.game_id),
                forall|a: int, b: int|
                    0 <= a < i && 0 <= b < m ==> (#[trigger] self.players@[a]).entity != (
                    #[trigger] self.enemies@[b]).entity,
                forall|a: int|
                    0 <= a < i ==> (#[trigger] self.players@[a]).entity.0 < self.next_entity
                        && self.players@[a].bundle.wf(),
            decreases n - i,
        {
            let row = &self.players[i];
            let _ = row.bundle.vitality.health();
            if row.entity.0 >= self.next_entity {
                return false;
            }
            let mut j: usize = i + 1;
            while j < n
                invariant
                    i < j <= n,
                    n == self.players@.len(),
                    row == &self.players@[i as int],
                    forall|b: int|
                        i < b < j ==> self.players@[i as int].entity.0 < (
                        #[trigger] self.players@[b]).entity.0 && !(self.players@[i as int].bundle.user_id
                            == self.players@[b].bundle.user_id
                            && self.players@[i as int].bundle.game_id
                            == self.players@[b].bundle.game_id),
                decreases n - j,
            {
                let other = &self.players[j];
                if row.entity.0 >= other.entity.0 {
                    return false;
                }
                if row.bundle.user_id.0 == other.bundle.user_id.0 && row.bundle.game_id.0
                    == other.bundle.game_id.0 {
                    return false;
                }
                j += 1;
            }
            let mut k: usize = 0;
            while k < m
                invariant
                    k <= m,
                    i < n,
                    n == self.players@.len(),
                    m == self.enemies@.len(),
                    row == &self.players@[i as int],
                    forall|b: int|
                        0 <= b < k ==> self.players@[i as int].entity != (
                        #[trigger] self.enemies@[b]).entity,
                decreases m - k,
            {
                if row.entity.0 == self.enemies[k].entity.0 {
                    return false;
                }
                k += 1;
            }
            i += 1;
        }
        let mut e: usize = 0;
        while e < m
            invariant
                e <= m,
                m == self.enemies@.len(),
                forall|a: int, b: int|
                    0 <= a < e && a < b < m ==> (#[trigger] self.enemies@[a]).entity.0 < (
                    #[trigger] self.enemies@[b]).entity.0 && self.enemies@[a].bundle.game_id
                        != self.enemies@[b].bundle.game_id,
                forall|a: int|
                    0 <= a < e ==> (#[trigger] self.enemies@[a]).entity.0 < self.next_entity
                        && self.enemies@[a].bundle.wf(),
            decreases m - e,
        {
            let row = &self.enemies[e];
            let _ = row.bundle.parts.core.health();
            let _ = row.bundle.parts.sensor.health();
            let _ = row.bundle.parts.gun.health();
            let _ = row.bundle.parts.left_wing.health();
            let _ = row.bundle.parts.right_wing.health();
            if row.entity.0 >= self.next_entity {
                return false;
            }
            let mut j: usize = e + 1;
            while j < m
                invariant
                    e < j <= m,
                    m == self.enemies@.len(),
                    row == &self.enemies@[e as int],
                    forall|b: int|
                        e < b < j ==> self.enemies@[e as int].entity.0 < (
                        #[trigger] self.enemies@[b]).entity.0
                            && self.enemies@[e as int].bundle.game_id
                            != self.enemies@[b].bundle.game_id,
                decreases m - j,
            {
                let other = &self.enemies[j];
                if row.entity.0 >= other.entity.0 {
                    return false;
                }
                if row.bundle.game_id.0 == other.bundle.game_id.0 {
                    return false;
                }
                j += 1;
            }
            e += 1;
        }
        true
    }

    /// The place of the last row of `user`, in whatever battle.
    pub fn find_last_row_of(&self, user: UserId) -> (r: Option<usize>)
        ensures
            r.is_some() == last_row_of(self.players@, user).is_some(),
            r matches Some(i) ==> last_row_of(self.players@, user) == Some(i as int) && i
                < self.players@.len(),
    {
        let mut i: usize = self.players.len();
        proof {
            assert(self.players@.take(i as int) == self.players@);
        }
        while i > 0
            invariant
                i <= self.players@.len(),
                last_row_of(self.players@, user) == last_row_of(self.players@.take(i as int), user),
            decreases i,
        {
            proof {
                assert(self.players@.take(i as int).drop_last() == self.players@.take(i - 1));
                assert(self.players@.take(i as int).last() == self.players@[i - 1]);
            }
            if self.players[i - 1].bundle.user_id.0 == user {
                return Some(i - 1);
            }
            i -= 1;
        }
        proof {
            assert(self.players@.take(0).len() == 0);
        }
        None
    }

    /// The place of the row of `user` in the battle `game_id`.
    pub fn find_player(&self, user: UserId, game_id: GameId) -> (r: Option<usize>)
        ensures
            r.is_some() == self.has_player(user, game_id),
            r matches Some(i) ==> i < self.players@.len() && self.players@[i as int].bundle.user_id
                == UserIdComponent(user) && self.players@[i as int].bundle.game_id == game_id,
    {
        let n = self.players.len();
        let mut i: usize = 0;
        while i < n
            invariant
                i <= n,
                n == self.players@.len(),
                forall|k: int|
                    0 <= k < i ==> !((#[trigger] self.players@[k]).bundle.user_id
                        == UserIdComponent(user) && self.players@[k].bundle.game_id == game_id),
            decreases n - i,
        {
            if self.players[i].bundle.user_id.0 == user && self.players[i].bundle.game_id.0
                == game_id.0 {
                return Some(i);
            }
            i += 1;
        }
        None
    }

    /// The place of the machine of the battle `game_id`.
    pub fn find_enemy(&self, game_id: GameId) -> (r: Option<usize>)
        ensures
            r.is_some() == self.has_enemy(game_id),
            r matches Some(i) ==> i < self.enemies@.len() && self.enemies@[i as int].bundle.game_id
                == game_id,
    {
        let n = self.enemies.len();
        let mut i: usize = 0;
        while i < n
            invariant
                i <= n,
                n == self.enemies@.len(),
                forall|k: int|
                    0 <= k < i ==> (#[trigger] self.enemies@[k]).bundle.game_id != game_id,
            decreases n - i,
        {
            if self.enemies[i].bundle.game_id.0 == game_id.0 {
                return Some(i);
            }
            i += 1;
        }
        None
    }

    /// Whether `bundle` can be added as a row: its user has no row in its
    /// battle yet, and a handle is free.
    pub open spec fn admits_player(self, bundle: PlayerBundle) -> bool {
        !self.has_player(bundle.user_id.0, bundle.game_id) && self.next_entity < u64::MAX
    }

    /// Whether `bundle` can be added as a row: its battle has no machine
    /// yet, and a handle is free.
    pub open spec fn admits_enemy(self, bundle: Bygone03Bundle) -> bool {
        !self.has_enemy(bundle.game_id) && self.next_entity < u64::MAX
    }

    /// Adds a player under a new handle, where the world admits it; else
    /// the world stays as it is.
    pub fn spawn_player(&mut self, bundle: PlayerBundle) -> (r: Option<Entity>)
        requires
            old(self).wf(),
            bundle.wf(),
        ensures
            final(self).wf(),
            final(self).enemies@ == old(self).enemies@,
            r.is_some() == old(self).admits_player(bundle),
            r matches Some(entity) ==> entity == Entity(old(self).next_entity) && final(self).players@ == old(self).players@.push(PlayerRow { entity, bundle }) && final(self).next_entity == old(self).next_entity + 1,
            r.is_none() ==> final(self).players@ == old(self).players@ && final(self).next_entity
                == old(self).next_entity,
    {
        if self.next_entity == u64::MAX {
            return None;
        }
        if self.find_player(bundle.user_id.0, bundle.game_id).is_some() {
            return None;
        }
        let entity = Entity(self.next_entity);
        self.players.push(PlayerRow { entity, bundle });
        self.next_entity = self.next_entity + 1;
        Some(entity)
    }

    /// Adds a machine under a new handle, where the world admits it; else
    /// the world stays as it is.
    pub fn spawn_enemy(&mut self, bundle: Bygone03Bundle) -> (r: Option<Entity>)
        requires
            old(self).wf(),
            bundle.wf(),
        ensures
            final(self).wf(),
            final(self).players@ == old(self).players@,
            r.is_some() == old(self).admits_enemy(bundle),
            r matches Some(entity) ==> entity == Entity(old(self).next_entity) && final(self).enemies@ == old(self).enemies@.push(EnemyRow { entity, bundle }) && final(self).next_entity == old(self).next_entity + 1,
            r.is_none() ==> final(self).enemies@ == old(self).enemies@ && final(self).next_entity
                == old(self).next_entity,
    {
        if self.next_entity == u64::MAX {
            return None;
        }
        if self.find_enemy(bundle.game_id).is_some() {
            return None;
        }
        let entity = Entity(self.next_entity);
        self.enemies.push(EnemyRow { entity, bundle });
        self.next_entity = self.next_entity + 1;
        Some(entity)
    }

    /// Removes every row of the battle `game_id`.
    pub fn despawn_game(&mut self, game_id: GameId)
        requires
            old(self).wf(),
        ensures
            final(self).wf(),
            final(self).players@ == kept(old(self).players@, player_outside(game_id)),
            final(self).enemies@ == kept(old(self).enemies@, enemy_outside(game_id)),
            final(self).next_entity == old(self).next_entity,
    {
        let mut players: Vec<PlayerRow> = Vec::new();
        let n = self.players.len();
        let mut i: usize = 0;
        while i < n
            invariant
                i <= n,
                n == self.players@.len(),
                players@ == kept(self.players@.take(i as int), player_outside(game_id)),
            decreases n - i,
        {
            proof {
                assert(self.players@.take(i + 1).drop_last() == self.players@.take(i as int));
            }
            if self.players[i].bundle.game_id.0 != game_id.0 {
                players.push(self.players[i].clone());
            }
            i += 1;
        }
        let mut enemies: Vec<EnemyRow> = Vec::new();
        let m = self.enemies.len();
        let mut j: usize = 0;
        while j < m
            invariant
                j <= m,
                m == self.enemies@.len(),
                enemies@ == kept(self.enemies@.take(j as int), enemy_outside(game_id)),
            decreases m - j,
        {
            proof {
                assert(self.enemies@.take(j + 1).drop_last() == self.enemies@.take(j as int));
            }
            if self.enemies[j].bundle.game_id.0 != game_id.0 {
                enemies.push(self.enemies[j]);
            }
            j += 1;
        }
        proof {
            assert(self.players@.take(n as int) == self.players@);
            assert(self.enemies@.take(m as int) == self.enemies@);
            lemma_kept_players_wf(self.players@, self.enemies@, self.next_entity, game_id);
        }
        self.players = players;
        self.enemies = enemies;
    }
}

/// A world stays well-formed while its rows keep their places, handles,
/// users and battles, and no health exceeds its maximum.
pub proof fn lemma_wf_kept(before: World, after: World)
    requires
        before.wf(),
        same_players(after.players@, before.players@),
        same_enemies(after.enemies@, before.enemies@),
        after.next_entity == before.next_entity,
        healths_bounded(after.players@, after.enemies@),
    ensures
        after.wf(),
{
    assert forall|i: int, j: int| 0 <= i < j < after.players@.len() implies !((
    #[trigger] after.players@[i]).bundle.user_id == (#[trigger] after.players@[j]).bundle.user_id
        && after.players@[i].bundle.game_id == after.players@[j].bundle.game_id) by {
        assert(before.players@[i].bundle.user_id == after.players@[i].bundle.user_id);
        assert(before.players@[j].bundle.user_id == after.players@[j].bundle.user_id);
    }
    assert forall|i: int, j: int| 0 <= i < j < after.enemies@.len() implies (
    #[trigger] after.enemies@[i]).bundle.game_id != (#[trigger] after.enemies@[j]).bundle.game_id by {
        assert(before.enemies@[i].bundle.game_id == after.enemies@[i].bundle.game_id);
        assert(before.enemies@[j].bundle.game_id == after.enemies@[j].bundle.game_id);
    }
    assert forall|i: int, j: int| 0 <= i < j < after.players@.len() implies (
    #[trigger] after.players@[i]).entity.0 < (#[trigger] after.players@[j]).entity.0 by {
        assert(before.players@[i].entity == after.players@[i].entity);
        assert(before.players@[j].entity == after.players@[j].entity);
    }
    assert forall|i: int, j: int| 0 <= i < j < after.enemies@.len() implies (
    #[trigger] after.enemies@[i]).entity.0 < (#[trigger] after.enemies@[j]).entity.0 by {
        assert(before.enemies@[i].entity == after.enemies@[i].entity);
        assert(before.enemies@[j].entity == after.enemies@[j].entity);
    }
    assert forall|i: int| 0 <= i < after.players@.len() implies (
    #[trigger] after.players@[i]).entity.0 < after.next_entity by {
        assert(before.players@[i].entity == after.players@[i].entity);
    }
    assert forall|i: int| 0 <= i < after.enemies@.len() implies (
    #[trigger] after.enemies@[i]).entity.0 < after.next_entity by {
        assert(before.enemies@[i].entity == after.enemies@[i].entity);
    }
    assert forall|i: int, j: int|
        0 <= i < after.players@.len() && 0 <= j < after.enemies@.len() implies (
    #[trigger] after.players@[i]).entity != (#[trigger] after.enemies@[j]).entity by {
        assert(before.players@[i].entity == after.players@[i].entity);
        assert(before.enemies@[j].entity == after.enemies@[j].entity);
    }
}

/// What is left of a well-formed world after the rows of one battle are
/// removed is well-formed.
pub proof fn lemma_kept_players_wf(
    players: Seq<PlayerRow>,
    enemies: Seq<EnemyRow>,
    bound: u64,
    game_id: GameId,
)
    requires
        players_in_order(players, bound),
        enemies_in_order(enemies, bound),
        handles_apart(players, enemies),
        one_row_per_player(players),
        one_enemy_per_game(enemies),
        healths_bounded(players, enemies),
    ensures
        players_in_order(kept(players, player_outside(game_id)), bound),
        enemies_in_order(kept(enemies, enemy_outside(game_id)), bound),
        handles_apart(
            kept(players, player_outside(game_id)),
            kept(enemies, enemy_outside(game_id)),
        ),
        one_row_per_player(kept(players, player_outside(game_id))),
        one_enemy_per_game(kept(enemies, enemy_outside(game_id))),
        healths_bounded(
            kept(players, player_outside(game_id)),
            kept(enemies, enemy_outside(game_id)),
        ),
{
    let kp = kept(players, player_outside(game_id));
    let ke = kept(enemies, enemy_outside(game_id));
    assert forall|i: int| 0 <= i < kp.len() implies 0 <= origin(players, player_outside(game_id), i)
        < players.len() && players[origin(players, player_outside(game_id), i)] == #[trigger] kp[i] by {
        lemma_kept_origin(players, player_outside(game_id), i);
    }
    assert forall|i: int| 0 <= i < ke.len() implies 0 <= origin(enemies, enemy_outside(game_id), i)
        < enemies.len() && enemies[origin(enemies, enemy_outside(game_id), i)] == #[trigger] ke[i] by {
        lemma_kept_origin(enemies, enemy_outside(game_id), i);
    }
    assert forall|i: int, j: int| 0 <= i < j < kp.len() implies origin(
        players,
        player_outside(game_id),
        i,
    ) < origin(players, player_outside(game_id), j) by {
        lemma_kept_order(players, player_outside(game_id), i, j);
    }
    assert forall|i: int, j: int| 0 <= i < j < ke.len() implies origin(
        enemies,
        enemy_outside(game_id),
        i,
    ) < origin(enemies, enemy_outside(game_id), j) by {
        lemma_kept_order(enemies, enemy_outside(game_id), i, j);
    }
}

} // verus!
