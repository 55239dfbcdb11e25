//! The registry of battles: at most one battle for each guild, in the
//! order in which the guilds first started one.

use vstd::prelude::*;
use crate::components::GuildId;
use crate::game_helpers::Game;

verus! {

/// The battle of a guild.
#[derive(Debug)]
pub struct GameEntry {
    pub guild_id: GuildId,
    pub game: Game,
}

/// Whether no two entries belong to the same guild.
pub open spec fn one_game_per_guild(entries: Seq<GameEntry>) -> bool {
    forall|i: int, j: int|
        0 <= i < j < entries.len() ==> (#[trigger] entries[i]).guild_id != (
        #[trigger] entries[j]).guild_id
}

/// The battles of all guilds.
#[derive(Debug)]
pub struct GameRegistry {
    pub entries: Vec<GameEntry>,
}

impl View for GameRegistry {
    type V = Map<GuildId, Game>;

    /// The registry as a mapping from guilds to battles.
    open spec fn view(&self) -> Map<GuildId, Game> {
        Map::new(|guild_id: GuildId| self.has(guild_id), |guild_id: GuildId| self.game(guild_id))
    }
}

impl GameRegistry {
    /// The invariant of the registry: a guild has at most one battle.
    pub open spec fn wf(self) -> bool {
        one_game_per_guild(self.entries@)
    }

    /// Whether the guild has a battle.
    pub open spec fn has(self, guild_id: GuildId) -> bool {
        exists|i: int| 0 <= i < self.entries@.len() && (#[trigger] self.entries@[i]).guild_id == guild_id
    }

    /// The place of the guild's battle among the entries.
    pub open spec fn place(self, guild_id: GuildId) -> int {
        choose|i: int| 0 <= i < self.entries@.len() && (#[trigger] self.entries@[i]).guild_id == guild_id
    }

    /// The battle of the guild.
    pub open spec fn game(self, guild_id: GuildId) -> Game {
        self.entries@[self.place(guild_id)].game
    }

    /// A registry without battles.
    pub fn new() -> (r: Self)
        ensures
            r.wf(),
            r.entries@.len() == 0,
            r@ == Map::<GuildId, Game>::empty(),
    {
        let r = GameRegistry { entries: Vec::new() };
        proof {
            assert(r@ =~= Map::<GuildId, Game>::empty());
        }
        r
    }

    /// Whether the registry is well-formed.
    pub fn is_wf(&self) -> (r: bool)
        ensures
            r == self.wf(),
    {
        let n = self.entries.len();
        let mut i: usize = 0;
        while i < n
            invariant
                i <= n,
                n == self.entries@.len(),
                forall|a: int, b: int|
                    0 <= a < i && a < b < n ==> (#[trigger] self.entries@[a]).guild_id != (
                    #[trigger] self.entries@[b]).guild_id,
            decreases n - i,
        {
            let mut j: usize = i + 1;
            while j < n
                invariant
                    i < j <= n,
                    n == self.entries@.len(),
                    forall|b: int|
                        i < b < j ==> self.entries@[i as int].guild_id != (
                        #[trigger] self.entries@[b]).guild_id,
                decreases n - j,
            {
                if self.entries[i].guild_id == self.entries[j].guild_id {
                    return false;
                }
                j += 1;
            }
            i += 1;
        }
        true
    }

    /// The place of the guild's battle among the entries.
    pub fn find(&self, guild_id: GuildId) -> (r: Option<usize>)
        requires
            self.wf(),
        ensures
            r.is_some() == self.has(guild_id),
            r matches Some(i) ==> i == self.place(guild_id) && i < self.entries@.len()
                && self.entries@[i as int].guild_id == guild_id,
    {
        let n = self.entries.len();
        let mut i: usize = 0;
        while i < n
            invariant
                i <= n,
                n == self.entries@.len(),
                self.wf(),
                forall|k: int| 0 <= k < i ==> (#[trigger] self.entries@[k]).guild_id != guild_id,
            decreases n - i,
        {
            if self.entries[i].guild_id == guild_id {
                proof {
                    assert(self.entries@[i as int].guild_id == guild_id);
                    let k = self.place(guild_id);
                    assert(self.entries@[k].guild_id == guild_id);
                    assert(k == i);
                }
                return Some(i);
            }
            i += 1;
        }
        None
    }

    /// The battle of the guild.
    pub fn get(&self, guild_id: GuildId) -> (r: Option<&Game>)
        requires
            self.wf(),
        ensures
            r.is_some() == self@.contains_key(guild_id),
            r matches Some(game) ==> *game == self@[guild_id],
    {
        match self.find(guild_id) {
            Some(i) => Some(&self.entries[i].game),
            None => None,
        }
    }

    /// Puts `game` in the place of the guild's battle, or at the end where
    /// the guild had none, and gives the battle that was replaced.
    pub fn insert(&mut self, guild_id: GuildId, game: Game) -> (r: Option<Game>)
        requires
            old(self).wf(),
        ensures
            final(self).wf(),
            final(self)@ == old(self)@.insert(guild_id, game),
            r.is_some() == old(self)@.contains_key(guild_id),
            r matches Some(old_game) ==> old_game == old(self)@[guild_id] && final(self).entries@
                == old(self).entries@.update(
                old(self).place(guild_id),
                GameEntry { guild_id, game },
            ),
            r.is_none() ==> final(self).entries@ == old(self).entries@.push(
                GameEntry { guild_id, game },
            ),
    {
        let found = self.find(guild_id);
        let ghost before = *self;
        let r = match found {
            Some(i) => {
                let mut replaced = game;
                std::mem::swap(&mut self.entries[i].game, &mut replaced);
                Some(replaced)
            },
            None => {
                self.entries.push(GameEntry { guild_id, game });
                None
            },
        };
        proof {
            assert forall|other: GuildId| before.has(other) || other == guild_id implies self.has(
                other,
            ) by {
                if other == guild_id {
                    if found.is_some() {
                        assert(self.entries@[found.unwrap() as int].guild_id == guild_id);
                    } else {
                        assert(self.entries@[before.entries@.len() as int].guild_id == guild_id);
                    }
                } else {
                    let k = before.place(other);
                    assert(self.entries@[k].guild_id == other);
                }
            }
            assert forall|other: GuildId| self.has(other) implies before.has(other) || other
                == guild_id by {
                let k = self.place(other);
                if k < before.entries@.len() {
                    assert(before.entries@[k].guild_id == self.entries@[k].guild_id);
                }
            }
            assert forall|other: GuildId| self.has(other) implies self.game(other) == (if other
                == guild_id {
                game
            } else {
                before.game(other)
            }) by {
                let k = self.place(other);
                if other != guild_id {
                    assert(before.entries@[k].guild_id == other);
                    let kb = before.place(other);
                    assert(kb == k);
                } else {
                    if found.is_some() {
                        assert(self.entries@[found.unwrap() as int].guild_id == guild_id);
                    } else {
                        assert(self.entries@[before.entries@.len() as int].guild_id == guild_id);
                    }
                }
            }
            assert(self@ =~= before@.insert(guild_id, game));
        }
        r
    }
}

} // verus!
