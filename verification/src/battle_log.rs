//! The battle log: for each guild the lines that were written since the
//! battle was last drawn.

use vstd::prelude::*;
use crate::components::GuildId;
use crate::dice::Dice;
use crate::events::{BattleLogEvent, PlayerJoinEvent};
use crate::localization::{Localization, LocalizedLine, RenderText};
use crate::registry::GameRegistry;
use crate::text::replaced;

verus! {

/// The lines of one guild.
#[derive(Debug)]
pub struct BattleLogEntry {
    pub guild_id: GuildId,
    pub lines: Vec<String>,
}

/// The lines of all guilds.
#[derive(Debug)]
pub struct BattleLog {
    pub entries: Vec<BattleLogEntry>,
}

impl BattleLog {
    /// The invariant of the log: a guild has at most one entry.
    pub open spec fn wf(self) -> bool {
        forall|i: int, j: int|
            0 <= i < j < self.entries@.len() ==> (#[trigger] self.entries@[i]).guild_id != (
            #[trigger] self.entries@[j]).guild_id
    }

    /// Whether the guild has an entry.
    pub open spec fn has(self, guild_id: GuildId) -> bool {
        exists|i: int| 0 <= i < self.entries@.len() && (#[trigger] self.entries@[i]).guild_id == guild_id
    }

    /// The place of the guild's entry.
    pub open spec fn place(self, guild_id: GuildId) -> int {
        choose|i: int| 0 <= i < self.entries@.len() && (#[trigger] self.entries@[i]).guild_id == guild_id
    }

    /// The lines of the guild, oldest first; none where the guild has no
    /// entry.
    pub open spec fn lines(self, guild_id: GuildId) -> Seq<String> {
        if self.has(guild_id) {
            self.entries@[self.place(guild_id)].lines@
        } else {
            Seq::empty()
        }
    }

    /// The text of the lines of every guild.
    pub open spec fn texts(self) -> Map<GuildId, Seq<Seq<char>>> {
        Map::total(|guild_id: GuildId| crate::text::views(self.lines(guild_id)))
    }

    /// Whether `self` differs from `before` at most in the lines of
    /// `guild_id`.
    pub open spec fn same_but(self, before: BattleLog, guild_id: GuildId) -> bool {
        forall|other: GuildId| other != guild_id ==> self.lines(other) == before.lines(other)
    }

    /// A log without lines.
    pub fn new() -> (r: Self)
        ensures
            r.wf(),
            forall|guild_id: GuildId| r.lines(guild_id) == Seq::<String>::empty(),
    {
        BattleLog { entries: Vec::new() }
    }

    /// Whether the log is well-formed.
    pub fn is_wf(&self) -> (r: bool)
        ensures
            r == self.wf(),
    {
        let n = self.entries.len();
        let mut i: usize = 0;
        while i < n
            invariant
                i <= n,
                n == self.entries@.len(),
                forall|a: int, b: int|
                    0 <= a < i && a < b < n ==> (#[trigger] self.entries@[a]).guild_id != (
                    #[trigger] self.entries@[b]).guild_id,
            decreases n - i,
        {
            let mut j: usize = i + 1;
            while j < n
                invariant
                    i < j <= n,
                    n == self.entries@.len(),
                    forall|b: int|
                        i < b < j ==> self.entries@[i as int].guild_id != (
                        #[trigger] self.entries@[b]).guild_id,
                decreases n - j,
            {
                if self.entries[i].guild_id == self.entries[j].guild_id {
                    return false;
                }
                j += 1;
            }
            i += 1;
        }
        true
    }

    fn find(&self, guild_id: GuildId) -> (r: Option<usize>)
        requires
            self.wf(),
        ensures
            r.is_some() == self.has(guild_id),
            r matches Some(i) ==> i == self.place(guild_id) && i < self.entries@.len()
                && self.entries@[i as int].guild_id == guild_id,
    {
        let n = self.entries.len();
        let mut i: usize = 0;
        while i < n
            invariant
                i <= n,
                n == self.entries@.len(),
                self.wf(),
                forall|k: int| 0 <= k < i ==> (#[trigger] self.entries@[k]).guild_id != guild_id,
            decreases n - i,
        {
            if self.entries[i].guild_id == guild_id {
                proof {
                    let k = self.place(guild_id);
                    assert(self.entries@[k].guild_id == guild_id);
                    assert(k == i);
                }
                return Some(i);
            }
            i += 1;
        }
        None
    }

    /// What the change of one entry's lines, or one more entry, does to
    /// the lines of every guild.
    proof fn lemma_changed(before: BattleLog, after: BattleLog, guild_id: GuildId, lines: Seq<String>)
        requires
            before.wf(),
            before.has(guild_id) ==> after.entries@.len() == before.entries@.len(),
            !before.has(guild_id) ==> after.entries@.len() == before.entries@.len() + 1,
            forall|k: int|
                0 <= k < before.entries@.len() ==> (#[trigger] after.entries@[k]).guild_id
                    == before.entries@[k].guild_id,
            forall|k: int|
                0 <= k < before.entries@.len() && before.entries@[k].guild_id != guild_id ==> (
                #[trigger] after.entries@[k]).lines@ == before.entries@[k].lines@,
            before.has(guild_id) ==> after.entries@[before.place(guild_id)].lines@ == lines,
            !before.has(guild_id) ==> after.entries@[before.entries@.len() as int].guild_id
                == guild_id && after.entries@[before.entries@.len() as int].lines@ == lines,
        ensures
            after.wf(),
            after.lines(guild_id) == lines,
            after.same_but(before, guild_id),
            after.texts() == before.texts().insert(guild_id, crate::text::views(lines)),
    {
        assert(after.wf()) by {
            assert forall|i: int, j: int| 0 <= i < j < after.entries@.len() implies (
            #[trigger] after.entries@[i]).guild_id != (#[trigger] after.entries@[j]).guild_id by {
                if j < before.entries@.len() {
                    assert(before.entries@[i].guild_id != before.entries@[j].guild_id);
                } else {
                    assert(before.entries@[i].guild_id == after.entries@[i].guild_id);
                }
            }
        }
        if before.has(guild_id) {
            let k = before.place(guild_id);
            assert(after.entries@[k].guild_id == guild_id);
            assert(after.place(guild_id) == k);
        } else {
            let k = before.entries@.len() as int;
            assert(after.entries@[k].guild_id == guild_id);
            assert(after.place(guild_id) == k);
        }
        assert forall|other: GuildId| other != guild_id implies after.lines(other) == before.lines(
            other,
        ) by {
            if before.has(other) {
                let k = before.place(other);
                assert(after.entries@[k].guild_id == other);
                assert(after.place(other) == k);
            } else if after.has(other) {
                let k = after.place(other);
                if k < before.entries@.len() {
                    assert(before.entries@[k].guild_id == other);
                }
            }
        }
        assert(after.texts() =~= before.texts().insert(guild_id, crate::text::views(lines)));
    }

    /// Takes the lines of the guild out of the log.
    pub fn take(&mut self, guild_id: GuildId) -> (r: Vec<String>)
        requires
            old(self).wf(),
        ensures
            final(self).wf(),
            r@ == old(self).lines(guild_id),
            final(self).lines(guild_id) == Seq::<String>::empty(),
            final(self).same_but(*old(self), guild_id),
            final(self).texts() == old(self).texts().insert(guild_id, Seq::empty()),
    {
        let ghost before = *self;
        let mut lines: Vec<String> = Vec::new();
        match self.find(guild_id) {
            Some(i) => {
                std::mem::swap(&mut self.entries[i].lines, &mut lines);
                proof {
                    Self::lemma_changed(before, *self, guild_id, Seq::empty());
                }
            },
            None => {
                proof {
                    assert(crate::text::views(Seq::<String>::empty()) =~= Seq::<Seq<char>>::empty());
                    assert(self.texts() =~= before.texts().insert(guild_id, Seq::empty()));
                }
            },
        }
        proof {
            assert(crate::text::views(Seq::<String>::empty()) =~= Seq::<Seq<char>>::empty());
        }
        lines
    }

    /// Removes the lines of the guild.
    pub fn remove(&mut self, guild_id: GuildId)
        requires
            old(self).wf(),
        ensures
            final(self).wf(),
            final(self).lines(guild_id) == Seq::<String>::empty(),
            final(self).same_but(*old(self), guild_id),
            final(self).texts() == old(self).texts().insert(guild_id, Seq::empty()),
    {
        let _ = self.take(guild_id);
    }

    /// Writes `line` at the end of the lines of the guild.
    pub fn push(&mut self, guild_id: GuildId, line: String)
        requires
            old(self).wf(),
        ensures
            final(self).wf(),
            final(self).lines(guild_id) == old(self).lines(guild_id).push(line),
            final(self).same_but(*old(self), guild_id),
            final(self).texts() == old(self).texts().insert(
                guild_id,
                old(self).texts()[guild_id].push(line@),
            ),
    {
        let ghost before = *self;
        match self.find(guild_id) {
            Some(i) => {
                self.entries[i].lines.push(line);
            },
            None => {
                let mut lines: Vec<String> = Vec::new();
                lines.push(line);
                self.entries.push(BattleLogEntry { guild_id, lines });
            },
        }
        proof {
            Self::lemma_changed(before, *self, guild_id, before.lines(guild_id).push(line));
            assert(crate::text::views(before.lines(guild_id).push(line)) =~= crate::text::views(
                before.lines(guild_id),
            ).push(line@));
        }
    }
}

/// The name under which the machine appears in the log.
pub open spec fn enemy_name() -> Seq<char> {
    "_03"@
}

/// The templates of the lines for an event of the log.
pub open spec fn templates(loc: Localization, ev: BattleLogEvent) -> Seq<LocalizedLine> {
    match ev {
        BattleLogEvent::PlayerDead(_) => loc.player_dead@,
        BattleLogEvent::PlayerHit(_, _) => loc.player_hit@,
        BattleLogEvent::PlayerMiss(_) => loc.player_miss@,
        BattleLogEvent::BygoneHit(_) => loc.bygone03_hit@,
        BattleLogEvent::BygoneMiss => loc.bygone03_miss@,
        BattleLogEvent::BygoneDead => loc.bygone03_dead@,
    }
}

/// The line that `template` makes of an event of the log: the names of
/// the player, of the part and of the machine stand in the place of
/// their placeholders.
pub open spec fn log_text(loc: Localization, ev: BattleLogEvent, template: Seq<char>) -> Seq<char> {
    match ev {
        BattleLogEvent::PlayerDead(name) => replaced(template, "{PLAYER_NAME}"@, name@),
        BattleLogEvent::PlayerHit(name, part) => replaced(
            replaced(template, "{PLAYER_NAME}"@, name@),
            "{BYGONE03_PART_NAME}"@,
            part.rendered(&loc),
        ),
        BattleLogEvent::PlayerMiss(name) => replaced(template, "{PLAYER_NAME}"@, name@),
        BattleLogEvent::BygoneHit(name) => replaced(
            replaced(template, "{PLAYER_NAME}"@, name@),
            "{ENEMY_NAME}"@,
            enemy_name(),
        ),
        BattleLogEvent::BygoneMiss => replaced(template, "{ENEMY_NAME}"@, enemy_name()),
        BattleLogEvent::BygoneDead => replaced(template, "{ENEMY_NAME}"@, enemy_name()),
    }
}

/// The line that is written for an event of the log in `guild_id`, where
/// the dice pick the `pick`th template: none where the guild has no
/// battle, or its localization no template.
pub open spec fn event_line(
    games: GameRegistry,
    guild_id: GuildId,
    ev: BattleLogEvent,
    pick: int,
) -> Option<Seq<char>> {
    let loc = games.game(guild_id).localization;
    if games.has(guild_id) && templates(loc, ev).len() > 0 {
        Some(log_text(loc, ev, templates(loc, ev)[pick]@))
    } else {
        None
    }
}

/// The line that is written for a player who joins, where the dice pick
/// the `pick`th template: none where the guild has no battle, or its
/// localization no template.
pub open spec fn join_line(games: GameRegistry, ev: PlayerJoinEvent, pick: int) -> Option<Seq<char>> {
    let loc = games.game(ev.guild_id).localization;
    if games.has(ev.guild_id) && loc.player_join@.len() > 0 {
        Some(replaced(loc.player_join@[pick]@, "{PLAYER_NAME}"@, ev.player_name@))
    } else {
        None
    }
}

/// The text of the log after the lines for the first `n` events.
pub open spec fn after_events(
    log: Map<GuildId, Seq<Seq<char>>>,
    games: GameRegistry,
    events: Seq<(GuildId, BattleLogEvent)>,
    picks: Seq<usize>,
    n: nat,
) -> Map<GuildId, Seq<Seq<char>>>
    decreases n,
{
    if n == 0 {
        log
    } else {
        let before = after_events(log, games, events, picks, (n - 1) as nat);
        let guild_id = events[n - 1].0;
        match event_line(games, guild_id, events[n - 1].1, picks[n - 1] as int) {
            Some(line) => before.insert(guild_id, before[guild_id].push(line)),
            None => before,
        }
    }
}

/// The text of the log after the lines for the first `n` players who
/// join.
pub open spec fn after_joins(
    log: Map<GuildId, Seq<Seq<char>>>,
    games: GameRegistry,
    events: Seq<PlayerJoinEvent>,
    picks: Seq<usize>,
    n: nat,
) -> Map<GuildId, Seq<Seq<char>>>
    decreases n,
{
    if n == 0 {
        log
    } else {
        let before = after_joins(log, games, events, picks, (n - 1) as nat);
        let guild_id = events[n - 1].guild_id;
        match join_line(games, events[n - 1], picks[n - 1] as int) {
            Some(line) => before.insert(guild_id, before[guild_id].push(line)),
            None => before,
        }
    }
}

/// Whether each pick is the place of a template where a line is written
/// for its event.
pub open spec fn event_picks_fit(
    games: GameRegistry,
    events: Seq<(GuildId, BattleLogEvent)>,
    picks: Seq<usize>,
) -> bool {
    &&& picks.len() == events.len()
    &&& forall|k: int|
        0 <= k < events.len() && event_line(games, events[k].0, events[k].1, 0).is_some() ==> (
        #[trigger] picks[k]) < templates(games.game(events[k].0).localization, events[k].1).len()
}

/// Whether each pick is the place of a template where a line is written
/// for its player.
pub open spec fn join_picks_fit(
    games: GameRegistry,
    events: Seq<PlayerJoinEvent>,
    picks: Seq<usize>,
) -> bool {
    &&& picks.len() == events.len()
    &&& forall|k: int|
        0 <= k < events.len() && join_line(games, events[k], 0).is_some() ==> (#[trigger] picks[k])
            < games.game(events[k].guild_id).localization.player_join@.len()
}

/// The templates of the lines for an event of the log.
fn templates_of<'a>(loc: &'a Localization, ev: &BattleLogEvent) -> (r: &'a Vec<LocalizedLine>)
    ensures
        r@ == templates(*loc, *ev),
{
    match ev {
        BattleLogEvent::PlayerDead(_) => &loc.player_dead,
        BattleLogEvent::PlayerHit(_, _) => &loc.player_hit,
        BattleLogEvent::PlayerMiss(_) => &loc.player_miss,
        BattleLogEvent::BygoneHit(_) => &loc.bygone03_hit,
        BattleLogEvent::BygoneMiss => &loc.bygone03_miss,
        BattleLogEvent::BygoneDead => &loc.bygone03_dead,
    }
}

/// The line that `template` makes of an event of the log.
pub fn render_log_line(loc: &Localization, ev: &BattleLogEvent, template: &LocalizedLine) -> (r:
    LocalizedLine)
    ensures
        r@ == log_text(*loc, *ev, template@),
{
    proof {
        reveal_strlit("_03");
    }
    match ev {
        BattleLogEvent::PlayerDead(name) => template.insert_player_name(name),
        BattleLogEvent::PlayerHit(name, part) => {
            let part_name = part.render_text(loc);
            template.insert_player_name(name).insert_bygone_part_name(part_name.as_str())
        },
        BattleLogEvent::PlayerMiss(name) => template.insert_player_name(name),
        BattleLogEvent::BygoneHit(name) => template.insert_player_name(name).insert_enemy_name("_03"),
        BattleLogEvent::BygoneMiss => template.insert_enemy_name("_03"),
        BattleLogEvent::BygoneDead => template.insert_enemy_name("_03"),
    }
}

/// Draws from the dice the template of each line: one pick for each event
/// of the log and then one for each player who joins, where a line is
/// written, and a zero where none is.
pub fn log_battle_picks<D: Dice>(
    games: &GameRegistry,
    rng: &mut D,
    ev_battle_log: &Vec<(GuildId, BattleLogEvent)>,
    ev_player_join: &Vec<PlayerJoinEvent>,
) -> (picks: (Vec<usize>, Vec<usize>))
    requires
        games.wf(),
    ensures
        event_picks_fit(*games, ev_battle_log@, picks.0@),
        join_picks_fit(*games, ev_player_join@, picks.1@),
{
    let mut event_picks: Vec<usize> = Vec::new();
    let n = ev_battle_log.len();
    let mut k: usize = 0;
    while k < n
        invariant
            k <= n,
            n == ev_battle_log@.len(),
            games.wf(),
            event_picks@.len() == k,
            forall|j: int|
                0 <= j < k && event_line(*games, ev_battle_log@[j].0, ev_battle_log@[j].1, 0).is_some()
                    ==> (#[trigger] event_picks@[j]) < templates(
                    games.game(ev_battle_log@[j].0).localization,
                    ev_battle_log@[j].1,
                ).len(),
        decreases n - k,
    {
        let mut pick: usize = 0;
        match games.get(ev_battle_log[k].0) {
            Some(game) => {
                let lines = templates_of(&game.localization, &ev_battle_log[k].1);
                if lines.len() > 0 {
                    pick = rng.between(0, lines.len() - 1);
                }
            },
            None => {},
        }
        event_picks.push(pick);
        k += 1;
    }
    let mut join_picks: Vec<usize> = Vec::new();
    let m = ev_player_join.len();
    let mut i: usize = 0;
    while i < m
        invariant
            i <= m,
            m == ev_player_join@.len(),
            games.wf(),
            join_picks@.len() == i,
            forall|j: int|
                0 <= j < i && join_line(*games, ev_player_join@[j], 0).is_some() ==> (
                #[trigger] join_picks@[j]) < games.game(
                    ev_player_join@[j].guild_id,
                ).localization.player_join@.len(),
        decreases m - i,
    {
        let mut pick: usize = 0;
        match games.get(ev_player_join[i].guild_id) {
            Some(game) => {
                if game.localization.player_join.len() > 0 {
                    pick = rng.between(0, game.localization.player_join.len() - 1);
                }
            },
            None => {},
        }
        join_picks.push(pick);
        i += 1;
    }
    (event_picks, join_picks)
}

/// Writes a line for each event of the log and then for each player who
/// joins, in the language of the guild's battle, from the templates that
/// the picks name: see `event_line` and `join_line`.
pub fn log_battle_with(
    games: &GameRegistry,
    event_picks: &Vec<usize>,
    join_picks: &Vec<usize>,
    battle_log: &mut BattleLog,
    ev_battle_log: &Vec<(GuildId, BattleLogEvent)>,
    ev_player_join: &Vec<PlayerJoinEvent>,
)
    requires
        games.wf(),
        old(battle_log).wf(),
        event_picks_fit(*games, ev_battle_log@, event_picks@),
        join_picks_fit(*games, ev_player_join@, join_picks@),
    ensures
        final(battle_log).wf(),
        final(battle_log).texts() == after_joins(
            after_events(
                old(battle_log).texts(),
                *games,
                ev_battle_log@,
                event_picks@,
                ev_battle_log@.len(),
            ),
            *games,
            ev_player_join@,
            join_picks@,
            ev_player_join@.len(),
        ),
{
    let n = ev_battle_log.len();
    let mut k: usize = 0;
    while k < n
        invariant
            k <= n,
            n == ev_battle_log@.len(),
            games.wf(),
            battle_log.wf(),
            event_picks_fit(*games, ev_battle_log@, event_picks@),
            battle_log.texts() == after_events(
                old(battle_log).texts(),
                *games,
                ev_battle_log@,
                event_picks@,
                k as nat,
            ),
        decreases n - k,
    {
        let guild_id = ev_battle_log[k].0;
        match games.get(guild_id) {
            Some(game) => {
                let loc = &game.localization;
                let lines = templates_of(loc, &ev_battle_log[k].1);
                if lines.len() > 0 {
                    proof {
                        assert(games@.contains_key(guild_id) == games.has(guild_id));
                        assert(games@[guild_id] == games.game(guild_id));
                        assert(event_line(
                            *games,
                            ev_battle_log@[k as int].0,
                            ev_battle_log@[k as int].1,
                            0,
                        ).is_some());
                    }
                    let line = render_log_line(loc, &ev_battle_log[k].1, &lines[event_picks[k]]);
                    battle_log.push(guild_id, line.0);
                } else {
                    proof {
                        assert(games@[guild_id] == games.game(guild_id));
                    }
                }
            },
            None => {
                proof {
                    assert(games@.contains_key(guild_id) == games.has(guild_id));
                }
            },
        }
        k += 1;
    }
    let ghost base = battle_log.texts();
    let m = ev_player_join.len();
    let mut i: usize = 0;
    while i < m
        invariant
            i <= m,
            m == ev_player_join@.len(),
            games.wf(),
            battle_log.wf(),
            join_picks_fit(*games, ev_player_join@, join_picks@),
            battle_log.texts() == after_joins(base, *games, ev_player_join@, join_picks@, i as nat),
        decreases m - i,
    {
        let guild_id = ev_player_join[i].guild_id;
        match games.get(guild_id) {
            Some(game) => {
                let loc = &game.localization;
                if loc.player_join.len() > 0 {
                    proof {
                        assert(games@.contains_key(guild_id) == games.has(guild_id));
                        assert(games@[guild_id] == games.game(guild_id));
                        assert(join_line(*games, ev_player_join@[i as int], 0).is_some());
                    }
                    let line = loc.player_join[join_picks[i]].insert_player_name(
                        &ev_player_join[i].player_name,
                    );
                    battle_log.push(guild_id, line.0);
                } else {
                    proof {
                        assert(games@[guild_id] == games.game(guild_id));
                    }
                }
            },
            None => {
                proof {
                    assert(games@.contains_key(guild_id) == games.has(guild_id));
                }
            },
        }
        i += 1;
    }
}

/// Writes a line for each event of the log and then for each player who
/// joins, from a template that the dice pick.
pub fn log_battle<D: Dice>(
    games: &GameRegistry,
    rng: &mut D,
    battle_log: &mut BattleLog,
    ev_battle_log: &Vec<(GuildId, BattleLogEvent)>,
    ev_player_join: &Vec<PlayerJoinEvent>,
)
    requires
        games.wf(),
        old(battle_log).wf(),
    ensures
        final(battle_log).wf(),
        exists|event_picks: Seq<usize>, join_picks: Seq<usize>|
            {
                &&& #[trigger] event_picks_fit(*games, ev_battle_log@, event_picks)
                &&& #[trigger] join_picks_fit(*games, ev_player_join@, join_picks)
                &&& final(battle_log).texts() == after_joins(
                    after_events(
                        old(battle_log).texts(),
                        *games,
                        ev_battle_log@,
                        event_picks,
                        ev_battle_log@.len(),
                    ),
                    *games,
                    ev_player_join@,
                    join_picks,
                    ev_player_join@.len(),
                )
            },
{
    let picks = log_battle_picks(games, rng, ev_battle_log, ev_player_join);
    log_battle_with(games, &picks.0, &picks.1, battle_log, ev_battle_log, ev_player_join);
    proof {
        assert(event_picks_fit(*games, ev_battle_log@, picks.0@));
        assert(join_picks_fit(*games, ev_player_join@, picks.1@));
    }
}

} // verus!
