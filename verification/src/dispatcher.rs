//! The input dispatcher: it admits or refuses requests for a battle, and
//! routes the attacks of players to the battle of their guild.

use vstd::prelude::*;
use crate::battle_log::BattleLog;
use crate::components::{GameId, GuildId};
use crate::events::{
    BygoneSpawnEvent, DeallocateGameResourcesEvent, DelayedEvent, GameDrawEvent, GameRenderEvent,
    GameRenderPayload, GameStartEvent, InputEvent, OneshotType, PlayerAttackEvent,
    PlayerJoinEvent,
};
use crate::game_helpers::{Game, GameStatus};
use crate::registry::{GameEntry, GameRegistry};
use crate::world::{last_row_of, lemma_last_row_of, World};

verus! {

/// Seconds for which the platform lets an interaction be answered.
pub const INTERACTION_TOKEN_TTL_SECS: u64 = 900;

/// Seconds after which a battle that still goes on expires.
pub const MAX_GAME_DURATION_SECS: u64 = 890;

/// Seconds after the start of a battle in which the guild gets no new one.
pub const GAME_COOLDOWN_SECONDS: u64 = 895;

/// What the dispatcher answers to a request for a battle in `guild_id` at
/// `now`: nothing where it admits the battle, else the message that says
/// why not. A guild whose battle started less than the cooldown ago gets
/// no new one: while that battle goes on because of it, afterwards because
/// the machine is not ready again.
pub open spec fn refusal(games: GameRegistry, guild_id: GuildId, now: u128) -> Option<OneshotType> {
    if games.has(guild_id) && games.game(guild_id).age_secs(now) < GAME_COOLDOWN_SECONDS {
        if games.game(guild_id).status == GameStatus::Ongoing {
            Some(OneshotType::OtherGameInProgress)
        } else {
            Some(
                OneshotType::Cooldown(
                    (GAME_COOLDOWN_SECONDS - games.game(guild_id).age_secs(now)) as u64,
                ),
            )
        }
    } else {
        None
    }
}

/// Whether a battle of the registry or a row of the world holds the
/// identity.
pub open spec fn id_in_use(games: GameRegistry, world: World, id: GameId) -> bool {
    ||| exists|i: int|
        0 <= i < games.entries@.len() && (#[trigger] games.entries@[i]).game.id == id
    ||| world.has_game(id)
}

/// The `k`th identity that is tried for a new battle: the identity made of
/// the time and of the salt raised by `k`.
pub open spec fn candidate(now: u128, salt: u128, k: nat) -> GameId {
    GameId(((now + salt + k) % (u128::MAX + 1)) as u128)
}

/// Whether `id` is the identity that a new battle gets at `now` with the
/// given salt: the first of the candidates that is held by no battle of
/// the registry and by no row of the world. So the new battle shares its
/// identity with nothing that is there.
pub open spec fn is_new_id(games: GameRegistry, world: World, now: u128, salt: u128, id: GameId) -> bool {
    exists|k: nat|
        {
            &&& #[trigger] candidate(now, salt, k) == id
            &&& !id_in_use(games, world, id)
            &&& forall|j: nat| j < k ==> id_in_use(games, world, #[trigger] candidate(now, salt, j))
        }
}

/// What the dispatcher works on.
pub struct Dispatch {
    pub games: GameRegistry,
    pub battle_log: BattleLog,
    pub render: Seq<GameRenderEvent>,
    pub game_start: Seq<GameStartEvent>,
    pub player_attack: Seq<(GameId, PlayerAttackEvent)>,
    pub delayed: Seq<DelayedEvent>,
    pub player_join: Seq<PlayerJoinEvent>,
    pub bygone_spawn: Seq<BygoneSpawnEvent>,
    pub deallocate: Seq<DeallocateGameResourcesEvent>,
}

impl Dispatch {
    /// Whether `post` is what a refused request for a battle makes of
    /// `self`: one message more for the renderer, and nothing else.
    pub open spec fn refused(self, post: Dispatch, ev: GameStartEvent, oneshot: OneshotType) -> bool {
        &&& post.games == self.games
        &&& post.battle_log == self.battle_log
        &&& post.render.len() == self.render.len() + 1
        &&& post.render.drop_last() == self.render
        &&& post.render.last().guild_id == ev.guild_id
        &&& post.render.last().interaction_id == ev.interaction
        &&& post.render.last().loc@ == ev.localization@
        &&& post.render.last().payload == GameRenderPayload::OneshotMessage(oneshot)
        &&& post.game_start == self.game_start
        &&& post.player_attack == self.player_attack
        &&& post.delayed == self.delayed
        &&& post.player_join == self.player_join
        &&& post.bygone_spawn == self.bygone_spawn
        &&& post.deallocate == self.deallocate
    }

    /// Whether `post` is what an admitted request for a battle makes of
    /// `self`: the new battle stands in the registry in the place of the
    /// guild's old one, whose entities are to be removed; the guild's log
    /// is empty; and the request, the first player, the machine to be made
    /// and a delayed drawing are announced, in this order.
    pub open spec fn admitted(self, post: Dispatch, ev: GameStartEvent, game_id: GameId, now: u128) -> bool {
        let game = Game {
            start_time: now,
            id: game_id,
            interaction_id: ev.interaction,
            localization: ev.localization,
            status: GameStatus::Ongoing,
        };
        &&& post.games@ == self.games@.insert(ev.guild_id, game)
        &&& post.games.entries@ == if self.games.has(ev.guild_id) {
            self.games.entries@.update(
                self.games.place(ev.guild_id),
                GameEntry { guild_id: ev.guild_id, game },
            )
        } else {
            self.games.entries@.push(GameEntry { guild_id: ev.guild_id, game })
        }
        &&& post.battle_log.lines(ev.guild_id) == Seq::<String>::empty()
        &&& post.battle_log.same_but(self.battle_log, ev.guild_id)
        &&& post.render == self.render
        &&& post.game_start.len() == self.game_start.len() + 1
        &&& post.game_start.drop_last() == self.game_start
        &&& post.game_start.last().same(ev)
        &&& post.player_attack == self.player_attack
        &&& post.delayed == self.delayed.push(
            DelayedEvent::GameDraw(GameDrawEvent { guild_id: ev.guild_id }),
        )
        &&& post.player_join == self.player_join.push(
            PlayerJoinEvent {
                player: ev.initial_player,
                player_name: ev.initial_player_name,
                game_id,
                guild_id: ev.guild_id,
            },
        )
        &&& post.bygone_spawn == self.bygone_spawn.push(
            BygoneSpawnEvent { difficulty: ev.difficulty, game_id },
        )
        &&& post.deallocate == if self.games.has(ev.guild_id) {
            self.deallocate.push(
                DeallocateGameResourcesEvent { game_id: self.games.game(ev.guild_id).id },
            )
        } else {
            self.deallocate
        }
    }

    /// Whether `post` is what a request for a battle at `now` makes of
    /// `self`, where `salt` is the place of the request among the inputs
    /// of its tick: a request that is refused gets its message, and one
    /// that is admitted a battle under a new identity, see `is_new_id`.
    pub open spec fn after_game_start(
        self,
        post: Dispatch,
        ev: GameStartEvent,
        now: u128,
        salt: u128,
        world: World,
    ) -> bool {
        match refusal(self.games, ev.guild_id, now) {
            Some(oneshot) => self.refused(post, ev, oneshot),
            None => exists|game_id: GameId|
                is_new_id(self.games, world, now, salt, game_id) && #[trigger] self.admitted(
                    post,
                    ev,
                    game_id,
                    now,
                ),
        }
    }

    /// Whether `post` is what a player's attack makes of `self`. An attack
    /// in a guild without a battle is dropped. Else the user's row is
    /// looked for among the rows of all battles, and of several rows of
    /// the user the last decides. The attack of a user with a row goes on
    /// to the resolver, under the identity of the guild's battle, if that
    /// row is active, and is dropped if not. The attack of a user without
    /// any row makes them join the guild's battle, and waits in the delay
    /// queue until they have.
    pub open spec fn after_player_attack(self, post: Dispatch, ev: PlayerAttackEvent, world: World) -> bool {
        let game_id = self.games.game(ev.guild_id).id;
        let row = last_row_of(world.players@, ev.player);
        let forwarded = self.games.has(ev.guild_id) && row.is_some()
            && world.players@[row.unwrap()].bundle.is_active();
        let joins = self.games.has(ev.guild_id) && row.is_none();
        &&& post.games == self.games
        &&& post.battle_log == self.battle_log
        &&& post.render == self.render
        &&& post.game_start == self.game_start
        &&& post.bygone_spawn == self.bygone_spawn
        &&& post.deallocate == self.deallocate
        &&& post.player_attack == if forwarded {
            self.player_attack.push((game_id, ev))
        } else {
            self.player_attack
        }
        &&& post.player_join == if joins {
            self.player_join.push(
                PlayerJoinEvent {
                    player: ev.player,
                    player_name: ev.player_name,
                    game_id,
                    guild_id: ev.guild_id,
                },
            )
        } else {
            self.player_join
        }
        &&& post.delayed == if joins {
            self.delayed.push(DelayedEvent::PlayerAttack((game_id, ev)))
        } else {
            self.delayed
        }
    }

    /// Whether `post` is what the input `ev`, the `index`th of its tick,
    /// makes of `self` at `now`. The index is the salt of the identity of
    /// a new battle.
    pub open spec fn after_input(self, post: Dispatch, ev: InputEvent, index: int, now: u128, world: World) -> bool {
        match ev {
            InputEvent::GameStart(ev) => self.after_game_start(
                post,
                ev,
                now,
                index as u128,
                world,
            ),
            InputEvent::PlayerAttack(ev) => self.after_player_attack(post, ev, world),
        }
    }

    /// Whether `post` is what the first `n` of `events` make of `self`,
    /// taken one after the other.
    pub open spec fn after_inputs(self, post: Dispatch, events: Seq<InputEvent>, n: nat, now: u128, world: World) -> bool
        decreases n,
    {
        if n == 0 {
            post == self
        } else {
            exists|mid: Dispatch|
                self.after_inputs(mid, events, (n - 1) as nat, now, world)
                    && #[trigger] mid.after_input(
                    post,
                    events[n - 1],
                    n - 1,
                    now,
                    world,
                )
        }
    }
}

/// One more input, taken after the others, extends what these have made.
pub proof fn lemma_after_inputs_step(
    start: Dispatch,
    mid: Dispatch,
    post: Dispatch,
    events: Seq<InputEvent>,
    n: nat,
    now: u128,
    world: World,
)
    requires
        0 < n <= events.len(),
        start.after_inputs(mid, events, (n - 1) as nat, now, world),
        mid.after_input(post, events[n - 1], n - 1, now, world),
    ensures
        start.after_inputs(post, events, n, now, world),
{
}

/// What the dispatcher answers to a request for a battle in `guild_id` at
/// `now`: see `refusal`.
pub fn refuse(games: &GameRegistry, guild_id: GuildId, now: u128) -> (r: Option<OneshotType>)
    requires
        games.wf(),
    ensures
        r == refusal(*games, guild_id, now),
{
    match games.get(guild_id) {
        Some(game) => {
            let game_duration = game.duration_secs(now);
            if game_duration < GAME_COOLDOWN_SECONDS {
                match game.status {
                    GameStatus::Ongoing => Some(OneshotType::OtherGameInProgress),
                    _ => Some(OneshotType::Cooldown(GAME_COOLDOWN_SECONDS - game_duration)),
                }
            } else {
                None
            }
        },
        None => None,
    }
}

/// Two candidates with different places are different identities.
pub proof fn lemma_candidates_differ(now: u128, salt: u128, j: nat, k: nat)
    requires
        j < k <= u128::MAX,
    ensures
        candidate(now, salt, j) != candidate(now, salt, k),
{
    let m = u128::MAX + 1;
    let a = now + salt + j;
    let b = now + salt + k;
    if a % m == b % m {
        assert(a == m * (a / m) + a % m) by {
            vstd::arithmetic::div_mod::lemma_fundamental_div_mod(a, m);
        }
        assert(b == m * (b / m) + b % m) by {
            vstd::arithmetic::div_mod::lemma_fundamental_div_mod(b, m);
        }
        assert(b - a == m * (b / m - a / m)) by (nonlinear_arith)
            requires
                a == m * (a / m) + a % m,
                b == m * (b / m) + b % m,
                a % m == b % m,
        ;
        assert(false) by (nonlinear_arith)
            requires
                b - a == m * (b / m - a / m),
                0 < b - a < m,
        ;
    }
}

/// The candidate after a candidate is the identity one above it, wrapping
/// at the width of the number.
pub proof fn lemma_next_candidate(now: u128, salt: u128, k: nat)
    ensures
        candidate(now, salt, k + 1).0 == if candidate(now, salt, k).0 == u128::MAX {
            0
        } else {
            candidate(now, salt, k).0 + 1
        },
{
    let m = u128::MAX + 1;
    let a = now + salt + k;
    vstd::arithmetic::div_mod::lemma_fundamental_div_mod(a, m);
    vstd::arithmetic::div_mod::lemma_fundamental_div_mod(a + 1, m);
    if a % m == m - 1 {
        assert(a + 1 == m * (a / m + 1)) by (nonlinear_arith)
            requires
                a == m * (a / m) + a % m,
                a % m == m - 1,
        ;
        assert((a + 1) % m == 0) by {
            vstd::arithmetic::div_mod::lemma_fundamental_div_mod_converse(a + 1, m, a / m + 1, 0);
        }
    } else {
        assert((a + 1) % m == a % m + 1) by {
            vstd::arithmetic::div_mod::lemma_fundamental_div_mod_converse(
                a + 1,
                m,
                a / m,
                a % m + 1,
            );
        }
    }
}

/// The identity of a new battle is one alone: no two identities are both
/// the first candidate that is not in use.
pub proof fn lemma_new_id_is_one(
    games: GameRegistry,
    world: World,
    now: u128,
    salt: u128,
    first: GameId,
    second: GameId,
)
    requires
        is_new_id(games, world, now, salt, first),
        is_new_id(games, world, now, salt, second),
    ensures
        first == second,
{
    let j = choose|k: nat|
        {
            &&& #[trigger] candidate(now, salt, k) == first
            &&& !id_in_use(games, world, first)
            &&& forall|j: nat| j < k ==> id_in_use(games, world, #[trigger] candidate(now, salt, j))
        };
    let k = choose|k: nat|
        {
            &&& #[trigger] candidate(now, salt, k) == second
            &&& !id_in_use(games, world, second)
            &&& forall|j: nat| j < k ==> id_in_use(games, world, #[trigger] candidate(now, salt, j))
        };
    if j < k {
        assert(id_in_use(games, world, candidate(now, salt, j)));
    } else if k < j {
        assert(id_in_use(games, world, candidate(now, salt, k)));
    }
}

/// The identities that the battles of the registry and the rows of the
/// world hold.
pub fn used_ids(games: &GameRegistry, world: &World) -> (r: Vec<u128>)
    ensures
        forall|v: u128| r@.contains(v) <==> id_in_use(*games, *world, GameId(v)),
{
    let mut out: Vec<u128> = Vec::new();
    let n = games.entries.len();
    let mut i: usize = 0;
    while i < n
        invariant
            i <= n,
            n == games.entries@.len(),
            out@.len() == i,
            forall|t: int| 0 <= t < i ==> #[trigger] out@[t] == games.entries@[t].game.id.0,
        decreases n - i,
    {
        out.push(games.entries[i].game.id.0);
        i += 1;
    }
    let p = world.players.len();
    let mut j: usize = 0;
    while j < p
        invariant
            j <= p,
            p == world.players@.len(),
            n == games.entries@.len(),
            out@.len() == n + j,
            forall|t: int| 0 <= t < n ==> #[trigger] out@[t] == games.entries@[t].game.id.0,
            forall|t: int| 0 <= t < j ==> #[trigger] out@[n + t] == world.players@[t].bundle.game_id.0,
        decreases p - j,
    {
        out.push(world.players[j].bundle.game_id.0);
        j += 1;
    }
    let e = world.enemies.len();
    let mut k: usize = 0;
    while k < e
        invariant
            k <= e,
            e == world.enemies@.len(),
            p == world.players@.len(),
            n == games.entries@.len(),
            out@.len() == n + p + k,
            forall|t: int| 0 <= t < n ==> #[trigger] out@[t] == games.entries@[t].game.id.0,
            forall|t: int| 0 <= t < p ==> #[trigger] out@[n + t] == world.players@[t].bundle.game_id.0,
            forall|t: int|
                0 <= t < k ==> #[trigger] out@[n + p + t] == world.enemies@[t].bundle.game_id.0,
        decreases e - k,
    {
        out.push(world.enemies[k].bundle.game_id.0);
        k += 1;
    }
    proof {
        assert forall|v: u128| out@.contains(v) implies id_in_use(*games, *world, GameId(v)) by {
            let t = choose|t: int| 0 <= t < out@.len() && out@[t] == v;
            if t < n {
                assert(games.entries@[t].game.id == GameId(v));
            } else if t < n + p {
                assert(out@[n + (t - n)] == v);
                assert(world.players@[t - n].bundle.game_id == GameId(v));
            } else {
                assert(out@[n + p + (t - n - p)] == v);
                assert(world.enemies@[t - n - p].bundle.game_id == GameId(v));
            }
        }
        assert forall|v: u128| id_in_use(*games, *world, GameId(v)) implies out@.contains(v) by {
            if exists|i: int|
                0 <= i < games.entries@.len() && (#[trigger] games.entries@[i]).game.id == GameId(v) {
                let t = choose|i: int|
                    0 <= i < games.entries@.len() && (#[trigger] games.entries@[i]).game.id
                        == GameId(v);
                assert(out@[t] == v);
            } else if exists|i: int|
                0 <= i < world.players@.len() && (#[trigger] world.players@[i]).bundle.game_id
                    == GameId(v) {
                let t = choose|i: int|
                    0 <= i < world.players@.len() && (#[trigger] world.players@[i]).bundle.game_id
                        == GameId(v);
                assert(out@[n + t] == v);
            } else {
                let t = choose|i: int|
                    0 <= i < world.enemies@.len() && (#[trigger] world.enemies@[i]).bundle.game_id
                        == GameId(v);
                assert(out@[n + p + t] == v);
            }
        }
    }
    out
}

/// The place of `id` among `ids`, if it is there.
fn place_of(ids: &Vec<u128>, id: u128) -> (r: Option<usize>)
    ensures
        r.is_some() == ids@.contains(id),
        r matches Some(t) ==> t < ids@.len() && ids@[t as int] == id,
{
    let n = ids.len();
    let mut t: usize = 0;
    while t < n
        invariant
            t <= n,
            n == ids@.len(),
            forall|u: int| 0 <= u < t ==> ids@[u] != id,
        decreases n - t,
    {
        if ids[t] == id {
            return Some(t);
        }
        t += 1;
    }
    None
}

/// The identity that a new battle gets at `now` with the given salt: the
/// first of the candidates that no battle of the registry and no row of
/// the world holds. See `is_new_id`.
pub fn new_game_id(games: &GameRegistry, world: &World, now: u128, salt: u128) -> (r: GameId)
    ensures
        is_new_id(*games, *world, now, salt, r),
        !id_in_use(*games, *world, r),
{
    let mut rest = used_ids(games, world);
    let ghost used = rest@;
    let total = rest.len();
    let mut cand: u128 = now.wrapping_add(salt);
    let ghost mut k: nat = 0;
    loop
        invariant
            used.len() == total,
            forall|v: u128| used.contains(v) <==> id_in_use(*games, *world, GameId(v)),
            cand == candidate(now, salt, k).0,
            k + rest@.len() <= used.len(),
            forall|v: u128|
                used.contains(v) ==> rest@.contains(v) || exists|j: nat|
                    j < k && (#[trigger] candidate(now, salt, j)).0 == v,
            forall|t: int| 0 <= t < rest@.len() ==> used.contains(#[trigger] rest@[t]),
            forall|j: nat| j < k ==> used.contains((#[trigger] candidate(now, salt, j)).0),
        ensures
            !used.contains(cand),
        decreases rest@.len(),
    {
        match place_of(&rest, cand) {
            Some(t) => {
                let ghost before = rest@;
                rest.remove(t);
                proof {
                    lemma_next_candidate(now, salt, k);
                    assert forall|v: u128| used.contains(v) implies rest@.contains(v) || exists|
                        j: nat,
                    |
                        j < k + 1 && (#[trigger] candidate(now, salt, j)).0 == v by {
                        if before.contains(v) {
                            let u = choose|u: int| 0 <= u < before.len() && before[u] == v;
                            if u < t {
                                assert(rest@[u] == v);
                            } else if u > t {
                                assert(rest@[u - 1] == v);
                            } else {
                                assert(candidate(now, salt, k).0 == v);
                            }
                        } else {
                            let j = choose|j: nat|
                                j < k && (#[trigger] candidate(now, salt, j)).0 == v;
                            assert(j < k + 1);
                        }
                    }
                    assert forall|u: int| 0 <= u < rest@.len() implies used.contains(
                        #[trigger] rest@[u],
                    ) by {
                        if u < t {
                            assert(rest@[u] == before[u]);
                        } else {
                            assert(rest@[u] == before[u + 1]);
                        }
                    }
                    assert(used.contains(candidate(now, salt, k).0)) by {
                        assert(before[t as int] == cand);
                    }
                    k = k + 1;
                }
                cand = cand.wrapping_add(1);
            },
            None => {
                proof {
                    if used.contains(cand) {
                        let j = choose|j: nat|
                            j < k && (#[trigger] candidate(now, salt, j)).0 == cand;
                        lemma_candidates_differ(now, salt, j, k);
                    }
                }
                break ;
            },
        }
    }
    proof {
        assert(candidate(now, salt, k) == GameId(cand));
        assert forall|j: nat| j < k implies id_in_use(
            *games,
            *world,
            #[trigger] candidate(now, salt, j),
        ) by {
            assert(used.contains(candidate(now, salt, j).0));
        }
    }
    GameId(cand)
}

/// Answers a request for a battle, the `salt`th input of its tick, at
/// `now`: see `Dispatch::after_game_start`.
pub fn handle_game_start(
    ev: GameStartEvent,
    salt: u128,
    now: u128,
    world: &World,
    games: &mut GameRegistry,
    battle_log: &mut BattleLog,
    ev_render: &mut Vec<GameRenderEvent>,
    ev_game_start: &mut Vec<GameStartEvent>,
    ev_player_attack: &Vec<(GameId, PlayerAttackEvent)>,
    ev_delayed: &mut Vec<DelayedEvent>,
    ev_player_join: &mut Vec<PlayerJoinEvent>,
    ev_bygone_spawn: &mut Vec<BygoneSpawnEvent>,
    ev_deallocate: &mut Vec<DeallocateGameResourcesEvent>,
)
    requires
        old(games).wf(),
        old(battle_log).wf(),
    ensures
        final(games).wf(),
        final(battle_log).wf(),
        (Dispatch {
            games: *old(games),
            battle_log: *old(battle_log),
            render: old(ev_render)@,
            game_start: old(ev_game_start)@,
            player_attack: ev_player_attack@,
            delayed: old(ev_delayed)@,
            player_join: old(ev_player_join)@,
            bygone_spawn: old(ev_bygone_spawn)@,
            deallocate: old(ev_deallocate)@,
        }).after_game_start(
            Dispatch {
                games: *final(games),
                battle_log: *final(battle_log),
                render: final(ev_render)@,
                game_start: final(ev_game_start)@,
                player_attack: ev_player_attack@,
                delayed: final(ev_delayed)@,
                player_join: final(ev_player_join)@,
                bygone_spawn: final(ev_bygone_spawn)@,
                deallocate: final(ev_deallocate)@,
            },
            ev,
            now,
            salt,
            *world,
        ),
{
    match refuse(games, ev.guild_id, now) {
        Some(oneshot_type) => {
            ev_render.push(
                GameRenderEvent::new(
                    ev.guild_id,
                    ev.interaction,
                    ev.localization,
                    GameRenderPayload::OneshotMessage(oneshot_type),
                ),
            );
            proof {
                assert(ev_render@.drop_last() == old(ev_render)@);
            }
        },
        None => {
            let new_game_id = new_game_id(games, world, now, salt);
            let forwarded = ev.clone();
            let GameStartEvent {
                initial_player,
                initial_player_name,
                difficulty,
                guild_id,
                interaction,
                localization,
            } = ev;
            let old_game = games.insert(guild_id, Game::new(new_game_id, interaction, localization, now));
            match old_game {
                Some(old_game) => {
                    ev_deallocate.push(DeallocateGameResourcesEvent::new(old_game.id));
                },
                None => {},
            }
            battle_log.remove(guild_id);
            ev_game_start.push(forwarded);
            ev_player_join.push(
                PlayerJoinEvent::new(initial_player, initial_player_name, new_game_id, guild_id),
            );
            ev_bygone_spawn.push(BygoneSpawnEvent::new(difficulty, new_game_id));
            ev_delayed.push(DelayedEvent::GameDraw(GameDrawEvent::new(guild_id)));
            proof {
                assert(ev_game_start@.drop_last() == old(ev_game_start)@);
                assert(old(games)@.contains_key(guild_id) == old(games).has(guild_id));
                if old(games).has(guild_id) {
                    assert(old(games)@[guild_id] == old(games).game(guild_id));
                }
                let pre = Dispatch {
                    games: *old(games),
                    battle_log: *old(battle_log),
                    render: old(ev_render)@,
                    game_start: old(ev_game_start)@,
                    player_attack: ev_player_attack@,
                    delayed: old(ev_delayed)@,
                    player_join: old(ev_player_join)@,
                    bygone_spawn: old(ev_bygone_spawn)@,
                    deallocate: old(ev_deallocate)@,
                };
                let post = Dispatch {
                    games: *games,
                    battle_log: *battle_log,
                    render: ev_render@,
                    game_start: ev_game_start@,
                    player_attack: ev_player_attack@,
                    delayed: ev_delayed@,
                    player_join: ev_player_join@,
                    bygone_spawn: ev_bygone_spawn@,
                    deallocate: ev_deallocate@,
                };
                assert(is_new_id(pre.games, *world, now, salt, new_game_id));
                assert(pre.admitted(post, ev, new_game_id, now));
            }
        },
    }
}

/// Routes the attack of a player: see `Dispatch::after_player_attack`. The
/// user's row is looked for among the rows of all battles.
pub fn handle_player_attack(
    ev: PlayerAttackEvent,
    world: &World,
    games: &GameRegistry,
    ev_player_attack: &mut Vec<(GameId, PlayerAttackEvent)>,
    ev_delayed: &mut Vec<DelayedEvent>,
    ev_player_join: &mut Vec<PlayerJoinEvent>,
)
    requires
        games.wf(),
    ensures
        ({
            let game_id = games.game(ev.guild_id).id;
            let row = last_row_of(world.players@, ev.player);
            let forwarded = games.has(ev.guild_id) && row.is_some()
                && world.players@[row.unwrap()].bundle.is_active();
            let joins = games.has(ev.guild_id) && row.is_none();
            &&& final(ev_player_attack)@ == if forwarded {
                old(ev_player_attack)@.push((game_id, ev))
            } else {
                old(ev_player_attack)@
            }
            &&& final(ev_player_join)@ == if joins {
                old(ev_player_join)@.push(
                    PlayerJoinEvent {
                        player: ev.player,
                        player_name: ev.player_name,
                        game_id,
                        guild_id: ev.guild_id,
                    },
                )
            } else {
                old(ev_player_join)@
            }
            &&& final(ev_delayed)@ == if joins {
                old(ev_delayed)@.push(DelayedEvent::PlayerAttack((game_id, ev)))
            } else {
                old(ev_delayed)@
            }
        }),
{
    match games.get(ev.guild_id) {
        Some(game) => {
            let game_id = game.id;
            proof {
                assert(games@.contains_key(ev.guild_id) == games.has(ev.guild_id));
                assert(games@[ev.guild_id] == games.game(ev.guild_id));
            }
            match world.find_last_row_of(ev.player) {
                Some(i) => {
                    if world.players[i].bundle._active.is_some() {
                        ev_player_attack.push((game_id, ev));
                    }
                },
                None => {
                    ev_player_join.push(
                        PlayerJoinEvent::new(
                            ev.player,
                            ev.player_name.clone(),
                            game_id,
                            ev.guild_id,
                        ),
                    );
                    ev_delayed.push(DelayedEvent::PlayerAttack((game_id, ev)));
                },
            }
        },
        None => {
            proof {
                assert(games@.contains_key(ev.guild_id) == games.has(ev.guild_id));
            }
        },
    }
}

/// What holds of a player's attack whichever of the user's rows decides:
/// an attack that goes on to the resolver comes from a user with an active
/// row, an attack that is dropped in a guild with a battle from a user
/// with an inactive row, and a user joins exactly where no row at all is
/// theirs.
pub proof fn lemma_attack_routing(pre: Dispatch, post: Dispatch, ev: PlayerAttackEvent, world: World)
    requires
        pre.after_player_attack(post, ev, world),
        pre.games.has(ev.guild_id),
    ensures
        post.player_attack.len() > pre.player_attack.len() ==> exists|i: int|
            0 <= i < world.players@.len() && (#[trigger] world.players@[i]).bundle.user_id.0
                == ev.player && world.players@[i].bundle.is_active(),
        post.player_attack.len() == pre.player_attack.len() && post.player_join.len()
            == pre.player_join.len() ==> exists|i: int|
            0 <= i < world.players@.len() && (#[trigger] world.players@[i]).bundle.user_id.0
                == ev.player && !world.players@[i].bundle.is_active(),
        post.player_join.len() > pre.player_join.len() <==> forall|i: int|
            0 <= i < world.players@.len() ==> (#[trigger] world.players@[i]).bundle.user_id.0
                != ev.player,
        post.player_join.len() > pre.player_join.len() <==> post.delayed.len()
            > pre.delayed.len(),
{
    lemma_last_row_of(world.players@, ev.player);
    match last_row_of(world.players@, ev.player) {
        Some(i) => {
            assert(world.players@[i].bundle.user_id.0 == ev.player);
        },
        None => {},
    }
}

/// Takes the inputs of one tick, in their order, and answers each: see
/// `Dispatch::after_input`.
pub fn listen(
    events: Vec<InputEvent>,
    now: u128,
    world: &World,
    games: &mut GameRegistry,
    battle_log: &mut BattleLog,
    ev_render: &mut Vec<GameRenderEvent>,
    ev_game_start: &mut Vec<GameStartEvent>,
    ev_player_attack: &mut Vec<(GameId, PlayerAttackEvent)>,
    ev_delayed: &mut Vec<DelayedEvent>,
    ev_player_join: &mut Vec<PlayerJoinEvent>,
    ev_bygone_spawn: &mut Vec<BygoneSpawnEvent>,
    ev_deallocate: &mut Vec<DeallocateGameResourcesEvent>,
)
    requires
        old(games).wf(),
        old(battle_log).wf(),
        world.wf(),
    ensures
        final(games).wf(),
        final(battle_log).wf(),
        (Dispatch {
            games: *old(games),
            battle_log: *old(battle_log),
            render: old(ev_render)@,
            game_start: old(ev_game_start)@,
            player_attack: old(ev_player_attack)@,
            delayed: old(ev_delayed)@,
            player_join: old(ev_player_join)@,
            bygone_spawn: old(ev_bygone_spawn)@,
            deallocate: old(ev_deallocate)@,
        }).after_inputs(
            Dispatch {
                games: *final(games),
                battle_log: *final(battle_log),
                render: final(ev_render)@,
                game_start: final(ev_game_start)@,
                player_attack: final(ev_player_attack)@,
                delayed: final(ev_delayed)@,
                player_join: final(ev_player_join)@,
                bygone_spawn: final(ev_bygone_spawn)@,
                deallocate: final(ev_deallocate)@,
            },
            events@,
            events@.len(),
            now,
            *world,
        ),
{
    let ghost start = Dispatch {
        games: *games,
        battle_log: *battle_log,
        render: ev_render@,
        game_start: ev_game_start@,
        player_attack: ev_player_attack@,
        delayed: ev_delayed@,
        player_join: ev_player_join@,
        bygone_spawn: ev_bygone_spawn@,
        deallocate: ev_deallocate@,
    };
    let ghost all = events@;
    let mut events = events;
    let n = events.len();
    let mut i: usize = 0;
    // The inputs are taken off the end of the reversed list, so that each
    // is handled by value and in the order of its arrival.
    reverse(&mut events);
    while i < n
        invariant
            i <= n,
            n == all.len(),
            events@.len() == n - i,
            forall|k: int| 0 <= k < n - i ==> events@[k] == all[n - 1 - k],
            games.wf(),
            battle_log.wf(),
            world.wf(),
            start.after_inputs(
                Dispatch {
                    games: *games,
                    battle_log: *battle_log,
                    render: ev_render@,
                    game_start: ev_game_start@,
                    player_attack: ev_player_attack@,
                    delayed: ev_delayed@,
                    player_join: ev_player_join@,
                    bygone_spawn: ev_bygone_spawn@,
                    deallocate: ev_deallocate@,
                },
                all,
                i as nat,
                now,
                *world,
            ),
        decreases n - i,
    {
        let ghost before = Dispatch {
            games: *games,
            battle_log: *battle_log,
            render: ev_render@,
            game_start: ev_game_start@,
            player_attack: ev_player_attack@,
            delayed: ev_delayed@,
            player_join: ev_player_join@,
            bygone_spawn: ev_bygone_spawn@,
            deallocate: ev_deallocate@,
        };
        let event = events.pop().unwrap();
        assert(event == all[i as int]);
        match event {
            InputEvent::GameStart(ev) => {
                handle_game_start(
                    ev,
                    i as u128,
                    now,
                    world,
                    games,
                    battle_log,
                    ev_render,
                    ev_game_start,
                    ev_player_attack,
                    ev_delayed,
                    ev_player_join,
                    ev_bygone_spawn,
                    ev_deallocate,
                );
            },
            InputEvent::PlayerAttack(ev) => {
                handle_player_attack(ev, world, games, ev_player_attack, ev_delayed, ev_player_join);
            },
        }
        proof {
            let after = Dispatch {
                games: *games,
                battle_log: *battle_log,
                render: ev_render@,
                game_start: ev_game_start@,
                player_attack: ev_player_attack@,
                delayed: ev_delayed@,
                player_join: ev_player_join@,
                bygone_spawn: ev_bygone_spawn@,
                deallocate: ev_deallocate@,
            };
            assert(before.after_input(after, all[i as int], i as int, now, *world));
            lemma_after_inputs_step(start, before, after, all, (i + 1) as nat, now, *world);
        }
        i += 1;
    }
}

/// Turns the order of the items round.
fn reverse<T>(items: &mut Vec<T>)
    ensures
        final(items)@.len() == old(items)@.len(),
        forall|k: int|
            0 <= k < old(items)@.len() ==> final(items)@[k] == old(items)@[old(items)@.len() - 1
                - k],
{
    let ghost all = items@;
    let n = items.len();
    let mut out: Vec<T> = Vec::new();
    let mut i: usize = 0;
    while i < n
        invariant
            i <= n,
            n == all.len(),
            items@.len() == n - i,
            out@.len() == i,
            forall|k: int| 0 <= k < n - i ==> items@[k] == all[k],
            forall|k: int| 0 <= k < i ==> out@[k] == all[n - 1 - k],
        decreases n - i,
    {
        let item = items.pop().unwrap();
        out.push(item);
        i += 1;
    }
    *items = out;
}

/// Within the cooldown after the start of a guild's battle, every request
/// for a battle in that guild is refused.
pub proof fn lemma_cooldown(games: GameRegistry, guild_id: GuildId, now: u128)
    requires
        games.has(guild_id),
        games.game(guild_id).age_secs(now) < GAME_COOLDOWN_SECONDS,
    ensures
        refusal(games, guild_id, now).is_some(),
{
}

/// Once a battle was admitted for a guild, a request for another in that
/// guild within the cooldown gets a message for an answer and leaves the
/// registry as it is.
pub proof fn lemma_start_within_cooldown(
    pre: Dispatch,
    mid: Dispatch,
    post: Dispatch,
    first: GameStartEvent,
    first_now: u128,
    first_salt: u128,
    first_world: World,
    second: GameStartEvent,
    second_now: u128,
    second_salt: u128,
    second_world: World,
)
    requires
        refusal(pre.games, first.guild_id, first_now).is_none(),
        pre.after_game_start(mid, first, first_now, first_salt, first_world),
        second.guild_id == first.guild_id,
        second_now < first_now + GAME_COOLDOWN_SECONDS * 1_000_000_000,
        mid.after_game_start(post, second, second_now, second_salt, second_world),
    ensures
        post.games == mid.games,
        post.render.len() == mid.render.len() + 1,
        post.render.last().payload is OneshotMessage,
{
    let first_id = choose|game_id: GameId|
        is_new_id(pre.games, first_world, first_now, first_salt, game_id) && #[trigger] pre.admitted(
            mid,
            first,
            game_id,
            first_now,
        );
    assert(pre.admitted(mid, first, first_id, first_now));
    assert(mid.games@.contains_key(first.guild_id));
    assert(mid.games.has(first.guild_id));
    assert(mid.games@[first.guild_id].start_time == first_now);
    assert(mid.games.game(first.guild_id).start_time == first_now);
}

/// The battle that is admitted gets an identity of its own: no battle
/// that the registry held before and no row of the world holds it.
pub proof fn lemma_admitted_id_is_fresh(
    pre: Dispatch,
    post: Dispatch,
    ev: GameStartEvent,
    now: u128,
    salt: u128,
    world: World,
)
    requires
        pre.games.wf(),
        refusal(pre.games, ev.guild_id, now).is_none(),
        pre.after_game_start(post, ev, now, salt, world),
    ensures
        post.games.has(ev.guild_id),
        !id_in_use(pre.games, world, post.games.game(ev.guild_id).id),
        post.games.game(ev.guild_id).status == GameStatus::Ongoing,
{
    let game_id = choose|game_id: GameId|
        is_new_id(pre.games, world, now, salt, game_id) && #[trigger] pre.admitted(
            post,
            ev,
            game_id,
            now,
        );
    assert(pre.admitted(post, ev, game_id, now));
    assert(post.games@.contains_key(ev.guild_id));
    assert(post.games.has(ev.guild_id));
    assert(post.games@[ev.guild_id].id == game_id);
    assert(post.games.game(ev.guild_id).id == game_id);
}

} // verus!
