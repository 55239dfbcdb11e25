//! The combat resolver: what the attacks of the players do to the machine,
//! what the death of a part does to it, and what its attacks do to the
//! players.

use vstd::prelude::*;
use crate::bundles::{AttackOutcome, PlayerBundle};
use crate::components::{Attack, BygonePart, GameId, GuildId, UserId};
use crate::dice::Dice;
use crate::events::{
    BattleLogEvent, BygonePartDeathEvent, DeactivateEvent, EnemyAttackEvent, PlayerAttackEvent,
};
use crate::world::{
    healths_bounded, same_enemies, same_players, EnemyRow, PlayerRow, World,
};

verus! {

/// The guild and the part of the last attack in `events` that `user` makes
/// in the battle `game_id`.
pub open spec fn target_of(
    events: Seq<(GameId, PlayerAttackEvent)>,
    user: UserId,
    game_id: GameId,
) -> Option<(GuildId, BygonePart)>
    decreases events.len(),
{
    if events.len() == 0 {
        None
    } else if events.last().1.player == user && events.last().0 == game_id {
        Some((events.last().1.guild_id, events.last().1.target))
    } else {
        target_of(events.drop_last(), user, game_id)
    }
}

/// Whether the player attacks in this tick: active, ready, and with an
/// attack among the events.
pub open spec fn attacks(row: PlayerRow, events: Seq<(GameId, PlayerAttackEvent)>) -> bool {
    &&& row.bundle.is_active()
    &&& row.bundle.is_ready()
    &&& target_of(events, row.bundle.user_id.0, row.bundle.game_id).is_some()
}

/// The place of the player whose attack the machine of the battle
/// `game_id` takes in this tick: the last of the battle's players who
/// attack.
pub open spec fn attacker_of(
    players: Seq<PlayerRow>,
    events: Seq<(GameId, PlayerAttackEvent)>,
    game_id: GameId,
) -> Option<int>
    decreases players.len(),
{
    if players.len() == 0 {
        None
    } else if players.last().bundle.game_id == game_id && attacks(players.last(), events) {
        Some(players.len() - 1)
    } else {
        attacker_of(players.drop_last(), events, game_id)
    }
}

/// An attack that a machine takes: who attacks, in which guild, and which
/// part.
pub struct Assault {
    pub player: int,
    pub guild_id: GuildId,
    pub part: BygonePart,
}

/// The attack that the machine at `i` takes in this tick, if any: the
/// machine is active, a player of its battle attacks, and the part aimed at
/// is alive.
pub open spec fn assault_on(
    players: Seq<PlayerRow>,
    enemies: Seq<EnemyRow>,
    events: Seq<(GameId, PlayerAttackEvent)>,
    i: int,
) -> Option<Assault> {
    let enemy = enemies[i].bundle;
    match attacker_of(players, events, enemy.game_id) {
        Some(p) => match target_of(events, players[p].bundle.user_id.0, enemy.game_id) {
            Some((guild_id, part)) => if enemy.is_active() && enemy.parts.get(part).health().alive() {
                Some(Assault { player: p, guild_id, part })
            } else {
                None
            },
            None => None,
        },
        None => None,
    }
}

/// The machine at `i` after this tick's attacks, where `roll` is the roll
/// of the attack on it.
pub open spec fn enemy_after_assault(
    players: Seq<PlayerRow>,
    enemies: Seq<EnemyRow>,
    events: Seq<(GameId, PlayerAttackEvent)>,
    i: int,
    roll: int,
) -> EnemyRow {
    match assault_on(players, enemies, events, i) {
        Some(assault) => EnemyRow {
            entity: enemies[i].entity,
            bundle: enemies[i].bundle.after_attack(
                players[assault.player].bundle.attack,
                assault.part,
                roll,
            ),
        },
        None => enemies[i],
    }
}

/// The places of the players whose attacks the first `n` machines take.
pub open spec fn assailants(
    players: Seq<PlayerRow>,
    enemies: Seq<EnemyRow>,
    events: Seq<(GameId, PlayerAttackEvent)>,
    n: nat,
) -> Seq<int>
    decreases n,
{
    if n == 0 {
        Seq::empty()
    } else {
        let before = assailants(players, enemies, events, (n - 1) as nat);
        match assault_on(players, enemies, events, n - 1) {
            Some(assault) => before.push(assault.player),
            None => before,
        }
    }
}

/// The player without the tag of the ready.
pub open spec fn unready(row: PlayerRow) -> PlayerRow {
    PlayerRow { entity: row.entity, bundle: PlayerBundle { _ready: None, ..row.bundle } }
}

/// The player at `p` after this tick's attacks: whoever has attacked is
/// not ready any more.
pub open spec fn player_after_assaults(
    players: Seq<PlayerRow>,
    enemies: Seq<EnemyRow>,
    events: Seq<(GameId, PlayerAttackEvent)>,
    p: int,
) -> PlayerRow {
    if assailants(players, enemies, events, enemies.len()).contains(p) {
        unready(players[p])
    } else {
        players[p]
    }
}

/// What the log is told of the attack on the machine at `i`: a hit with
/// the player's name and the part, or a miss with the player's name.
pub open spec fn assault_log(
    players: Seq<PlayerRow>,
    enemies: Seq<EnemyRow>,
    events: Seq<(GameId, PlayerAttackEvent)>,
    i: int,
    roll: int,
) -> Seq<(GuildId, BattleLogEvent)> {
    match assault_on(players, enemies, events, i) {
        Some(assault) => {
            let name = players[assault.player].bundle.name;
            match enemies[i].bundle.outcome_of(
                players[assault.player].bundle.attack,
                assault.part,
                roll,
            ) {
                AttackOutcome::Miss => seq![(assault.guild_id, BattleLogEvent::PlayerMiss(name))],
                _ => seq![(assault.guild_id, BattleLogEvent::PlayerHit(name, assault.part))],
            }
        },
        None => Seq::empty(),
    }
}

/// The death that the attack on the machine at `i` announces, if the part
/// dies of it.
pub open spec fn assault_deaths(
    players: Seq<PlayerRow>,
    enemies: Seq<EnemyRow>,
    events: Seq<(GameId, PlayerAttackEvent)>,
    i: int,
    roll: int,
) -> Seq<BygonePartDeathEvent> {
    match assault_on(players, enemies, events, i) {
        Some(assault) => match enemies[i].bundle.outcome_of(
            players[assault.player].bundle.attack,
            assault.part,
            roll,
        ) {
            AttackOutcome::Kill => seq![
                BygonePartDeathEvent {
                    entity: enemies[i].entity,
                    part: assault.part,
                    guild_id: assault.guild_id,
                },
            ],
            _ => Seq::empty(),
        },
        None => Seq::empty(),
    }
}

/// What the log is told of the attacks on the first `n` machines, in the
/// order of the machines.
pub open spec fn assaults_log(
    players: Seq<PlayerRow>,
    enemies: Seq<EnemyRow>,
    events: Seq<(GameId, PlayerAttackEvent)>,
    rolls: Seq<isize>,
    n: nat,
) -> Seq<(GuildId, BattleLogEvent)>
    decreases n,
{
    if n == 0 {
        Seq::empty()
    } else {
        assaults_log(players, enemies, events, rolls, (n - 1) as nat) + assault_log(
            players,
            enemies,
            events,
            n - 1,
            rolls[n - 1] as int,
        )
    }
}

/// The deaths that the attacks on the first `n` machines announce, in the
/// order of the machines.
pub open spec fn assaults_deaths(
    players: Seq<PlayerRow>,
    enemies: Seq<EnemyRow>,
    events: Seq<(GameId, PlayerAttackEvent)>,
    rolls: Seq<isize>,
    n: nat,
) -> Seq<BygonePartDeathEvent>
    decreases n,
{
    if n == 0 {
        Seq::empty()
    } else {
        assaults_deaths(players, enemies, events, rolls, (n - 1) as nat) + assault_deaths(
            players,
            enemies,
            events,
            n - 1,
            rolls[n - 1] as int,
        )
    }
}

/// Whether `rolls` holds a roll of the dice for each machine that takes an
/// attack, and a zero for each that takes none.
pub open spec fn rolls_fit(
    players: Seq<PlayerRow>,
    enemies: Seq<EnemyRow>,
    events: Seq<(GameId, PlayerAttackEvent)>,
    rolls: Seq<isize>,
) -> bool {
    &&& rolls.len() == enemies.len()
    &&& forall|i: int|
        0 <= i < enemies.len() ==> if assault_on(players, enemies, events, i).is_some() {
            0 <= #[trigger] rolls[i] < 100
        } else {
            rolls[i] == 0
        }
}

/// Whether `post` is what this tick's attacks of the players make of
/// `pre`, with the roll `rolls[i]` for the machine at `i`: each machine
/// has taken the attack on it, each player who attacked is not ready any
/// more, and nothing else has changed.
pub open spec fn assaulted(
    pre: World,
    post: World,
    events: Seq<(GameId, PlayerAttackEvent)>,
    rolls: Seq<isize>,
) -> bool {
    &&& post.next_entity == pre.next_entity
    &&& post.players@.len() == pre.players@.len()
    &&& post.enemies@.len() == pre.enemies@.len()
    &&& forall|p: int|
        0 <= p < pre.players@.len() ==> #[trigger] post.players@[p] == player_after_assaults(
            pre.players@,
            pre.enemies@,
            events,
            p,
        )
    &&& forall|i: int|
        0 <= i < pre.enemies@.len() ==> #[trigger] post.enemies@[i] == enemy_after_assault(
            pre.players@,
            pre.enemies@,
            events,
            i,
            rolls[i] as int,
        )
}

/// An attacker is a player of the battle who attacks.
pub proof fn lemma_attacker(
    players: Seq<PlayerRow>,
    events: Seq<(GameId, PlayerAttackEvent)>,
    game_id: GameId,
)
    ensures
        attacker_of(players, events, game_id) matches Some(p) ==> 0 <= p < players.len()
            && players[p].bundle.game_id == game_id && attacks(players[p], events),
        attacker_of(players, events, game_id).is_none() ==> forall|p: int|
            0 <= p < players.len() ==> !((#[trigger] players[p]).bundle.game_id == game_id
                && attacks(players[p], events)),
    decreases players.len(),
{
    if players.len() > 0 {
        lemma_attacker(players.drop_last(), events, game_id);
        if !(players.last().bundle.game_id == game_id && attacks(players.last(), events)) {
            if attacker_of(players, events, game_id).is_none() {
                assert forall|p: int| 0 <= p < players.len() implies !((
                #[trigger] players[p]).bundle.game_id == game_id && attacks(players[p], events)) by {
                    if p < players.len() - 1 {
                        assert(players.drop_last()[p] == players[p]);
                    }
                }
            }
        }
    }
}

/// A target comes from an attack among the events.
pub proof fn lemma_target(events: Seq<(GameId, PlayerAttackEvent)>, user: UserId, game_id: GameId)
    ensures
        target_of(events, user, game_id).is_some() <==> exists|k: int|
            0 <= k < events.len() && (#[trigger] events[k]).1.player == user && events[k].0
                == game_id,
    decreases events.len(),
{
    if events.len() > 0 {
        lemma_target(events.drop_last(), user, game_id);
        if events.last().1.player == user && events.last().0 == game_id {
            assert(events[events.len() - 1].1.player == user);
        } else {
            if target_of(events, user, game_id).is_some() {
                let k = choose|k: int|
                    0 <= k < events.drop_last().len() && (#[trigger] events.drop_last()[k]).1.player
                        == user && events.drop_last()[k].0 == game_id;
                assert(events[k].1.player == user && events[k].0 == game_id);
            }
            if exists|k: int|
                0 <= k < events.len() && (#[trigger] events[k]).1.player == user && events[k].0
                    == game_id {
                let k = choose|k: int|
                    0 <= k < events.len() && (#[trigger] events[k]).1.player == user && events[k].0
                        == game_id;
                assert(events.drop_last()[k].1.player == user && events.drop_last()[k].0
                    == game_id);
            }
        }
    }
}

/// Every assailant is the attacker of one of the machines.
pub proof fn lemma_assailants(
    players: Seq<PlayerRow>,
    enemies: Seq<EnemyRow>,
    events: Seq<(GameId, PlayerAttackEvent)>,
    n: nat,
    p: int,
)
    ensures
        assailants(players, enemies, events, n).contains(p) <==> exists|i: int|
            0 <= i < n && (#[trigger] assault_on(players, enemies, events, i)).is_some()
                && assault_on(players, enemies, events, i).unwrap().player == p,
    decreases n,
{
    if n > 0 {
        lemma_assailants(players, enemies, events, (n - 1) as nat, p);
        let before = assailants(players, enemies, events, (n - 1) as nat);
        let now = assailants(players, enemies, events, n);
        match assault_on(players, enemies, events, n - 1) {
            Some(a) => {
                assert(now == before.push(a.player));
                if a.player == p {
                    assert(now[now.len() - 1] == p);
                }
                if now.contains(p) {
                    let k = choose|k: int| 0 <= k < now.len() && now[k] == p;
                    if k < before.len() {
                        assert(before[k] == p);
                    }
                }
                if before.contains(p) {
                    let k = choose|k: int| 0 <= k < before.len() && before[k] == p;
                    assert(now[k] == p);
                }
            },
            None => {},
        }
    } else {
        assert(!Seq::<int>::empty().contains(p));
    }
}

/// The attack of a player who is not ready when the resolver starts
/// changes no machine: where each row of the event's player in the
/// event's battle lacks the tag of the ready, the event leaves every
/// machine as it is, whatever is rolled.
pub proof fn lemma_unready_attack_changes_nothing(
    players: Seq<PlayerRow>,
    enemies: Seq<EnemyRow>,
    event: (GameId, PlayerAttackEvent),
    i: int,
    roll: int,
)
    requires
        0 <= i < enemies.len(),
        forall|p: int|
            0 <= p < players.len() && (#[trigger] players[p]).bundle.user_id.0 == event.1.player
                && players[p].bundle.game_id == event.0 ==> !players[p].bundle.is_ready(),
    ensures
        enemy_after_assault(players, enemies, seq![event], i, roll) == enemies[i],
        assault_log(players, enemies, seq![event], i, roll).len() == 0,
{
    let events = seq![event];
    let game_id = enemies[i].bundle.game_id;
    lemma_attacker(players, events, game_id);
    if attacker_of(players, events, game_id).is_some() {
        let p = attacker_of(players, events, game_id).unwrap();
        lemma_target(events, players[p].bundle.user_id.0, game_id);
        let k = choose|k: int|
            0 <= k < events.len() && (#[trigger] events[k]).1.player == players[p].bundle.user_id.0
                && events[k].0 == game_id;
        assert(events[k] == event);
    }
}

/// In one tick no player attacks twice: where no two machines belong to
/// the same battle, no player is the attacker of two machines.
pub proof fn lemma_one_assault_per_player(
    players: Seq<PlayerRow>,
    enemies: Seq<EnemyRow>,
    events: Seq<(GameId, PlayerAttackEvent)>,
    i: int,
    j: int,
)
    requires
        crate::world::one_enemy_per_game(enemies),
        0 <= i < j < enemies.len(),
        assault_on(players, enemies, events, i).is_some(),
        assault_on(players, enemies, events, j).is_some(),
    ensures
        assault_on(players, enemies, events, i).unwrap().player != assault_on(
            players,
            enemies,
            events,
            j,
        ).unwrap().player,
{
    lemma_attacker(players, events, enemies[i].bundle.game_id);
    lemma_attacker(players, events, enemies[j].bundle.game_id);
}

/// Only the ready attack, and who has attacked is not ready any more: a
/// player without the tag of the ready is no assailant, and every
/// assailant is without it after the resolver.
pub proof fn lemma_attack_uses_ready(
    players: Seq<PlayerRow>,
    enemies: Seq<EnemyRow>,
    events: Seq<(GameId, PlayerAttackEvent)>,
    p: int,
)
    requires
        0 <= p < players.len(),
    ensures
        !players[p].bundle.is_ready() ==> !assailants(
            players,
            enemies,
            events,
            enemies.len(),
        ).contains(p),
        assailants(players, enemies, events, enemies.len()).contains(p)
            ==> !player_after_assaults(players, enemies, events, p).bundle.is_ready(),
{
    lemma_assailants(players, enemies, events, enemies.len(), p);
    if assailants(players, enemies, events, enemies.len()).contains(p) {
        let i = choose|i: int|
            0 <= i < enemies.len() && (#[trigger] assault_on(players, enemies, events, i)).is_some()
                && assault_on(players, enemies, events, i).unwrap().player == p;
        lemma_attacker(players, events, enemies[i].bundle.game_id);
    }
}

/// In one turn a player attacks at most once: who has attacked is without
/// the tag of the ready after the resolver, and as long as the player
/// stays without it, the player is no assailant in any later run of the
/// resolver, whatever the events and the state of the world then.
pub proof fn lemma_one_attack_per_turn(
    pre: World,
    post: World,
    events: Seq<(GameId, PlayerAttackEvent)>,
    rolls: Seq<isize>,
    later: World,
    later_events: Seq<(GameId, PlayerAttackEvent)>,
    p: int,
)
    requires
        assaulted(pre, post, events, rolls),
        0 <= p < pre.players@.len(),
        assailants(pre.players@, pre.enemies@, events, pre.enemies@.len()).contains(p),
        p < later.players@.len(),
        later.players@[p].bundle._ready == post.players@[p].bundle._ready,
    ensures
        !post.players@[p].bundle.is_ready(),
        !assailants(later.players@, later.enemies@, later_events, later.enemies@.len()).contains(p),
{
    lemma_attack_uses_ready(pre.players@, pre.enemies@, events, p);
    assert(post.players@[p] == player_after_assaults(pre.players@, pre.enemies@, events, p));
    lemma_attack_uses_ready(later.players@, later.enemies@, later_events, p);
}

/// The attacks of the machines give no player the tag of the ready.
pub proof fn lemma_strikes_keep_unready(
    players: Seq<PlayerRow>,
    enemies: Seq<EnemyRow>,
    events: Seq<EnemyAttackEvent>,
    draws: Seq<(usize, isize)>,
    q: int,
    n: nat,
)
    ensures
        player_after_strikes(players, enemies, events, draws, q, n).bundle._ready
            == players[q].bundle._ready,
{
}

/// The guild and the part of the last attack in `events` that `user` makes
/// in the battle `game_id`.
pub fn find_target(events: &Vec<(GameId, PlayerAttackEvent)>, user: UserId, game_id: GameId) -> (r:
    Option<(GuildId, BygonePart)>)
    ensures
        r == target_of(events@, user, game_id),
{
    let mut i: usize = events.len();
    proof {
        assert(events@.take(i as int) == events@);
    }
    while i > 0
        invariant
            i <= events@.len(),
            target_of(events@, user, game_id) == target_of(events@.take(i as int), user, game_id),
        decreases i,
    {
        proof {
            assert(events@.take(i as int).drop_last() == events@.take(i - 1));
            assert(events@.take(i as int).last() == events@[i - 1]);
        }
        if events[i - 1].1.player == user && events[i - 1].0.0 == game_id.0 {
            return Some((events[i - 1].1.guild_id, events[i - 1].1.target));
        }
        i -= 1;
    }
    proof {
        assert(events@.take(0).len() == 0);
    }
    None
}

/// The place of the player whose attack the machine of the battle
/// `game_id` takes in this tick.
pub fn find_attacker(
    players: &Vec<PlayerRow>,
    events: &Vec<(GameId, PlayerAttackEvent)>,
    game_id: GameId,
) -> (r: Option<usize>)
    ensures
        r.is_some() == attacker_of(players@, events@, game_id).is_some(),
        r matches Some(p) ==> attacker_of(players@, events@, game_id) == Some(p as int) && p
            < players@.len(),
{
    let mut i: usize = players.len();
    proof {
        assert(players@.take(i as int) == players@);
    }
    while i > 0
        invariant
            i <= players@.len(),
            attacker_of(players@, events@, game_id) == attacker_of(
                players@.take(i as int),
                events@,
                game_id,
            ),
        decreases i,
    {
        proof {
            assert(players@.take(i as int).drop_last() == players@.take(i - 1));
            assert(players@.take(i as int).last() == players@[i - 1]);
        }
        let row = &players[i - 1];
        if row.bundle.game_id.0 == game_id.0 && row.bundle._active.is_some()
            && row.bundle._ready.is_some() {
            if find_target(events, row.bundle.user_id.0, row.bundle.game_id).is_some() {
                return Some(i - 1);
            }
        }
        i -= 1;
    }
    proof {
        assert(players@.take(0).len() == 0);
    }
    None
}

/// The attack that the machine at `i` takes in this tick, if any: the
/// place of the player, the guild, and the part.
pub fn find_assault(world: &World, events: &Vec<(GameId, PlayerAttackEvent)>, i: usize) -> (r:
    Option<(usize, GuildId, BygonePart)>)
    requires
        i < world.enemies@.len(),
    ensures
        r.is_some() == assault_on(world.players@, world.enemies@, events@, i as int).is_some(),
        r matches Some((p, guild_id, part)) ==> assault_on(
            world.players@,
            world.enemies@,
            events@,
            i as int,
        ) == Some(Assault { player: p as int, guild_id, part }) && p < world.players@.len(),
{
    let enemy = &world.enemies[i].bundle;
    match find_attacker(&world.players, events, enemy.game_id) {
        Some(p) => match find_target(events, world.players[p].bundle.user_id.0, enemy.game_id) {
            Some((guild_id, part)) => {
                if enemy._active.is_some() && enemy.parts.get(part).health().alive() {
                    Some((p, guild_id, part))
                } else {
                    None
                }
            },
            None => None,
        },
        None => None,
    }
}

/// Rolls the dice for this tick's attacks of the players: once for each
/// machine that takes an attack, in the order of the machines.
pub fn damage_bygone_rolls<D: Dice>(
    world: &World,
    rng: &mut D,
    ev_player_attack: &Vec<(GameId, PlayerAttackEvent)>,
) -> (rolls: Vec<isize>)
    ensures
        rolls_fit(world.players@, world.enemies@, ev_player_attack@, rolls@),
{
    let n = world.enemies.len();
    let mut rolls: Vec<isize> = Vec::new();
    let mut i: usize = 0;
    while i < n
        invariant
            i <= n,
            n == world.enemies@.len(),
            rolls@.len() == i,
            forall|k: int|
                0 <= k < i ==> if assault_on(
                    world.players@,
                    world.enemies@,
                    ev_player_attack@,
                    k,
                ).is_some() {
                    0 <= #[trigger] rolls@[k] < 100
                } else {
                    rolls@[k] == 0
                },
        decreases n - i,
    {
        if find_assault(world, ev_player_attack, i).is_some() {
            rolls.push(rng.d100());
        } else {
            rolls.push(0);
        }
        i += 1;
    }
    rolls
}

/// Resolves this tick's attacks of the players with the given rolls, one
/// for each machine: see `assaulted`. The log is told of each attack, and
/// the death of each part that dies is announced.
pub fn damage_bygone_with(
    world: &mut World,
    rolls: &Vec<isize>,
    ev_player_attack: &Vec<(GameId, PlayerAttackEvent)>,
    ev_part_death: &mut Vec<BygonePartDeathEvent>,
    ev_battle_log: &mut Vec<(GuildId, BattleLogEvent)>,
)
    requires
        old(world).wf(),
        rolls@.len() == old(world).enemies@.len(),
    ensures
        final(world).wf(),
        assaulted(*old(world), *final(world), ev_player_attack@, rolls@),
        final(ev_battle_log)@ == old(ev_battle_log)@ + assaults_log(
            old(world).players@,
            old(world).enemies@,
            ev_player_attack@,
            rolls@,
            rolls@.len(),
        ),
        final(ev_part_death)@ == old(ev_part_death)@ + assaults_deaths(
            old(world).players@,
            old(world).enemies@,
            ev_player_attack@,
            rolls@,
            rolls@.len(),
        ),
{
    let ghost pre = *world;
    let ghost events = ev_player_attack@;
    let n = world.enemies.len();
    let mut used: Vec<usize> = Vec::new();
    let mut i: usize = 0;
    while i < n
        invariant
            i <= n,
            n == pre.enemies@.len(),
            n == rolls@.len(),
            pre.wf(),
            events == ev_player_attack@,
            world.players@ == pre.players@,
            world.next_entity == pre.next_entity,
            world.enemies@.len() == n,
            forall|k: int|
                0 <= k < i ==> #[trigger] world.enemies@[k] == enemy_after_assault(
                    pre.players@,
                    pre.enemies@,
                    events,
                    k,
                    rolls@[k] as int,
                ),
            forall|k: int| i <= k < n ==> #[trigger] world.enemies@[k] == pre.enemies@[k],
            forall|k: int| 0 <= k < n ==> (#[trigger] world.enemies@[k]).bundle.wf(),
            used@.len() == assailants(pre.players@, pre.enemies@, events, i as nat).len(),
            forall|k: int|
                0 <= k < used@.len() ==> #[trigger] used@[k] == assailants(
                    pre.players@,
                    pre.enemies@,
                    events,
                    i as nat,
                )[k] && used@[k] < pre.players@.len(),
            ev_battle_log@ == old(ev_battle_log)@ + assaults_log(
                pre.players@,
                pre.enemies@,
                events,
                rolls@,
                i as nat,
            ),
            ev_part_death@ == old(ev_part_death)@ + assaults_deaths(
                pre.players@,
                pre.enemies@,
                events,
                rolls@,
                i as nat,
            ),
        decreases n - i,
    {
        proof {
            assert(world.enemies@[i as int] == pre.enemies@[i as int]);
            assert(assault_on(world.players@, world.enemies@, events, i as int) == assault_on(
                pre.players@,
                pre.enemies@,
                events,
                i as int,
            ));
        }
        match find_assault(world, ev_player_attack, i) {
            Some((p, guild_id, part)) => {
                let attack = world.players[p].bundle.attack;
                let name = world.players[p].bundle.name.clone();
                let entity = world.enemies[i].entity;
                let outcome = world.enemies[i].bundle.take_attack(&attack, part, rolls[i]);
                match outcome {
                    AttackOutcome::Miss => {
                        ev_battle_log.push((guild_id, BattleLogEvent::PlayerMiss(name)));
                    },
                    AttackOutcome::Hit => {
                        ev_battle_log.push((guild_id, BattleLogEvent::PlayerHit(name, part)));
                    },
                    AttackOutcome::Kill => {
                        ev_battle_log.push((guild_id, BattleLogEvent::PlayerHit(name, part)));
                        ev_part_death.push(BygonePartDeathEvent::new(entity, part, guild_id));
                    },
                }
                used.push(p);
            },
            None => {},
        }
        proof {
            assert(assaults_log(pre.players@, pre.enemies@, events, rolls@, (i + 1) as nat)
                == assaults_log(pre.players@, pre.enemies@, events, rolls@, i as nat) + assault_log(
                pre.players@,
                pre.enemies@,
                events,
                i as int,
                rolls@[i as int] as int,
            ));
            assert(assaults_deaths(pre.players@, pre.enemies@, events, rolls@, (i + 1) as nat)
                == assaults_deaths(pre.players@, pre.enemies@, events, rolls@, i as nat)
                + assault_deaths(
                pre.players@,
                pre.enemies@,
                events,
                i as int,
                rolls@[i as int] as int,
            ));
            let log_now = old(ev_battle_log)@ + assaults_log(
                pre.players@,
                pre.enemies@,
                events,
                rolls@,
                (i + 1) as nat,
            );
            assert(ev_battle_log@ =~= log_now);
            let deaths_now = old(ev_part_death)@ + assaults_deaths(
                pre.players@,
                pre.enemies@,
                events,
                rolls@,
                (i + 1) as nat,
            );
            assert(ev_part_death@ =~= deaths_now);
        }
        i += 1;
    }
    let ghost attacked = assailants(pre.players@, pre.enemies@, events, n as nat);
    let m = used.len();
    let mut k: usize = 0;
    while k < m
        invariant
            k <= m,
            m == used@.len(),
            m == attacked.len(),
            forall|j: int| 0 <= j < m ==> #[trigger] used@[j] == attacked[j] && used@[j]
                < pre.players@.len(),
            world.enemies@.len() == pre.enemies@.len(),
            world.next_entity == pre.next_entity,
            world.players@.len() == pre.players@.len(),
            forall|i: int|
                0 <= i < pre.enemies@.len() ==> #[trigger] world.enemies@[i] == enemy_after_assault(
                    pre.players@,
                    pre.enemies@,
                    events,
                    i,
                    rolls@[i] as int,
                ),
            forall|i: int| 0 <= i < pre.enemies@.len() ==> (#[trigger] world.enemies@[i]).bundle.wf(),
            forall|p: int|
                0 <= p < pre.players@.len() ==> #[trigger] world.players@[p] == if attacked.take(
                    k as int,
                ).contains(p) {
                    unready(pre.players@[p])
                } else {
                    pre.players@[p]
                },
        decreases m - k,
    {
        let p = used[k];
        world.players[p].bundle._ready = None;
        proof {
            let seen = attacked.take(k as int);
            let seen_now = attacked.take(k + 1);
            assert(seen_now == seen.push(attacked[k as int]));
            assert forall|q: int| 0 <= q < pre.players@.len() implies #[trigger] world.players@[q]
                == if seen_now.contains(q) {
                unready(pre.players@[q])
            } else {
                pre.players@[q]
            } by {
                if q == p {
                    assert(seen_now[k as int] == q);
                } else {
                    if seen_now.contains(q) {
                        let j = choose|j: int| 0 <= j < seen_now.len() && seen_now[j] == q;
                        assert(seen[j] == q);
                    }
                    if seen.contains(q) {
                        let j = choose|j: int| 0 <= j < seen.len() && seen[j] == q;
                        assert(seen_now[j] == q);
                    }
                }
            }
        }
        k += 1;
    }
    proof {
        assert(attacked.take(m as int) == attacked);
        assert(same_players(world.players@, pre.players@));
        assert(same_enemies(world.enemies@, pre.enemies@)) by {
            assert forall|i: int| 0 <= i < world.enemies@.len() implies (
            #[trigger] world.enemies@[i]).entity == pre.enemies@[i].entity
                && world.enemies@[i].bundle.game_id == pre.enemies@[i].bundle.game_id by {
                assert(world.enemies@[i] == enemy_after_assault(
                    pre.players@,
                    pre.enemies@,
                    events,
                    i,
                    rolls@[i] as int,
                ));
            }
        }
        assert(healths_bounded(world.players@, world.enemies@)) by {
            assert forall|p: int| 0 <= p < world.players@.len() implies (
            #[trigger] world.players@[p]).bundle.wf() by {
                assert(pre.players@[p].bundle.wf());
            }
        }
        crate::world::lemma_wf_kept(pre, *world);
    }
}

/// Resolves this tick's attacks of the players: rolls the dice once for
/// each machine that takes an attack, and resolves the attacks with these
/// rolls.
pub fn damage_bygone<D: Dice>(
    world: &mut World,
    rng: &mut D,
    ev_player_attack: &Vec<(GameId, PlayerAttackEvent)>,
    ev_part_death: &mut Vec<BygonePartDeathEvent>,
    ev_battle_log: &mut Vec<(GuildId, BattleLogEvent)>,
)
    requires
        old(world).wf(),
    ensures
        final(world).wf(),
        exists|rolls: Seq<isize>|
            {
                &&& rolls_fit(old(world).players@, old(world).enemies@, ev_player_attack@, rolls)
                &&& #[trigger] assaulted(*old(world), *final(world), ev_player_attack@, rolls)
                &&& final(ev_battle_log)@ == old(ev_battle_log)@ + assaults_log(
                    old(world).players@,
                    old(world).enemies@,
                    ev_player_attack@,
                    rolls,
                    rolls.len(),
                )
                &&& final(ev_part_death)@ == old(ev_part_death)@ + assaults_deaths(
                    old(world).players@,
                    old(world).enemies@,
                    ev_player_attack@,
                    rolls,
                    rolls.len(),
                )
            },
{
    let rolls = damage_bygone_rolls(world, rng, ev_player_attack);
    damage_bygone_with(world, &rolls, ev_player_attack, ev_part_death, ev_battle_log);
    proof {
        assert(assaulted(*old(world), *world, ev_player_attack@, rolls@));
    }
}

/// The machine at `row` after the death of a part: a machine that is
/// active and stands under the handle of the event takes the death of the
/// part, and every other stays as it is.
pub open spec fn enemy_after_death(row: EnemyRow, ev: BygonePartDeathEvent) -> EnemyRow {
    if row.entity == ev.entity && row.bundle.is_active() {
        EnemyRow { entity: row.entity, bundle: row.bundle.after_part_death(ev.part) }
    } else {
        row
    }
}

/// The machine at `row` after the first `n` of the deaths, in their order.
pub open spec fn enemy_after_deaths(row: EnemyRow, events: Seq<BygonePartDeathEvent>, n: nat) -> EnemyRow
    decreases n,
{
    if n == 0 {
        row
    } else {
        enemy_after_death(enemy_after_deaths(row, events, (n - 1) as nat), events[n - 1])
    }
}

/// Whether the death at `k` defeats the machine at `i`, as the deaths
/// before it have left that machine.
pub open spec fn death_defeats(
    enemies: Seq<EnemyRow>,
    events: Seq<BygonePartDeathEvent>,
    k: int,
    i: int,
) -> bool {
    let row = enemy_after_deaths(enemies[i], events, k as nat);
    row.entity == events[k].entity && row.bundle.is_active() && row.bundle.defeated_by(
        events[k].part,
    )
}

/// The machines among the first `m` that the death at `k` defeats, in
/// their order.
pub open spec fn defeats_of_death(
    enemies: Seq<EnemyRow>,
    events: Seq<BygonePartDeathEvent>,
    k: int,
    m: nat,
) -> Seq<DeactivateEvent>
    decreases m,
{
    if m == 0 {
        Seq::empty()
    } else if death_defeats(enemies, events, k, m - 1) {
        defeats_of_death(enemies, events, k, (m - 1) as nat).push(
            DeactivateEvent(enemies[m - 1].entity),
        )
    } else {
        defeats_of_death(enemies, events, k, (m - 1) as nat)
    }
}

/// The machines that the first `n` of the deaths defeat, in the order of
/// the deaths.
pub open spec fn defeats(enemies: Seq<EnemyRow>, events: Seq<BygonePartDeathEvent>, n: nat) -> Seq<
    DeactivateEvent,
>
    decreases n,
{
    if n == 0 {
        Seq::empty()
    } else {
        defeats(enemies, events, (n - 1) as nat) + defeats_of_death(
            enemies,
            events,
            n - 1,
            enemies.len(),
        )
    }
}

/// What the log is told of the death at `k`, for the first `m` machines:
/// once for each machine defeated, that the machine is dead.
pub open spec fn defeat_log_of_death(
    enemies: Seq<EnemyRow>,
    events: Seq<BygonePartDeathEvent>,
    k: int,
    m: nat,
) -> Seq<(GuildId, BattleLogEvent)>
    decreases m,
{
    if m == 0 {
        Seq::empty()
    } else if death_defeats(enemies, events, k, m - 1) {
        defeat_log_of_death(enemies, events, k, (m - 1) as nat).push(
            (events[k].guild_id, BattleLogEvent::BygoneDead),
        )
    } else {
        defeat_log_of_death(enemies, events, k, (m - 1) as nat)
    }
}

/// What the log is told of the first `n` of the deaths.
pub open spec fn defeat_log(enemies: Seq<EnemyRow>, events: Seq<BygonePartDeathEvent>, n: nat) -> Seq<
    (GuildId, BattleLogEvent),
>
    decreases n,
{
    if n == 0 {
        Seq::empty()
    } else {
        defeat_log(enemies, events, (n - 1) as nat) + defeat_log_of_death(
            enemies,
            events,
            n - 1,
            enemies.len(),
        )
    }
}

/// The death of a part changes neither the handle nor the battle nor the
/// tags of a machine.
pub proof fn lemma_enemy_after_deaths(row: EnemyRow, events: Seq<BygonePartDeathEvent>, n: nat)
    ensures
        enemy_after_deaths(row, events, n).entity == row.entity,
        enemy_after_deaths(row, events, n).bundle.game_id == row.bundle.game_id,
        enemy_after_deaths(row, events, n).bundle._active == row.bundle._active,
    decreases n,
{
    if n > 0 {
        lemma_enemy_after_deaths(row, events, (n - 1) as nat);
    }
}

/// Applies the deaths of parts, in their order, each to the active machine
/// under its handle: see `Bygone03Bundle::after_part_death`. A machine
/// that is defeated is to leave the resolution, and the log is told that
/// it is dead.
pub fn process_bygone_part_death(
    world: &mut World,
    ev_part_death: &Vec<BygonePartDeathEvent>,
    ev_battle_log: &mut Vec<(GuildId, BattleLogEvent)>,
    ev_deactivate: &mut Vec<DeactivateEvent>,
)
    requires
        old(world).wf(),
    ensures
        final(world).wf(),
        final(world).players@ == old(world).players@,
        final(world).next_entity == old(world).next_entity,
        final(world).enemies@.len() == old(world).enemies@.len(),
        forall|i: int|
            0 <= i < old(world).enemies@.len() ==> #[trigger] final(world).enemies@[i]
                == enemy_after_deaths(old(world).enemies@[i], ev_part_death@, ev_part_death@.len()),
        final(ev_deactivate)@ == old(ev_deactivate)@ + defeats(
            old(world).enemies@,
            ev_part_death@,
            ev_part_death@.len(),
        ),
        final(ev_battle_log)@ == old(ev_battle_log)@ + defeat_log(
            old(world).enemies@,
            ev_part_death@,
            ev_part_death@.len(),
        ),
{
    let ghost pre = *world;
    let ghost events = ev_part_death@;
    let n = ev_part_death.len();
    let m = world.enemies.len();
    let mut k: usize = 0;
    while k < n
        invariant
            k <= n,
            n == events.len(),
            events == ev_part_death@,
            m == pre.enemies@.len(),
            world.enemies@.len() == m,
            world.players@ == pre.players@,
            world.next_entity == pre.next_entity,
            forall|i: int|
                0 <= i < m ==> #[trigger] world.enemies@[i] == enemy_after_deaths(
                    pre.enemies@[i],
                    events,
                    k as nat,
                ),
            forall|i: int| 0 <= i < m ==> (#[trigger] pre.enemies@[i]).bundle.wf(),
            forall|i: int| 0 <= i < m ==> (#[trigger] world.enemies@[i]).bundle.wf(),
            ev_deactivate@ == old(ev_deactivate)@ + defeats(pre.enemies@, events, k as nat),
            ev_battle_log@ == old(ev_battle_log)@ + defeat_log(pre.enemies@, events, k as nat),
        decreases n - k,
    {
        let ev = ev_part_death[k];
        let ghost deactivate_before = ev_deactivate@;
        let ghost log_before = ev_battle_log@;
        let mut i: usize = 0;
        while i < m
            invariant
                i <= m,
                k < n,
                n == events.len(),
                ev == events[k as int],
                m == pre.enemies@.len(),
                world.enemies@.len() == m,
                world.players@ == pre.players@,
                world.next_entity == pre.next_entity,
                forall|j: int|
                    0 <= j < i ==> #[trigger] world.enemies@[j] == enemy_after_deaths(
                        pre.enemies@[j],
                        events,
                        (k + 1) as nat,
                    ),
                forall|j: int|
                    i <= j < m ==> #[trigger] world.enemies@[j] == enemy_after_deaths(
                        pre.enemies@[j],
                        events,
                        k as nat,
                    ),
                forall|j: int| 0 <= j < m ==> (#[trigger] world.enemies@[j]).bundle.wf(),
                ev_deactivate@ == deactivate_before + defeats_of_death(
                    pre.enemies@,
                    events,
                    k as int,
                    i as nat,
                ),
                ev_battle_log@ == log_before + defeat_log_of_death(
                    pre.enemies@,
                    events,
                    k as int,
                    i as nat,
                ),
            decreases m - i,
        {
            proof {
                lemma_enemy_after_deaths(pre.enemies@[i as int], events, k as nat);
            }
            if world.enemies[i].entity.0 == ev.entity.0 && world.enemies[i].bundle._active.is_some() {
                let entity = world.enemies[i].entity;
                let defeated = world.enemies[i].bundle.apply_part_death(ev.part);
                if defeated {
                    ev_deactivate.push(DeactivateEvent(entity));
                    ev_battle_log.push((ev.guild_id, BattleLogEvent::BygoneDead));
                }
            }
            i += 1;
        }
        proof {
            assert(ev_deactivate@ =~= old(ev_deactivate)@ + defeats(
                pre.enemies@,
                events,
                (k + 1) as nat,
            ));
            assert(ev_battle_log@ =~= old(ev_battle_log)@ + defeat_log(
                pre.enemies@,
                events,
                (k + 1) as nat,
            ));
        }
        k += 1;
    }
    proof {
        assert(same_enemies(world.enemies@, pre.enemies@)) by {
            assert forall|i: int| 0 <= i < world.enemies@.len() implies (
            #[trigger] world.enemies@[i]).entity == pre.enemies@[i].entity
                && world.enemies@[i].bundle.game_id == pre.enemies@[i].bundle.game_id by {
                lemma_enemy_after_deaths(pre.enemies@[i], events, n as nat);
            }
        }
        crate::world::lemma_wf_kept(pre, *world);
    }
}

/// The places of the active players of the battle `game_id`, in their
/// order.
pub open spec fn candidates(players: Seq<PlayerRow>, game_id: GameId) -> Seq<int>
    decreases players.len(),
{
    if players.len() == 0 {
        Seq::empty()
    } else if players.last().bundle.is_active() && players.last().bundle.game_id == game_id {
        candidates(players.drop_last(), game_id).push(players.len() - 1)
    } else {
        candidates(players.drop_last(), game_id)
    }
}

/// The place of the machine of the battle `game_id`, if it has one.
pub open spec fn enemy_of(enemies: Seq<EnemyRow>, game_id: GameId) -> Option<int> {
    if exists|i: int| 0 <= i < enemies.len() && (#[trigger] enemies[i]).bundle.game_id == game_id {
        Some(
            choose|i: int| 0 <= i < enemies.len() && (#[trigger] enemies[i]).bundle.game_id == game_id,
        )
    } else {
        None
    }
}

/// One attack of a machine on a player.
pub struct Strike {
    pub victim: int,
    pub attack: Attack,
    pub guild_id: GuildId,
}

/// The attack that the event brings about, where the dice pick the
/// `pick`th of the candidates: the battle's machine, if it is active,
/// attacks one of the battle's active players, if there is any.
pub open spec fn strike_of(
    players: Seq<PlayerRow>,
    enemies: Seq<EnemyRow>,
    ev: EnemyAttackEvent,
    pick: int,
) -> Option<Strike> {
    match enemy_of(enemies, ev.game_id) {
        Some(e) => if enemies[e].bundle.is_active() && candidates(players, ev.game_id).len() > 0 {
            Some(
                Strike {
                    victim: candidates(players, ev.game_id)[pick],
                    attack: enemies[e].bundle.attack,
                    guild_id: ev.guild_id,
                },
            )
        } else {
            None
        },
        None => None,
    }
}

/// Whether `draws` holds for each event what the dice have drawn for it:
/// the place of a candidate and a roll where the event brings about an
/// attack, and zeros where it does not.
pub open spec fn draws_fit(
    players: Seq<PlayerRow>,
    enemies: Seq<EnemyRow>,
    events: Seq<EnemyAttackEvent>,
    draws: Seq<(usize, isize)>,
) -> bool {
    &&& draws.len() == events.len()
    &&& forall|k: int|
        0 <= k < events.len() ==> if strike_of(players, enemies, events[k], 0).is_some() {
            (#[trigger] draws[k]).0 < candidates(players, events[k].game_id).len() && 0
                <= draws[k].1 < 100
        } else {
            draws[k] == (0usize, 0isize)
        }
}

/// Whether each draw picks the place of a candidate where its event brings
/// about an attack.
pub open spec fn picks_fit(
    players: Seq<PlayerRow>,
    enemies: Seq<EnemyRow>,
    events: Seq<EnemyAttackEvent>,
    draws: Seq<(usize, isize)>,
) -> bool {
    &&& draws.len() == events.len()
    &&& forall|k: int|
        0 <= k < events.len() && strike_of(players, enemies, events[k], 0).is_some() ==> (
        #[trigger] draws[k]).0 < candidates(players, events[k].game_id).len()
}

/// The vitality of the player at `q` after the attacks of the first `n`
/// events.
pub open spec fn vitality_after_strikes(
    players: Seq<PlayerRow>,
    enemies: Seq<EnemyRow>,
    events: Seq<EnemyAttackEvent>,
    draws: Seq<(usize, isize)>,
    q: int,
    n: nat,
) -> crate::components::Vitality
    decreases n,
{
    if n == 0 {
        players[q].bundle.vitality
    } else {
        let before = vitality_after_strikes(players, enemies, events, draws, q, (n - 1) as nat);
        match strike_of(players, enemies, events[n - 1], draws[n - 1].0 as int) {
            Some(strike) => if strike.victim == q && strike.attack.hits(
                before,
                draws[n - 1].1 as int,
            ) {
                before.damaged(strike.attack.damage())
            } else {
                before
            },
            None => before,
        }
    }
}

/// The player at `q` after the attacks of the first `n` events: nothing
/// but the vitality has changed.
pub open spec fn player_after_strikes(
    players: Seq<PlayerRow>,
    enemies: Seq<EnemyRow>,
    events: Seq<EnemyAttackEvent>,
    draws: Seq<(usize, isize)>,
    q: int,
    n: nat,
) -> PlayerRow {
    PlayerRow {
        entity: players[q].entity,
        bundle: PlayerBundle {
            vitality: vitality_after_strikes(players, enemies, events, draws, q, n),
            ..players[q].bundle
        },
    }
}

/// What the log is told of the attack of the event at `k`: a miss, or a
/// hit with the victim's name, and after it the victim's death if the
/// victim has no health left.
pub open spec fn strike_log(
    players: Seq<PlayerRow>,
    enemies: Seq<EnemyRow>,
    events: Seq<EnemyAttackEvent>,
    draws: Seq<(usize, isize)>,
    k: int,
) -> Seq<(GuildId, BattleLogEvent)> {
    match strike_of(players, enemies, events[k], draws[k].0 as int) {
        Some(strike) => {
            let before = vitality_after_strikes(
                players,
                enemies,
                events,
                draws,
                strike.victim,
                k as nat,
            );
            let name = players[strike.victim].bundle.name;
            if !strike.attack.hits(before, draws[k].1 as int) {
                seq![(strike.guild_id, BattleLogEvent::BygoneMiss)]
            } else if before.damaged(strike.attack.damage()).health().alive() {
                seq![(strike.guild_id, BattleLogEvent::BygoneHit(name))]
            } else {
                seq![
                    (strike.guild_id, BattleLogEvent::BygoneHit(name)),
                    (strike.guild_id, BattleLogEvent::PlayerDead(name)),
                ]
            }
        },
        None => Seq::empty(),
    }
}

/// The victim that the attack of the event at `k` leaves without health,
/// to leave the resolution.
pub open spec fn strike_deactivations(
    players: Seq<PlayerRow>,
    enemies: Seq<EnemyRow>,
    events: Seq<EnemyAttackEvent>,
    draws: Seq<(usize, isize)>,
    k: int,
) -> Seq<DeactivateEvent> {
    match strike_of(players, enemies, events[k], draws[k].0 as int) {
        Some(strike) => {
            let before = vitality_after_strikes(
                players,
                enemies,
                events,
                draws,
                strike.victim,
                k as nat,
            );
            if strike.attack.hits(before, draws[k].1 as int) && !before.damaged(
                strike.attack.damage(),
            ).health().alive() {
                seq![DeactivateEvent(players[strike.victim].entity)]
            } else {
                Seq::empty()
            }
        },
        None => Seq::empty(),
    }
}

/// What the log is told of the attacks of the first `n` events.
pub open spec fn strikes_log(
    players: Seq<PlayerRow>,
    enemies: Seq<EnemyRow>,
    events: Seq<EnemyAttackEvent>,
    draws: Seq<(usize, isize)>,
    n: nat,
) -> Seq<(GuildId, BattleLogEvent)>
    decreases n,
{
    if n == 0 {
        Seq::empty()
    } else {
        strikes_log(players, enemies, events, draws, (n - 1) as nat) + strike_log(
            players,
            enemies,
            events,
            draws,
            n - 1,
        )
    }
}

/// The victims that the attacks of the first `n` events leave without
/// health.
pub open spec fn strikes_deactivations(
    players: Seq<PlayerRow>,
    enemies: Seq<EnemyRow>,
    events: Seq<EnemyAttackEvent>,
    draws: Seq<(usize, isize)>,
    n: nat,
) -> Seq<DeactivateEvent>
    decreases n,
{
    if n == 0 {
        Seq::empty()
    } else {
        strikes_deactivations(players, enemies, events, draws, (n - 1) as nat)
            + strike_deactivations(players, enemies, events, draws, n - 1)
    }
}

/// Whether `post` is what the attacks of the machines make of `pre`: each
/// player has the vitality that the attacks have left, and nothing else
/// has changed.
pub open spec fn struck(
    pre: World,
    post: World,
    events: Seq<EnemyAttackEvent>,
    draws: Seq<(usize, isize)>,
) -> bool {
    &&& post.next_entity == pre.next_entity
    &&& post.enemies@ == pre.enemies@
    &&& post.players@.len() == pre.players@.len()
    &&& forall|q: int|
        0 <= q < pre.players@.len() ==> #[trigger] post.players@[q] == player_after_strikes(
            pre.players@,
            pre.enemies@,
            events,
            draws,
            q,
            events.len(),
        )
}

/// The candidates are places of active players of the battle.
pub proof fn lemma_candidates(players: Seq<PlayerRow>, game_id: GameId, c: int)
    requires
        0 <= c < candidates(players, game_id).len(),
    ensures
        0 <= candidates(players, game_id)[c] < players.len(),
        players[candidates(players, game_id)[c]].bundle.is_active(),
        players[candidates(players, game_id)[c]].bundle.game_id == game_id,
    decreases players.len(),
{
    if players.len() > 0 {
        if players.last().bundle.is_active() && players.last().bundle.game_id == game_id {
            if c < candidates(players.drop_last(), game_id).len() {
                lemma_candidates(players.drop_last(), game_id, c);
            }
        } else {
            lemma_candidates(players.drop_last(), game_id, c);
        }
    }
}

/// The candidates are told by the tags and the battles of the players
/// alone.
pub proof fn lemma_candidates_same(a: Seq<PlayerRow>, b: Seq<PlayerRow>, game_id: GameId)
    requires
        a.len() == b.len(),
        forall|i: int|
            0 <= i < a.len() ==> (#[trigger] a[i]).bundle._active == b[i].bundle._active
                && a[i].bundle.game_id == b[i].bundle.game_id,
    ensures
        candidates(a, game_id) == candidates(b, game_id),
    decreases a.len(),
{
    if a.len() > 0 {
        assert(a.last().bundle._active == b[a.len() - 1].bundle._active);
        assert forall|i: int| 0 <= i < a.drop_last().len() implies (
        #[trigger] a.drop_last()[i]).bundle._active == b.drop_last()[i].bundle._active
            && a.drop_last()[i].bundle.game_id == b.drop_last()[i].bundle.game_id by {
            assert(a[i].bundle._active == b[i].bundle._active);
        }
        lemma_candidates_same(a.drop_last(), b.drop_last(), game_id);
    }
}

/// The places of the active players of the battle `game_id`, in their
/// order.
pub fn find_candidates(players: &Vec<PlayerRow>, game_id: GameId) -> (r: Vec<usize>)
    ensures
        r@.len() == candidates(players@, game_id).len(),
        forall|c: int| 0 <= c < r@.len() ==> #[trigger] r@[c] == candidates(players@, game_id)[c],
{
    let mut out: Vec<usize> = Vec::new();
    let n = players.len();
    let mut i: usize = 0;
    while i < n
        invariant
            i <= n,
            n == players@.len(),
            out@.len() == candidates(players@.take(i as int), game_id).len(),
            forall|c: int|
                0 <= c < out@.len() ==> #[trigger] out@[c] == candidates(
                    players@.take(i as int),
                    game_id,
                )[c],
        decreases n - i,
    {
        proof {
            assert(players@.take(i + 1).drop_last() == players@.take(i as int));
            assert(players@.take(i + 1).last() == players@[i as int]);
        }
        if players[i].bundle._active.is_some() && players[i].bundle.game_id.0 == game_id.0 {
            out.push(i);
        }
        i += 1;
    }
    proof {
        assert(players@.take(n as int) == players@);
    }
    out
}

/// The attack that the event brings about, if it does: the number of the
/// candidates, and the place of the machine.
fn find_strike(world: &World, ev: &EnemyAttackEvent) -> (r: Option<(Vec<usize>, usize)>)
    requires
        world.wf(),
    ensures
        r.is_some() == strike_of(world.players@, world.enemies@, *ev, 0).is_some(),
        r matches Some((found, e)) ==> {
            &&& found@.len() == candidates(world.players@, ev.game_id).len()
            &&& found@.len() > 0
            &&& forall|c: int|
                0 <= c < found@.len() ==> #[trigger] found@[c] == candidates(
                    world.players@,
                    ev.game_id,
                )[c]
            &&& enemy_of(world.enemies@, ev.game_id) == Some(e as int)
            &&& e < world.enemies@.len()
        },
{
    match world.find_enemy(ev.game_id) {
        Some(e) => {
            proof {
                let chosen = enemy_of(world.enemies@, ev.game_id).unwrap();
                assert(world.enemies@[e as int].bundle.game_id == ev.game_id);
                assert(world.enemies@[chosen].bundle.game_id == ev.game_id);
                assert(chosen == e);
            }
            if world.enemies[e].bundle._active.is_some() {
                let found = find_candidates(&world.players, ev.game_id);
                if found.len() > 0 {
                    Some((found, e))
                } else {
                    None
                }
            } else {
                None
            }
        },
        None => None,
    }
}

/// Draws from the dice for the attacks of the machines: for each event
/// that brings about an attack, first the victim's place among the
/// candidates, then the roll.
pub fn damage_players_draws<D: Dice>(
    world: &World,
    rng: &mut D,
    ev_enemy_attack: &Vec<EnemyAttackEvent>,
) -> (draws: Vec<(usize, isize)>)
    requires
        world.wf(),
    ensures
        draws_fit(world.players@, world.enemies@, ev_enemy_attack@, draws@),
{
    let n = ev_enemy_attack.len();
    let mut draws: Vec<(usize, isize)> = Vec::new();
    let mut k: usize = 0;
    while k < n
        invariant
            k <= n,
            n == ev_enemy_attack@.len(),
            world.wf(),
            draws@.len() == k,
            forall|j: int|
                0 <= j < k ==> if strike_of(
                    world.players@,
                    world.enemies@,
                    ev_enemy_attack@[j],
                    0,
                ).is_some() {
                    (#[trigger] draws@[j]).0 < candidates(
                        world.players@,
                        ev_enemy_attack@[j].game_id,
                    ).len() && 0 <= draws@[j].1 < 100
                } else {
                    draws@[j] == (0usize, 0isize)
                },
        decreases n - k,
    {
        match find_strike(world, &ev_enemy_attack[k]) {
            Some((found, _)) => {
                let pick = rng.between(0, found.len() - 1);
                let roll = rng.d100();
                draws.push((pick, roll));
            },
            None => {
                draws.push((0, 0));
            },
        }
        k += 1;
    }
    draws
}

/// Resolves the attacks of the machines with the given draws, one for
/// each event: see `struck`. The log is told of each attack, and each
/// victim left without health is to leave the resolution.
pub fn damage_players_with(
    world: &mut World,
    draws: &Vec<(usize, isize)>,
    ev_enemy_attack: &Vec<EnemyAttackEvent>,
    ev_battle_log: &mut Vec<(GuildId, BattleLogEvent)>,
    ev_deactivate: &mut Vec<DeactivateEvent>,
)
    requires
        old(world).wf(),
        picks_fit(old(world).players@, old(world).enemies@, ev_enemy_attack@, draws@),
    ensures
        final(world).wf(),
        struck(*old(world), *final(world), ev_enemy_attack@, draws@),
        final(ev_battle_log)@ == old(ev_battle_log)@ + strikes_log(
            old(world).players@,
            old(world).enemies@,
            ev_enemy_attack@,
            draws@,
            ev_enemy_attack@.len(),
        ),
        final(ev_deactivate)@ == old(ev_deactivate)@ + strikes_deactivations(
            old(world).players@,
            old(world).enemies@,
            ev_enemy_attack@,
            draws@,
            ev_enemy_attack@.len(),
        ),
{
    let ghost pre = *world;
    let ghost events = ev_enemy_attack@;
    let n = ev_enemy_attack.len();
    let mut k: usize = 0;
    while k < n
        invariant
            k <= n,
            n == events.len(),
            events == ev_enemy_attack@,
            pre.wf(),
            world.wf(),
            picks_fit(pre.players@, pre.enemies@, events, draws@),
            world.next_entity == pre.next_entity,
            world.enemies@ == pre.enemies@,
            world.players@.len() == pre.players@.len(),
            forall|q: int|
                0 <= q < pre.players@.len() ==> #[trigger] world.players@[q]
                    == player_after_strikes(pre.players@, pre.enemies@, events, draws@, q, k as nat),
            ev_battle_log@ == old(ev_battle_log)@ + strikes_log(
                pre.players@,
                pre.enemies@,
                events,
                draws@,
                k as nat,
            ),
            ev_deactivate@ == old(ev_deactivate)@ + strikes_deactivations(
                pre.players@,
                pre.enemies@,
                events,
                draws@,
                k as nat,
            ),
        decreases n - k,
    {
        let ev = ev_enemy_attack[k];
        let ghost before = *world;
        proof {
            assert forall|i: int| 0 <= i < world.players@.len() implies (
            #[trigger] world.players@[i]).bundle._active == pre.players@[i].bundle._active
                && world.players@[i].bundle.game_id == pre.players@[i].bundle.game_id by {
                assert(world.players@[i] == player_after_strikes(
                    pre.players@,
                    pre.enemies@,
                    events,
                    draws@,
                    i,
                    k as nat,
                ));
            }
            lemma_candidates_same(world.players@, pre.players@, ev.game_id);
        }
        match find_strike(world, &ev) {
            Some((found, e)) => {
                let (pick, roll) = draws[k];
                proof {
                    assert(strike_of(pre.players@, pre.enemies@, events[k as int], 0).is_some());
                    assert(draws@[k as int].0 < candidates(pre.players@, ev.game_id).len());
                    lemma_candidates(pre.players@, ev.game_id, pick as int);
                }
                let victim = found[pick];
                let attack = world.enemies[e].bundle.attack;
                let name = world.players[victim].bundle.name.clone();
                let entity = world.players[victim].entity;
                let hit = attack.attack(&mut world.players[victim].bundle.vitality, roll);
                if hit {
                    ev_battle_log.push((ev.guild_id, BattleLogEvent::BygoneHit(name.clone())));
                    if !world.players[victim].bundle.vitality.health().alive() {
                        ev_deactivate.push(DeactivateEvent(entity));
                        ev_battle_log.push((ev.guild_id, BattleLogEvent::PlayerDead(name)));
                    }
                } else {
                    ev_battle_log.push((ev.guild_id, BattleLogEvent::BygoneMiss));
                }
            },
            None => {},
        }
        proof {
            assert forall|q: int| 0 <= q < pre.players@.len() implies #[trigger] world.players@[q]
                == player_after_strikes(
                pre.players@,
                pre.enemies@,
                events,
                draws@,
                q,
                (k + 1) as nat,
            ) by {
                assert(before.players@[q] == player_after_strikes(
                    pre.players@,
                    pre.enemies@,
                    events,
                    draws@,
                    q,
                    k as nat,
                ));
            }
            assert(ev_battle_log@ =~= old(ev_battle_log)@ + strikes_log(
                pre.players@,
                pre.enemies@,
                events,
                draws@,
                (k + 1) as nat,
            ));
            assert(ev_deactivate@ =~= old(ev_deactivate)@ + strikes_deactivations(
                pre.players@,
                pre.enemies@,
                events,
                draws@,
                (k + 1) as nat,
            ));
            assert(same_players(world.players@, before.players@)) by {
                assert forall|i: int| 0 <= i < world.players@.len() implies (
                #[trigger] world.players@[i]).entity == before.players@[i].entity
                    && world.players@[i].bundle.user_id == before.players@[i].bundle.user_id
                    && world.players@[i].bundle.game_id == before.players@[i].bundle.game_id by {
                    assert(before.players@[i] == player_after_strikes(
                        pre.players@,
                        pre.enemies@,
                        events,
                        draws@,
                        i,
                        k as nat,
                    ));
                }
            }
            assert(same_enemies(world.enemies@, before.enemies@));
            assert(healths_bounded(world.players@, world.enemies@)) by {
                assert forall|i: int| 0 <= i < world.players@.len() implies (
                #[trigger] world.players@[i]).bundle.wf() by {
                    assert(before.players@[i].bundle.wf());
                }
                assert forall|i: int| 0 <= i < world.enemies@.len() implies (
                #[trigger] world.enemies@[i]).bundle.wf() by {
                    assert(before.enemies@[i].bundle.wf());
                }
            }
            crate::world::lemma_wf_kept(before, *world);
        }
        k += 1;
    }
}

/// Resolves the attacks of the machines: draws from the dice for each
/// event that brings about an attack, and resolves the attacks with these
/// draws.
pub fn damage_players<D: Dice>(
    world: &mut World,
    rng: &mut D,
    ev_enemy_attack: &Vec<EnemyAttackEvent>,
    ev_battle_log: &mut Vec<(GuildId, BattleLogEvent)>,
    ev_deactivate: &mut Vec<DeactivateEvent>,
)
    requires
        old(world).wf(),
    ensures
        final(world).wf(),
        exists|draws: Seq<(usize, isize)>|
            {
                &&& draws_fit(old(world).players@, old(world).enemies@, ev_enemy_attack@, draws)
                &&& #[trigger] struck(*old(world), *final(world), ev_enemy_attack@, draws)
                &&& final(ev_battle_log)@ == old(ev_battle_log)@ + strikes_log(
                    old(world).players@,
                    old(world).enemies@,
                    ev_enemy_attack@,
                    draws,
                    ev_enemy_attack@.len(),
                )
                &&& final(ev_deactivate)@ == old(ev_deactivate)@ + strikes_deactivations(
                    old(world).players@,
                    old(world).enemies@,
                    ev_enemy_attack@,
                    draws,
                    ev_enemy_attack@.len(),
                )
            },
{
    let draws = damage_players_draws(world, rng, ev_enemy_attack);
    damage_players_with(world, &draws, ev_enemy_attack, ev_battle_log, ev_deactivate);
    proof {
        assert(struck(*old(world), *world, ev_enemy_attack@, draws@));
    }
}

} // verus!
