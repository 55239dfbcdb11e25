//! The values that entities are made of: health, vitality, attack, the
//! machine's parts and stages, the tags, and the identities.

use vstd::prelude::*;
use vstd::string::*;
use crate::clock::unix_nanos;
use crate::localization::{Localization, RenderText};
use crate::text::{decimal, isize_to_string, repeat, repeated, signed_decimal, usize_to_string};

verus! {

/// The identifier of a guild, as the platform gives it.
pub type GuildId = u64;

/// The identifier of a user, as the platform gives it.
pub type UserId = u64;

/// The identifier of the interaction that opened a battle.
pub type InteractionId = u64;

/// `v` brought into the range of `isize`.
pub open spec fn clamped(v: int) -> int {
    if v < isize::MIN {
        isize::MIN as int
    } else if v > isize::MAX {
        isize::MAX as int
    } else {
        v
    }
}

/// The sum of `a` and `b`, brought into the range of `isize`.
pub fn saturating_sum(a: isize, b: isize) -> (r: isize)
    ensures
        r == clamped(a + b),
{
    if b >= 0 {
        if a > isize::MAX - b {
            isize::MAX
        } else {
            a + b
        }
    } else {
        if a < isize::MIN - b {
            isize::MIN
        } else {
            a + b
        }
    }
}

/// Health points: what is left of a maximum.
#[derive(Clone, Copy, Debug, PartialEq, Eq, Structural, Hash)]
pub struct Health {
    current: usize,
    max: usize,
}

impl Health {
    /// No health holds more than its maximum.
    #[verifier::type_invariant]
    pub closed spec fn bounded(self) -> bool {
        self.current <= self.max
    }

    pub closed spec fn spec_current(&self) -> usize {
        self.current
    }

    pub closed spec fn spec_max(&self) -> usize {
        self.max
    }

    /// No health holds more than its maximum.
    pub open spec fn wf(self) -> bool {
        self.current() <= self.max()
    }

    /// What is left of `self` after `amount` points of damage.
    pub open spec fn after_damage(self, amount: usize) -> int {
        if amount > self.current() {
            0
        } else {
            self.current() - amount
        }
    }

    pub open spec fn spec_alive(&self) -> bool {
        self.current() > 0
    }

    /// Full health of `max` points.
    pub fn new(max: usize) -> (r: Self)
        ensures
            r.current() == max,
            r.max() == max,
            r.wf(),
    {
        Health { current: max, max }
    }

    /// Takes `amount` points away, stopping at zero.
    pub fn reduce(&mut self, amount: usize)
        ensures
            final(self).max() == old(self).max(),
            final(self).current() == old(self).after_damage(amount),
            final(self).current() <= old(self).current(),
            final(self).wf(),
    {
        proof {
            use_type_invariant(&*self);
        }
        if amount > self.current {
            self.current = 0
        } else {
            self.current -= amount
        }
    }

    #[verifier::when_used_as_spec(spec_alive)]
    pub fn alive(&self) -> (r: bool)
        ensures
            r == self.alive(),
    {
        self.current > 0
    }

    #[verifier::when_used_as_spec(spec_current)]
    pub fn current(&self) -> (r: usize)
        ensures
            r == self.current(),
            r <= self.max(),
    {
        proof {
            use_type_invariant(self);
        }
        self.current
    }

    #[verifier::when_used_as_spec(spec_max)]
    pub fn max(&self) -> (r: usize)
        ensures
            r == self.max(),
    {
        self.max
    }

}

impl Default for Health {
    fn default() -> (r: Self)
        ensures
            r.current() == 0,
            r.max() == 0,
    {
        Health { current: 0, max: 0 }
    }
}

impl RenderText for Health {
    /// A bar in brackets: one filled mark for each point left, then one
    /// mark for each point lost, hollow while alive and a cross when dead.
    open spec fn rendered(&self, localization: &Localization) -> Seq<char> {
        "["@ + repeated("▮"@, self.current() as nat) + repeated(
            if self.alive() {
                "▯"@
            } else {
                "X"@
            },
            (self.max() - self.current()) as nat,
        ) + "]"@
    }

    fn render_text(&self, _localization: &Localization) -> (r: String) {
        let current = self.current();
        let current_health = repeat("▮", current);
        let empty_health = if self.alive() {
            repeat("▯", self.max() - current)
        } else {
            repeat("X", self.max() - current)
        };
        let mut out = String::from_str("[");
        out.append(current_health.as_str());
        out.append(empty_health.as_str());
        out.append("]");
        out
    }
}

/// Health and the dodge that an attack has to reach.
#[derive(Clone, Copy, Debug, PartialEq, Eq, Structural, Hash)]
pub struct Vitality {
    health: Health,
    dodge: isize,
}

impl Vitality {
    pub closed spec fn spec_health(&self) -> &Health {
        &self.health
    }

    pub closed spec fn spec_dodge(&self) -> isize {
        self.dodge
    }

    /// The vitality of full health `max_health` and the given dodge.
    pub closed spec fn fresh(max_health: usize, dodge: isize) -> Vitality {
        Vitality { health: Health { current: max_health, max: max_health }, dodge }
    }

    /// This vitality after `damage` points of damage: the health is
    /// reduced, stopping at zero, and the dodge stays.
    pub closed spec fn damaged(self, damage: usize) -> Vitality {
        Vitality {
            health: Health {
                current: self.health.after_damage(damage) as usize,
                max: self.health.max,
            },
            dodge: self.dodge,
        }
    }

    /// This vitality with `modifier` added to the dodge, the sum brought
    /// into the range of `isize`.
    pub closed spec fn dodging(self, modifier: int) -> Vitality {
        Vitality { health: self.health, dodge: clamped(self.dodge + modifier) as isize }
    }

    /// Whether an attack of the given accuracy connects.
    pub open spec fn is_hit_by(self, accuracy: int) -> bool {
        accuracy >= self.dodge()
    }

    /// No health holds more than its maximum.
    pub open spec fn wf(self) -> bool {
        self.health().wf()
    }

    /// Full health of `max_health` points behind the given dodge.
    pub fn new(max_health: usize, dodge: isize) -> (r: Self)
        ensures
            r == Vitality::fresh(max_health, dodge),
            r.health().current() == max_health,
            r.health().max() == max_health,
            r.dodge() == dodge,
            r.wf(),
    {
        Vitality { health: Health::new(max_health), dodge }
    }

    #[verifier::when_used_as_spec(spec_health)]
    pub fn health(&self) -> (r: &Health)
        ensures
            r == self.health(),
            r.wf(),
    {
        proof {
            use_type_invariant(&self.health);
        }
        &self.health
    }

    #[verifier::when_used_as_spec(spec_dodge)]
    pub fn dodge(&self) -> (r: isize)
        ensures
            r == self.dodge(),
    {
        self.dodge
    }

    /// Adds `modifier` to the dodge; the sum stops at the bounds of `isize`.
    pub fn modify_dodge(&mut self, modifier: isize)
        ensures
            *final(self) == old(self).dodging(modifier as int),
            final(self).dodge() == clamped(old(self).dodge() + modifier),
            final(self).health() == old(self).health(),
    {
        self.dodge = saturating_sum(self.dodge, modifier);
    }

    /// Takes an attack: it connects when `accuracy` reaches the dodge, and
    /// then takes `damage` points of health away, stopping at zero.
    pub fn take_attack(&mut self, damage: usize, accuracy: isize) -> (hit: bool)
        ensures
            hit == old(self).is_hit_by(accuracy as int),
            *final(self) == if hit {
                old(self).damaged(damage)
            } else {
                *old(self)
            },
            final(self).dodge() == old(self).dodge(),
            final(self).health().max() == old(self).health().max(),
            final(self).health().current() == if hit {
                old(self).health().after_damage(damage)
            } else {
                old(self).health().current() as int
            },
            !hit ==> *final(self) == *old(self),
            final(self).wf(),
    {
        proof {
            use_type_invariant(&self.health);
        }
        if accuracy >= self.dodge {
            self.health.reduce(damage);
            return true;
        }
        false
    }

    /// The chance, in percent, that an attack of accuracy zero connects.
    pub open spec fn hit_chance(self) -> nat {
        if self.dodge() <= 0 {
            100
        } else if self.dodge() >= 100 {
            0
        } else {
            (100 - self.dodge()) as nat
        }
    }

    /// Damage leaves the dodge and the maximum as they are, takes the
    /// points away from the health, and never raises it.
    pub proof fn lemma_damaged(v: Vitality, damage: usize)
        ensures
            v.damaged(damage).dodge() == v.dodge(),
            v.damaged(damage).health().max() == v.health().max(),
            v.damaged(damage).health().current() == v.health().after_damage(damage),
            v.damaged(damage).health().current() <= v.health().current(),
            v.wf() ==> v.damaged(damage).wf(),
    {
    }

    /// A change of the dodge leaves the health as it is.
    pub proof fn lemma_dodging(v: Vitality, modifier: int)
        ensures
            v.dodging(modifier).dodge() == clamped(v.dodge() + modifier),
            v.dodging(modifier).health() == v.health(),
            v.wf() ==> v.dodging(modifier).wf(),
    {
    }

    /// A fresh vitality is told by its health and its dodge.
    pub proof fn lemma_fresh(max_health: usize, dodge: isize)
        ensures
            Vitality::fresh(max_health, dodge).health().current() == max_health,
            Vitality::fresh(max_health, dodge).health().max() == max_health,
            Vitality::fresh(max_health, dodge).dodge() == dodge,
            Vitality::fresh(max_health, dodge).wf(),
    {
    }
}

impl Default for Vitality {
    fn default() -> (r: Self)
        ensures
            r == Vitality::fresh(0, 0),
            r.health().current() == 0,
            r.health().max() == 0,
            r.dodge() == 0,
    {
        Vitality { health: Health::new(0), dodge: 0 }
    }
}

impl RenderText for Vitality {
    /// The health bar, and while alive the chance to be hit in percent.
    open spec fn rendered(&self, localization: &Localization) -> Seq<char> {
        if self.health().alive() {
            self.health().rendered(localization) + " - "@ + decimal(self.hit_chance()) + "%"@
        } else {
            self.health().rendered(localization)
        }
    }

    fn render_text(&self, localization: &Localization) -> (r: String) {
        if self.health.alive() {
            let dodge: usize = if self.dodge <= 0 {
                0
            } else {
                self.dodge as usize
            };
            let chance: usize = if dodge >= 100 {
                0
            } else {
                100 - dodge
            };
            let mut out = self.health.render_text(localization);
            out.append(" - ");
            out.append(usize_to_string(chance).as_str());
            out.append("%");
            out
        } else {
            self.health.render_text(localization)
        }
    }
}

/// The damage of an attack and the accuracy it is made with.
#[derive(Clone, Copy, Debug, PartialEq, Eq, Structural, PartialOrd, Ord, Hash)]
pub struct Attack {
    damage: usize,
    accuracy: isize,
}

impl Attack {
    pub closed spec fn spec_damage(&self) -> usize {
        self.damage
    }

    pub closed spec fn spec_accuracy(&self) -> isize {
        self.accuracy
    }

    /// The attack of the given damage and accuracy.
    pub closed spec fn of(damage: usize, accuracy: isize) -> Attack {
        Attack { damage, accuracy }
    }

    /// This attack with `modifier` added to the accuracy, the sum brought
    /// into the range of `isize`.
    pub closed spec fn aimed(self, modifier: int) -> Attack {
        Attack { damage: self.damage, accuracy: clamped(self.accuracy + modifier) as isize }
    }

    /// Whether this attack connects with `target` on the roll `acc_roll`.
    pub open spec fn hits(self, target: Vitality, acc_roll: int) -> bool {
        self.accuracy() + acc_roll >= target.dodge()
    }

    pub fn new(damage: usize, accuracy: isize) -> (r: Self)
        ensures
            r == Attack::of(damage, accuracy),
            r.damage() == damage,
            r.accuracy() == accuracy,
    {
        Attack { damage, accuracy }
    }

    #[verifier::when_used_as_spec(spec_damage)]
    pub fn damage(&self) -> (r: usize)
        ensures
            r == self.damage(),
    {
        self.damage
    }

    #[verifier::when_used_as_spec(spec_accuracy)]
    pub fn accuracy(&self) -> (r: isize)
        ensures
            r == self.accuracy(),
    {
        self.accuracy
    }

    /// Adds `modifier` to the accuracy; the sum stops at the bounds of
    /// `isize`.
    pub fn modify_accuracy(&mut self, modifier: isize)
        ensures
            *final(self) == old(self).aimed(modifier as int),
            final(self).accuracy() == clamped(old(self).accuracy() + modifier),
            final(self).damage() == old(self).damage(),
    {
        self.accuracy = saturating_sum(self.accuracy, modifier);
    }

    /// Attacks `target` on the roll `acc_roll`: the attack connects when
    /// accuracy and roll together reach the target's dodge, and then takes
    /// the damage away from the target's health, stopping at zero.
    pub fn attack(&self, target: &mut Vitality, acc_roll: isize) -> (hit: bool)
        ensures
            hit == self.hits(*old(target), acc_roll as int),
            *final(target) == if hit {
                old(target).damaged(self.damage())
            } else {
                *old(target)
            },
            final(target).dodge() == old(target).dodge(),
            final(target).health().max() == old(target).health().max(),
            final(target).health().current() == if hit {
                old(target).health().after_damage(self.damage())
            } else {
                old(target).health().current() as int
            },
            !hit ==> *final(target) == *old(target),
            final(target).wf(),
    {
        let total: i128 = self.accuracy as i128 + acc_roll as i128;
        if total < isize::MIN as i128 {
            proof {
                use_type_invariant(&target.health);
            }
            false
        } else if total > isize::MAX as i128 {
            target.take_attack(self.damage, isize::MAX)
        } else {
            target.take_attack(self.damage, total as isize)
        }
    }

    /// An attack is told by its damage and its accuracy: the attack of a
    /// given damage and accuracy has these, and no other attack has.
    pub proof fn lemma_of(damage: usize, accuracy: isize)
        ensures
            Attack::of(damage, accuracy).damage() == damage,
            Attack::of(damage, accuracy).accuracy() == accuracy,
            forall|attack: Attack|
                attack.damage() == damage && attack.accuracy() == accuracy ==> attack
                    == #[trigger] Attack::of(attack.damage(), attack.accuracy()),
    {
    }

    /// A change of the accuracy leaves the damage as it is.
    pub proof fn lemma_aimed(a: Attack, modifier: int)
        ensures
            a.aimed(modifier).accuracy() == clamped(a.accuracy() + modifier),
            a.aimed(modifier).damage() == a.damage(),
    {
    }

}

impl Default for Attack {
    fn default() -> (r: Self)
        ensures
            r == Attack::of(0, 0),
            r.damage() == 0,
            r.accuracy() == 0,
    {
        Attack { damage: 0, accuracy: 0 }
    }
}

impl RenderText for Attack {
    /// The word for attack, the damage, and the accuracy in percent.
    open spec fn rendered(&self, localization: &Localization) -> Seq<char> {
        localization.attack@ + " "@ + decimal(self.damage() as nat) + ", "@ + signed_decimal(
            self.accuracy() as int,
        ) + "%"@
    }

    fn render_text(&self, localization: &Localization) -> (r: String) {
        let mut out = localization.attack.0.clone();
        out.append(" ");
        out.append(usize_to_string(self.damage).as_str());
        out.append(", ");
        out.append(isize_to_string(self.accuracy).as_str());
        out.append("%");
        out
    }
}

/// The five parts of the machine.
#[derive(Clone, Copy, Debug, PartialEq, Eq, Structural, PartialOrd, Ord, Hash)]
pub enum BygonePart {
    Core,
    Sensor,
    Gun,
    LeftWing,
    RightWing,
}

impl RenderText for BygonePart {
    /// The name of the part.
    open spec fn rendered(&self, localization: &Localization) -> Seq<char> {
        match self {
            BygonePart::Core => localization.core@,
            BygonePart::Sensor => localization.sensor@,
            BygonePart::Gun => localization.gun@,
            BygonePart::LeftWing => localization.left_wing@,
            BygonePart::RightWing => localization.right_wing@,
        }
    }

    fn render_text(&self, localization: &Localization) -> (r: String) {
        match self {
            BygonePart::Core => localization.core.0.clone(),
            BygonePart::Sensor => localization.sensor.0.clone(),
            BygonePart::Gun => localization.gun.0.clone(),
            BygonePart::LeftWing => localization.left_wing.0.clone(),
            BygonePart::RightWing => localization.right_wing.0.clone(),
        }
    }
}

/// The stages that the machine's core goes through, in order.
#[derive(Clone, Copy, Debug, PartialEq, Eq, Structural, PartialOrd, Ord, Hash)]
pub enum Bygone03Stage {
    Armored,
    Exposed,
    Burning,
    Defeated,
}

impl Bygone03Stage {
    /// The place of the stage in the order of stages.
    pub open spec fn rank(self) -> nat {
        match self {
            Bygone03Stage::Armored => 0,
            Bygone03Stage::Exposed => 1,
            Bygone03Stage::Burning => 2,
            Bygone03Stage::Defeated => 3,
        }
    }

    pub open spec fn spec_next(self) -> Self {
        match self {
            Bygone03Stage::Armored => Bygone03Stage::Exposed,
            Bygone03Stage::Exposed => Bygone03Stage::Burning,
            Bygone03Stage::Burning => Bygone03Stage::Defeated,
            Bygone03Stage::Defeated => Bygone03Stage::Defeated,
        }
    }

    pub open spec fn spec_terminal(&self) -> bool {
        *self == Bygone03Stage::Defeated
    }

    /// The stage after `n` advances.
    pub open spec fn advanced(self, n: nat) -> Self
        decreases n,
    {
        if n == 0 {
            self
        } else {
            self.advanced((n - 1) as nat).next()
        }
    }

    /// The stage that follows; the last stage follows itself.
    #[verifier::when_used_as_spec(spec_next)]
    pub fn next(self) -> (r: Self)
        ensures
            r == self.next(),
            r.rank() >= self.rank(),
            r.rank() == if self.rank() < 3 {
                self.rank() + 1
            } else {
                3
            },
    {
        match self {
            Self::Armored => Self::Exposed,
            Self::Exposed => Self::Burning,
            Self::Burning => Self::Defeated,
            Self::Defeated => Self::Defeated,
        }
    }

    /// Whether this is the last stage.
    #[verifier::when_used_as_spec(spec_terminal)]
    pub fn terminal(&self) -> (r: bool)
        ensures
            r == self.terminal(),
            r == (self.rank() == 3),
    {
        match self {
            Self::Defeated => true,
            _ => false,
        }
    }

    /// A stage never goes back: the stage that follows is never earlier
    /// in the order than the stage itself.
    pub proof fn lemma_next_monotone(stage: Bygone03Stage)
        ensures
            stage.next().rank() >= stage.rank(),
    {
    }

    /// Advancing any number of times never goes back, and ends at the rank
    /// of the last stage at the latest.
    pub proof fn lemma_advanced_rank(stage: Bygone03Stage, n: nat)
        ensures
            stage.advanced(n).rank() == if stage.rank() + n < 3 {
                stage.rank() + n
            } else {
                3
            },
            stage.advanced(n).rank() >= stage.rank(),
        decreases n,
    {
        if n > 0 {
            Self::lemma_advanced_rank(stage, (n - 1) as nat);
        }
    }

    /// From the first stage, three advances reach the last stage, and every
    /// further advance changes nothing.
    pub proof fn lemma_advance_saturates(n: nat)
        requires
            n >= 3,
        ensures
            Bygone03Stage::Armored.advanced(n) == Bygone03Stage::Defeated,
            Bygone03Stage::Armored.advanced(n).next() == Bygone03Stage::Armored.advanced(n),
            Bygone03Stage::Armored.advanced(n + 1) == Bygone03Stage::Armored.advanced(n),
    {
        Self::lemma_advanced_rank(Bygone03Stage::Armored, n);
        Self::lemma_advanced_rank(Bygone03Stage::Armored, n + 1);
    }
}

impl RenderText for Bygone03Stage {
    /// The label of the stage.
    open spec fn rendered(&self, localization: &Localization) -> Seq<char> {
        match self {
            Bygone03Stage::Armored => localization.core_armored@,
            Bygone03Stage::Exposed => localization.core_exposed@,
            Bygone03Stage::Burning => localization.core_burning@,
            Bygone03Stage::Defeated => localization.core_destroyed@,
        }
    }

    fn render_text(&self, localization: &Localization) -> (r: String) {
        match self {
            Bygone03Stage::Armored => localization.core_armored.0.clone(),
            Bygone03Stage::Exposed => localization.core_exposed.0.clone(),
            Bygone03Stage::Burning => localization.core_burning.0.clone(),
            Bygone03Stage::Defeated => localization.core_destroyed.0.clone(),
        }
    }
}

/// Marks an entity as the machine.
#[derive(Clone, Copy, Debug, PartialEq, Eq, Structural, PartialOrd, Ord, Hash)]
pub struct Enemy;

/// Marks an entity as a player.
#[derive(Clone, Copy, Debug, PartialEq, Eq, Structural, PartialOrd, Ord, Hash)]
pub struct Player;

/// The tag of an entity that takes part in the resolution of attacks.
#[derive(Clone, Copy, Debug, PartialEq, Eq, Structural, PartialOrd, Ord, Hash)]
pub struct Active;

/// The tag of a player who may still attack in this turn.
#[derive(Clone, Copy, Debug, PartialEq, Eq, Structural, PartialOrd, Ord, Hash)]
pub struct Ready;

/// The name under which a player appears in the battle.
#[derive(Debug, PartialEq, Eq, PartialOrd, Ord, Hash)]
pub struct PlayerName(pub String);

impl Clone for PlayerName {
    fn clone(&self) -> (r: Self)
        ensures
            r == *self,
    {
        PlayerName(self.0.clone())
    }
}

impl View for PlayerName {
    type V = Seq<char>;

    open spec fn view(&self) -> Seq<char> {
        self.0@
    }
}

/// The guild that an entity belongs to.
#[derive(Clone, Copy, Debug, PartialEq, Eq, Structural, PartialOrd, Ord, Hash)]
pub struct GuildIdComponent(pub GuildId);

/// The user behind a player.
#[derive(Clone, Copy, Debug, PartialEq, Eq, Structural, PartialOrd, Ord, Hash)]
pub struct UserIdComponent(pub UserId);

/// The identity of one battle.
#[derive(Clone, Copy, Debug, PartialEq, Eq, Structural, PartialOrd, Ord, Hash)]
pub struct GameId(pub u128);

impl GameId {
    /// The identity made of a time in nanoseconds and a salt: their sum,
    /// wrapping at the width of the number.
    pub open spec fn of(nanos: u128, salt: u128) -> GameId {
        GameId(((nanos + salt) % (u128::MAX + 1)) as u128)
    }

    /// The identity made of a time in nanoseconds and a salt.
    pub fn from_nanos(nanos: u128, salt: u128) -> (r: Self)
        ensures
            r == GameId::of(nanos, salt),
    {
        GameId(nanos.wrapping_add(salt))
    }

    /// The identity made of the wall clock's time and a salt. Some time
    /// `nanos` was read, and the identity is that of `nanos` and `salt`.
    pub fn from_current_time(salt: u128) -> (r: Self)
        ensures
            exists|nanos: u128| r == GameId::of(nanos, salt),
    {
        let nanos = unix_nanos();
        GameId::from_nanos(nanos, salt)
    }
}

} // verus!
