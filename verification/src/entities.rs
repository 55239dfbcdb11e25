//! Entities with signed health: a passive one takes attacks, an aggressive
//! one makes them too. Rolls of the dice lower the accuracy of an attack.

use vstd::prelude::*;
use rand::rngs::ThreadRng;
use rand::Rng;

verus! {

#[verifier::external_type_specification]
#[verifier::external_body]
pub struct ExThreadRng(ThreadRng);

/// Calls `rand::thread_rng`. Trusted: nothing is claimed of the generator.
#[verifier::external_body]
fn thread_rng() -> (r: ThreadRng) {
    rand::thread_rng()
}

/// Calls `Rng::gen_range` of rand on the range from `low` up to, but not
/// including, `high`. Trusted: the number drawn lies in that range. The
/// call panics on an empty range, which `requires` leaves out.
#[verifier::external_body]
fn gen_range_isize(rng: &mut ThreadRng, low: isize, high: isize) -> (r: isize)
    requires
        low < high,
    ensures
        low <= r < high,
{
    rng.gen_range(low..high)
}

/// Calls `Rng::gen_range` of rand on the range from `low` up to, but not
/// including, `high`. Trusted: the number drawn lies in that range. The
/// call panics on an empty range, which `requires` leaves out.
#[verifier::external_body]
fn gen_range_usize(rng: &mut ThreadRng, low: usize, high: usize) -> (r: usize)
    requires
        low < high,
    ensures
        low <= r < high,
{
    rng.gen_range(low..high)
}

/// Health points, which an attack may take below zero.
#[derive(Clone, Copy, Debug, PartialEq, Eq, Structural, Hash)]
pub struct Health {
    current: isize,
    max: isize,
}

impl Health {
    pub closed spec fn spec_current(&self) -> isize {
        self.current
    }

    pub closed spec fn spec_max(&self) -> isize {
        self.max
    }

    pub open spec fn spec_alive(&self) -> bool {
        self.current() > 0
    }

    /// The health of the given points and maximum.
    pub closed spec fn of(current: isize, max: isize) -> Health {
        Health { current, max }
    }

    /// A health is told by its points and its maximum: the health of
    /// given points and a given maximum has these, and no other health has.
    pub proof fn lemma_of(current: isize, max: isize)
        ensures
            Health::of(current, max).current() == current,
            Health::of(current, max).max() == max,
            forall|health: Health|
                health.current() == current && health.max() == max ==> health
                    == #[trigger] Health::of(health.current(), health.max()),
    {
    }

    pub(crate) fn new(current: isize, max: isize) -> (r: Self)
        ensures
            r == Health::of(current, max),
            r.current() == current,
            r.max() == max,
    {
        Health { current, max }
    }

    /// Takes `amount` points away.
    pub(crate) fn reduce(&mut self, amount: isize)
        requires
            isize::MIN <= old(self).current() - amount <= isize::MAX,
        ensures
            *final(self) == Health::of((old(self).current() - amount) as isize, old(self).max()),
            final(self).current() == old(self).current() - amount,
            final(self).max() == old(self).max(),
    {
        self.current -= amount
    }

    #[verifier::when_used_as_spec(spec_alive)]
    pub fn alive(&self) -> (r: bool)
        ensures
            r == self.alive(),
    {
        self.current > 0
    }

    #[verifier::when_used_as_spec(spec_current)]
    pub fn current(&self) -> (r: isize)
        ensures
            r == self.current(),
    {
        self.current
    }

    #[verifier::when_used_as_spec(spec_max)]
    pub fn max(&self) -> (r: isize)
        ensures
            r == self.max(),
    {
        self.max
    }
}

/// Health and the dodge that an attack has to exceed.
#[derive(Clone, Copy, Debug, PartialEq, Eq, Structural, Hash)]
pub struct Vitality {
    health: Health,
    dodge: isize,
}

impl Vitality {
    pub closed spec fn spec_health(&self) -> &Health {
        &self.health
    }

    pub closed spec fn spec_dodge(&self) -> isize {
        self.dodge
    }

    /// The vitality of the given health and dodge.
    pub closed spec fn of(health: Health, dodge: isize) -> Vitality {
        Vitality { health, dodge }
    }

    /// This vitality after an attack: one whose accuracy exceeds the dodge
    /// takes its damage away from the health.
    pub open spec fn after_attack(self, damage: isize, accuracy: int) -> Vitality {
        if accuracy > self.dodge() {
            Vitality::of(
                Health::of((self.health().current() - damage) as isize, self.health().max()),
                self.dodge(),
            )
        } else {
            self
        }
    }

    /// Whether `post` is this vitality after an attack: the dodge and the
    /// maximum stay, and an attack whose accuracy exceeds the dodge takes
    /// its damage away from the health.
    pub open spec fn struck(self, post: Vitality, damage: isize, accuracy: int) -> bool {
        &&& post.dodge() == self.dodge()
        &&& post.health().max() == self.health().max()
        &&& post.health().current() == if accuracy > self.dodge() {
            self.health().current() - damage
        } else {
            self.health().current() as int
        }
    }

    /// A vitality is told by its health and its dodge: the vitality of a
    /// given health and dodge has these, and no other vitality has.
    pub proof fn lemma_of(health: Health, dodge: isize)
        ensures
            Vitality::of(health, dodge).health() == health,
            Vitality::of(health, dodge).dodge() == dodge,
            forall|vitality: Vitality|
                vitality.health() == health && vitality.dodge() == dodge ==> vitality
                    == #[trigger] Vitality::of(*vitality.health(), vitality.dodge()),
    {
    }

    /// A vitality after an attack is the vitality that was struck.
    pub proof fn lemma_after_attack(vitality: Vitality, damage: isize, accuracy: int)
        requires
            isize::MIN <= vitality.health().current() - damage <= isize::MAX,
        ensures
            vitality.struck(vitality.after_attack(damage, accuracy), damage, accuracy),
    {
        Health::lemma_of(
            (vitality.health().current() - damage) as isize,
            vitality.health().max(),
        );
    }

    pub(crate) fn new(health: Health, dodge: isize) -> (r: Self)
        ensures
            r == Vitality::of(health, dodge),
            r.health() == health,
            r.dodge() == dodge,
    {
        Vitality { health, dodge }
    }

    #[verifier::when_used_as_spec(spec_health)]
    pub fn health(&self) -> (r: &Health)
        ensures
            r == self.health(),
    {
        &self.health
    }

    #[verifier::when_used_as_spec(spec_dodge)]
    pub fn dodge(&self) -> (r: isize)
        ensures
            r == self.dodge(),
    {
        self.dodge
    }

    /// Adds `modifier` to the dodge.
    pub fn modify_dodge(&mut self, modifier: isize)
        requires
            isize::MIN <= old(self).dodge() + modifier <= isize::MAX,
        ensures
            *final(self) == Vitality::of(
                *old(self).health(),
                (old(self).dodge() + modifier) as isize,
            ),
            final(self).dodge() == old(self).dodge() + modifier,
            final(self).health() == old(self).health(),
    {
        self.dodge += modifier
    }

    /// Takes an attack: see `after_attack`.
    pub(crate) fn take_attack(&mut self, damage: isize, accuracy: isize)
        requires
            isize::MIN <= old(self).health().current() - damage <= isize::MAX,
        ensures
            *final(self) == old(self).after_attack(damage, accuracy as int),
            old(self).struck(*final(self), damage, accuracy as int),
    {
        if accuracy > self.dodge {
            self.health.reduce(damage)
        }
    }
}

/// The damage of an attack and the accuracy it is made with.
#[derive(Clone, Copy, Debug, PartialEq, Eq, Structural, Hash)]
pub struct Attack {
    damage: isize,
    accuracy: isize,
}

impl Attack {
    pub closed spec fn spec_damage(&self) -> isize {
        self.damage
    }

    pub closed spec fn spec_accuracy(&self) -> isize {
        self.accuracy
    }

    /// The attack of the given damage and accuracy.
    pub closed spec fn of(damage: isize, accuracy: isize) -> Attack {
        Attack { damage, accuracy }
    }

    /// An attack is told by its damage and its accuracy: the attack of a
    /// given damage and accuracy has these, and no other attack has.
    pub proof fn lemma_of(damage: isize, accuracy: isize)
        ensures
            Attack::of(damage, accuracy).damage() == damage,
            Attack::of(damage, accuracy).accuracy() == accuracy,
            forall|attack: Attack|
                attack.damage() == damage && attack.accuracy() == accuracy ==> attack
                    == #[trigger] Attack::of(attack.damage(), attack.accuracy()),
    {
    }

    pub(crate) fn new(damage: isize, accuracy: isize) -> (r: Self)
        ensures
            r == Attack::of(damage, accuracy),
            r.damage() == damage,
            r.accuracy() == accuracy,
    {
        Attack { damage, accuracy }
    }

    #[verifier::when_used_as_spec(spec_damage)]
    pub fn damage(&self) -> (r: isize)
        ensures
            r == self.damage(),
    {
        self.damage
    }

    #[verifier::when_used_as_spec(spec_accuracy)]
    pub fn accuracy(&self) -> (r: isize)
        ensures
            r == self.accuracy(),
    {
        self.accuracy
    }

    /// Takes `amount` away from the accuracy.
    pub fn reduce_accuracy(&mut self, amount: isize)
        requires
            isize::MIN <= old(self).accuracy() - amount <= isize::MAX,
        ensures
            *final(self) == Attack::of(old(self).damage(), (old(self).accuracy() - amount) as isize),
            final(self).accuracy() == old(self).accuracy() - amount,
            final(self).damage() == old(self).damage(),
    {
        self.accuracy -= amount
    }

    /// Attacks `target` with this attack's accuracy as it is.
    pub(crate) fn attack(&self, target: &mut Vitality)
        requires
            isize::MIN <= old(target).health().current() - self.damage() <= isize::MAX,
        ensures
            *final(target) == old(target).after_attack(self.damage(), self.accuracy() as int),
            old(target).struck(*final(target), self.damage(), self.accuracy() as int),
    {
        target.take_attack(self.damage, self.accuracy)
    }
}

/// The dice of these entities.
#[derive(Debug)]
pub struct Random {
    rng: ThreadRng,
}

impl Random {
    /// Dice that draw from the generator of the thread.
    pub fn new() -> (r: Self) {
        Random { rng: thread_rng() }
    }

    /// Lets `attack` meet `vitality` on the roll `roll`, which lowers the
    /// accuracy of the attack.
    pub fn collide_with(attack: &Attack, vitality: &mut Vitality, roll: isize)
        requires
            isize::MIN <= attack.accuracy() - roll <= isize::MAX,
            isize::MIN <= old(vitality).health().current() - attack.damage() <= isize::MAX,
        ensures
            *final(vitality) == old(vitality).after_attack(
                attack.damage(),
                attack.accuracy() - roll,
            ),
            old(vitality).struck(*final(vitality), attack.damage(), attack.accuracy() - roll),
    {
        let attack_roll = Attack::new(attack.damage, attack.accuracy - roll);
        attack_roll.attack(vitality)
    }

    /// Lets `attack` meet `vitality` on a roll from 0 to 99, which lowers
    /// the accuracy of the attack.
    pub fn collide(&mut self, attack: &Attack, vitality: &mut Vitality)
        requires
            attack.accuracy() >= isize::MIN + 99,
            isize::MIN <= old(vitality).health().current() - attack.damage() <= isize::MAX,
        ensures
            exists|roll: int|
                0 <= roll < 100 && *final(vitality) == #[trigger] old(vitality).after_attack(
                    attack.damage(),
                    attack.accuracy() - roll,
                ) && old(vitality).struck(
                    *final(vitality),
                    attack.damage(),
                    attack.accuracy() - roll,
                ),
    {
        let roll = gen_range_isize(&mut self.rng, 0, 100);
        Self::collide_with(attack, vitality, roll);
    }

    /// One of the items, picked by the dice.
    pub fn pick<'a, T>(&mut self, items: &'a [T]) -> (r: &'a T)
        requires
            items@.len() > 0,
        ensures
            exists|i: int| 0 <= i < items@.len() && *r == items@[i],
    {
        let i = gen_range_usize(&mut self.rng, 0, items.len());
        &items[i]
    }

    /// One of the items, picked by the dice, to be changed in its place.
    pub fn choose_mut<'a, T>(&mut self, items: &'a mut [T]) -> (r: &'a mut T)
        requires
            old(items)@.len() > 0,
        ensures
            exists|i: int|
                0 <= i < old(items)@.len() && *r == old(items)@[i] && final(items)@ == old(
                    items,
                )@.update(i, *final(r)),
    {
        let i = gen_range_usize(&mut self.rng, 0, items.len());
        &mut items[i]
    }
}

/// An entity that takes attacks and makes none.
#[derive(Clone, Copy, Debug, PartialEq, Eq, Structural, Hash)]
pub struct PassiveEntity {
    vitality: Vitality,
}

impl PassiveEntity {
    pub closed spec fn spec_vitality(&self) -> &Vitality {
        &self.vitality
    }

    #[verifier::when_used_as_spec(spec_vitality)]
    pub fn vitality(&self) -> (r: &Vitality)
        ensures
            r == self.vitality(),
    {
        &self.vitality
    }

    /// The vitality, to be changed in its place.
    pub fn vitality_mut(&mut self) -> (r: &mut Vitality)
        ensures
            *r == *old(self).vitality(),
            *final(self).vitality() == *final(r),
    {
        &mut self.vitality
    }
}

/// An entity that takes attacks and makes them.
#[derive(Clone, Copy, Debug, PartialEq, Eq, Structural, Hash)]
pub struct AggressiveEntity {
    vitality: Vitality,
    attack: Attack,
}

impl AggressiveEntity {
    pub closed spec fn spec_vitality(&self) -> &Vitality {
        &self.vitality
    }

    pub closed spec fn spec_attack(&self) -> &Attack {
        &self.attack
    }

    #[verifier::when_used_as_spec(spec_vitality)]
    pub fn vitality(&self) -> (r: &Vitality)
        ensures
            r == self.vitality(),
    {
        &self.vitality
    }

    /// The vitality, to be changed in its place.
    pub fn vitality_mut(&mut self) -> (r: &mut Vitality)
        ensures
            *r == *old(self).vitality(),
            *final(self).vitality() == *final(r),
            *final(self).attack() == *old(self).attack(),
    {
        &mut self.vitality
    }

    #[verifier::when_used_as_spec(spec_attack)]
    pub fn attack(&self) -> (r: &Attack)
        ensures
            r == self.attack(),
    {
        &self.attack
    }

    /// The attack, to be changed in its place.
    pub fn attack_mut(&mut self) -> (r: &mut Attack)
        ensures
            *r == *old(self).attack(),
            *final(self).attack() == *final(r),
            *final(self).vitality() == *old(self).vitality(),
    {
        &mut self.attack
    }
}

/// An entity of either kind.
#[derive(Clone, Copy, Debug, PartialEq, Eq, Structural, Hash)]
pub enum Entity {
    Passive(PassiveEntity),
    Aggressive(AggressiveEntity),
}

impl Entity {
    /// The vitality of full health `max_health` and the given dodge.
    pub open spec fn full(max_health: isize, dodge: isize) -> Vitality {
        Vitality::of(Health::of(max_health, max_health), dodge)
    }

    /// A passive entity at full health.
    pub fn passive(max_health: isize, dodge: isize) -> (r: PassiveEntity)
        ensures
            *r.vitality() == Entity::full(max_health, dodge),
            r.vitality().health().current() == max_health,
            r.vitality().health().max() == max_health,
            r.vitality().dodge() == dodge,
    {
        PassiveEntity { vitality: Entity::full_health(max_health, dodge) }
    }

    /// An aggressive entity at full health.
    pub fn aggressive(max_health: isize, dodge: isize, attack_damage: isize, accuracy: isize) -> (r:
        AggressiveEntity)
        ensures
            *r.vitality() == Entity::full(max_health, dodge),
            *r.attack() == Attack::of(attack_damage, accuracy),
            r.vitality().health().current() == max_health,
            r.vitality().health().max() == max_health,
            r.vitality().dodge() == dodge,
            r.attack().damage() == attack_damage,
            r.attack().accuracy() == accuracy,
    {
        AggressiveEntity {
            vitality: Entity::full_health(max_health, dodge),
            attack: Attack::new(attack_damage, accuracy),
        }
    }

    pub(crate) fn full_health(max_health: isize, dodge: isize) -> (r: Vitality)
        ensures
            r == Entity::full(max_health, dodge),
            r.health().current() == max_health,
            r.health().max() == max_health,
            r.dodge() == dodge,
    {
        Vitality::new(Health::new(max_health, max_health), dodge)
    }
}

} // verus!
