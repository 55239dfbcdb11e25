//! A duel: one hero against the machine, whose parts are hit by chance.

use vstd::prelude::*;
use vstd::string::*;
use crate::bundles::Bygone03Bundle;
use crate::text::{isize_to_string, signed_decimal};

verus! {

/// Health points that damage takes away, but not below zero.
#[derive(Clone, Copy, Debug, PartialEq, Eq, Structural, Hash)]
pub struct HealthPool {
    max_health: isize,
    current_health: isize,
}

impl HealthPool {
    pub closed spec fn max_health(self) -> isize {
        self.max_health
    }

    pub closed spec fn current_health(self) -> isize {
        self.current_health
    }

    /// The pool of the given maximum and points.
    pub closed spec fn of(max_health: isize, current_health: isize) -> HealthPool {
        HealthPool { max_health, current_health }
    }

    /// The points that are left after `damage`: none where the damage
    /// exceeds them.
    pub open spec fn left_after(self, damage: isize) -> int {
        if damage > self.current_health() {
            0
        } else {
            self.current_health() - damage
        }
    }

    pub open spec fn spec_alive(&self) -> bool {
        self.current_health() > 0
    }

    /// A pool is told by its maximum and its points: the pool of a given
    /// maximum and given points has these, and no other pool has.
    pub proof fn lemma_of(max_health: isize, current_health: isize)
        ensures
            HealthPool::of(max_health, current_health).max_health() == max_health,
            HealthPool::of(max_health, current_health).current_health() == current_health,
            forall|pool: HealthPool|
                pool.max_health() == max_health && pool.current_health() == current_health ==> pool
                    == #[trigger] HealthPool::of(pool.max_health(), pool.current_health()),
    {
    }

    /// A full pool of `max_health` points.
    pub fn full(max_health: isize) -> (r: Self)
        ensures
            r == HealthPool::of(max_health, max_health),
            r.max_health() == max_health,
            r.current_health() == max_health,
    {
        HealthPool { max_health, current_health: max_health }
    }

    /// Takes `damage` points away; damage that exceeds the points leaves
    /// none.
    pub fn damage(&mut self, damage: isize)
        requires
            old(self).left_after(damage) <= isize::MAX,
        ensures
            *final(self) == HealthPool::of(
                old(self).max_health(),
                old(self).left_after(damage) as isize,
            ),
            final(self).current_health() == old(self).left_after(damage),
            final(self).max_health() == old(self).max_health(),
    {
        if damage > self.current_health {
            self.current_health = 0
        } else {
            self.current_health -= damage
        }
    }

    #[verifier::when_used_as_spec(spec_alive)]
    pub fn alive(&self) -> (r: bool)
        ensures
            r == self.alive(),
    {
        self.current_health > 0
    }
}

/// The hero of the duel.
#[derive(Clone, Copy, Debug, PartialEq, Eq, Structural, Hash)]
pub struct Hero {
    health: HealthPool,
    hit_chance: isize,
    attack_damage: isize,
}

impl Hero {
    pub closed spec fn health(self) -> HealthPool {
        self.health
    }

    pub closed spec fn hit_chance(self) -> isize {
        self.hit_chance
    }

    pub closed spec fn attack_damage(self) -> isize {
        self.attack_damage
    }

    pub open spec fn spec_alive(&self) -> bool {
        self.health().alive()
    }

    pub open spec fn spec_shoot(&self) -> isize {
        self.attack_damage()
    }

    /// A hero of six points of health, who is always hit and deals one
    /// point of damage.
    pub(crate) fn new() -> (r: Self)
        ensures
            r.health() == HealthPool::of(6, 6),
            r.health().max_health() == 6,
            r.health().current_health() == 6,
            r.hit_chance() == 100,
            r.attack_damage() == 1,
    {
        Hero { health: HealthPool::full(6), hit_chance: 100, attack_damage: 1 }
    }

    /// Takes `damage` where the roll stays below the chance to be hit.
    pub fn damage(&mut self, damage: isize, hit_chance_roll: isize)
        requires
            old(self).health().left_after(damage) <= isize::MAX,
        ensures
            final(self).hit_chance() == old(self).hit_chance(),
            final(self).attack_damage() == old(self).attack_damage(),
            final(self).health() == if hit_chance_roll < old(self).hit_chance() {
                HealthPool::of(
                    old(self).health().max_health(),
                    old(self).health().left_after(damage) as isize,
                )
            } else {
                old(self).health()
            },
            final(self).health().max_health() == old(self).health().max_health(),
            final(self).health().current_health() == if hit_chance_roll < old(self).hit_chance() {
                old(self).health().left_after(damage)
            } else {
                old(self).health().current_health() as int
            },
    {
        if hit_chance_roll < self.hit_chance {
            self.health.damage(damage)
        }
    }

    #[verifier::when_used_as_spec(spec_alive)]
    pub fn alive(&self) -> (r: bool)
        ensures
            r == self.alive(),
    {
        self.health.alive()
    }

    /// The damage of the hero's shot.
    #[verifier::when_used_as_spec(spec_shoot)]
    pub fn shoot(&self) -> (r: isize)
        ensures
            r == self.shoot(),
    {
        self.attack_damage
    }
}

/// A part of the machine, hit by chance.
#[derive(Clone, Copy, Debug, PartialEq, Eq, Structural, Hash)]
pub struct BygoneBodyPart {
    hit_chance: isize,
    health: HealthPool,
}

impl BygoneBodyPart {
    pub closed spec fn hit_chance(self) -> isize {
        self.hit_chance
    }

    pub closed spec fn health(self) -> HealthPool {
        self.health
    }

    /// The part of the given chance to be hit and health.
    pub closed spec fn of(hit_chance: isize, health: HealthPool) -> BygoneBodyPart {
        BygoneBodyPart { hit_chance, health }
    }

    pub open spec fn spec_alive(&self) -> bool {
        self.health().alive()
    }

    /// This part after `damage` on the given roll: the damage is taken
    /// where the roll stays below the chance to be hit.
    pub open spec fn after_damage(self, damage: isize, hit_chance_roll: int) -> BygoneBodyPart {
        if hit_chance_roll < self.hit_chance() {
            BygoneBodyPart::of(
                self.hit_chance(),
                HealthPool::of(
                    self.health().max_health(),
                    self.health().left_after(damage) as isize,
                ),
            )
        } else {
            self
        }
    }

    /// Whether the part has the given chance to be hit, maximum and points
    /// of health.
    pub open spec fn holds(self, hit_chance: int, max_health: int, current_health: int) -> bool {
        &&& self.hit_chance() == hit_chance
        &&& self.health().max_health() == max_health
        &&& self.health().current_health() == current_health
    }

    /// Whether `post` is this part after `damage` on the given roll: the
    /// chance to be hit and the maximum stay, and the damage is taken
    /// where the roll stays below the chance to be hit.
    pub open spec fn shot(self, post: BygoneBodyPart, damage: isize, hit_chance_roll: int) -> bool {
        post.holds(
            self.hit_chance() as int,
            self.health().max_health() as int,
            if hit_chance_roll < self.hit_chance() {
                self.health().left_after(damage)
            } else {
                self.health().current_health() as int
            },
        )
    }

    /// A part is told by its chance to be hit and its health: the part of
    /// a given chance and health has these, and a part after damage is the
    /// part that was shot.
    pub proof fn lemma_of(hit_chance: isize, health: HealthPool)
        ensures
            BygoneBodyPart::of(hit_chance, health).hit_chance() == hit_chance,
            BygoneBodyPart::of(hit_chance, health).health() == health,
            forall|part: BygoneBodyPart|
                part.hit_chance() == hit_chance && part.health() == health ==> part
                    == #[trigger] BygoneBodyPart::of(part.hit_chance(), part.health()),
    {
    }

    /// A part after damage is the part that was shot.
    pub proof fn lemma_after_damage(part: BygoneBodyPart, damage: isize, hit_chance_roll: int)
        requires
            part.health().left_after(damage) <= isize::MAX,
        ensures
            part.shot(part.after_damage(damage, hit_chance_roll), damage, hit_chance_roll),
    {
        HealthPool::lemma_of(
            part.health().max_health(),
            part.health().left_after(damage) as isize,
        );
    }

    /// How the part shows: the chance to be hit in percent while alive, a
    /// cross when dead.
    pub open spec fn rendered(self, dodge_penalty: isize) -> Seq<char> {
        if self.alive() {
            signed_decimal(self.hit_chance() + dodge_penalty) + "%"@
        } else {
            "X"@
        }
    }

    pub(crate) fn new(hit_chance: isize, max_health: isize) -> (r: Self)
        ensures
            r == BygoneBodyPart::of(hit_chance, HealthPool::of(max_health, max_health)),
            r.hit_chance() == hit_chance,
            r.health() == HealthPool::of(max_health, max_health),
            r.holds(hit_chance as int, max_health as int, max_health as int),
    {
        BygoneBodyPart { hit_chance, health: HealthPool::full(max_health) }
    }

    /// Takes `damage` where the roll stays below the chance to be hit.
    pub fn damage(&mut self, damage: isize, hit_chance_roll: isize)
        requires
            old(self).health().left_after(damage) <= isize::MAX,
        ensures
            *final(self) == old(self).after_damage(damage, hit_chance_roll as int),
            old(self).shot(*final(self), damage, hit_chance_roll as int),
    {
        if hit_chance_roll < self.hit_chance {
            self.health.damage(damage)
        }
    }

    #[verifier::when_used_as_spec(spec_alive)]
    pub fn alive(&self) -> (r: bool)
        ensures
            r == self.alive(),
    {
        self.health.alive()
    }

    /// How the part shows: see `rendered`.
    pub fn render(&self, dodge_penalty: isize) -> (r: String)
        requires
            self.alive() ==> isize::MIN <= self.hit_chance() + dodge_penalty <= isize::MAX,
        ensures
            r@ == self.rendered(dodge_penalty),
    {
        if self.alive() {
            let mut out = isize_to_string(self.hit_chance + dodge_penalty);
            out.append("%");
            out
        } else {
            String::from_str("X")
        }
    }
}

/// The machine of the duel.
#[derive(Clone, Copy, Debug, PartialEq, Eq, Structural, Hash)]
pub struct Bygone {
    sensor: BygoneBodyPart,
    core: BygoneBodyPart,
    left_wing: BygoneBodyPart,
    right_wing: BygoneBodyPart,
    gun: BygoneBodyPart,
    attack_damage: isize,
}

impl Bygone {
    pub closed spec fn sensor_part(self) -> BygoneBodyPart {
        self.sensor
    }

    pub closed spec fn core_part(self) -> BygoneBodyPart {
        self.core
    }

    pub closed spec fn left_wing_part(self) -> BygoneBodyPart {
        self.left_wing
    }

    pub closed spec fn right_wing_part(self) -> BygoneBodyPart {
        self.right_wing
    }

    pub closed spec fn gun_part(self) -> BygoneBodyPart {
        self.gun
    }

    pub closed spec fn attack_damage(self) -> isize {
        self.attack_damage
    }

    /// The machine of the given parts and damage.
    pub closed spec fn of(
        sensor: BygoneBodyPart,
        core: BygoneBodyPart,
        left_wing: BygoneBodyPart,
        right_wing: BygoneBodyPart,
        gun: BygoneBodyPart,
        attack_damage: isize,
    ) -> Bygone {
        Bygone { sensor, core, left_wing, right_wing, gun, attack_damage }
    }

    pub open spec fn spec_alive(&self) -> bool {
        self.core_part().alive()
    }

    pub open spec fn spec_shoot(&self) -> isize {
        self.attack_damage()
    }

    /// What every roll against the machine is lowered by: ten for each
    /// dead wing.
    pub open spec fn spec_dodge_penalty(&self) -> isize {
        if self.left_wing_part().alive() && self.right_wing_part().alive() {
            0
        } else if self.left_wing_part().alive() || self.right_wing_part().alive() {
            10
        } else {
            20
        }
    }

    /// What the machine's chance to hit is lowered by: the penalty of the
    /// sensor while the sensor is dead, and the penalty of the gun while
    /// the gun is dead.
    pub open spec fn spec_accuracy_penalty(&self) -> isize {
        if self.sensor_part().alive() && self.gun_part().alive() {
            0
        } else if self.gun_part().alive() {
            Bygone03Bundle::SENSOR_DEATH_ACCURACY_PENALTY
        } else if self.sensor_part().alive() {
            Bygone03Bundle::GUN_DEATH_ACCURACY_PENALTY
        } else {
            (Bygone03Bundle::SENSOR_DEATH_ACCURACY_PENALTY
                + Bygone03Bundle::GUN_DEATH_ACCURACY_PENALTY) as isize
        }
    }

    /// Whether the machine is as at the start of a duel: every part at
    /// full health, with its chance to be hit, and a shot of one point.
    pub open spec fn is_fresh(self) -> bool {
        &&& self.sensor_part().holds(30, 1, 1)
        &&& self.core_part().holds(20, 3, 3)
        &&& self.left_wing_part().holds(70, 1, 1)
        &&& self.right_wing_part().holds(70, 1, 1)
        &&& self.gun_part().holds(50, 1, 1)
        &&& self.attack_damage() == 1
    }

    /// Whether `post` differs from this machine in no part but those that
    /// are named.
    pub open spec fn same_but(
        self,
        post: Bygone,
        sensor: bool,
        core: bool,
        left_wing: bool,
        right_wing: bool,
        gun: bool,
    ) -> bool {
        &&& post.attack_damage() == self.attack_damage()
        &&& sensor || post.sensor_part() == self.sensor_part()
        &&& core || post.core_part() == self.core_part()
        &&& left_wing || post.left_wing_part() == self.left_wing_part()
        &&& right_wing || post.right_wing_part() == self.right_wing_part()
        &&& gun || post.gun_part() == self.gun_part()
    }

    /// A machine is told by its parts and its shot: the machine of given
    /// parts and a given shot has these.
    pub proof fn lemma_of(
        sensor: BygoneBodyPart,
        core: BygoneBodyPart,
        left_wing: BygoneBodyPart,
        right_wing: BygoneBodyPart,
        gun: BygoneBodyPart,
        attack_damage: isize,
    )
        ensures
            Bygone::of(sensor, core, left_wing, right_wing, gun, attack_damage).sensor_part()
                == sensor,
            Bygone::of(sensor, core, left_wing, right_wing, gun, attack_damage).core_part() == core,
            Bygone::of(sensor, core, left_wing, right_wing, gun, attack_damage).left_wing_part()
                == left_wing,
            Bygone::of(sensor, core, left_wing, right_wing, gun, attack_damage).right_wing_part()
                == right_wing,
            Bygone::of(sensor, core, left_wing, right_wing, gun, attack_damage).gun_part() == gun,
            Bygone::of(sensor, core, left_wing, right_wing, gun, attack_damage).attack_damage()
                == attack_damage,
    {
    }

    /// The machine at the start of a duel.
    pub(crate) fn new() -> (r: Self)
        ensures
            r == Bygone::of(
                BygoneBodyPart::of(30, HealthPool::of(1, 1)),
                BygoneBodyPart::of(20, HealthPool::of(3, 3)),
                BygoneBodyPart::of(70, HealthPool::of(1, 1)),
                BygoneBodyPart::of(70, HealthPool::of(1, 1)),
                BygoneBodyPart::of(50, HealthPool::of(1, 1)),
                1,
            ),
            r.is_fresh(),
    {
        Bygone {
            sensor: BygoneBodyPart::new(30, 1),
            core: BygoneBodyPart::new(20, 3),
            left_wing: BygoneBodyPart::new(70, 1),
            right_wing: BygoneBodyPart::new(70, 1),
            gun: BygoneBodyPart::new(50, 1),
            attack_damage: 1,
        }
    }

    /// Whether the core is alive.
    #[verifier::when_used_as_spec(spec_alive)]
    pub fn alive(&self) -> (r: bool)
        ensures
            r == self.alive(),
    {
        self.core.alive()
    }

    /// The damage of the machine's shot.
    #[verifier::when_used_as_spec(spec_shoot)]
    pub fn shoot(&self) -> (r: isize)
        ensures
            r == self.shoot(),
    {
        self.attack_damage
    }

    /// Damages the sensor on the roll lowered by the dodge penalty.
    pub fn damage_sensor(&mut self, damage: isize, hit_chance_roll: isize)
        requires
            old(self).sensor_part().health().left_after(damage) <= isize::MAX,
            hit_chance_roll - old(self).dodge_penalty() >= isize::MIN,
        ensures
            *final(self) == Bygone::of(
                old(self).sensor_part().after_damage(
                    damage,
                    hit_chance_roll - old(self).dodge_penalty(),
                ),
                old(self).core_part(),
                old(self).left_wing_part(),
                old(self).right_wing_part(),
                old(self).gun_part(),
                old(self).attack_damage(),
            ),
            old(self).sensor_part().shot(
                final(self).sensor_part(),
                damage,
                hit_chance_roll - old(self).dodge_penalty(),
            ),
            old(self).same_but(*final(self), true, false, false, false, false),
    {
        let roll = hit_chance_roll - self.dodge_penalty();
        self.sensor.damage(damage, roll);
    }

    /// Damages the core on the roll lowered by the dodge penalty.
    pub fn damage_core(&mut self, damage: isize, hit_chance_roll: isize)
        requires
            old(self).core_part().health().left_after(damage) <= isize::MAX,
            hit_chance_roll - old(self).dodge_penalty() >= isize::MIN,
        ensures
            *final(self) == Bygone::of(
                old(self).sensor_part(),
                old(self).core_part().after_damage(damage, hit_chance_roll - old(self).dodge_penalty()),
                old(self).left_wing_part(),
                old(self).right_wing_part(),
                old(self).gun_part(),
                old(self).attack_damage(),
            ),
            old(self).core_part().shot(
                final(self).core_part(),
                damage,
                hit_chance_roll - old(self).dodge_penalty(),
            ),
            old(self).same_but(*final(self), false, true, false, false, false),
    {
        let roll = hit_chance_roll - self.dodge_penalty();
        self.core.damage(damage, roll)
    }

    /// Damages the left wing on the roll lowered by the dodge penalty.
    pub fn damage_left_wing(&mut self, damage: isize, hit_chance_roll: isize)
        requires
            old(self).left_wing_part().health().left_after(damage) <= isize::MAX,
            hit_chance_roll - old(self).dodge_penalty() >= isize::MIN,
        ensures
            *final(self) == Bygone::of(
                old(self).sensor_part(),
                old(self).core_part(),
                old(self).left_wing_part().after_damage(
                    damage,
                    hit_chance_roll - old(self).dodge_penalty(),
                ),
                old(self).right_wing_part(),
                old(self).gun_part(),
                old(self).attack_damage(),
            ),
            old(self).left_wing_part().shot(
                final(self).left_wing_part(),
                damage,
                hit_chance_roll - old(self).dodge_penalty(),
            ),
            old(self).same_but(*final(self), false, false, true, false, false),
    {
        let roll = hit_chance_roll - self.dodge_penalty();
        self.left_wing.damage(damage, roll)
    }

    /// Damages the right wing on the roll lowered by the dodge penalty.
    pub fn damage_right_wing(&mut self, damage: isize, hit_chance_roll: isize)
        requires
            old(self).right_wing_part().health().left_after(damage) <= isize::MAX,
            hit_chance_roll - old(self).dodge_penalty() >= isize::MIN,
        ensures
            *final(self) == Bygone::of(
                old(self).sensor_part(),
                old(self).core_part(),
                old(self).left_wing_part(),
                old(self).right_wing_part().after_damage(
                    damage,
                    hit_chance_roll - old(self).dodge_penalty(),
                ),
                old(self).gun_part(),
                old(self).attack_damage(),
            ),
            old(self).right_wing_part().shot(
                final(self).right_wing_part(),
                damage,
                hit_chance_roll - old(self).dodge_penalty(),
            ),
            old(self).same_but(*final(self), false, false, false, true, false),
    {
        let roll = hit_chance_roll - self.dodge_penalty();
        self.right_wing.damage(damage, roll)
    }

    /// Damages the gun on the roll lowered by the dodge penalty.
    pub fn damage_gun(&mut self, damage: isize, hit_chance_roll: isize)
        requires
            old(self).gun_part().health().left_after(damage) <= isize::MAX,
            hit_chance_roll - old(self).dodge_penalty() >= isize::MIN,
        ensures
            *final(self) == Bygone::of(
                old(self).sensor_part(),
                old(self).core_part(),
                old(self).left_wing_part(),
                old(self).right_wing_part(),
                old(self).gun_part().after_damage(damage, hit_chance_roll - old(self).dodge_penalty()),
                old(self).attack_damage(),
            ),
            old(self).gun_part().shot(
                final(self).gun_part(),
                damage,
                hit_chance_roll - old(self).dodge_penalty(),
            ),
            old(self).same_but(*final(self), false, false, false, false, true),
    {
        let roll = hit_chance_roll - self.dodge_penalty();
        self.gun.damage(damage, roll)
    }

    /// What every roll against the machine is lowered by.
    #[verifier::when_used_as_spec(spec_dodge_penalty)]
    pub fn dodge_penalty(&self) -> (r: isize)
        ensures
            r == self.dodge_penalty(),
    {
        let left: isize = if self.left_wing.alive() {
            0
        } else {
            10
        };
        let right: isize = if self.right_wing.alive() {
            0
        } else {
            10
        };
        left + right
    }

    /// What the machine's chance to hit is lowered by.
    #[verifier::when_used_as_spec(spec_accuracy_penalty)]
    pub fn accuracy_penalty(&self) -> (r: isize)
        ensures
            r == self.accuracy_penalty(),
    {
        let sensor: isize = if self.sensor.alive() {
            0
        } else {
            Bygone03Bundle::SENSOR_DEATH_ACCURACY_PENALTY
        };
        let gun: isize = if self.gun.alive() {
            0
        } else {
            Bygone03Bundle::GUN_DEATH_ACCURACY_PENALTY
        };
        sensor + gun
    }
}

/// A duel of the hero and the machine.
#[derive(Clone, Copy, Debug, PartialEq, Eq, Structural, Hash)]
pub struct Battle {
    pub hero: Hero,
    pub bygone: Bygone,
}

impl Battle {
    pub open spec fn spec_finished(&self) -> bool {
        !self.bygone.alive() || !self.hero.alive()
    }

    /// The machine at the start of a duel.
    pub open spec fn fresh_bygone() -> Bygone {
        Bygone::of(
            BygoneBodyPart::of(30, HealthPool::of(1, 1)),
            BygoneBodyPart::of(20, HealthPool::of(3, 3)),
            BygoneBodyPart::of(70, HealthPool::of(1, 1)),
            BygoneBodyPart::of(70, HealthPool::of(1, 1)),
            BygoneBodyPart::of(50, HealthPool::of(1, 1)),
            1,
        )
    }

    /// The label of the core with `health` points left.
    pub open spec fn core_status(health: int) -> Seq<char> {
        if health == 0 {
            "УНИЧТОЖЕНО!"@
        } else if health == 1 {
            "ЯДРО ГОРИТ!"@
        } else if health == 2 {
            "ядро открыто!"@
        } else {
            "защищено бронёй"@
        }
    }

    /// How the duel shows.
    pub open spec fn rendered(self) -> Seq<char> {
        "\nУНИЧ... ТОЖИТЬ.\n\nВаше ХП: "@ + signed_decimal(
            self.hero.health().current_health() as int,
        ) + "/"@ + signed_decimal(self.hero.health().max_health() as int) + "\n\nСенсор: "@
            + self.bygone.sensor_part().rendered(self.bygone.dodge_penalty()) + "\nЯдро: "@
            + self.bygone.core_part().rendered(self.bygone.dodge_penalty()) + " - "@
            + Self::core_status(self.bygone.core_part().health().current_health() as int)
            + "\nЛевое крыло: "@ + self.bygone.left_wing_part().rendered(self.bygone.dodge_penalty())
            + "\nПравое крыло: "@ + self.bygone.right_wing_part().rendered(self.bygone.dodge_penalty())
            + "\nОрудие: "@ + self.bygone.gun_part().rendered(self.bygone.dodge_penalty())
            + "\n\nЕго шанс попасть: "@ + signed_decimal(100 - self.bygone.accuracy_penalty())
            + "%\n"@
    }

    /// A duel that is over before it starts: the hero has no health.
    pub fn new() -> (r: Self)
        ensures
            r.hero.health() == HealthPool::of(6, 0),
            r.hero.health().max_health() == 6,
            r.hero.health().current_health() == 0,
            r.hero.hit_chance() == 100,
            r.hero.attack_damage() == 1,
            r.bygone == Battle::fresh_bygone(),
            r.bygone.is_fresh(),
            r.finished(),
    {
        let mut battle = Battle { hero: Hero::new(), bygone: Bygone::new() };
        battle.hero.health.current_health = 0;
        battle
    }

    /// A duel at its start.
    pub fn start() -> (r: Self)
        ensures
            r.hero.health() == HealthPool::of(6, 6),
            r.hero.health().max_health() == 6,
            r.hero.health().current_health() == 6,
            r.hero.hit_chance() == 100,
            r.hero.attack_damage() == 1,
            r.bygone == Battle::fresh_bygone(),
            r.bygone.is_fresh(),
            !r.finished(),
    {
        Battle { hero: Hero::new(), bygone: Bygone::new() }
    }

    /// Whether the duel is over: the machine or the hero is dead.
    #[verifier::when_used_as_spec(spec_finished)]
    pub fn finished(&self) -> (r: bool)
        ensures
            r == self.finished(),
    {
        !self.bygone.alive() || !self.hero.alive()
    }

    /// How the duel shows: see `rendered`.
    pub fn to_string(&self) -> (r: String)
        requires
            0 <= self.bygone.core_part().health().current_health() <= 3,
            self.bygone.sensor_part().hit_chance() <= isize::MAX - 20,
            self.bygone.core_part().hit_chance() <= isize::MAX - 20,
            self.bygone.left_wing_part().hit_chance() <= isize::MAX - 20,
            self.bygone.right_wing_part().hit_chance() <= isize::MAX - 20,
            self.bygone.gun_part().hit_chance() <= isize::MAX - 20,
        ensures
            r@ == self.rendered(),
    {
        let penalty = self.bygone.dodge_penalty();
        let core_health = self.bygone.core.health.current_health;
        let core_status = if core_health == 0 {
            "УНИЧТОЖЕНО!"
        } else if core_health == 1 {
            "ЯДРО ГОРИТ!"
        } else if core_health == 2 {
            "ядро открыто!"
        } else {
            "защищено бронёй"
        };
        let mut out = String::from_str("\nУНИЧ... ТОЖИТЬ.\n\nВаше ХП: ");
        out.append(isize_to_string(self.hero.health.current_health).as_str());
        out.append("/");
        out.append(isize_to_string(self.hero.health.max_health).as_str());
        out.append("\n\nСенсор: ");
        out.append(self.bygone.sensor.render(penalty).as_str());
        out.append("\nЯдро: ");
        out.append(self.bygone.core.render(penalty).as_str());
        out.append(" - ");
        out.append(core_status);
        out.append("\nЛевое крыло: ");
        out.append(self.bygone.left_wing.render(penalty).as_str());
        out.append("\nПравое крыло: ");
        out.append(self.bygone.right_wing.render(penalty).as_str());
        out.append("\nОрудие: ");
        out.append(self.bygone.gun.render(penalty).as_str());
        out.append("\n\nЕго шанс попасть: ");
        out.append(isize_to_string(100 - self.bygone.accuracy_penalty()).as_str());
        out.append("%\n");
        out
    }
}

} // verus!
