//! The rows of the world: the machine with its five parts, and a player.

use vstd::prelude::*;
use crate::components::{
    Active, Attack, Bygone03Stage, BygonePart, Enemy, GameId, Player, PlayerName, Ready,
    UserId, UserIdComponent, Vitality,
};
use crate::dice::Dice;
use crate::game_helpers::Difficulty;

verus! {

/// The vitality of each part of the machine.
#[derive(Clone, Copy, Debug, PartialEq, Eq, Structural, Hash)]
pub struct BygoneParts {
    pub core: Vitality,
    pub sensor: Vitality,
    pub gun: Vitality,
    pub left_wing: Vitality,
    pub right_wing: Vitality,
}

impl BygoneParts {
    pub open spec fn spec_get(&self, part: BygonePart) -> &Vitality {
        match part {
            BygonePart::Core => &self.core,
            BygonePart::Sensor => &self.sensor,
            BygonePart::Gun => &self.gun,
            BygonePart::LeftWing => &self.left_wing,
            BygonePart::RightWing => &self.right_wing,
        }
    }

    /// These parts, but with `vitality` for `part`.
    pub open spec fn with(self, part: BygonePart, vitality: Vitality) -> BygoneParts {
        match part {
            BygonePart::Core => BygoneParts { core: vitality, ..self },
            BygonePart::Sensor => BygoneParts { sensor: vitality, ..self },
            BygonePart::Gun => BygoneParts { gun: vitality, ..self },
            BygonePart::LeftWing => BygoneParts { left_wing: vitality, ..self },
            BygonePart::RightWing => BygoneParts { right_wing: vitality, ..self },
        }
    }

    /// These parts with `modifier` added to the dodge of each.
    pub open spec fn dodging(self, modifier: int) -> BygoneParts {
        BygoneParts {
            core: self.core.dodging(modifier),
            sensor: self.sensor.dodging(modifier),
            gun: self.gun.dodging(modifier),
            left_wing: self.left_wing.dodging(modifier),
            right_wing: self.right_wing.dodging(modifier),
        }
    }

    /// No part holds more health than its maximum.
    pub open spec fn wf(self) -> bool {
        &&& self.core.wf()
        &&& self.sensor.wf()
        &&& self.gun.wf()
        &&& self.left_wing.wf()
        &&& self.right_wing.wf()
    }

    /// The vitality of `part`.
    #[verifier::when_used_as_spec(spec_get)]
    pub fn get(&self, part: BygonePart) -> (r: &Vitality)
        ensures
            r == self.get(part),
    {
        match part {
            BygonePart::Core => &self.core,
            BygonePart::Sensor => &self.sensor,
            BygonePart::Gun => &self.gun,
            BygonePart::LeftWing => &self.left_wing,
            BygonePart::RightWing => &self.right_wing,
        }
    }

    /// Puts `vitality` in the place of `part`.
    pub fn set(&mut self, part: BygonePart, vitality: Vitality)
        ensures
            *final(self) == old(self).with(part, vitality),
    {
        match part {
            BygonePart::Core => self.core = vitality,
            BygonePart::Sensor => self.sensor = vitality,
            BygonePart::Gun => self.gun = vitality,
            BygonePart::LeftWing => self.left_wing = vitality,
            BygonePart::RightWing => self.right_wing = vitality,
        }
    }

    /// Adds `modifier` to the dodge of every part.
    pub fn modify_dodge(&mut self, modifier: isize)
        ensures
            *final(self) == old(self).dodging(modifier as int),
    {
        self.core.modify_dodge(modifier);
        self.sensor.modify_dodge(modifier);
        self.gun.modify_dodge(modifier);
        self.left_wing.modify_dodge(modifier);
        self.right_wing.modify_dodge(modifier);
    }
}

impl Default for BygoneParts {
    fn default() -> (r: Self)
        ensures
            r == (BygoneParts {
                core: Vitality::fresh(0, 0),
                sensor: Vitality::fresh(0, 0),
                gun: Vitality::fresh(0, 0),
                left_wing: Vitality::fresh(0, 0),
                right_wing: Vitality::fresh(0, 0),
            }),
    {
        BygoneParts {
            core: Vitality::default(),
            sensor: Vitality::default(),
            gun: Vitality::default(),
            left_wing: Vitality::default(),
            right_wing: Vitality::default(),
        }
    }
}

/// What the dice decide when a machine is made: the health of its parts,
/// both wings alike, and the damage of its attack.
#[derive(Clone, Copy, Debug, PartialEq, Eq, Structural, Hash)]
pub struct BygoneStats {
    pub wings_health: usize,
    pub core_health: usize,
    pub sensor_health: usize,
    pub gun_health: usize,
    pub attack_damage: usize,
}

impl BygoneStats {
    /// Whether each health lies in `parts_health_range` and the damage in
    /// `attack_range`, the bounds included.
    pub open spec fn within(
        self,
        parts_health_range: (usize, usize),
        attack_range: (usize, usize),
    ) -> bool {
        &&& parts_health_range.0 <= self.wings_health <= parts_health_range.1
        &&& parts_health_range.0 <= self.core_health <= parts_health_range.1
        &&& parts_health_range.0 <= self.sensor_health <= parts_health_range.1
        &&& parts_health_range.0 <= self.gun_health <= parts_health_range.1
        &&& attack_range.0 <= self.attack_damage <= attack_range.1
    }

    /// Draws the stats from the dice: the wings first, then core, sensor
    /// and gun, then the attack.
    pub fn roll<D: Dice>(
        parts_health_range: (usize, usize),
        attack_range: (usize, usize),
        rng: &mut D,
    ) -> (r: Self)
        requires
            parts_health_range.0 <= parts_health_range.1,
            attack_range.0 <= attack_range.1,
        ensures
            r.within(parts_health_range, attack_range),
    {
        let wings_health = rng.between(parts_health_range.0, parts_health_range.1);
        let core_health = rng.between(parts_health_range.0, parts_health_range.1);
        let sensor_health = rng.between(parts_health_range.0, parts_health_range.1);
        let gun_health = rng.between(parts_health_range.0, parts_health_range.1);
        let attack_damage = rng.between(attack_range.0, attack_range.1);
        BygoneStats { wings_health, core_health, sensor_health, gun_health, attack_damage }
    }
}

/// What a player's attack does to the machine.
#[derive(Clone, Copy, Debug, PartialEq, Eq, Structural, Hash)]
pub enum AttackOutcome {
    /// The attack did not connect.
    Miss,
    /// The attack connected, and the part is still alive.
    Hit,
    /// The attack connected, and the part died of it.
    Kill,
}

/// The machine: its parts, its attack and the stage of its core.
#[derive(Clone, Copy, Debug, PartialEq, Eq, Structural, Hash)]
pub struct Bygone03Bundle {
    pub game_id: GameId,
    pub parts: BygoneParts,
    pub attack: Attack,
    pub stage: Bygone03Stage,
    pub _enemy: Enemy,
    pub _active: Option<Active>,
}

impl Bygone03Bundle {
    /// The accuracy that the machine loses with its sensor.
    pub const SENSOR_DEATH_ACCURACY_PENALTY: isize = 40;

    /// The accuracy that the machine loses with its gun.
    pub const GUN_DEATH_ACCURACY_PENALTY: isize = 25;

    /// The dodge that every part loses with a wing.
    pub const WING_DEATH_DODGE_PENALTY: isize = 10;

    /// The machine of the given stats at the start of the battle `game_id`.
    pub open spec fn made(stats: BygoneStats, game_id: GameId) -> Bygone03Bundle {
        Bygone03Bundle {
            game_id,
            parts: BygoneParts {
                core: Vitality::fresh(stats.core_health, 70),
                sensor: Vitality::fresh(stats.sensor_health, 80),
                gun: Vitality::fresh(stats.gun_health, 50),
                left_wing: Vitality::fresh(stats.wings_health, 30),
                right_wing: Vitality::fresh(stats.wings_health, 30),
            },
            attack: Attack::of(stats.attack_damage, 100),
            stage: Bygone03Stage::Armored,
            _enemy: Enemy,
            _active: Some(Active),
        }
    }

    /// Whether the machine takes part in the resolution of attacks.
    pub open spec fn is_active(self) -> bool {
        self._active.is_some()
    }

    /// No part holds more health than its maximum.
    pub open spec fn wf(self) -> bool {
        self.parts.wf()
    }

    /// Whether the part is at the full health `health` behind `dodge`.
    pub open spec fn full_part(part: Vitality, health: usize, dodge: isize) -> bool {
        &&& part.health().current() == health
        &&& part.health().max() == health
        &&& part.dodge() == dodge
    }

    /// Whether the machine is as it is made of the given stats: each part
    /// at its full health behind its dodge, an attack of the given damage
    /// at an accuracy of a hundred, armored and active.
    pub open spec fn has_stats(self, stats: BygoneStats) -> bool {
        &&& Self::full_part(self.parts.core, stats.core_health, 70)
        &&& Self::full_part(self.parts.sensor, stats.sensor_health, 80)
        &&& Self::full_part(self.parts.gun, stats.gun_health, 50)
        &&& Self::full_part(self.parts.left_wing, stats.wings_health, 30)
        &&& Self::full_part(self.parts.right_wing, stats.wings_health, 30)
        &&& self.attack.damage() == stats.attack_damage
        &&& self.attack.accuracy() == 100
        &&& self.stage == Bygone03Stage::Armored
        &&& self.is_active()
    }

    /// The machine made of given stats has these stats.
    pub proof fn lemma_made(stats: BygoneStats, game_id: GameId)
        ensures
            Self::made(stats, game_id).has_stats(stats),
            Self::made(stats, game_id).game_id == game_id,
            Self::made(stats, game_id).wf(),
    {
        Vitality::lemma_fresh(stats.core_health, 70);
        Vitality::lemma_fresh(stats.sensor_health, 80);
        Vitality::lemma_fresh(stats.gun_health, 50);
        Vitality::lemma_fresh(stats.wings_health, 30);
        Attack::lemma_of(stats.attack_damage, 100);
    }

    /// What an attack on `part` with the roll `roll` does.
    pub open spec fn outcome_of(self, attack: Attack, part: BygonePart, roll: int) -> AttackOutcome {
        if !attack.hits(*self.parts.get(part), roll) {
            AttackOutcome::Miss
        } else if self.parts.get(part).damaged(attack.damage()).health().alive() {
            AttackOutcome::Hit
        } else {
            AttackOutcome::Kill
        }
    }

    /// The machine after an attack on `part` with the roll `roll`.
    pub open spec fn after_attack(self, attack: Attack, part: BygonePart, roll: int) -> Bygone03Bundle {
        if attack.hits(*self.parts.get(part), roll) {
            Bygone03Bundle {
                parts: self.parts.with(part, self.parts.get(part).damaged(attack.damage())),
                ..self
            }
        } else {
            self
        }
    }

    /// Whether the death of `part` defeats the machine: the core dies in
    /// the last stage before defeat, or after it.
    pub open spec fn defeated_by(self, part: BygonePart) -> bool {
        part == BygonePart::Core && self.stage.next().terminal()
    }

    /// The machine after the death of `part`. With the core the stage
    /// advances, and unless that defeats the machine the core is made new
    /// at its full health. With the sensor or the gun the attack loses
    /// accuracy. With a wing every part loses dodge.
    pub open spec fn after_part_death(self, part: BygonePart) -> Bygone03Bundle {
        match part {
            BygonePart::Core => if self.stage.next().terminal() {
                Bygone03Bundle { stage: self.stage.next(), ..self }
            } else {
                Bygone03Bundle {
                    stage: self.stage.next(),
                    parts: self.parts.with(
                        BygonePart::Core,
                        Vitality::fresh(self.parts.core.health().max(), self.parts.core.dodge()),
                    ),
                    ..self
                }
            },
            BygonePart::Sensor => Bygone03Bundle {
                attack: self.attack.aimed(-Self::SENSOR_DEATH_ACCURACY_PENALTY),
                ..self
            },
            BygonePart::Gun => Bygone03Bundle {
                attack: self.attack.aimed(-Self::GUN_DEATH_ACCURACY_PENALTY),
                ..self
            },
            BygonePart::LeftWing | BygonePart::RightWing => Bygone03Bundle {
                parts: self.parts.dodging(-Self::WING_DEATH_DODGE_PENALTY),
                ..self
            },
        }
    }

    /// The machine of the given stats, active and armored.
    pub fn from_stats(stats: BygoneStats, game_id: GameId) -> (r: Self)
        ensures
            r == Self::made(stats, game_id),
            r.has_stats(stats),
            r.wf(),
            r.is_active(),
    {
        let parts = BygoneParts {
            core: Vitality::new(stats.core_health, 70),
            sensor: Vitality::new(stats.sensor_health, 80),
            gun: Vitality::new(stats.gun_health, 50),
            left_wing: Vitality::new(stats.wings_health, 30),
            right_wing: Vitality::new(stats.wings_health, 30),
        };
        let attack = Attack::new(stats.attack_damage, 100);
        Self {
            game_id,
            parts,
            attack,
            stage: Bygone03Stage::Armored,
            _enemy: Enemy,
            _active: Some(Active),
        }
    }

    /// A machine whose parts' health and whose damage the dice draw from
    /// the given ranges, the bounds included.
    pub fn new<D: Dice>(
        parts_health_range: (usize, usize),
        attack_range: (usize, usize),
        game_id: GameId,
        rng: &mut D,
    ) -> (r: Self)
        requires
            parts_health_range.0 <= parts_health_range.1,
            attack_range.0 <= attack_range.1,
        ensures
            exists|stats: BygoneStats|
                stats.within(parts_health_range, attack_range) && r == Self::made(stats, game_id)
                    && r.has_stats(stats),
            r.wf(),
    {
        let stats = BygoneStats::roll(parts_health_range, attack_range, rng);
        Self::from_stats(stats, game_id)
    }

    /// A machine for a battle of the given difficulty.
    pub fn with_difficulty<D: Dice>(game_id: GameId, difficulty: Difficulty, rng: &mut D) -> (r:
        Self)
        ensures
            exists|stats: BygoneStats|
                stats.within(difficulty.parts_health_range(), difficulty.attack_range()) && r
                    == Self::made(stats, game_id) && r.has_stats(stats),
            r.wf(),
    {
        let parts_health_range = difficulty.parts_health_range();
        let attack_range = difficulty.attack_range();
        Self::new(parts_health_range, attack_range, game_id, rng)
    }

    /// Takes a player's attack on `part` with the roll `roll`.
    pub fn take_attack(&mut self, attack: &Attack, part: BygonePart, roll: isize) -> (r:
        AttackOutcome)
        ensures
            r == old(self).outcome_of(*attack, part, roll as int),
            *final(self) == old(self).after_attack(*attack, part, roll as int),
            old(self).wf() ==> final(self).wf(),
    {
        let mut vitality = *self.parts.get(part);
        let hit = attack.attack(&mut vitality, roll);
        proof {
            Vitality::lemma_damaged(*old(self).parts.get(part), attack.damage());
        }
        if hit {
            self.parts.set(part, vitality);
            if vitality.health().alive() {
                AttackOutcome::Hit
            } else {
                AttackOutcome::Kill
            }
        } else {
            AttackOutcome::Miss
        }
    }

    /// Applies the death of `part`, and tells whether it defeats the
    /// machine.
    pub fn apply_part_death(&mut self, part: BygonePart) -> (defeated: bool)
        ensures
            defeated == old(self).defeated_by(part),
            *final(self) == old(self).after_part_death(part),
            old(self).wf() ==> final(self).wf(),
    {
        proof {
            Vitality::lemma_fresh(self.parts.core.health().max(), self.parts.core.dodge());
            Vitality::lemma_dodging(self.parts.core, -Self::WING_DEATH_DODGE_PENALTY);
            Vitality::lemma_dodging(self.parts.sensor, -Self::WING_DEATH_DODGE_PENALTY);
            Vitality::lemma_dodging(self.parts.gun, -Self::WING_DEATH_DODGE_PENALTY);
            Vitality::lemma_dodging(self.parts.left_wing, -Self::WING_DEATH_DODGE_PENALTY);
            Vitality::lemma_dodging(self.parts.right_wing, -Self::WING_DEATH_DODGE_PENALTY);
        }
        match part {
            BygonePart::Core => {
                self.stage = self.stage.next();
                if self.stage.terminal() {
                    true
                } else {
                    let core_max_health = self.parts.core.health().max();
                    let core_dodge = self.parts.core.dodge();
                    self.parts.set(BygonePart::Core, Vitality::new(core_max_health, core_dodge));
                    false
                }
            },
            BygonePart::Sensor => {
                self.attack.modify_accuracy(-40);
                false
            },
            BygonePart::Gun => {
                self.attack.modify_accuracy(-25);
                false
            },
            BygonePart::LeftWing | BygonePart::RightWing => {
                self.parts.modify_dodge(-10);
                false
            },
        }
    }

    /// The death of the core makes the core new at its full health and
    /// advances the stage, unless it defeats the machine; two deaths of
    /// the core advance the stage twice.
    pub proof fn lemma_core_restored(enemy: Bygone03Bundle)
        ensures
            !enemy.defeated_by(BygonePart::Core) ==> enemy.after_part_death(
                BygonePart::Core,
            ).parts.core == Vitality::fresh(
                enemy.parts.core.health().max(),
                enemy.parts.core.dodge(),
            ),
            enemy.after_part_death(BygonePart::Core).stage == enemy.stage.next(),
            enemy.after_part_death(BygonePart::Core).after_part_death(BygonePart::Core).stage
                == enemy.stage.next().next(),
    {
    }
}

/// A player in a battle.
#[derive(Debug)]
pub struct PlayerBundle {
    pub user_id: UserIdComponent,
    pub name: PlayerName,
    pub game_id: GameId,
    pub vitality: Vitality,
    pub attack: Attack,
    pub _player: Player,
    pub _active: Option<Active>,
    pub _ready: Option<Ready>,
}

impl PlayerBundle {
    /// The health that a player starts with.
    pub const MAX_HEALTH: usize = 6;

    /// The dodge of a player.
    pub const DODGE: isize = 100;

    /// The damage of a player's attack.
    pub const ATTACK_DAMAGE: usize = 1;

    /// The accuracy of a player's attack.
    pub const ATTACK_ACCURACY: isize = 0;

    /// Whether the player takes part in the resolution of attacks.
    pub open spec fn is_active(self) -> bool {
        self._active.is_some()
    }

    /// Whether the player may still attack in this turn.
    pub open spec fn is_ready(self) -> bool {
        self._ready.is_some()
    }

    /// No health holds more than its maximum.
    pub open spec fn wf(self) -> bool {
        self.vitality.wf()
    }

    /// The player that `user_id` is on joining the battle `game_id` under
    /// `name`.
    pub open spec fn joined(user_id: UserId, name: PlayerName, game_id: GameId) -> PlayerBundle {
        PlayerBundle {
            user_id: UserIdComponent(user_id),
            name,
            game_id,
            vitality: Vitality::fresh(Self::MAX_HEALTH, Self::DODGE),
            attack: Attack::of(Self::ATTACK_DAMAGE, Self::ATTACK_ACCURACY),
            _player: Player,
            _active: Some(Active),
            _ready: Some(Ready),
        }
    }

    /// Whether the player is as on joining: six points of health behind a
    /// dodge of a hundred, an attack of one point at an accuracy of zero,
    /// active and ready.
    pub open spec fn is_new(self) -> bool {
        &&& self.vitality.health().current() == Self::MAX_HEALTH
        &&& self.vitality.health().max() == Self::MAX_HEALTH
        &&& self.vitality.dodge() == Self::DODGE
        &&& self.attack.damage() == Self::ATTACK_DAMAGE
        &&& self.attack.accuracy() == Self::ATTACK_ACCURACY
        &&& self.is_active()
        &&& self.is_ready()
    }

    /// The player on joining is new.
    pub proof fn lemma_joined(user_id: UserId, name: PlayerName, game_id: GameId)
        ensures
            Self::joined(user_id, name, game_id).is_new(),
            Self::joined(user_id, name, game_id).wf(),
    {
        Vitality::lemma_fresh(Self::MAX_HEALTH, Self::DODGE);
        Attack::lemma_of(Self::ATTACK_DAMAGE, Self::ATTACK_ACCURACY);
    }

    /// A player who joins the battle `game_id`: at full health, active and
    /// ready.
    pub fn new(user_id: UserId, name: PlayerName, game_id: GameId) -> (r: Self)
        ensures
            r == Self::joined(user_id, name, game_id),
            r.is_new(),
            r.user_id == UserIdComponent(user_id),
            r.name == name,
            r.game_id == game_id,
            r.vitality == Vitality::fresh(Self::MAX_HEALTH, Self::DODGE),
            r.attack == Attack::of(Self::ATTACK_DAMAGE, Self::ATTACK_ACCURACY),
            r.is_active(),
            r.is_ready(),
            r.wf(),
    {
        Self {
            user_id: UserIdComponent(user_id),
            name,
            game_id,
            vitality: Vitality::new(6, 100),
            attack: Attack::new(1, 0),
            _player: Player,
            _active: Some(Active),
            _ready: Some(Ready),
        }
    }
}

} // verus!
