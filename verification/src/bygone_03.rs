//! The machine and the players of a battle that is tied to a channel.

use vstd::prelude::*;
use crate::bundles::BygoneParts;
use crate::components::{Active, Attack, Bygone03Stage, Enemy, Player, UserId, Vitality};

verus! {

/// The identifier of a channel, as the platform gives it.
pub type ChannelId = u64;

/// The machine of the battle of a channel.
#[derive(Clone, Copy, Debug, PartialEq, Eq, Structural, Hash)]
pub struct Bygone03Bundle {
    pub channel: ChannelId,
    pub parts: BygoneParts,
    pub attack: Attack,
    pub stage: Bygone03Stage,
    pub _enemy: Enemy,
    pub _active: Active,
}

impl Bygone03Bundle {
    /// The machine all of whose parts have the health `parts_health`.
    pub open spec fn made(parts_health: usize, channel: ChannelId) -> Bygone03Bundle {
        Bygone03Bundle {
            channel,
            parts: BygoneParts {
                core: Vitality::fresh(parts_health, 80),
                sensor: Vitality::fresh(parts_health, 70),
                gun: Vitality::fresh(parts_health, 50),
                left_wing: Vitality::fresh(parts_health, 30),
                right_wing: Vitality::fresh(parts_health, 30),
            },
            attack: Attack::of(1, 100),
            stage: Bygone03Stage::Armored,
            _enemy: Enemy,
            _active: Active,
        }
    }

    /// A machine all of whose parts have the health `parts_health`,
    /// active and armored.
    pub fn new(parts_health: usize, channel: ChannelId) -> (r: Self)
        ensures
            r == Self::made(parts_health, channel),
            r.parts.wf(),
    {
        let parts = BygoneParts {
            core: Vitality::new(parts_health, 80),
            sensor: Vitality::new(parts_health, 70),
            gun: Vitality::new(parts_health, 50),
            left_wing: Vitality::new(parts_health, 30),
            right_wing: Vitality::new(parts_health, 30),
        };
        let attack = Attack::new(1, 100);
        Self { channel, parts, attack, stage: Bygone03Stage::Armored, _enemy: Enemy, _active: Active }
    }

    /// A machine whose parts have one point of health each.
    pub fn with_normal_health(channel: ChannelId) -> (r: Self)
        ensures
            r == Self::made(1, channel),
            r.parts.wf(),
    {
        Self::new(1, channel)
    }
}

/// A player of the battle of a channel.
#[derive(Debug)]
pub struct PlayerBundle {
    pub user_id: UserId,
    pub name: String,
    pub channel: ChannelId,
    pub vitality: Vitality,
    pub attack: Attack,
    pub _player: Player,
    pub _active: Active,
}

impl PlayerBundle {
    /// A player at full health: six points behind a dodge of fifty, with
    /// an attack of one point at an accuracy of fifty.
    pub fn new(user_id: UserId, name: String, channel: ChannelId) -> (r: Self)
        ensures
            r == (PlayerBundle {
                user_id,
                name,
                channel,
                vitality: Vitality::fresh(6, 50),
                attack: Attack::of(1, 50),
                _player: Player,
                _active: Active,
            }),
            r.vitality.wf(),
    {
        Self {
            user_id,
            name,
            channel,
            vitality: Vitality::new(6, 50),
            attack: Attack::new(1, 50),
            _player: Player,
            _active: Active,
        }
    }
}

} // verus!
