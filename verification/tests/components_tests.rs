use bygone_battle::components::{
    saturating_sum, Active, Attack, Bygone03Stage, BygonePart, GameId, GuildIdComponent, Health,
    PlayerName, UserIdComponent, Vitality,
};
use bygone_battle::events::{BattleLogEvent, PlayerJoinEvent};
use bygone_battle::game_helpers::{Difficulty, EventDelay};
use bygone_battle::localization::{Language, Localizations, RenderText};

#[test]
fn health_reduce_stops_at_zero() {
    let mut health = Health::new(3);
    health.reduce(2);
    assert_eq!(health.current(), 1);
    assert!(health.alive());
    health.reduce(5);
    assert_eq!(health.current(), 0);
    assert_eq!(health.max(), 3);
    assert!(!health.alive());
}

#[test]
fn health_never_exceeds_its_maximum() {
    let mut health = Health::new(6);
    for damage in [0usize, 1, 2, 0, 7, usize::MAX] {
        health.reduce(damage);
        assert!(health.current() <= health.max());
        assert_eq!(health.max(), 6);
    }
}

#[test]
fn health_of_zero_is_dead() {
    let health = Health::new(0);
    assert_eq!(health.current(), 0);
    assert!(!health.alive());
    assert_eq!(Health::default(), Health::new(0));
}

#[test]
fn take_attack_connects_when_accuracy_reaches_dodge() {
    let mut vitality = Vitality::new(4, 50);
    assert!(!vitality.take_attack(3, 49));
    assert_eq!(vitality.health().current(), 4);
    assert!(vitality.take_attack(3, 50));
    assert_eq!(vitality.health().current(), 1);
    assert!(vitality.take_attack(3, 51));
    assert_eq!(vitality.health().current(), 0);
    assert_eq!(vitality.dodge(), 50);
}

#[test]
fn attack_hits_when_accuracy_and_roll_reach_dodge() {
    let attack = Attack::new(2, 30);
    let mut target = Vitality::new(5, 80);
    assert!(!attack.attack(&mut target, 49));
    assert_eq!(target.health().current(), 5);
    assert!(attack.attack(&mut target, 50));
    assert_eq!(target.health().current(), 3);
}

#[test]
fn hit_reduces_health_by_damage_or_by_what_is_left() {
    let attack = Attack::new(4, 0);
    let mut target = Vitality::new(6, 0);
    assert!(attack.attack(&mut target, 0));
    assert_eq!(target.health().current(), 2);
    assert!(attack.attack(&mut target, 0));
    assert_eq!(target.health().current(), 0);
    assert_eq!(target.health().max(), 6);
}

#[test]
fn attack_at_the_bounds_of_the_numbers() {
    let strong = Attack::new(1, isize::MAX);
    let mut target = Vitality::new(2, isize::MAX);
    assert!(strong.attack(&mut target, 99));
    assert_eq!(target.health().current(), 1);
    let weak = Attack::new(1, isize::MIN);
    let mut low = Vitality::new(2, isize::MIN);
    assert!(!weak.attack(&mut low, -1));
    assert_eq!(low.health().current(), 2);
    assert!(weak.attack(&mut low, 0));
    assert_eq!(low.health().current(), 1);
}

#[test]
fn modifiers_add_and_stop_at_the_bounds() {
    let mut vitality = Vitality::new(1, 30);
    vitality.modify_dodge(-10);
    assert_eq!(vitality.dodge(), 20);
    vitality.modify_dodge(isize::MIN);
    assert_eq!(vitality.dodge(), isize::MIN + 20);
    vitality.modify_dodge(-21);
    assert_eq!(vitality.dodge(), isize::MIN);
    let mut attack = Attack::new(1, 100);
    attack.modify_accuracy(-40);
    assert_eq!(attack.accuracy(), 60);
    assert_eq!(attack.damage(), 1);
    attack.modify_accuracy(isize::MAX);
    assert_eq!(attack.accuracy(), isize::MAX);
    assert_eq!(saturating_sum(isize::MAX, 1), isize::MAX);
    assert_eq!(saturating_sum(-5, 3), -2);
}

#[test]
fn stage_saturates_at_defeated() {
    let mut stage = Bygone03Stage::Armored;
    stage = stage.next();
    assert_eq!(stage, Bygone03Stage::Exposed);
    stage = stage.next();
    assert_eq!(stage, Bygone03Stage::Burning);
    stage = stage.next();
    assert_eq!(stage, Bygone03Stage::Defeated);
    assert!(stage.terminal());
    stage = stage.next();
    assert_eq!(stage, Bygone03Stage::Defeated);
}

#[test]
fn stage_stays_defeated_after_four_and_more_advances() {
    for advances in 4..12 {
        let mut stage = Bygone03Stage::Armored;
        for _ in 0..advances {
            stage = stage.next();
        }
        assert_eq!(stage, Bygone03Stage::Defeated);
    }
}

#[test]
fn only_the_last_stage_is_terminal() {
    assert!(!Bygone03Stage::Armored.terminal());
    assert!(!Bygone03Stage::Exposed.terminal());
    assert!(!Bygone03Stage::Burning.terminal());
    assert!(Bygone03Stage::Defeated.terminal());
}

#[test]
fn game_id_is_time_plus_salt() {
    assert_eq!(GameId::from_nanos(1_000, 7), GameId(1_007));
    assert_eq!(GameId::from_nanos(u128::MAX, 2), GameId(1));
}

#[test]
fn game_ids_of_one_moment_differ_by_their_salt() {
    let first = GameId::from_current_time(0);
    let second = GameId::from_current_time(1);
    assert_ne!(first.0, 0);
    assert_ne!(second.0, 0);
}

#[test]
fn health_renders_as_a_bar() {
    let localizations = Localizations::new();
    let loc = localizations.get(Language::En);
    let mut health = Health::new(3);
    assert_eq!(health.render_text(loc), "[▮▮▮]");
    health.reduce(1);
    assert_eq!(health.render_text(loc), "[▮▮▯]");
    health.reduce(2);
    assert_eq!(health.render_text(loc), "[XXX]");
}

#[test]
fn vitality_renders_with_the_chance_to_be_hit() {
    let localizations = Localizations::new();
    let loc = localizations.get(Language::En);
    let mut vitality = Vitality::new(2, 80);
    assert_eq!(vitality.render_text(loc), "[▮▮] - 20%");
    vitality.modify_dodge(-100);
    assert_eq!(vitality.render_text(loc), "[▮▮] - 100%");
    vitality.modify_dodge(200);
    assert_eq!(vitality.render_text(loc), "[▮▮] - 0%");
    assert!(vitality.take_attack(2, 1000));
    assert_eq!(vitality.render_text(loc), "[XX]");
}

#[test]
fn attack_renders_with_damage_and_accuracy() {
    let localizations = Localizations::new();
    assert_eq!(Attack::new(6, 100).render_text(localizations.get(Language::En)), "ATK 6, 100%");
    assert_eq!(Attack::new(1, -15).render_text(localizations.get(Language::Ru)), "АТК 1, -15%");
}

#[test]
fn parts_and_stages_render_by_their_names() {
    let localizations = Localizations::new();
    let en = localizations.get(Language::En);
    assert_eq!(BygonePart::Core.render_text(en), "core");
    assert_eq!(BygonePart::Sensor.render_text(en), "sensor");
    assert_eq!(BygonePart::Gun.render_text(en), "gun");
    assert_eq!(BygonePart::LeftWing.render_text(en), "left wing");
    assert_eq!(BygonePart::RightWing.render_text(en), "right wing");
    assert_eq!(Bygone03Stage::Armored.render_text(en), "*armored*");
    assert_eq!(Bygone03Stage::Exposed.render_text(en), "*exposed!*");
    assert_eq!(Bygone03Stage::Burning.render_text(en), "*BURNING!*");
    assert_eq!(Bygone03Stage::Defeated.render_text(en), "*DESTROYED!*");
}

#[test]
fn values_are_ordered_as_they_are_declared() {
    assert!(Bygone03Stage::Armored < Bygone03Stage::Exposed);
    assert!(Bygone03Stage::Exposed < Bygone03Stage::Burning);
    assert!(Bygone03Stage::Burning < Bygone03Stage::Defeated);
    assert!(Bygone03Stage::Armored.next() >= Bygone03Stage::Armored);
    assert!(BygonePart::Core < BygonePart::Sensor && BygonePart::LeftWing < BygonePart::RightWing);
    assert!(Difficulty::Easy < Difficulty::Medium && Difficulty::Hard < Difficulty::RealBullets);
    assert!(Attack::new(1, 100) < Attack::new(2, 0));
    assert!(Attack::new(1, 0) < Attack::new(1, 1));
    assert!(EventDelay(1) < EventDelay(2));
    assert!(GuildIdComponent(1) < GuildIdComponent(2));
    assert!(UserIdComponent(3) > UserIdComponent(2));
    assert!(GameId(3) > GameId(2));
    assert_eq!(Active.max(Active), Active);
    let mut parts = vec![BygonePart::Gun, BygonePart::Core, BygonePart::RightWing, BygonePart::Sensor];
    parts.sort();
    assert_eq!(parts, vec![BygonePart::Core, BygonePart::Sensor, BygonePart::Gun, BygonePart::RightWing]);
}

#[test]
fn names_and_events_compare_by_what_they_hold() {
    assert_eq!(PlayerName("Ann".to_string()), PlayerName("Ann".to_string()));
    assert_ne!(PlayerName("Ann".to_string()), PlayerName("Bob".to_string()));
    assert!(PlayerName("Ann".to_string()) < PlayerName("Bob".to_string()));
    let mut names = std::collections::HashSet::new();
    names.insert(PlayerName("Ann".to_string()));
    assert!(names.contains(&PlayerName("Ann".to_string())));
    let join = PlayerJoinEvent::new(1, PlayerName("Ann".to_string()), GameId(2), 3);
    assert_eq!(join.clone(), join);
    let hit = BattleLogEvent::PlayerHit(PlayerName("Ann".to_string()), BygonePart::Gun);
    assert_eq!(hit.clone(), hit);
    assert_ne!(hit, BattleLogEvent::BygoneMiss);
}
