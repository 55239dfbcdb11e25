use bevy_turborand::GlobalRng;
use bygone_battle::bundles::{Bygone03Bundle, BygoneStats};
use bygone_battle::components::{Bygone03Stage, GameId};
use bygone_battle::dice::{choose_mut, pick, Dice, LoadedDice};
use bygone_battle::game_helpers::Difficulty;

#[test]
fn d100_lies_from_0_to_99() {
    let mut rng = GlobalRng::with_seed(7);
    let mut seen_low = false;
    let mut seen_high = false;
    for _ in 0..2000 {
        let roll = rng.d100();
        assert!((0..100).contains(&roll));
        seen_low = seen_low || roll < 50;
        seen_high = seen_high || roll >= 50;
    }
    assert!(seen_low && seen_high);
}

#[test]
fn between_lies_within_its_bounds() {
    let mut rng = GlobalRng::with_seed(11);
    let mut seen = [false; 4];
    for _ in 0..500 {
        let n = rng.between(10, 13);
        assert!((10..=13).contains(&n));
        seen[n - 10] = true;
    }
    assert_eq!(seen, [true; 4]);
    assert_eq!(rng.between(5, 5), 5);
    assert_eq!(rng.between(usize::MAX, usize::MAX), usize::MAX);
}

#[test]
fn seeded_dice_repeat_themselves() {
    let mut first = GlobalRng::with_seed(42);
    let mut second = GlobalRng::with_seed(42);
    for _ in 0..50 {
        assert_eq!(first.d100(), second.d100());
        assert_eq!(first.between(0, 9), second.between(0, 9));
    }
}

#[test]
fn loaded_dice_show_their_faces_then_zero() {
    let mut dice = LoadedDice::new(vec![199, 7, 12]);
    assert_eq!(dice.d100(), 99);
    assert_eq!(dice.between(1, 3), 2);
    assert_eq!(dice.between(10, 10), 10);
    assert_eq!(dice.d100(), 0);
    assert_eq!(dice.between(4, 9), 4);
}

#[test]
fn loaded_dice_spread_over_the_whole_range() {
    let mut dice = LoadedDice::new(vec![u64::MAX, u64::MAX]);
    assert_eq!(dice.between(0, usize::MAX), u64::MAX as usize);
    assert_eq!(dice.d100(), (u64::MAX % 100) as isize);
}

#[test]
fn pick_of_nothing_is_none() {
    let mut rng = GlobalRng::with_seed(1);
    let empty: [u8; 0] = [];
    assert_eq!(pick(&mut rng, &empty), None);
    let mut none: [u8; 0] = [];
    assert_eq!(choose_mut(&mut rng, &mut none), None);
}

#[test]
fn pick_is_one_of_the_items() {
    let mut rng = GlobalRng::with_seed(3);
    let items = [10, 20, 30];
    for _ in 0..100 {
        let picked = pick(&mut rng, &items).unwrap();
        assert!(items.contains(picked));
    }
    let mut dice = LoadedDice::new(vec![4]);
    assert_eq!(pick(&mut dice, &items), Some(&20));
}

#[test]
fn choose_mut_changes_the_item_in_its_place() {
    let mut dice = LoadedDice::new(vec![2]);
    let mut items = [1, 2, 3];
    *choose_mut(&mut dice, &mut items).unwrap() = 9;
    assert_eq!(items, [1, 2, 9]);
}

#[test]
fn stats_are_drawn_wings_first() {
    let mut dice = LoadedDice::new(vec![0, 1, 2, 3, 4]);
    let stats = BygoneStats::roll((1, 3), (1, 2), &mut dice);
    assert_eq!(
        stats,
        BygoneStats {
            wings_health: 1,
            core_health: 2,
            sensor_health: 3,
            gun_health: 1,
            attack_damage: 1,
        }
    );
}

#[test]
fn machine_of_each_difficulty_lies_within_its_ranges() {
    let mut rng = GlobalRng::with_seed(5);
    for difficulty in
        [Difficulty::Easy, Difficulty::Medium, Difficulty::Hard, Difficulty::RealBullets]
    {
        for _ in 0..50 {
            let enemy = Bygone03Bundle::with_difficulty(GameId(1), difficulty, &mut rng);
            let (low, high) = difficulty.parts_health_range();
            for part in [
                enemy.parts.core,
                enemy.parts.sensor,
                enemy.parts.gun,
                enemy.parts.left_wing,
                enemy.parts.right_wing,
            ] {
                assert!(low <= part.health().max() && part.health().max() <= high);
                assert_eq!(part.health().current(), part.health().max());
            }
            assert_eq!(enemy.parts.left_wing, enemy.parts.right_wing);
            let (least, most) = difficulty.attack_range();
            assert!(least <= enemy.attack.damage() && enemy.attack.damage() <= most);
            assert_eq!(enemy.attack.accuracy(), 100);
            assert_eq!(enemy.stage, Bygone03Stage::Armored);
            assert!(enemy._active.is_some());
            assert_eq!(enemy.game_id, GameId(1));
        }
    }
}

#[test]
fn machine_has_the_dodge_of_its_parts() {
    let mut dice = LoadedDice::new(Vec::new());
    let enemy = Bygone03Bundle::new((2, 2), (3, 3), GameId(9), &mut dice);
    assert_eq!(enemy.parts.core.dodge(), 70);
    assert_eq!(enemy.parts.sensor.dodge(), 80);
    assert_eq!(enemy.parts.gun.dodge(), 50);
    assert_eq!(enemy.parts.left_wing.dodge(), 30);
    assert_eq!(enemy.parts.right_wing.dodge(), 30);
    assert_eq!(enemy.parts.core.health().max(), 2);
    assert_eq!(enemy.attack.damage(), 3);
}
