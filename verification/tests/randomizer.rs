use rpg_core::randomizer::{Dice, Randomizer, Span, Steady};

#[test]
fn steady_hands_every_value_back() {
    for value in [i32::MIN, -7, -1, 0, 1, 2, 13, 1000, i32::MAX] {
        assert_eq!(value, Steady.enemy_level(value));
        assert_eq!(value, Steady.stat_increase(value));
        assert_eq!(value, Steady.damage(value));
        assert_eq!(Span { low: value, high: value }, Steady.enemy_level_range(value));
        assert_eq!(Span { low: value, high: value }, Steady.stat_increase_range(value));
        assert_eq!(Span { low: value, high: value }, Steady.damage_range(value));
    }
}

#[test]
fn dice_tell_the_range_of_a_stat_increase() {
    assert_eq!(Span { low: 1, high: 1 }, Dice.stat_increase_range(1));
    assert_eq!(Span { low: 1, high: 3 }, Dice.stat_increase_range(2));
    assert_eq!(Span { low: 1, high: 4 }, Dice.stat_increase_range(3));
    assert_eq!(Span { low: 3, high: 10 }, Dice.stat_increase_range(7));
    assert_eq!(Span { low: 5, high: 15 }, Dice.stat_increase_range(10));
    assert_eq!(Span { low: 0, high: 0 }, Dice.stat_increase_range(0));
    assert_eq!(Span { low: -4, high: -4 }, Dice.stat_increase_range(-4));
    assert_eq!(Span { low: i32::MAX / 2, high: i32::MAX }, Dice.stat_increase_range(i32::MAX));
    assert_eq!(
        Span { low: 700_000_000, high: 2_100_000_000 },
        Dice.stat_increase_range(1_400_000_000)
    );
}

#[test]
fn dice_roll_stat_increases_within_their_range() {
    let mut seen = [false; 11];
    for _ in 0..5000 {
        let gain = Dice.stat_increase(10);
        assert!((5..=15).contains(&gain));
        seen[(gain - 5) as usize] = true;
    }
    assert!(seen.iter().all(|value| *value));
    for _ in 0..200 {
        assert_eq!(1, Dice.stat_increase(1));
        assert_eq!(0, Dice.stat_increase(0));
        assert_eq!(-3, Dice.stat_increase(-3));
        assert!(Dice.stat_increase(i32::MAX) >= i32::MAX / 2);
    }
}

#[test]
fn dice_tell_the_range_of_an_enemy_level() {
    assert_eq!(Span { low: 1, high: 2 }, Dice.enemy_level_range(1));
    assert_eq!(Span { low: 1, high: 3 }, Dice.enemy_level_range(2));
    assert_eq!(Span { low: 9, high: 11 }, Dice.enemy_level_range(10));
    assert_eq!(Span { low: 1, high: 1 }, Dice.enemy_level_range(0));
    assert_eq!(Span { low: 1, high: 1 }, Dice.enemy_level_range(-50));
    assert_eq!(
        Span { low: i32::MAX - 1, high: i32::MAX },
        Dice.enemy_level_range(i32::MAX)
    );
}

#[test]
fn dice_roll_enemy_levels_within_their_range() {
    let mut seen = [false; 3];
    for _ in 0..3000 {
        let level = Dice.enemy_level(10);
        assert!((9..=11).contains(&level));
        seen[(level - 9) as usize] = true;
        assert!((1..=2).contains(&Dice.enemy_level(1)));
        assert_eq!(1, Dice.enemy_level(0));
        assert_eq!(1, Dice.enemy_level(i32::MIN));
        assert!(Dice.enemy_level(i32::MAX) >= i32::MAX - 1);
    }
    assert_eq!([true, true, true], seen);
}

#[test]
fn dice_tell_the_range_of_a_damage() {
    assert_eq!(Span { low: 1, high: 2 }, Dice.damage_range(1));
    assert_eq!(Span { low: 8, high: 12 }, Dice.damage_range(10));
    assert_eq!(Span { low: 85, high: 115 }, Dice.damage_range(100));
    assert_eq!(Span { low: 17, high: 23 }, Dice.damage_range(20));
    assert_eq!(Span { low: 2, high: 4 }, Dice.damage_range(3));
    assert_eq!(Span { low: 1, high: 1 }, Dice.damage_range(0));
    assert_eq!(Span { low: 1, high: 1 }, Dice.damage_range(-9));
    assert_eq!(Span { low: 1_825_361_099, high: i32::MAX }, Dice.damage_range(i32::MAX));
}

#[test]
fn dice_roll_damage_within_its_range() {
    let mut seen = [false; 5];
    for _ in 0..3000 {
        let dealt = Dice.damage(10);
        assert!((8..=12).contains(&dealt));
        seen[(dealt - 8) as usize] = true;
        assert!((1..=2).contains(&Dice.damage(1)));
        assert_eq!(1, Dice.damage(0));
        assert_eq!(1, Dice.damage(-100));
    }
    assert_eq!([true, true, true, true, true], seen);
}
