//! The machine limits of the game rules, as tests that a caller can make:
//! whether the numbers of an operation stay within `i32`.

use crate::arith::in_i32;
use crate::character::class::{Category, Class, ClassRegistry};
use crate::character::model::{
    can_change_class, fits_growth, lemma_levels_gained_bound, lemma_xp_threshold_positive,
    levels_gained, mp_span, CharacterView,
};
use crate::character::{xp_for_level, Character};
use crate::randomizer::{Randomizer, Span};
use vstd::prelude::*;

verus! {

/// Whether a stat that stands at `x` stays within `i32` through `levels`
/// level-ups with gains within `span`.
fn stat_fits_growth(x: i64, span: Span, levels: i32) -> (fits: bool)
    requires
        -0x2_0000_0000 <= x <= 0x2_0000_0000,
    ensures
        fits == fits_growth(x as int, span, levels as int),
{
    assert(-0x4000_0000_0000_0000 <= levels * span.low <= 0x4000_0000_0000_0000) by (nonlinear_arith)
        requires
            -0x8000_0000 <= levels <= 0x8000_0000,
            -0x8000_0000 <= span.low <= 0x8000_0000,
    ;
    assert(-0x4000_0000_0000_0000 <= levels * span.high <= 0x4000_0000_0000_0000)
        by (nonlinear_arith)
        requires
            -0x8000_0000 <= levels <= 0x8000_0000,
            -0x8000_0000 <= span.high <= 0x8000_0000,
    ;
    let least: i64 = x + levels as i64 * span.low as i64;
    let most: i64 = x + levels as i64 * span.high as i64;
    i32::MIN as i64 <= x && x <= i32::MAX as i64 && i32::MIN as i64 <= least && least
        <= i32::MAX as i64 && i32::MIN as i64 <= most && most <= i32::MAX as i64
}

/// Whether the level-0 values of `class` fit in an `i32`.
fn class_is_seedable(class: &Class) -> (seedable: bool)
    ensures
        seedable == CharacterView::seedable(class@),
{
    let hp: i64 = class.hp.0 as i64 - class.hp.1 as i64;
    let strength: i64 = class.strength.0 as i64 - class.strength.1 as i64;
    let speed: i64 = class.speed.0 as i64 - class.speed.1 as i64;
    let mp: i64 = match &class.mp {
        Some(mp) => mp.0 as i64 - mp.1 as i64,
        None => 0,
    };
    i32::MIN as i64 <= hp && hp <= i32::MAX as i64 && i32::MIN as i64 <= strength && strength
        <= i32::MAX as i64 && i32::MIN as i64 <= speed && speed <= i32::MAX as i64 && i32::MIN as i64
        <= mp && mp <= i32::MAX as i64
}

impl Character {
    /// Whether level and stats stay within `i32` through `levels` level-ups,
    /// whatever `rng` hands out.
    pub fn has_room_for<R: Randomizer>(&self, rng: &R, levels: i32) -> (room: bool)
        ensures
            room == self@.room_for(rng, levels as int),
    {
        let level: i64 = self.level as i64 + levels as i64;
        let strength = rng.stat_increase_range(self.class.strength.increase());
        let speed = rng.stat_increase_range(self.class.speed.increase());
        let hp = rng.stat_increase_range(self.class.hp.increase());
        let mp = match &self.class.mp {
            Some(mp) => rng.stat_increase_range(mp.increase()),
            None => Span { low: 0, high: 0 },
        };
        assert(mp == mp_span(self.class@, rng));
        i32::MIN as i64 <= level && level <= i32::MAX as i64 && stat_fits_growth(
            self.strength as i64,
            strength,
            levels,
        ) && stat_fits_growth(self.speed as i64, speed, levels) && stat_fits_growth(
            self.max_hp as i64,
            hp,
            levels,
        ) && stat_fits_growth(self.current_hp as i64, hp, levels) && stat_fits_growth(
            self.max_mp as i64,
            mp,
            levels,
        ) && stat_fits_growth(self.current_mp as i64, mp, levels)
    }

    /// Whether a character of `class` can be raised to `level` within `i32`,
    /// whatever `rng` hands out.
    pub fn can_spawn<R: Randomizer>(class: &Class, level: i32, rng: &R) -> (able: bool)
        ensures
            able == CharacterView::spawnable(class@, level as int, rng),
    {
        if !class_is_seedable(class) {
            return false;
        }
        let seed = Self::seed(class.clone());
        seed.has_room_for(
            rng,
            if level > 0 {
                level
            } else {
                0
            },
        )
    }

    /// Whether a change to the class called `name` keeps every number within
    /// `i32`, whatever `rng` hands out.
    pub fn can_change_class<R: Randomizer>(
        &self,
        name: &str,
        registry: &ClassRegistry,
        rng: &R,
    ) -> (able: bool)
        ensures
            able == can_change_class(
                self@,
                rng,
                name@,
                registry.player_named(name@),
            ),
    {
        if self.class.is_named(name) {
            return true;
        }
        match Class::player_by_name(registry, name) {
            None => true,
            Some(class) => {
                if self.level == 1 {
                    Self::can_spawn(class, 1, rng)
                } else if self.max_mp == 0 {
                    match &class.mp {
                        Some(mp) => stat_fits_growth(
                            mp.0 as i64 - mp.1 as i64,
                            rng.stat_increase_range(mp.increase()),
                            1,
                        ),
                        None => true,
                    }
                } else {
                    true
                }
            },
        }
    }

    /// Whether `xp` more points of experience, and the level-ups they bring,
    /// keep every number within `i32`, whatever `rng` hands out. Only a
    /// character of level 1 or above can gain experience.
    pub fn can_add_experience<R: Randomizer>(&self, xp: i32, rng: &R) -> (able: bool)
        ensures
            able == self@.can_gain(rng, xp as int),
    {
        if self.level < 1 {
            return false;
        }
        let total: i64 = self.xp as i64 + xp as i64;
        if total < i32::MIN as i64 || total > i32::MAX as i64 {
            return false;
        }
        let ghost goal = levels_gained(self.level as int, total as int);
        let mut level: i32 = self.level;
        let mut rest: i64 = total;
        let mut gained: i32 = 0;
        let mut for_next: i32 = xp_for_level(level);
        proof {
            lemma_xp_threshold_positive(level as int);
            lemma_levels_gained_bound(level as int, rest as int);
        }
        while rest >= for_next as i64
            invariant
                1 <= self.level <= level,
                total == self.xp + xp,
                in_i32(total as int),
                goal == levels_gained(self.level as int, total as int),
                gained == level - self.level,
                rest <= i32::MAX,
                for_next == crate::character::model::xp_threshold(level as int),
                for_next >= 30,
                gained + levels_gained(level as int, rest as int) == goal,
                levels_gained(level as int, rest as int) >= 0,
            decreases rest,
        {
            proof {
                lemma_xp_threshold_positive(level + 1);
                lemma_levels_gained_bound(level + 1, rest - for_next);
            }
            if level == i32::MAX {
                return false;
            }
            rest -= for_next as i64;
            level += 1;
            gained += 1;
            for_next = xp_for_level(level);
        }
        self.has_room_for(rng, gained)
    }

    /// Whether every number that enters the damage done to `receiver` fits in
    /// an `i32`.
    pub fn can_attack(&self, receiver: &Self) -> (able: bool)
        ensures
            able == self@.attack_fits(receiver@),
    {
        let cost: i32 = match &self.class.mp {
            Some(mp) => {
                if !mp.fits_at(self.level) {
                    return false;
                }
                mp.at(self.level) / 3
            },
            None => 0,
        };
        let raw: i64 = if self.class.is_magic() {
            if self.current_mp >= cost {
                self.strength as i64 * 3
            } else {
                (self.strength / 3) as i64
            }
        } else {
            let sword: i32 = match &self.sword {
                Some(sword) => sword.strength(),
                None => 0,
            };
            self.strength as i64 + sword as i64
        };
        let after_defense: i64 = raw - receiver.deffense() as i64;
        i32::MIN as i64 <= raw && raw <= i32::MAX as i64 && i32::MIN as i64 <= after_defense
            && after_defense <= i32::MAX as i64
    }

    /// Whether the experience gained by doing `damage` to `receiver` fits in
    /// an `i32`.
    pub fn can_gain_xp(&self, receiver: &Self, damage: i32) -> (able: bool)
        ensures
            able == in_i32(self@.xp_gained(receiver@, damage as int)),
    {
        let class_multiplier: i128 = match receiver.class.category {
            Category::Rare => 3,
            Category::Legendary => 5,
            _ => 1,
        };
        let xp: i128 = if receiver.level > self.level {
            let gap: i128 = 1 + receiver.level as i128 - self.level as i128;
            assert(damage * gap <= 0x8000_0000 * 0x1_0000_0000 && damage * gap >= -0x8000_0000
                * 0x1_0000_0000) by (nonlinear_arith)
                requires
                    -0x8000_0000 <= damage <= 0x8000_0000,
                    0 <= gap <= 0x1_0000_0000,
            ;
            damage as i128 * gap * class_multiplier
        } else {
            let gap: i64 = 1 + self.level as i64 - receiver.level as i64;
            (damage as i64 / gap) as i128 * class_multiplier
        };
        i32::MIN as i128 <= xp && xp <= i32::MAX as i128
    }
}

} // verus!
