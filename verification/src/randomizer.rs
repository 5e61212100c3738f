//! The randomness service of the game: the three operations through which
//! chance enters the rules, and two implementations of them.

use crate::arith::{larger, smaller};
use crate::chance::roll_between;
use vstd::prelude::*;

verus! {

/// A closed range of integers, from `low` to `high`.
#[derive(Debug, Clone, Copy, PartialEq, Eq, Structural)]
pub struct Span {
    pub low: i32,
    pub high: i32,
}

impl Span {
    /// Whether `x` lies in the range.
    pub open spec fn contains(self, x: int) -> bool {
        self.low <= x <= self.high
    }

    /// The range that holds `x` alone.
    pub open spec fn only(x: i32) -> Span {
        Span { low: x, high: x }
    }

    /// The range from `low` to `high`, both of which fit in an `i32`.
    pub open spec fn between(low: int, high: int) -> Span
        recommends
            i32::MIN <= low <= i32::MAX,
            i32::MIN <= high <= i32::MAX,
    {
        Span { low: low as i32, high: high as i32 }
    }
}

/// What `rolls` rolls of a stat increase may add up to: a value within `rolls`
/// times the range of one roll; no loss where the nominal increase is not
/// one; and a point at least for each roll where the nominal increase is one.
pub open spec fn fair_gain(span: Span, nominal: int, rolls: int, total: int) -> bool {
    &&& rolls * span.low <= total <= rolls * span.high
    &&& nominal >= 0 ==> total >= 0
    &&& nominal >= 1 ==> total >= rolls
}

/// The source of chance. Each operation jitters a value that the rules
/// computed; an implementation declares, for every input, the range within
/// which its outcome lies, and can tell that range.
pub trait Randomizer {
    /// The range of `enemy_level(level)`.
    spec fn enemy_level_span(&self, level: i32) -> Span;

    /// The range of `stat_increase(increase)`.
    spec fn stat_increase_span(&self, increase: i32) -> Span;

    /// The range of `damage(value)`.
    spec fn damage_span(&self, value: i32) -> Span;

    /// Tells the range of `enemy_level(level)`.
    fn enemy_level_range(&self, level: i32) -> (span: Span)
        ensures
            span == self.enemy_level_span(level),
    ;

    /// Tells the range of `stat_increase(increase)`.
    fn stat_increase_range(&self, increase: i32) -> (span: Span)
        ensures
            span == self.stat_increase_span(increase),
    ;

    /// Tells the range of `damage(value)`.
    fn damage_range(&self, value: i32) -> (span: Span)
        ensures
            span == self.damage_span(value),
    ;

    /// Jitters the level computed for an enemy. A level of at least 1 stays
    /// at least 1.
    fn enemy_level(&self, level: i32) -> (jittered: i32)
        ensures
            self.enemy_level_span(level).contains(jittered as int),
            level >= 1 ==> jittered >= 1,
    ;

    /// Jitters the gain of a stat on a level-up around its nominal increase.
    /// A nominal increase that is no loss never turns into one, and one of a
    /// point or more gives a point at least.
    fn stat_increase(&self, increase: i32) -> (gain: i32)
        ensures
            fair_gain(self.stat_increase_span(increase), increase as int, 1, gain as int),
    ;

    /// Jitters the damage of a hit. A hit of at least 1 point stays one.
    fn damage(&self, value: i32) -> (dealt: i32)
        ensures
            self.damage_span(value).contains(dealt as int),
            value >= 1 ==> dealt >= 1,
    ;
}

/// The randomizer without chance: every value comes back as it went in.
#[derive(Debug, Clone, Copy, PartialEq, Eq, Structural)]
pub struct Steady;

impl Randomizer for Steady {
    open spec fn enemy_level_span(&self, level: i32) -> Span {
        Span::only(level)
    }

    open spec fn stat_increase_span(&self, increase: i32) -> Span {
        Span::only(increase)
    }

    open spec fn damage_span(&self, value: i32) -> Span {
        Span::only(value)
    }

    fn enemy_level_range(&self, level: i32) -> (span: Span) {
        Span { low: level, high: level }
    }

    fn stat_increase_range(&self, increase: i32) -> (span: Span) {
        Span { low: increase, high: increase }
    }

    fn damage_range(&self, value: i32) -> (span: Span) {
        Span { low: value, high: value }
    }

    fn enemy_level(&self, level: i32) -> (jittered: i32) {
        level
    }

    fn stat_increase(&self, increase: i32) -> (gain: i32) {
        increase
    }

    fn damage(&self, value: i32) -> (dealt: i32) {
        value
    }
}

/// The randomizer of a real game, which rolls on the thread-local generator.
#[derive(Debug, Clone, Copy, PartialEq, Eq, Structural)]
pub struct Dice;

impl Randomizer for Dice {
    /// One level down, the same level or one level up, and never below 1.
    open spec fn enemy_level_span(&self, level: i32) -> Span {
        Span::between(larger(1, level - 1), larger(1, smaller(level + 1, i32::MAX as int)))
    }

    /// Between half the nominal increase, or 1 if that is more, and one and a
    /// half times the nominal increase. An increase below 1 is not jittered.
    open spec fn stat_increase_span(&self, increase: i32) -> Span {
        if increase < 1 {
            Span::only(increase)
        } else {
            Span::between(
                larger(1, increase as int / 2),
                smaller(increase + increase as int / 2, i32::MAX as int),
            )
        }
    }

    /// Between 85% of the value, rounded down, and 115% of it, rounded up, and
    /// never below 1.
    open spec fn damage_span(&self, value: i32) -> Span {
        if value < 1 {
            Span::only(1)
        } else {
            Span::between(
                larger(1, 85 * value / 100),
                larger(1, smaller((115 * value + 99) / 100, i32::MAX as int)),
            )
        }
    }

    fn enemy_level_range(&self, level: i32) -> (span: Span) {
        let low: i32 = if level <= 2 {
            1
        } else {
            level - 1
        };
        let high: i32 = if level < 1 {
            1
        } else if level == i32::MAX {
            i32::MAX
        } else {
            level + 1
        };
        Span { low, high }
    }

    fn stat_increase_range(&self, increase: i32) -> (span: Span) {
        if increase < 1 {
            Span { low: increase, high: increase }
        } else {
            let half: i32 = increase / 2;
            let low: i32 = if half < 1 {
                1
            } else {
                half
            };
            let high: i32 = if half > i32::MAX - increase {
                i32::MAX
            } else {
                increase + half
            };
            Span { low, high }
        }
    }

    fn damage_range(&self, value: i32) -> (span: Span) {
        if value < 1 {
            Span { low: 1, high: 1 }
        } else {
            let below: i64 = 85 * (value as i64) / 100;
            let above: i64 = (115 * (value as i64) + 99) / 100;
            let low: i32 = if below < 1 {
                1
            } else {
                below as i32
            };
            let high: i32 = if above > i32::MAX as i64 {
                i32::MAX
            } else {
                above as i32
            };
            Span { low, high }
        }
    }

    fn enemy_level(&self, level: i32) -> (jittered: i32) {
        let shift: i32 = roll_between(-1, 1);
        let moved: i64 = level as i64 + shift as i64;
        if moved < 1 {
            1
        } else if moved > i32::MAX as i64 {
            i32::MAX
        } else {
            moved as i32
        }
    }

    fn stat_increase(&self, increase: i32) -> (gain: i32) {
        let span = self.stat_increase_range(increase);
        if span.low == span.high {
            span.low
        } else {
            roll_between(span.low, span.high)
        }
    }

    fn damage(&self, value: i32) -> (dealt: i32) {
        let span = self.damage_range(value);
        if span.low == span.high {
            span.low
        } else {
            roll_between(span.low, span.high)
        }
    }
}

} // verus!
