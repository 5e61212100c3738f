//! The mathematical model of a character: its value over unbounded integers,
//! the game formulas as functions of that value, and the laws they obey.

use crate::arith::{
    floor_sqrt, in_i32, is_floor_sqrt, larger, lemma_floor_sqrt_is_root,
    lemma_floor_sqrt_monotonic, lemma_floor_sqrt_unique, smaller, trunc_div,
};
use crate::character::class::{Category, Class, ClassView};
use crate::character::StatusEffect;
use crate::equipment::{Shield, Sword};
use crate::randomizer::{fair_gain, Randomizer, Span};
use vstd::prelude::*;

verus! {

/// The mathematical value of a character.
pub struct CharacterView {
    pub class: ClassView,
    pub sword: Option<Sword>,
    pub shield: Option<Shield>,
    pub level: int,
    pub xp: int,
    pub max_hp: int,
    pub current_hp: int,
    pub max_mp: int,
    pub current_mp: int,
    pub strength: int,
    pub speed: int,
    pub status_effect: Option<StatusEffect>,
}

/// The experience needed to leave `level`: the integer part of
/// `30 * level^1.5`, which is the integer square root of `900 * level^3`,
/// capped at the largest `i32`. There is no threshold below level 1.
pub open spec fn xp_threshold(level: int) -> int {
    if level < 1 {
        0
    } else {
        smaller(floor_sqrt(900 * level * level * level), i32::MAX as int)
    }
}

/// The factor by which the category of a defeated class multiplies experience.
pub open spec fn xp_multiplier(category: Category) -> int {
    match category {
        Category::Rare => 3,
        Category::Legendary => 5,
        _ => 1,
    }
}

/// How many levels a character at `level` gains from `xp` points of
/// accumulated experience.
pub open spec fn levels_gained(level: int, xp: int) -> int
    decreases xp,
{
    if 0 < xp_threshold(level) <= xp {
        1 + levels_gained(level + 1, xp - xp_threshold(level))
    } else {
        0
    }
}

/// The experience that is left once a character at `level` has turned `xp`
/// points into levels.
pub open spec fn xp_left(level: int, xp: int) -> int
    decreases xp,
{
    if 0 < xp_threshold(level) <= xp {
        xp_left(level + 1, xp - xp_threshold(level))
    } else {
        xp
    }
}

/// Whether a stat that stands at `x` stays within `i32` through `levels`
/// level-ups, whatever gains within `span` it receives.
pub open spec fn fits_growth(x: int, span: Span, levels: int) -> bool {
    &&& in_i32(x)
    &&& in_i32(x + levels * span.low)
    &&& in_i32(x + levels * span.high)
}

/// The range of the gain of the magic pool on one level-up: that of the magic
/// curve's increase, and nothing for a class without magic.
pub open spec fn mp_span<R: Randomizer>(class: ClassView, rng: &R) -> Span {
    match class.mp {
        Some(mp) => rng.stat_increase_span(mp.1),
        None => Span::only(0),
    }
}

impl CharacterView {
    /// Whether both pools lie between zero and their maximum.
    pub open spec fn pools_in_bounds(self) -> bool {
        &&& 0 <= self.current_hp <= self.max_hp
        &&& 0 <= self.current_mp <= self.max_mp
    }

    /// The invariant of a character in play.
    pub open spec fn wf(self) -> bool {
        &&& self.level >= 1
        &&& self.xp >= 0
        &&& self.pools_in_bounds()
    }

    /// Whether the level-0 values of `class`, from which a character starts
    /// to grow, fit in an `i32`.
    pub open spec fn seedable(class: ClassView) -> bool {
        &&& in_i32(class.hp.0 - class.hp.1)
        &&& in_i32(class.strength.0 - class.strength.1)
        &&& in_i32(class.speed.0 - class.speed.1)
        &&& class.mp matches Some(mp) ==> in_i32(mp.0 - mp.1)
    }

    /// The character of `class` at level 0: every curve one increase below
    /// its base, full pools, no equipment.
    pub open spec fn seed(class: ClassView) -> CharacterView {
        let mp = match class.mp {
            Some(mp) => mp.0 - mp.1,
            None => 0,
        };
        CharacterView {
            class,
            sword: None,
            shield: None,
            level: 0,
            xp: 0,
            max_hp: class.hp.0 - class.hp.1,
            current_hp: class.hp.0 - class.hp.1,
            max_mp: mp,
            current_mp: mp,
            strength: class.strength.0 - class.strength.1,
            speed: class.speed.0 - class.speed.1,
            status_effect: None,
        }
    }

    /// Whether `levels` level-ups can take this character to `end`: the level
    /// rises by `levels`, each stat by a fair sum of that many gains, and both
    /// pools keep the amount by which they are below their maximum. Class,
    /// equipment and status effect stay; nothing is said of the experience.
    pub open spec fn grown_by<R: Randomizer>(self, rng: &R, levels: int, end: CharacterView) -> bool {
        &&& end.class == self.class
        &&& end.sword == self.sword
        &&& end.shield == self.shield
        &&& end.status_effect == self.status_effect
        &&& end.level == self.level + levels
        &&& fair_gain(
            rng.stat_increase_span(self.class.strength.1),
            self.class.strength.1 as int,
            levels,
            end.strength - self.strength,
        )
        &&& fair_gain(
            rng.stat_increase_span(self.class.speed.1),
            self.class.speed.1 as int,
            levels,
            end.speed - self.speed,
        )
        &&& fair_gain(
            rng.stat_increase_span(self.class.hp.1),
            self.class.hp.1 as int,
            levels,
            end.max_hp - self.max_hp,
        )
        &&& end.max_hp - end.current_hp == self.max_hp - self.current_hp
        &&& fair_gain(
            mp_span(self.class, rng),
            self.class.mp_increase(),
            levels,
            end.max_mp - self.max_mp,
        )
        &&& end.max_mp - end.current_mp == self.max_mp - self.current_mp
    }

    /// Whether level and stats stay within `i32` through `levels` level-ups,
    /// whatever `rng` hands out.
    pub open spec fn room_for<R: Randomizer>(self, rng: &R, levels: int) -> bool {
        &&& in_i32(self.level)
        &&& in_i32(self.level + levels)
        &&& fits_growth(self.strength, rng.stat_increase_span(self.class.strength.1), levels)
        &&& fits_growth(self.speed, rng.stat_increase_span(self.class.speed.1), levels)
        &&& fits_growth(self.max_hp, rng.stat_increase_span(self.class.hp.1), levels)
        &&& fits_growth(self.current_hp, rng.stat_increase_span(self.class.hp.1), levels)
        &&& fits_growth(self.max_mp, mp_span(self.class, rng), levels)
        &&& fits_growth(self.current_mp, mp_span(self.class, rng), levels)
    }

    /// Whether a character of `class` can be raised to `level` within `i32`,
    /// whatever `rng` hands out. A level below 1 counts as no level-up.
    pub open spec fn spawnable<R: Randomizer>(class: ClassView, level: int, rng: &R) -> bool {
        Self::seedable(class) && Self::seed(class).room_for(rng, larger(level, 0))
    }

    /// Whether `born` is a new character of `class` raised to `level`: grown
    /// from level 0 by `level` level-ups, and without experience.
    pub open spec fn spawned<R: Randomizer>(
        class: ClassView,
        level: int,
        rng: &R,
        born: CharacterView,
    ) -> bool {
        Self::seed(class).grown_by(rng, larger(level, 0), born) && born.xp == 0
    }

    /// Whether `xp` more points of experience, and the level-ups they bring,
    /// keep every number within `i32`, for a character of level 1 or above.
    pub open spec fn can_gain<R: Randomizer>(self, rng: &R, xp: int) -> bool {
        &&& self.level >= 1
        &&& in_i32(self.xp + xp)
        &&& self.room_for(rng, levels_gained(self.level, self.xp + xp))
    }

    /// The health after a hit of `damage` points: nothing once the hit
    /// reaches the health that is left.
    pub open spec fn hp_after_hit(self, damage: int) -> int {
        if damage >= self.current_hp {
            0
        } else {
            self.current_hp - damage
        }
    }

    /// Whether a hit of `damage` points kills.
    pub open spec fn killed_by(self, damage: int) -> bool {
        damage >= self.current_hp
    }

    /// The character after a hit of `damage` points.
    pub open spec fn hit(self, damage: int) -> CharacterView {
        CharacterView { current_hp: self.hp_after_hit(damage), ..self }
    }

    /// The health after healing `amount` points: raised by the amount, but
    /// not beyond the maximum. An amount below zero heals nothing.
    pub open spec fn hp_after_healing(self, amount: int) -> int {
        smaller(self.max_hp, self.current_hp + larger(amount, 0))
    }

    /// The health restored by healing `amount` points: no more than what is
    /// missing.
    pub open spec fn hp_restored(self, amount: int) -> int {
        self.hp_after_healing(amount) - self.current_hp
    }

    /// The character after healing `amount` points.
    pub open spec fn healed(self, amount: int) -> CharacterView {
        CharacterView { current_hp: self.hp_after_healing(amount), ..self }
    }

    /// The magic points after restoring `amount` points: raised by the
    /// amount, but not beyond the maximum. An amount below zero restores
    /// nothing.
    pub open spec fn mp_after_restoring(self, amount: int) -> int {
        smaller(self.max_mp, self.current_mp + larger(amount, 0))
    }

    /// The magic points restored by restoring `amount` points: no more than
    /// what is missing.
    pub open spec fn mp_restored(self, amount: int) -> int {
        self.mp_after_restoring(amount) - self.current_mp
    }

    /// The character after restoring `amount` magic points.
    pub open spec fn recharged(self, amount: int) -> CharacterView {
        CharacterView { current_mp: self.mp_after_restoring(amount), ..self }
    }

    /// The strength that the sword adds; nothing without a sword.
    pub open spec fn sword_strength(self) -> int {
        match self.sword {
            Some(sword) => sword.strength as int,
            None => 0,
        }
    }

    /// The defense: the strength of the shield; nothing without a shield.
    pub open spec fn defense(self) -> int {
        match self.shield {
            Some(shield) => shield.strength as int,
            None => 0,
        }
    }

    /// The strength of a physical attack: a third of the strength for a magic
    /// class, which gets nothing from a sword, and else strength and sword.
    pub open spec fn physical_attack(self) -> int {
        if self.class.is_magic() {
            trunc_div(self.strength, 3)
        } else {
            self.strength + self.sword_strength()
        }
    }

    /// The strength of a magic attack: three times the strength for a magic
    /// class, nothing for any other.
    pub open spec fn magic_attack(self) -> int {
        if self.class.is_magic() {
            self.strength * 3
        } else {
            0
        }
    }

    /// The magic points that one magic attack costs: a third of the nominal
    /// magic pool at the character's level.
    pub open spec fn mp_cost(self) -> int {
        match self.class.mp {
            Some(mp) => trunc_div(mp.value_at(self.level), 3),
            None => 0,
        }
    }

    /// Whether the class uses magic and the magic points cover an attack.
    pub open spec fn can_magic_attack(self) -> bool {
        self.class.is_magic() && self.current_mp >= self.mp_cost()
    }

    /// The strength of the attack that the character makes, before the
    /// receiver's defense: magic where it can, physical otherwise.
    pub open spec fn raw_damage(self) -> int {
        if self.can_magic_attack() {
            self.magic_attack()
        } else {
            self.physical_attack()
        }
    }

    /// The damage done to `receiver`, never less than 1, and the magic points
    /// that the attack costs.
    pub open spec fn damage_to(self, receiver: CharacterView) -> (int, int) {
        (
            larger(1, self.raw_damage() - receiver.defense()),
            if self.can_magic_attack() {
                self.mp_cost()
            } else {
                0
            },
        )
    }

    /// Whether every number that enters the damage done to `receiver` fits in
    /// an `i32`.
    pub open spec fn attack_fits(self, receiver: CharacterView) -> bool {
        &&& self.class.mp matches Some(mp) ==> in_i32(mp.value_at(self.level))
        &&& in_i32(self.raw_damage())
        &&& in_i32(self.raw_damage() - receiver.defense())
    }

    /// The experience gained by doing `damage` to `receiver`: multiplied by
    /// the level gap where the receiver is above, divided by it where not, and
    /// multiplied by the factor of the receiver's category.
    pub open spec fn xp_gained(self, receiver: CharacterView, damage: int) -> int {
        let factor = xp_multiplier(receiver.class.category);
        if receiver.level > self.level {
            damage * (1 + receiver.level - self.level) * factor
        } else {
            trunc_div(damage, 1 + self.level - receiver.level) * factor
        }
    }

    /// The level rounded down to a multiple of five, and 1 below five.
    pub open spec fn rounded_level(self) -> int {
        larger(1, trunc_div(self.level, 5) * 5)
    }

    /// The damage of one tick of a status effect, before it is jittered: a
    /// twentieth of the full health, and at least 1.
    pub open spec fn status_effect_damage(self) -> int {
        larger(1, trunc_div(self.max_hp, 20))
    }

    /// Whether `damage` can be what one tick of a status effect does: what
    /// `rng` may make of the tick's nominal damage, and at least 1.
    pub open spec fn ticked_by<R: Randomizer>(self, rng: &R, damage: int) -> bool {
        &&& rng.damage_span(self.status_effect_damage() as i32).contains(damage)
        &&& damage >= 1
    }

    /// Whether the change to `class` grants a first magic pool: the class uses
    /// magic and the character never had any.
    pub open spec fn gets_magic(self, class: ClassView) -> bool {
        class.is_magic() && self.max_mp == 0
    }

    /// Whether a character above level 1 can come out of a change to `class`
    /// as `end`: stats, level, equipment and status effect stay and the
    /// experience is lost. A character without magic that takes up a magic
    /// class gets a full pool of the size of a first level-up, the others keep
    /// their pool.
    pub open spec fn switched_to<R: Randomizer>(
        self,
        rng: &R,
        class: ClassView,
        end: CharacterView,
    ) -> bool {
        &&& end.class == class
        &&& end.sword == self.sword
        &&& end.shield == self.shield
        &&& end.status_effect == self.status_effect
        &&& end.level == self.level
        &&& end.xp == 0
        &&& end.strength == self.strength
        &&& end.speed == self.speed
        &&& end.max_hp == self.max_hp
        &&& end.current_hp == self.current_hp
        &&& end.current_mp == (if self.gets_magic(class) {
            end.max_mp
        } else {
            self.current_mp
        })
        &&& match class.mp {
            Some(mp) if self.max_mp == 0 => fair_gain(
                rng.stat_increase_span(mp.1),
                mp.1 as int,
                1,
                end.max_mp - (mp.0 - mp.1),
            ),
            _ => end.max_mp == self.max_mp,
        }
    }

    /// Whether a character at level 1 can come out of a change to `class` as
    /// `end`: a new character of that class at level 1, without experience or
    /// status effect, that carries the equipment of the old one.
    pub open spec fn reborn_as<R: Randomizer>(
        self,
        rng: &R,
        class: ClassView,
        end: CharacterView,
    ) -> bool {
        &&& end.xp == 0
        &&& CharacterView { sword: self.sword, shield: self.shield, ..Self::seed(class) }.grown_by(
            rng,
            1,
            end,
        )
    }

    /// Whether the numbers of a change to `class` fit in an `i32`, whatever
    /// `rng` hands out.
    pub open spec fn can_become<R: Randomizer>(self, rng: &R, class: ClassView) -> bool {
        if self.level == 1 {
            Self::spawnable(class, 1, rng)
        } else {
            match class.mp {
                Some(mp) if self.max_mp == 0 => fits_growth(
                    mp.0 - mp.1,
                    rng.stat_increase_span(mp.1),
                    1,
                ),
                _ => true,
            }
        }
    }
}

/// Whether a change to the class called `name` keeps every number within
/// `i32`, where `found` is the player class of that name. Nothing is asked
/// where the change does nothing: for the name of the class that the
/// character has, and for a name that no class has.
pub open spec fn can_change_class<R: Randomizer>(
    character: CharacterView,
    rng: &R,
    name: Seq<char>,
    found: Option<Class>,
) -> bool {
    name != character.class.name ==> (found matches Some(class) ==> character.can_become(
        rng,
        class@,
    ))
}

/// From level 1 on, the threshold is at least 30 points.
pub proof fn lemma_xp_threshold_positive(level: int)
    requires
        level >= 1,
    ensures
        30 <= xp_threshold(level) <= i32::MAX,
{
    assert(900 * level * level * level >= 900) by (nonlinear_arith)
        requires
            level >= 1,
    ;
    assert(30 * 30 <= 900 < (30 + 1) * (30 + 1)) by (nonlinear_arith);
    lemma_floor_sqrt_unique(900, 30);
    lemma_floor_sqrt_monotonic(900, 900 * level * level * level);
}

/// The largest level whose threshold fits in an `i32` unabridged.
pub open spec fn last_exact_level() -> int {
    172_400
}

/// Up to level 172400 the threshold is the integer part of
/// `30 * level^1.5`: the one natural number `t` with
/// `t^2 <= 900 * level^3 < (t + 1)^2`. Above that level the integer part no
/// longer fits, and the threshold is the largest `i32`.
pub proof fn lemma_xp_threshold_formula(level: int)
    requires
        level >= 1,
    ensures
        level <= last_exact_level() ==> is_floor_sqrt(900 * level * level * level, xp_threshold(level)),
        level > last_exact_level() ==> xp_threshold(level) == i32::MAX,
{
    let cube = 900 * level * level * level;
    assert(cube >= 0) by (nonlinear_arith)
        requires
            cube == 900 * level * level * level,
            level >= 1,
    ;
    lemma_floor_sqrt_is_root(cube);
    if level <= last_exact_level() {
        let last: int = 4611628281600000000;
        assert(cube <= last) by (nonlinear_arith)
            requires
                cube == 900 * level * level * level,
                1 <= level <= 172_400,
                last == 900 * 172_400 * 172_400 * 172_400,
        ;
        assert(2147470205int * 2147470205int <= last < (2147470205int + 1) * (2147470205int + 1))
            by (nonlinear_arith)
            requires
                last == 4611628281600000000,
        ;
        lemma_floor_sqrt_unique(last, 2147470205);
        lemma_floor_sqrt_monotonic(cube, last);
    } else {
        let first: int = 4611708530817480900;
        assert(cube >= first) by (nonlinear_arith)
            requires
                cube == 900 * level * level * level,
                level >= 172_401,
                first == 900 * 172_401 * 172_401 * 172_401,
        ;
        assert(2147488889int * 2147488889int <= first < (2147488889int + 1) * (2147488889int + 1))
            by (nonlinear_arith)
            requires
                first == 4611708530817480900,
        ;
        lemma_floor_sqrt_unique(first, 2147488889);
        lemma_floor_sqrt_monotonic(first, cube);
    }
}

/// Whatever natural number squares to at most `900 * level^3`, while its
/// successor squares to more, is the threshold of `level`.
pub proof fn lemma_xp_threshold_is(level: int, threshold: int)
    requires
        level >= 1,
        0 <= threshold <= i32::MAX,
        threshold * threshold <= 900 * level * level * level,
        900 * level * level * level < (threshold + 1) * (threshold + 1),
    ensures
        xp_threshold(level) == threshold,
{
    lemma_floor_sqrt_unique(900 * level * level * level, threshold);
}

/// Experience that has been turned into levels leaves less than the next
/// level asks for, and nothing is lost on the way.
pub proof fn lemma_xp_left_below_threshold(level: int, xp: int)
    requires
        level >= 1,
    ensures
        levels_gained(level, xp) >= 0,
        xp_left(level, xp) < xp_threshold(level + levels_gained(level, xp)),
        xp >= 0 ==> xp_left(level, xp) >= 0,
        xp_left(level, xp) <= larger(xp, 0),
    decreases xp,
{
    lemma_xp_threshold_positive(level);
    if 0 < xp_threshold(level) <= xp {
        lemma_xp_left_below_threshold(level + 1, xp - xp_threshold(level));
    }
}

/// One level costs at least 30 points, so `xp` points buy no more than `xp`
/// levels.
pub proof fn lemma_levels_gained_bound(level: int, xp: int)
    requires
        level >= 1,
    ensures
        0 <= levels_gained(level, xp) <= larger(xp, 0),
    decreases xp,
{
    lemma_xp_threshold_positive(level);
    if 0 < xp_threshold(level) <= xp {
        lemma_levels_gained_bound(level + 1, xp - xp_threshold(level));
    }
}

/// Fair gains add up: the sum of a fair gain of `a` rolls and one of `b`
/// rolls is a fair gain of `a + b` rolls.
pub proof fn lemma_fair_gain_adds(span: Span, nominal: int, a: int, x: int, b: int, y: int)
    requires
        fair_gain(span, nominal, a, x),
        fair_gain(span, nominal, b, y),
    ensures
        fair_gain(span, nominal, a + b, x + y),
{
    assert((a + b) * span.low == a * span.low + b * span.low) by (nonlinear_arith);
    assert((a + b) * span.high == a * span.high + b * span.high) by (nonlinear_arith);
}

/// A stat with room for `levels` level-ups has room for one, and after it
/// room for the remaining ones.
pub proof fn lemma_fits_growth_step(x: int, span: Span, levels: int, gain: int)
    requires
        fits_growth(x, span, levels),
        levels >= 1,
        span.contains(gain),
    ensures
        fits_growth(x, span, 1),
        fits_growth(x + gain, span, levels - 1),
{
    let low = span.low as int;
    let high = span.high as int;
    let rest = levels - 1;
    assert(levels * low == low + rest * low) by (nonlinear_arith)
        requires
            rest == levels - 1,
    ;
    assert(levels * high == high + rest * high) by (nonlinear_arith)
        requires
            rest == levels - 1,
    ;
    assert(rest * low <= rest * high) by (nonlinear_arith)
        requires
            rest >= 0,
            low <= high,
    ;
    assert(low >= 0 ==> rest * low >= 0) by (nonlinear_arith)
        requires
            rest >= 0,
    ;
    assert(low <= 0 ==> rest * low <= 0) by (nonlinear_arith)
        requires
            rest >= 0,
    ;
    assert(high >= 0 ==> rest * high >= 0) by (nonlinear_arith)
        requires
            rest >= 0,
    ;
    assert(high <= 0 ==> rest * high <= 0) by (nonlinear_arith)
        requires
            rest >= 0,
    ;
}

/// A stat with room for `low` level-ups and for `high` ones has room for any
/// number between them.
pub proof fn lemma_fits_growth_between(x: int, span: Span, low: int, levels: int, high: int)
    requires
        fits_growth(x, span, low),
        fits_growth(x, span, high),
        low <= levels <= high,
    ensures
        fits_growth(x, span, levels),
{
    let a = span.low as int;
    let b = span.high as int;
    assert(a >= 0 ==> low * a <= levels * a <= high * a) by (nonlinear_arith)
        requires
            low <= levels <= high,
    ;
    assert(a <= 0 ==> high * a <= levels * a <= low * a) by (nonlinear_arith)
        requires
            low <= levels <= high,
    ;
    assert(b >= 0 ==> low * b <= levels * b <= high * b) by (nonlinear_arith)
        requires
            low <= levels <= high,
    ;
    assert(b <= 0 ==> high * b <= levels * b <= low * b) by (nonlinear_arith)
        requires
            low <= levels <= high,
    ;
}

impl CharacterView {
    /// A character with room for `low` level-ups and for `high` ones has room
    /// for any number between them.
    pub proof fn lemma_room_for_between<R: Randomizer>(self, rng: &R, low: int, levels: int, high: int)
        requires
            self.room_for(rng, low),
            self.room_for(rng, high),
            low <= levels <= high,
        ensures
            self.room_for(rng, levels),
    {
        let class = self.class;
        let strength = rng.stat_increase_span(class.strength.1);
        let speed = rng.stat_increase_span(class.speed.1);
        let hp = rng.stat_increase_span(class.hp.1);
        let mp = mp_span(class, rng);
        lemma_fits_growth_between(self.strength, strength, low, levels, high);
        lemma_fits_growth_between(self.speed, speed, low, levels, high);
        lemma_fits_growth_between(self.max_hp, hp, low, levels, high);
        lemma_fits_growth_between(self.current_hp, hp, low, levels, high);
        lemma_fits_growth_between(self.max_mp, mp, low, levels, high);
        lemma_fits_growth_between(self.current_mp, mp, low, levels, high);
    }

    /// Growing by `a` levels and then by `b` levels is growing by `a + b`.
    pub proof fn lemma_grown_by_adds<R: Randomizer>(
        self,
        rng: &R,
        a: int,
        middle: CharacterView,
        b: int,
        end: CharacterView,
    )
        requires
            self.grown_by(rng, a, middle),
            middle.grown_by(rng, b, end),
        ensures
            self.grown_by(rng, a + b, end),
    {
        let class = self.class;
        lemma_fair_gain_adds(
            rng.stat_increase_span(class.strength.1),
            class.strength.1 as int,
            a,
            middle.strength - self.strength,
            b,
            end.strength - middle.strength,
        );
        lemma_fair_gain_adds(
            rng.stat_increase_span(class.speed.1),
            class.speed.1 as int,
            a,
            middle.speed - self.speed,
            b,
            end.speed - middle.speed,
        );
        lemma_fair_gain_adds(
            rng.stat_increase_span(class.hp.1),
            class.hp.1 as int,
            a,
            middle.max_hp - self.max_hp,
            b,
            end.max_hp - middle.max_hp,
        );
        lemma_fair_gain_adds(
            mp_span(class, rng),
            class.mp_increase(),
            a,
            middle.max_mp - self.max_mp,
            b,
            end.max_mp - middle.max_mp,
        );
    }

    /// A character grows by no level into itself.
    pub proof fn lemma_grown_by_nothing<R: Randomizer>(self, rng: &R)
        ensures
            self.grown_by(rng, 0, self),
    {
    }

    /// A character with room for `levels` level-ups has room for one, and
    /// after that one still has room for the others.
    pub proof fn lemma_room_for_step<R: Randomizer>(self, rng: &R, levels: int, next: CharacterView)
        requires
            self.room_for(rng, levels),
            levels >= 1,
        ensures
            self.room_for(rng, 1),
            self.grown_by(rng, 1, next) ==> next.room_for(rng, levels - 1),
    {
        let class = self.class;
        let strength = rng.stat_increase_span(class.strength.1);
        let speed = rng.stat_increase_span(class.speed.1);
        let hp = rng.stat_increase_span(class.hp.1);
        let mp = mp_span(class, rng);
        if self.grown_by(rng, 1, next) {
            lemma_fits_growth_step(self.strength, strength, levels, next.strength - self.strength);
            lemma_fits_growth_step(self.speed, speed, levels, next.speed - self.speed);
            lemma_fits_growth_step(self.max_hp, hp, levels, next.max_hp - self.max_hp);
            lemma_fits_growth_step(self.current_hp, hp, levels, next.max_hp - self.max_hp);
            lemma_fits_growth_step(self.max_mp, mp, levels, next.max_mp - self.max_mp);
            lemma_fits_growth_step(self.current_mp, mp, levels, next.max_mp - self.max_mp);
        } else {
            Self::lemma_room_for_one(self.strength, strength, levels);
            Self::lemma_room_for_one(self.speed, speed, levels);
            Self::lemma_room_for_one(self.max_hp, hp, levels);
            Self::lemma_room_for_one(self.current_hp, hp, levels);
            Self::lemma_room_for_one(self.max_mp, mp, levels);
            Self::lemma_room_for_one(self.current_mp, mp, levels);
        }
    }

    /// A stat with room for `levels` level-ups, one at least, has room for
    /// one.
    proof fn lemma_room_for_one(x: int, span: Span, levels: int)
        requires
            fits_growth(x, span, levels),
            levels >= 1,
        ensures
            fits_growth(x, span, 1),
    {
        let low = span.low as int;
        let high = span.high as int;
        assert(low >= 0 ==> levels * low >= low) by (nonlinear_arith)
            requires
                levels >= 1,
        ;
        assert(low <= 0 ==> levels * low <= low) by (nonlinear_arith)
            requires
                levels >= 1,
        ;
        assert(high >= 0 ==> levels * high >= high) by (nonlinear_arith)
            requires
                levels >= 1,
        ;
        assert(high <= 0 ==> levels * high <= high) by (nonlinear_arith)
            requires
                levels >= 1,
        ;
    }
}

} // verus!
