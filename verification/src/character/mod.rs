//! Characters: levelling, resource pools, combat formulas and class changes.

use crate::arith::{
    in_i32, isqrt, larger, lemma_floor_sqrt_monotonic, lemma_floor_sqrt_unique,
};
use crate::character::class::{Category, Class, ClassRegistry};
use crate::character::laws::{law_change_class, law_spawn};
use crate::character::model::{
    can_change_class, lemma_levels_gained_bound, lemma_xp_left_below_threshold,
    lemma_xp_threshold_positive, levels_gained, xp_left, xp_threshold, CharacterView,
};
use crate::equipment::{Shield, Sword};
use crate::randomizer::Randomizer;
use vstd::prelude::*;

pub mod class;
pub mod enemy;
pub mod laws;
pub mod limits;
pub mod model;

verus! {

/// A lasting condition that hurts its bearer on every tick until it is cured.
#[derive(Debug, Clone, Copy, PartialEq, Eq, Structural)]
pub enum StatusEffect {
    Burn,
    Poison,
}

/// The signal that a character's health has reached zero.
#[derive(Debug, Clone, Copy, PartialEq, Eq, Structural)]
pub struct Dead;

/// The answer to a class change that names no player class.
#[derive(Debug, Clone, Copy, PartialEq, Eq, Structural)]
pub struct ClassNotFound;

/// A player or an enemy: a class, the equipment, the level reached and the
/// state of the health and magic pools.
#[derive(Debug)]
pub struct Character {
    pub class: Class,
    pub sword: Option<Sword>,
    pub shield: Option<Shield>,
    pub level: i32,
    pub xp: i32,
    pub max_hp: i32,
    pub current_hp: i32,
    pub max_mp: i32,
    pub current_mp: i32,
    pub strength: i32,
    pub speed: i32,
    pub status_effect: Option<StatusEffect>,
}

impl View for Character {
    type V = CharacterView;

    open spec fn view(&self) -> CharacterView {
        CharacterView {
            class: self.class@,
            sword: self.sword,
            shield: self.shield,
            level: self.level as int,
            xp: self.xp as int,
            max_hp: self.max_hp as int,
            current_hp: self.current_hp as int,
            max_mp: self.max_mp as int,
            current_mp: self.current_mp as int,
            strength: self.strength as int,
            speed: self.speed as int,
            status_effect: self.status_effect,
        }
    }
}

/// How many experience points it takes to leave `level`: the integer part of
/// `30 * level^1.5`, capped at the largest `i32`, and nothing below level 1.
pub fn xp_for_level(level: i32) -> (needed: i32)
    ensures
        needed == xp_threshold(level as int),
{
    if level < 1 {
        return 0;
    }
    let level: u128 = level as u128;
    let linear: u128 = 900 * level;
    assert(linear * level <= 0x1c2_0000_0000 * 0x8000_0000) by (nonlinear_arith)
        requires
            0 <= linear <= 0x1c2_0000_0000,
            0 <= level <= 0x8000_0000,
    ;
    let square: u128 = linear * level;
    assert(square * level <= 0x1c2_0000_0000 * 0x8000_0000 * 0x8000_0000) by (nonlinear_arith)
        requires
            0 <= square <= 0x1c2_0000_0000 * 0x8000_0000,
            0 <= level <= 0x8000_0000,
    ;
    let cube: u128 = square * level;
    if cube >= 0x4000_0000_0000_0000 {
        proof {
            assert(0x8000_0000int * 0x8000_0000int == 0x4000_0000_0000_0000int)
                by (nonlinear_arith);
            assert((0x8000_0000int + 1) * (0x8000_0000int + 1) > 0x4000_0000_0000_0000int)
                by (nonlinear_arith);
            lemma_floor_sqrt_unique(0x4000_0000_0000_0000, 0x8000_0000);
            lemma_floor_sqrt_monotonic(0x4000_0000_0000_0000, cube as int);
        }
        i32::MAX
    } else {
        let root: u64 = isqrt(cube as u64);
        root as i32
    }
}

impl Character {
    /// A new player: the default player class at level 1.
    pub fn player<R: Randomizer>(registry: &ClassRegistry, rng: &R) -> (player: Self)
        requires
            CharacterView::spawnable(registry.group(Category::Player)[0]@, 1, rng),
        ensures
            CharacterView::spawned(registry.group(Category::Player)[0]@, 1, rng, player@),
            registry.group(Category::Player)[0]@.regular() ==> player@.wf(),
    {
        Self::new(Class::player_first(registry).clone(), 1, rng)
    }

    /// The name of the character: that of its class.
    pub fn name(&self) -> (name: String)
        ensures
            name@ == self.class.name@,
    {
        self.class.name.clone()
    }

    /// Whether the character is of a player class.
    pub fn is_player(&self) -> (player: bool)
        ensures
            player == (self.class.category == Category::Player),
    {
        self.class.category == Category::Player
    }

    /// A character of `class` that has grown from level 0 to `level`. The
    /// first level-up is rolled like every other, so that two characters of
    /// one class and level may differ. A `level` below 1 leaves the character
    /// at level 0.
    pub fn new<R: Randomizer>(class: Class, level: i32, rng: &R) -> (born: Self)
        requires
            CharacterView::spawnable(class@, level as int, rng),
        ensures
            CharacterView::spawned(class@, level as int, rng, born@),
            class@.regular() && level >= 1 ==> born@.wf(),
    {
        let ghost seed = CharacterView::seed(class@);
        let ghost class_view = class@;
        let mut character = Self::seed(class);
        proof {
            seed.lemma_grown_by_nothing(rng);
        }
        let mut done: i32 = 0;
        while done < level
            invariant
                0 <= done,
                done <= level || done == 0,
                seed.grown_by(rng, done as int, character@),
                character@.room_for(rng, if level > 0 { level - done } else { 0 }),
                character.xp == 0,
            decreases level - done,
        {
            let ghost before = character@;
            proof {
                before.lemma_room_for_step(rng, (level - done) as int, before);
            }
            character.increase_level(rng);
            proof {
                before.lemma_room_for_step(rng, (level - done) as int, character@);
                seed.lemma_grown_by_adds(rng, done as int, before, 1, character@);
            }
            done += 1;
        }
        proof {
            if class_view.regular() && level >= 1 {
                law_spawn(class_view, rng, level as int, character@);
            }
        }
        character
    }

    /// The character of `class` at level 0, from which every character grows:
    /// each stat one increase below the base of its curve.
    pub fn seed(class: Class) -> (seed: Self)
        requires
            CharacterView::seedable(class@),
        ensures
            seed@ == CharacterView::seed(class@),
    {
        let max_hp: i32 = class.hp.base() - class.hp.increase();
        let strength: i32 = class.strength.base() - class.strength.increase();
        let speed: i32 = class.speed.base() - class.speed.increase();
        let max_mp: i32 = match &class.mp {
            Some(mp) => mp.base() - mp.increase(),
            None => 0,
        };
        Character {
            class,
            sword: None,
            shield: None,
            level: 0,
            xp: 0,
            max_hp,
            current_hp: max_hp,
            max_mp,
            current_mp: max_mp,
            strength,
            speed,
            status_effect: None,
        }
    }

    /// Replaces the class by the player class called `name`.
    ///
    /// Asking for the class that the character already has changes nothing
    /// and loses nothing. An unknown name is refused and changes nothing.
    /// Otherwise the experience is lost and handed back. At level 1 the
    /// change is a new start: the character is rolled afresh in the new class
    /// and keeps only its equipment. Above level 1 the stats stay, and a
    /// character that never had magic and takes up a magic class is granted
    /// the pool of a first level-up.
    pub fn change_class<R: Randomizer>(
        &mut self,
        name: &str,
        registry: &ClassRegistry,
        rng: &R,
    ) -> (changed: Result<i32, ClassNotFound>)
        requires
            can_change_class(
                old(self)@,
                rng,
                name@,
                registry.player_named(name@),
            ),
        ensures
            match changed {
                Ok(lost) => if name@ == old(self).class.name@ {
                    lost == 0 && final(self)@ == old(self)@
                } else {
                    &&& registry.player_named(name@) matches Some(class)
                    &&& lost == old(self).xp
                    &&& if old(self).level == 1 {
                        old(self)@.reborn_as(rng, class@, final(self)@)
                    } else {
                        old(self)@.switched_to(rng, class@, final(self)@)
                    }
                },
                Err(_) => {
                    &&& name@ != old(self).class.name@
                    &&& registry.player_named(name@) is None
                    &&& final(self)@ == old(self)@
                },
            },
            old(self)@.wf() && final(self)@.class.regular() ==> final(self)@.wf(),
    {
        if self.class.is_named(name) {
            return Ok(0);
        }
        match Class::player_by_name(registry, name) {
            Some(class) => {
                let ghost before = self@;
                let lost_xp: i32 = self.xp;
                if self.level == 1 {
                    let sword = self.sword;
                    let shield = self.shield;
                    *self = Self::new(class.clone(), 1, rng);
                    self.sword = sword;
                    self.shield = shield;
                } else {
                    self.class = class.clone();
                    if self.max_mp == 0 {
                        match class.mp {
                            Some(mp) => {
                                let seed: i32 = mp.base() - mp.increase();
                                let gain: i32 = rng.stat_increase(mp.increase());
                                let base_mp: i32 = seed + gain;
                                self.max_mp = base_mp;
                                self.current_mp = base_mp;
                            },
                            None => {},
                        }
                    }
                }
                self.xp = 0;
                proof {
                    if before.wf() && class@.regular() {
                        law_change_class(before, rng, class@, self@);
                    }
                }
                Ok(lost_xp)
            },
            None => Err(ClassNotFound),
        }
    }

    /// Raises the level by one and every stat by what `rng` rolls around the
    /// increase of its curve. Both pools grow with their maximum, so that the
    /// damage taken and the magic spent stay what they were.
    pub fn increase_level<R: Randomizer>(&mut self, rng: &R)
        requires
            old(self)@.room_for(rng, 1),
        ensures
            old(self)@.grown_by(rng, 1, final(self)@),
            final(self).xp == old(self).xp,
            old(self)@.wf() && old(self)@.class.grows() ==> final(self)@.wf(),
    {
        self.level += 1;
        let gain: i32 = rng.stat_increase(self.class.strength.increase());
        self.strength += gain;
        let gain: i32 = rng.stat_increase(self.class.speed.increase());
        self.speed += gain;
        let gain: i32 = rng.stat_increase(self.class.hp.increase());
        self.max_hp += gain;
        self.current_hp += gain;
        match &self.class.mp {
            Some(mp) => {
                let gain: i32 = rng.stat_increase(mp.increase());
                self.max_mp += gain;
                self.current_mp += gain;
            },
            None => {},
        }
    }

    /// Adds to the experience and turns it into levels for as long as it
    /// covers the threshold of the level reached. Returns the number of levels
    /// gained.
    pub fn add_experience<R: Randomizer>(&mut self, xp: i32, rng: &R) -> (gained: i32)
        requires
            old(self)@.can_gain(rng, xp as int),
        ensures
            gained == levels_gained(old(self).level as int, old(self).xp + xp),
            final(self).xp == xp_left(old(self).level as int, old(self).xp + xp),
            old(self)@.grown_by(rng, gained as int, final(self)@),
            final(self).xp < xp_threshold(final(self).level as int),
            old(self)@.wf() && xp >= 0 && old(self)@.class.grows() ==> final(self)@.wf(),
    {
        let ghost start = self@;
        let ghost total = self.xp + xp;
        let ghost goal = levels_gained(start.level, total);
        self.xp += xp;
        let mut increased_levels: i32 = 0;
        let mut for_next: i32 = self.xp_for_next();
        proof {
            start.lemma_grown_by_nothing(rng);
        }
        while self.xp >= for_next
            invariant
                start.level >= 1,
                for_next == xp_threshold(self.level as int),
                0 <= increased_levels,
                increased_levels + levels_gained(self.level as int, self.xp as int) == goal,
                xp_left(self.level as int, self.xp as int) == xp_left(start.level, total),
                start.grown_by(rng, increased_levels as int, self@),
                self@.room_for(rng, goal - increased_levels),
            decreases self.xp,
        {
            let ghost before = self@;
            proof {
                lemma_xp_threshold_positive(before.level);
                lemma_levels_gained_bound(before.level + 1, before.xp - for_next);
                before.lemma_room_for_step(rng, goal - increased_levels, before);
            }
            self.increase_level(rng);
            proof {
                before.lemma_room_for_step(rng, goal - increased_levels, self@);
                start.lemma_grown_by_adds(rng, increased_levels as int, before, 1, self@);
            }
            self.xp -= for_next;
            increased_levels += 1;
            for_next = self.xp_for_next();
        }
        proof {
            lemma_xp_threshold_positive(self.level as int);
            lemma_xp_left_below_threshold(start.level, total);
        }
        increased_levels
    }

    /// Takes `damage` points off the health. A hit that reaches the health
    /// that is left brings it to zero and reports the death.
    pub fn receive_damage(&mut self, damage: i32) -> (outcome: Result<(), Dead>)
        requires
            in_i32(old(self)@.hp_after_hit(damage as int)),
        ensures
            final(self)@ == old(self)@.hit(damage as int),
            outcome is Err <==> old(self)@.killed_by(damage as int),
            old(self)@.wf() && damage >= 0 ==> final(self)@.wf(),
    {
        if damage >= self.current_hp {
            self.current_hp = 0;
            Err(Dead)
        } else {
            self.current_hp -= damage;
            Ok(())
        }
    }

    /// Whether the character has no health left.
    pub fn is_dead(&self) -> (dead: bool)
        ensures
            dead == (self.current_hp == 0),
    {
        self.current_hp == 0
    }

    /// Restores up to `amount` health points, stopping at the maximum.
    /// Returns the amount actually restored. An amount below zero restores
    /// nothing. Both limits hold of every character whose health is in
    /// bounds.
    pub fn heal(&mut self, amount: i32) -> (restored: i32)
        requires
            in_i32(old(self)@.hp_after_healing(amount as int)),
            in_i32(old(self)@.hp_restored(amount as int)),
        ensures
            final(self)@ == old(self)@.healed(amount as int),
            restored == old(self)@.hp_restored(amount as int),
            old(self)@.pools_in_bounds() ==> {
                &&& 0 <= restored
                &&& restored <= larger(amount as int, 0)
                &&& old(self).current_hp <= final(self).current_hp <= final(self).max_hp
                &&& final(self)@.pools_in_bounds()
            },
            old(self)@.wf() ==> final(self)@.wf(),
    {
        let previous: i64 = self.current_hp as i64;
        let wanted: i64 = if amount > 0 {
            amount as i64
        } else {
            0
        };
        let raised: i64 = previous + wanted;
        let target: i64 = if raised < self.max_hp as i64 {
            raised
        } else {
            self.max_hp as i64
        };
        self.current_hp = target as i32;
        (target - previous) as i32
    }

    /// Restores up to `amount` magic points, stopping at the maximum.
    /// Returns the amount actually restored. An amount below zero restores
    /// nothing. Both limits hold of every character whose magic pool is in
    /// bounds.
    pub fn restore_mp(&mut self, amount: i32) -> (restored: i32)
        requires
            in_i32(old(self)@.mp_after_restoring(amount as int)),
            in_i32(old(self)@.mp_restored(amount as int)),
        ensures
            final(self)@ == old(self)@.recharged(amount as int),
            restored == old(self)@.mp_restored(amount as int),
            old(self)@.pools_in_bounds() ==> {
                &&& 0 <= restored
                &&& restored <= larger(amount as int, 0)
                &&& old(self).current_mp <= final(self).current_mp <= final(self).max_mp
                &&& final(self)@.pools_in_bounds()
            },
            old(self)@.wf() ==> final(self)@.wf(),
    {
        let previous: i64 = self.current_mp as i64;
        let wanted: i64 = if amount > 0 {
            amount as i64
        } else {
            0
        };
        let raised: i64 = previous + wanted;
        let target: i64 = if raised < self.max_mp as i64 {
            raised
        } else {
            self.max_mp as i64
        };
        self.current_mp = target as i32;
        (target - previous) as i32
    }

    /// Restores health and magic by the size of their pools, which fills
    /// both pools of a character in bounds. Returns the two amounts restored.
    pub fn heal_full(&mut self) -> (restored: (i32, i32))
        requires
            in_i32(old(self)@.hp_after_healing(old(self).max_hp as int)),
            in_i32(old(self)@.hp_restored(old(self).max_hp as int)),
            in_i32(old(self)@.mp_after_restoring(old(self).max_mp as int)),
            in_i32(old(self)@.mp_restored(old(self).max_mp as int)),
        ensures
            final(self)@ == old(self)@.healed(old(self).max_hp as int).recharged(
                old(self).max_mp as int,
            ),
            restored.0 == old(self)@.hp_restored(old(self).max_hp as int),
            restored.1 == old(self)@.mp_restored(old(self).max_mp as int),
            old(self)@.pools_in_bounds() ==> {
                &&& final(self).current_hp == final(self).max_hp
                &&& final(self).current_mp == final(self).max_mp
            },
            old(self)@.wf() ==> final(self)@.wf(),
    {
        let hp: i32 = self.heal(self.max_hp);
        let mp: i32 = self.restore_mp(self.max_mp);
        (hp, mp)
    }

    /// How many experience points the character needs to leave its level.
    pub fn xp_for_next(&self) -> (needed: i32)
        ensures
            needed == xp_threshold(self.level as int),
    {
        xp_for_level(self.level)
    }

    /// The damage that an attack does to `receiver`, and the magic points the
    /// attack costs. The attack is a magic one where the character can make
    /// one; the shield of the receiver is taken off, but an attack never does
    /// less than 1 point. Deducting the cost is left to the caller.
    pub fn damage(&self, receiver: &Self) -> (dealt: (i32, i32))
        requires
            self@.attack_fits(receiver@),
        ensures
            dealt.0 == self@.damage_to(receiver@).0,
            dealt.1 == self@.damage_to(receiver@).1,
            dealt.0 >= 1,
    {
        let (damage, mp_cost): (i32, i32) = if self.can_magic_attack() {
            (self.magic_attack(), self.mp_cost())
        } else {
            (self.physical_attack(), 0)
        };
        let after_defense: i32 = damage - receiver.deffense();
        if after_defense < 1 {
            (1, mp_cost)
        } else {
            (after_defense, mp_cost)
        }
    }

    /// The strength of a physical attack.
    pub fn physical_attack(&self) -> (attack: i32)
        requires
            in_i32(self@.physical_attack()),
        ensures
            attack == self@.physical_attack(),
    {
        if self.class.is_magic() {
            self.strength / 3
        } else {
            let sword_str: i32 = match &self.sword {
                Some(sword) => sword.strength(),
                None => 0,
            };
            self.strength + sword_str
        }
    }

    /// The strength of a magic attack; nothing for a class without magic.
    pub fn magic_attack(&self) -> (attack: i32)
        requires
            in_i32(self@.magic_attack()),
        ensures
            attack == self@.magic_attack(),
    {
        if self.class.is_magic() {
            self.strength * 3
        } else {
            0
        }
    }

    /// Whether the class uses magic and enough magic points are left for an
    /// attack.
    pub fn can_magic_attack(&self) -> (able: bool)
        requires
            self.class.mp matches Some(mp) ==> in_i32(mp.value_at(self.level as int)),
        ensures
            able == self@.can_magic_attack(),
    {
        self.class.is_magic() && self.current_mp >= self.mp_cost()
    }

    /// The magic points that one magic attack costs: a third of the nominal
    /// magic pool at this level.
    pub fn mp_cost(&self) -> (cost: i32)
        requires
            self.class.mp matches Some(mp) ==> in_i32(mp.value_at(self.level as int)),
        ensures
            cost == self@.mp_cost(),
    {
        match &self.class.mp {
            Some(mp) => mp.at(self.level) / 3,
            None => 0,
        }
    }

    /// The defense: the strength of the shield, and nothing without one. The
    /// character's own strength does not count.
    pub fn deffense(&self) -> (defense: i32)
        ensures
            defense == self@.defense(),
    {
        match &self.shield {
            Some(shield) => shield.strength(),
            None => 0,
        }
    }

    /// How many experience points the character gains by doing `damage` to
    /// `receiver`.
    pub fn xp_gained(&self, receiver: &Self, damage: i32) -> (xp: i32)
        requires
            in_i32(self@.xp_gained(receiver@, damage as int)),
        ensures
            xp == self@.xp_gained(receiver@, damage as int),
    {
        let class_multiplier: i128 = match receiver.class.category {
            Category::Rare => 3,
            Category::Legendary => 5,
            _ => 1,
        };
        if receiver.level > self.level {
            let gap: i128 = 1 + receiver.level as i128 - self.level as i128;
            assert(damage * gap <= 0x8000_0000 * 0x1_0000_0000 && damage * gap >= -0x8000_0000
                * 0x1_0000_0000) by (nonlinear_arith)
                requires
                    -0x8000_0000 <= damage <= 0x8000_0000,
                    0 <= gap <= 0x1_0000_0000,
            ;
            let scaled: i128 = damage as i128 * gap;
            (scaled * class_multiplier) as i32
        } else {
            let gap: i64 = 1 + self.level as i64 - receiver.level as i64;
            let share: i64 = damage as i64 / gap;
            (share as i128 * class_multiplier) as i32
        }
    }

    /// The status effect that an attack of this character may inflict, with
    /// its chance. Rolling against the chance is left to the caller.
    pub fn inflicted_status_effect(&self) -> (inflicted: Option<(StatusEffect, u32)>)
        ensures
            inflicted == self.class.inflicts,
    {
        self.class.inflicts
    }

    /// Cures the character, and tells whether there was anything to cure.
    pub fn maybe_remove_status_effect(&mut self) -> (removed: bool)
        ensures
            removed == (old(self).status_effect is Some),
            final(self)@ == (CharacterView { status_effect: None, ..old(self)@ }),
    {
        if self.status_effect.is_some() {
            self.status_effect = None;
            return true;
        }
        false
    }

    /// Applies one tick of the status effect, if the character has one: a
    /// twentieth of the full health, at least 1, jittered by `rng`. Hands back
    /// the damage done, nothing without a status effect, or the death.
    pub fn receive_status_effect_damage<R: Randomizer>(&mut self, rng: &R) -> (outcome: Result<
        Option<i32>,
        Dead,
    >)
        ensures
            old(self).status_effect is None ==> outcome == Ok::<Option<i32>, Dead>(None)
                && final(self)@ == old(self)@,
            old(self).status_effect is Some ==> match outcome {
                Ok(Some(damage)) => {
                    &&& old(self)@.ticked_by(rng, damage as int)
                    &&& !old(self)@.killed_by(damage as int)
                    &&& final(self)@ == old(self)@.hit(damage as int)
                },
                Ok(None) => false,
                Err(_) => {
                    &&& exists|damage: int|
                        old(self)@.ticked_by(rng, damage) && #[trigger] old(self)@.killed_by(damage)
                    &&& final(self)@ == old(self)@.hit(old(self).current_hp as int)
                },
            },
            old(self)@.wf() ==> final(self)@.wf(),
    {
        match self.status_effect {
            Some(StatusEffect::Burn) | Some(StatusEffect::Poison) => {
                let twentieth: i32 = self.max_hp / 20;
                let damage: i32 = if twentieth < 1 {
                    1
                } else {
                    twentieth
                };
                let damage: i32 = rng.damage(damage);
                match self.receive_damage(damage) {
                    Ok(_) => Ok(Some(damage)),
                    Err(dead) => {
                        assert(old(self)@.ticked_by(rng, damage as int) && old(self)@.killed_by(
                            damage as int,
                        ));
                        Err(dead)
                    },
                }
            },
            None => Ok(None),
        }
    }

    /// The level rounded down to 1 or to a multiple of five.
    pub fn rounded_level(&self) -> (level: i32)
        ensures
            level == self@.rounded_level(),
    {
        let fives: i32 = (self.level / 5) * 5;
        if fives < 1 {
            1
        } else {
            fives
        }
    }
}

} // verus!
