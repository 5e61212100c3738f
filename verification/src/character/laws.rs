//! Laws of the character model: what holds of every character, whatever the
//! operations it went through.

use crate::arith::{larger, trunc_div};
use crate::character::class::ClassView;
use crate::character::model::{
    lemma_xp_left_below_threshold, levels_gained, xp_left, xp_multiplier, xp_threshold,
    CharacterView,
};
use crate::randomizer::Randomizer;
use vstd::prelude::*;

verus! {

/// Healing keeps a character well-formed, whatever the amount. It never
/// lowers the health, restores no more than was asked for and never a
/// negative amount, and nothing at full health or for an amount below zero.
pub proof fn law_heal(character: CharacterView, amount: int)
    requires
        character.wf(),
    ensures
        character.healed(amount).wf(),
        0 <= character.hp_restored(amount) <= larger(amount, 0),
        character.current_hp <= character.healed(amount).current_hp <= character.max_hp,
        character.current_hp == character.max_hp ==> character.hp_restored(amount) == 0,
        character.healed(amount).current_hp == character.current_hp + character.hp_restored(
            amount,
        ),
{
}

/// Restoring magic keeps a character well-formed, whatever the amount. It
/// never lowers the pool, restores no more than was asked for and never a
/// negative amount, and nothing to a full pool or for an amount below zero.
pub proof fn law_restore_mp(character: CharacterView, amount: int)
    requires
        character.wf(),
    ensures
        character.recharged(amount).wf(),
        0 <= character.mp_restored(amount) <= larger(amount, 0),
        character.current_mp <= character.recharged(amount).current_mp <= character.max_mp,
        character.current_mp == character.max_mp ==> character.mp_restored(amount) == 0,
        character.recharged(amount).current_mp == character.current_mp + character.mp_restored(
            amount,
        ),
{
}

/// A hit keeps a character well-formed, and kills it exactly when it leaves
/// no health.
pub proof fn law_hit(character: CharacterView, damage: int)
    requires
        character.wf(),
        damage >= 0,
    ensures
        character.hit(damage).wf(),
        character.killed_by(damage) <==> character.hit(damage).current_hp == 0,
{
}

/// An attack does at least 1 point of damage, however strong the defense of
/// the receiver, and costs magic points only where it is a magic attack.
pub proof fn law_damage_floor(attacker: CharacterView, receiver: CharacterView)
    ensures
        attacker.damage_to(receiver).0 >= 1,
        !attacker.can_magic_attack() ==> attacker.damage_to(receiver).1 == 0,
{
}

/// Level-ups keep the pools of a character in bounds, and the damage taken
/// and the magic spent stay what they were, where no pool of the class
/// shrinks with the level.
pub proof fn law_growth<R: Randomizer>(
    character: CharacterView,
    rng: &R,
    levels: int,
    end: CharacterView,
)
    requires
        character.pools_in_bounds(),
        character.grown_by(rng, levels, end),
        character.class.grows(),
    ensures
        end.pools_in_bounds(),
        end.max_hp - end.current_hp == character.max_hp - character.current_hp,
        end.max_mp - end.current_mp == character.max_mp - character.current_mp,
        end.max_hp >= character.max_hp,
        end.max_mp >= character.max_mp,
{
}

/// A new character of a regular class, raised to level 1 or above, is
/// well-formed, and its pools are full. A class without magic gives it no
/// magic pool, and a class whose health grows with the level gives it health.
pub proof fn law_spawn<R: Randomizer>(class: ClassView, rng: &R, level: int, born: CharacterView)
    requires
        class.regular(),
        level >= 1,
        CharacterView::seed(class).grown_by(rng, level, born),
        born.xp == 0,
    ensures
        born.wf(),
        born.level == level,
        born.current_hp == born.max_hp,
        born.current_mp == born.max_mp,
        !class.is_magic() ==> born.max_mp == 0,
        class.hp.1 >= 1 ==> born.max_hp >= level,
{
    law_growth(CharacterView::seed(class), rng, level, born);
}

/// Gaining experience keeps a character well-formed and leaves less
/// experience than the level reached asks for.
pub proof fn law_add_experience<R: Randomizer>(
    character: CharacterView,
    rng: &R,
    amount: int,
    end: CharacterView,
)
    requires
        character.wf(),
        amount >= 0,
        character.class.grows(),
        character.grown_by(rng, levels_gained(character.level, character.xp + amount), end),
        end.xp == xp_left(character.level, character.xp + amount),
    ensures
        end.wf(),
        end.xp < xp_threshold(end.level),
        end.level >= character.level,
{
    lemma_xp_left_below_threshold(character.level, character.xp + amount);
    law_growth(character, rng, levels_gained(character.level, character.xp + amount), end);
}

/// A class change keeps a character well-formed, where the new class is
/// regular: both the new start at level 1 and the switch above it.
pub proof fn law_change_class<R: Randomizer>(
    character: CharacterView,
    rng: &R,
    class: ClassView,
    end: CharacterView,
)
    requires
        character.wf(),
        class.regular(),
        if character.level == 1 {
            character.reborn_as(rng, class, end)
        } else {
            character.switched_to(rng, class, end)
        },
    ensures
        end.wf(),
        end.xp == 0,
        end.level == character.level,
        end.sword == character.sword,
        end.shield == character.shield,
        end.class == class,
{
    if character.level == 1 {
        let fresh = CharacterView {
            sword: character.sword,
            shield: character.shield,
            ..CharacterView::seed(class)
        };
        law_growth(fresh, rng, 1, end);
    }
}

/// Above level 1, a class change grants magic only to a character without
/// any that takes up a magic class; every other character keeps its pool.
pub proof fn law_magic_grant<R: Randomizer>(
    character: CharacterView,
    rng: &R,
    class: ClassView,
    end: CharacterView,
)
    requires
        character.switched_to(rng, class, end),
    ensures
        !character.gets_magic(class) ==> end.max_mp == character.max_mp && end.current_mp
            == character.current_mp,
        character.gets_magic(class) ==> end.current_mp == end.max_mp,
        end.strength == character.strength,
        end.speed == character.speed,
        end.max_hp == character.max_hp,
        end.current_hp == character.current_hp,
{
}

/// The experience for `damage` where the category of the receiver does not
/// multiply it: the damage itself between equal levels, and the damage times
/// the gap, counted from one, or divided by it, between unequal ones. One
/// level up doubles it and one level down halves it.
pub proof fn law_xp_gained(attacker: CharacterView, receiver: CharacterView, damage: int)
    requires
        xp_multiplier(receiver.class.category) == 1,
    ensures
        receiver.level == attacker.level ==> attacker.xp_gained(receiver, damage) == damage,
        receiver.level == attacker.level + 1 ==> attacker.xp_gained(receiver, damage) == 2
            * damage,
        attacker.level == receiver.level + 1 ==> attacker.xp_gained(receiver, damage)
            == trunc_div(damage, 2),
        receiver.level > attacker.level ==> attacker.xp_gained(receiver, damage) == damage * (1
            + receiver.level - attacker.level),
        receiver.level <= attacker.level ==> attacker.xp_gained(receiver, damage) == trunc_div(
            damage,
            1 + attacker.level - receiver.level,
        ),
{
    assert(damage * (1 + receiver.level - attacker.level) * 1 == damage * (1 + receiver.level
        - attacker.level)) by (nonlinear_arith);
    assert(damage * 2 == 2 * damage);
}

/// The category of the receiver multiplies the experience: by three for a
/// rare class and by five for a legendary one.
pub proof fn law_xp_multiplied(attacker: CharacterView, receiver: CharacterView, damage: int)
    ensures
        receiver.level <= attacker.level ==> attacker.xp_gained(receiver, damage) == trunc_div(
            damage,
            1 + attacker.level - receiver.level,
        ) * xp_multiplier(receiver.class.category),
        1 <= xp_multiplier(receiver.class.category) <= 5,
{
}

} // verus!
