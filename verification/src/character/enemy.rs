//! The generation of enemies: which class and level the player meets at a
//! place.

use crate::arith::{in_i32, larger, trunc_div};
use crate::chance::{has_positive_weight, pick_weighted, roll_ratio, some_positive_weight};
use crate::character::class::{Category, Class, ClassRegistry, ClassView, Stat};
use crate::character::model::CharacterView;
use crate::character::Character;
use crate::location::{Distance, Location};
use crate::randomizer::{Randomizer, Span};
use vstd::prelude::*;

verus! {

/// The weight with which an enemy of `category` is drawn at `distance`: the
/// further from home, the more the rarer categories weigh. Player classes are
/// never drawn.
pub open spec fn category_weight(distance: Distance, category: Category) -> int {
    match (distance, category) {
        (Distance::Near(_), Category::Common) => 9,
        (Distance::Near(_), Category::Rare) => 2,
        (Distance::Near(_), Category::Legendary) => 0,
        (Distance::Mid(_), Category::Common) => 7,
        (Distance::Mid(_), Category::Rare) => 10,
        (Distance::Mid(_), Category::Legendary) => 1,
        (Distance::Far(_), Category::Common) => 1,
        (Distance::Far(_), Category::Rare) => 6,
        (Distance::Far(_), Category::Legendary) => 3,
        (_, Category::Player) => 0,
    }
}

/// The level of an enemy before it is jittered: half the player's level plus
/// the distance from home, less one, and at least 1.
pub open spec fn base_level(player_level: int, distance: int) -> int {
    larger(trunc_div(player_level, 2) + distance - 1, 1)
}

/// The class of the player's shadow: the player's own class under the name
/// "shadow".
pub open spec fn shadow_of(class: ClassView) -> ClassView {
    class.renamed("shadow"@)
}

/// The class of the enemy of the special area: `class` under the name "dev",
/// with the bases of health, strength and speed halved.
pub open spec fn dev_of(class: ClassView) -> ClassView {
    ClassView {
        name: "dev"@,
        hp: Stat(trunc_div(class.hp.0 as int, 2) as i32, class.hp.1),
        strength: Stat(trunc_div(class.strength.0 as int, 2) as i32, class.strength.1),
        speed: Stat(trunc_div(class.speed.0 as int, 2) as i32, class.speed.1),
        ..class
    }
}

/// Whether every class of `classes` can be raised within `i32` both to the
/// lowest and to the highest level of `levels`, and so to every level of it.
pub open spec fn all_spawnable<R: Randomizer>(classes: Seq<Class>, levels: Span, rng: &R) -> bool {
    forall|i: int|
        0 <= i < classes.len() ==> CharacterView::spawnable(
            (#[trigger] classes[i])@,
            levels.low as int,
            rng,
        ) && CharacterView::spawnable(classes[i]@, levels.high as int, rng)
}

/// The kinds of encounter: with the player's shadow, with the enemy of the
/// special area, or with an ordinary enemy.
#[derive(Debug, Clone, Copy, PartialEq, Eq, Structural)]
pub enum Encounter {
    Shadow,
    Dev,
    Ordinary,
}

/// The encounter that two draws lead to at `location`. A successful draw for
/// the shadow gives the shadow at home and counts for nothing elsewhere. Then
/// a successful draw for the enemy of the special area gives that enemy in
/// the special area. Every other encounter is an ordinary one.
pub open spec fn encounter_of(location: Location, shadow_draw: bool, dev_draw: bool) -> Encounter {
    if location.home && shadow_draw {
        Encounter::Shadow
    } else if location.special_area && dev_draw {
        Encounter::Dev
    } else {
        Encounter::Ordinary
    }
}

/// Whether the enemy of an encounter of `kind` can be raised within `i32`:
/// the shadow three levels above the player, the enemy of the special area
/// on the player's level, or each class that has a weight at the distance of
/// `location`, on each level that `rng` may make of the base level.
pub open spec fn enemy_fits<R: Randomizer>(
    kind: Encounter,
    location: Location,
    player: CharacterView,
    registry: ClassRegistry,
    rng: &R,
) -> bool {
    match kind {
        Encounter::Shadow => in_i32(player.level + 3) && CharacterView::spawnable(
            shadow_of(player.class),
            player.level + 3,
            rng,
        ),
        Encounter::Dev => CharacterView::spawnable(
            dev_of(registry.group(Category::Player)[0]@),
            player.level,
            rng,
        ),
        Encounter::Ordinary => {
            &&& in_i32(base_level(player.level, location.distance.depth()))
            &&& forall|category: Category|
                category_weight(location.distance, category) > 0 ==> #[trigger] all_spawnable(
                    registry.group(category),
                    rng.enemy_level_span(
                        base_level(player.level, location.distance.depth()) as i32,
                    ),
                    rng,
                )
        },
    }
}

/// Whether every enemy that may be met at `location` can be raised within
/// `i32`: the shadow at home, the enemy of the special area there, and an
/// ordinary enemy everywhere.
pub open spec fn enemies_fit_at<R: Randomizer>(
    location: Location,
    player: CharacterView,
    registry: ClassRegistry,
    rng: &R,
) -> bool {
    &&& location.home ==> enemy_fits(Encounter::Shadow, location, player, registry, rng)
    &&& location.special_area ==> enemy_fits(Encounter::Dev, location, player, registry, rng)
    &&& enemy_fits(Encounter::Ordinary, location, player, registry, rng)
}

/// Whether `enemy` is an ordinary enemy for `player` at `location`: a new
/// character of a registered class whose category has a weight at that
/// distance, on a level that `rng` may make of the base level.
pub open spec fn is_ordinary_enemy<R: Randomizer>(
    location: Location,
    player: CharacterView,
    registry: ClassRegistry,
    rng: &R,
    enemy: CharacterView,
) -> bool {
    &&& category_weight(location.distance, enemy.class.category) > 0
    &&& exists|i: int|
        0 <= i < registry.group(enemy.class.category).len() && (#[trigger] registry.group(
            enemy.class.category,
        )[i])@ == enemy.class
    &&& enemy.level >= 1
    &&& rng.enemy_level_span(
        base_level(player.level, location.distance.depth()) as i32,
    ).contains(enemy.level)
    &&& CharacterView::spawned(enemy.class, enemy.level, rng, enemy)
}

/// Whether `enemy` is the enemy of an encounter of `kind`: the player's own
/// class as "shadow", three levels above the player; the default player class
/// as the weakened "dev" enemy, on the player's level; or an ordinary enemy.
/// Each is a new character, raised from level 0.
pub open spec fn is_enemy_for<R: Randomizer>(
    kind: Encounter,
    location: Location,
    player: CharacterView,
    registry: ClassRegistry,
    rng: &R,
    enemy: CharacterView,
) -> bool {
    match kind {
        Encounter::Shadow => CharacterView::spawned(
            shadow_of(player.class),
            player.level + 3,
            rng,
            enemy,
        ),
        Encounter::Dev => CharacterView::spawned(
            dev_of(registry.group(Category::Player)[0]@),
            player.level,
            rng,
            enemy,
        ),
        Encounter::Ordinary => is_ordinary_enemy(location, player, registry, rng, enemy),
    }
}

/// Generates the enemy that the player meets at `location`.
///
/// At home, one encounter in ten is with the player's shadow, three levels
/// above the player. Failing that, in the special area one in ten is with the
/// weakened "dev" enemy at the player's level. Every other encounter is with
/// a class drawn by weight for the distance from home, on the jittered base
/// level. The draws decide through [`encounter`], and [`enemy_for`] raises the
/// enemy of the kind they lead to.
pub fn at<R: Randomizer>(
    location: &Location,
    player: &Character,
    registry: &ClassRegistry,
    rng: &R,
) -> (enemy: Character)
    requires
        enemies_fit_at(*location, player@, *registry, rng),
    ensures
        ({
            ||| location.home && is_enemy_for(
                Encounter::Shadow,
                *location,
                player@,
                *registry,
                rng,
                enemy@,
            )
            ||| location.special_area && is_enemy_for(
                Encounter::Dev,
                *location,
                player@,
                *registry,
                rng,
                enemy@,
            )
            ||| is_enemy_for(Encounter::Ordinary, *location, player@, *registry, rng, enemy@)
        }),
        enemy@.class.regular() && enemy.level >= 1 ==> enemy@.wf(),
{
    let shadow = should_find_shadow(location);
    let dev = !shadow && should_find_dev(location);
    let kind = encounter(location, shadow, dev);
    enemy_for(kind, location, player, registry, rng)
}

/// Which encounter two draws lead to at `location`: the shadow where the
/// draw for it succeeded at home, else the enemy of the special area where
/// the draw for it succeeded there, else an ordinary enemy.
pub fn encounter(location: &Location, shadow_draw: bool, dev_draw: bool) -> (kind: Encounter)
    ensures
        kind == encounter_of(*location, shadow_draw, dev_draw),
{
    if shadow_found(location, shadow_draw) {
        Encounter::Shadow
    } else if dev_found(location, dev_draw) {
        Encounter::Dev
    } else {
        Encounter::Ordinary
    }
}

/// Raises the enemy of an encounter of `kind` for `player` at `location`.
pub fn enemy_for<R: Randomizer>(
    kind: Encounter,
    location: &Location,
    player: &Character,
    registry: &ClassRegistry,
    rng: &R,
) -> (enemy: Character)
    requires
        enemy_fits(kind, *location, player@, *registry, rng),
    ensures
        is_enemy_for(kind, *location, player@, *registry, rng, enemy@),
        enemy@.class.regular() && enemy.level >= 1 ==> enemy@.wf(),
{
    match kind {
        Encounter::Shadow => Character::new(shadow_class(&player.class), player.level + 3, rng),
        Encounter::Dev => Character::new(
            dev_class(Class::player_first(registry)),
            player.level,
            rng,
        ),
        Encounter::Ordinary => {
            let distance = location.distance_from_home();
            let level: i32 = level(player.level, distance.len(), rng);
            let category = weighted_choice(distance);
            let class = Class::random(registry, category);
            proof {
                let levels = rng.enemy_level_span(
                    base_level(player.level as int, distance.depth()) as i32,
                );
                let i = choose|i: int|
                    0 <= i < registry.group(category).len() && registry.group(category)[i]
                        == *class;
                assert(all_spawnable(registry.group(category), levels, rng));
                assert(CharacterView::spawnable(
                    registry.group(category)[i]@,
                    levels.low as int,
                    rng,
                ));
                CharacterView::seed(class@).lemma_room_for_between(
                    rng,
                    larger(levels.low as int, 0),
                    larger(level as int, 0),
                    larger(levels.high as int, 0),
                );
            }
            Character::new(class.clone(), level, rng)
        },
    }
}

/// Whether every enemy that may be met at `location` can be raised within
/// `i32`, whatever `rng` hands out.
pub fn can_spawn_at<R: Randomizer>(
    location: &Location,
    player: &Character,
    registry: &ClassRegistry,
    rng: &R,
) -> (able: bool)
    ensures
        able == enemies_fit_at(*location, player@, *registry, rng),
{
    (!location.is_home() || can_spawn_for(Encounter::Shadow, location, player, registry, rng))
        && (!location.is_special_area() || can_spawn_for(
        Encounter::Dev,
        location,
        player,
        registry,
        rng,
    )) && can_spawn_for(Encounter::Ordinary, location, player, registry, rng)
}

/// Whether the enemy of an encounter of `kind` can be raised within `i32`,
/// whatever `rng` hands out.
pub fn can_spawn_for<R: Randomizer>(
    kind: Encounter,
    location: &Location,
    player: &Character,
    registry: &ClassRegistry,
    rng: &R,
) -> (able: bool)
    ensures
        able == enemy_fits(kind, *location, player@, *registry, rng),
{
    match kind {
        Encounter::Shadow => {
            if player.level > i32::MAX - 3 {
                return false;
            }
            assert(CharacterView::spawnable(shadow_of(player@.class), player.level + 3, rng)
                == CharacterView::spawnable(player@.class, player.level + 3, rng));
            Character::can_spawn(&player.class, player.level + 3, rng)
        },
        Encounter::Dev => {
            let class = dev_class(Class::player_first(registry));
            Character::can_spawn(&class, player.level, rng)
        },
        Encounter::Ordinary => {
            let distance = location.distance_from_home();
            let raw: i64 = (player.level / 2) as i64 + distance.len() as i64 - 1;
            if raw > i32::MAX as i64 {
                return false;
            }
            let base: i32 = if raw < 1 {
                1
            } else {
                raw as i32
            };
            let levels = rng.enemy_level_range(base);
            assert(base == base_level(player.level as int, location.distance.depth()));
            assert(levels == rng.enemy_level_span(
                base_level(player@.level, location.distance.depth()) as i32,
            ));
            let table = weights(distance);
            assert(table[0].1 == category_weight(location.distance, Category::Common));
            assert(table[1].1 == category_weight(location.distance, Category::Rare));
            assert(table[2].1 == category_weight(location.distance, Category::Legendary));
            let common = table[0].1 <= 0 || can_spawn_all(
                registry.of(Category::Common),
                levels,
                rng,
            );
            let rare = table[1].1 <= 0 || can_spawn_all(registry.of(Category::Rare), levels, rng);
            let legendary = table[2].1 <= 0 || can_spawn_all(
                registry.of(Category::Legendary),
                levels,
                rng,
            );
            proof {
                if common && rare && legendary {
                    assert forall|category: Category|
                        category_weight(distance, category) > 0 implies #[trigger] all_spawnable(
                        registry.group(category),
                        levels,
                        rng,
                    ) by {
                        match category {
                            Category::Player => {},
                            Category::Common => {},
                            Category::Rare => {},
                            Category::Legendary => {},
                        }
                    }
                } else if !common {
                    assert(!all_spawnable(registry.group(Category::Common), levels, rng));
                } else if !rare {
                    assert(!all_spawnable(registry.group(Category::Rare), levels, rng));
                } else {
                    assert(!all_spawnable(registry.group(Category::Legendary), levels, rng));
                }
            }
            common && rare && legendary
        },
    }
}

/// Whether every class of `classes` can be raised within `i32` to the lowest
/// and to the highest level of `levels`.
fn can_spawn_all<R: Randomizer>(classes: &Vec<Class>, levels: Span, rng: &R) -> (able: bool)
    ensures
        able == all_spawnable(classes@, levels, rng),
{
    let mut at: usize = 0;
    while at < classes.len()
        invariant
            at <= classes.len(),
            forall|i: int|
                0 <= i < at ==> CharacterView::spawnable(
                    (#[trigger] classes[i])@,
                    levels.low as int,
                    rng,
                ) && CharacterView::spawnable(classes[i]@, levels.high as int, rng),
        decreases classes.len() - at,
    {
        if !Character::can_spawn(&classes[at], levels.low, rng) || !Character::can_spawn(
            &classes[at],
            levels.high,
            rng,
        ) {
            return false;
        }
        at += 1;
    }
    true
}

/// The class of the shadow of a character of `class`.
pub fn shadow_class(class: &Class) -> (shadow: Class)
    ensures
        shadow@ == shadow_of(class@),
{
    let mut shadow = class.clone();
    shadow.name = "shadow".to_owned();
    shadow
}

/// The class of the enemy of the special area, made of the default player
/// class `class`.
pub fn dev_class(class: &Class) -> (dev: Class)
    ensures
        dev@ == dev_of(class@),
{
    let mut dev = class.clone();
    dev.name = "dev".to_owned();
    dev.hp = Stat(dev.hp.0 / 2, dev.hp.1);
    dev.strength = Stat(dev.strength.0 / 2, dev.strength.1);
    dev.speed = Stat(dev.speed.0 / 2, dev.speed.1);
    dev
}

/// The level of an enemy for a player of `player_level` at
/// `distance_from_home` steps from home: the base level, jittered by `rng`.
pub fn level<R: Randomizer>(player_level: i32, distance_from_home: i32, rng: &R) -> (level: i32)
    requires
        in_i32(base_level(player_level as int, distance_from_home as int)),
    ensures
        rng.enemy_level_span(
            base_level(player_level as int, distance_from_home as int) as i32,
        ).contains(level as int),
        level >= 1,
{
    let raw: i64 = (player_level / 2) as i64 + distance_from_home as i64 - 1;
    let level: i32 = if raw < 1 {
        1
    } else {
        raw as i32
    };
    rng.enemy_level(level)
}

/// The odds of the draw for a special encounter: one in ten.
pub fn encounter_odds() -> (odds: (u32, u32))
    ensures
        odds == (1u32, 10u32),
{
    (1, 10)
}

/// Whether a draw for the shadow finds it at `location`: where the draw
/// succeeded, and only at home.
pub fn shadow_found(location: &Location, draw: bool) -> (found: bool)
    ensures
        found == (location.home && draw),
{
    location.is_home() && draw
}

/// Whether a draw for the "dev" enemy finds it at `location`: where the draw
/// succeeded, and only in the special area.
pub fn dev_found(location: &Location, draw: bool) -> (found: bool)
    ensures
        found == (location.special_area && draw),
{
    location.is_special_area() && draw
}

/// Whether the encounter is with the player's shadow: only ever at home, and
/// there one time in ten. Draws at the odds of [`encounter_odds`] and lets
/// [`shadow_found`] tell what the draw means at `location`.
pub fn should_find_shadow(location: &Location) -> (found: bool)
    ensures
        found ==> location.home,
{
    let odds = encounter_odds();
    shadow_found(location, roll_ratio(odds.0, odds.1))
}

/// Whether the encounter is with the "dev" enemy: only ever in the special
/// area, and there one time in ten. Draws at the odds of [`encounter_odds`]
/// and lets [`dev_found`] tell what the draw means at `location`.
pub fn should_find_dev(location: &Location) -> (found: bool)
    ensures
        found ==> location.special_area,
{
    let odds = encounter_odds();
    dev_found(location, roll_ratio(odds.0, odds.1))
}

/// The table from which the category of an enemy is drawn at `distance`:
/// common, rare and legendary, each with its weight.
pub fn weights(distance: Distance) -> (table: Vec<(Category, i32)>)
    ensures
        table@ == seq![
            (Category::Common, category_weight(distance, Category::Common) as i32),
            (Category::Rare, category_weight(distance, Category::Rare) as i32),
            (Category::Legendary, category_weight(distance, Category::Legendary) as i32),
        ],
{
    let (w_common, w_rare, w_legendary): (i32, i32, i32) = match distance {
        Distance::Near(_) => (9, 2, 0),
        Distance::Mid(_) => (7, 10, 1),
        Distance::Far(_) => (1, 6, 3),
    };
    let mut table: Vec<(Category, i32)> = Vec::new();
    table.push((Category::Common, w_common));
    table.push((Category::Rare, w_rare));
    table.push((Category::Legendary, w_legendary));
    table
}

/// Draws the category of an enemy at `distance`, with more weight on the
/// rarer categories the further from home. A category without weight at that
/// distance is never drawn.
pub fn weighted_choice(distance: Distance) -> (category: Category)
    ensures
        category_weight(distance, category) > 0,
{
    let table = weights(distance);
    assert(table@[0].1 > 0);
    assert(some_positive_weight(table@));
    let picked = pick_weighted(&table);
    assert(has_positive_weight(table@, picked->0));
    picked.unwrap()
}

} // verus!
