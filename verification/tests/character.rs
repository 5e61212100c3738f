use rpg_core::character::class::{Category, Class, ClassRegistry, Stat};
use rpg_core::character::{Character, StatusEffect};
use rpg_core::equipment::Sword;
use rpg_core::randomizer::Steady;

fn class(name: &str, category: Category, hp: Stat, mp: Option<Stat>, strength: Stat, speed: Stat) -> Class {
    Class {
        name: name.to_string(),
        hp,
        mp,
        strength,
        speed,
        category,
        inflicts: None,
    }
}

fn registry() -> ClassRegistry {
    Class::load(vec![
        class("warrior", Category::Player, Stat(50, 10), None, Stat(12, 3), Stat(11, 2)),
        class("mage", Category::Player, Stat(30, 6), Some(Stat(10, 4)), Stat(10, 3), Stat(10, 2)),
        class("thief", Category::Player, Stat(35, 7), None, Stat(7, 2), Stat(19, 3)),
        class("rat", Category::Common, Stat(15, 5), None, Stat(5, 2), Stat(16, 2)),
        class("zombie", Category::Rare, Stat(50, 16), None, Stat(8, 3), Stat(6, 2)),
        class("dragon", Category::Legendary, Stat(100, 25), None, Stat(25, 6), Stat(8, 3)),
    ])
    .unwrap()
}

fn sword_for(level: i32, registry: &ClassRegistry) -> Sword {
    let player_strength = Class::player_first(registry).strength.at(level);
    Sword::new((player_strength as f64 * 1.5).round() as i32)
}

fn new_char() -> Character {
    Character::new(
        Class {
            name: "test".to_string(),
            category: Category::Player,
            hp: Stat(25, 7),
            mp: None,
            strength: Stat(10, 3),
            speed: Stat(10, 2),
            inflicts: None,
        },
        1,
        &Steady,
    )
}

#[test]
fn test_new() {
    let hero = new_char();

    assert_eq!(1, hero.level);
    assert_eq!(0, hero.xp);

    assert_eq!(hero.class.hp.base(), hero.current_hp);
    assert_eq!(hero.class.hp.base(), hero.max_hp);
    assert_eq!(hero.class.strength.base(), hero.strength);
    assert_eq!(hero.class.speed.base(), hero.speed);
    assert!(hero.status_effect.is_none());
}

#[test]
fn test_increase_level() {
    let mut hero = new_char();

    assert_eq!(7, hero.class.hp.increase());
    assert_eq!(3, hero.class.strength.increase());
    assert_eq!(2, hero.class.speed.increase());

    hero.max_hp = 20;
    hero.current_hp = 20;
    hero.strength = 10;
    hero.speed = 5;

    hero.increase_level(&Steady);
    assert_eq!(2, hero.level);
    assert_eq!(27, hero.max_hp);
    assert_eq!(13, hero.strength);
    assert_eq!(7, hero.speed);

    let damage = 7;
    hero.current_hp -= damage;

    hero.increase_level(&Steady);
    assert_eq!(3, hero.level);
    assert_eq!(hero.current_hp, hero.max_hp - damage);
}

#[test]
fn test_damage() {
    let mut hero = new_char();
    let mut foe = new_char();

    // 1 vs 1
    hero.strength = 10;
    foe.strength = 10;
    assert_eq!(10, hero.damage(&foe).0);

    // level 1 vs level 2
    foe.level = 2;
    foe.strength = 15;
    assert_eq!(10, hero.damage(&foe).0);

    // level 2 vs level 1
    assert_eq!(15, foe.damage(&hero).0);

    // level 1 vs level 5
    foe.level = 5;
    foe.strength = 40;
    assert_eq!(10, hero.damage(&foe).0);

    // level 5 vs level 1
    assert_eq!(40, foe.damage(&hero).0);
}

#[test]
fn test_xp_gained() {
    let hero = new_char();
    let mut foe = new_char();
    let damage = 10;

    // 1 vs 1 -- no level-based effect
    let xp = hero.xp_gained(&foe, damage);
    assert_eq!(damage, xp);

    // level 1 vs level 2
    foe.level = 2;
    let xp = hero.xp_gained(&foe, damage);
    assert_eq!(2 * damage, xp);

    // level 2 vs level 1
    let xp = foe.xp_gained(&hero, damage);
    assert_eq!(damage / 2, xp);

    // level 1 vs level 5
    foe.level = 5;
    let xp = hero.xp_gained(&foe, damage);
    assert_eq!(5 * damage, xp);

    // level 5 vs level 1
    let xp = foe.xp_gained(&hero, damage);
    assert_eq!(damage / 5, xp);
}

#[test]
fn test_xp_for_next() {
    let mut hero = new_char();
    assert_eq!(30, hero.xp_for_next());
    hero.increase_level(&Steady);
    assert_eq!(84, hero.xp_for_next());
    hero.increase_level(&Steady);
    assert_eq!(155, hero.xp_for_next());
}

#[test]
fn test_add_experience() {
    let mut hero = new_char();
    assert_eq!(1, hero.level);
    assert_eq!(0, hero.xp);

    assert_eq!(0, hero.add_experience(20, &Steady));
    assert_eq!(1, hero.level);
    assert_eq!(20, hero.xp);

    assert_eq!(1, hero.add_experience(25, &Steady));
    assert_eq!(2, hero.level);
    assert_eq!(15, hero.xp);

    // multiple increases at once
    let mut hero = new_char();
    assert_eq!(2, hero.add_experience(120, &Steady));
    assert!(hero.xp < hero.xp_for_next());
    assert_eq!(3, hero.level);
    assert_eq!(6, hero.xp);
}

#[test]
fn test_heal() {
    let mut hero = new_char();
    assert_eq!(25, hero.max_hp);
    assert_eq!(25, hero.current_hp);

    assert_eq!(0, hero.heal(100));
    assert_eq!(25, hero.max_hp);
    assert_eq!(25, hero.current_hp);

    assert_eq!(0, hero.heal_full().0);
    assert_eq!(25, hero.max_hp);
    assert_eq!(25, hero.current_hp);

    hero.current_hp = 10;
    assert_eq!(5, hero.heal(5));
    assert_eq!(25, hero.max_hp);
    assert_eq!(15, hero.current_hp);

    assert_eq!(10, hero.heal(100));
    assert_eq!(25, hero.max_hp);
    assert_eq!(25, hero.current_hp);

    hero.current_hp = 10;
    assert_eq!(15, hero.heal_full().0);
    assert_eq!(25, hero.max_hp);
    assert_eq!(25, hero.current_hp);
}

#[test]
fn test_overflow() {
    let registry = registry();
    let mut hero = Character::player(&registry, &Steady);

    while hero.level < 500 {
        hero.add_experience(hero.xp_for_next(), &Steady);
        hero.sword = Some(sword_for(hero.level, &registry));
        let turns_unarmed = hero.max_hp / hero.strength;
        let turns_armed = hero.max_hp / hero.physical_attack();
        println!(
            "hero[{}] next={} hp={} spd={} str={} att={} turns_u={} turns_a={}",
            hero.level,
            hero.xp_for_next(),
            hero.max_hp,
            hero.speed,
            hero.strength,
            hero.physical_attack(),
            turns_unarmed,
            turns_armed
        );

        assert!(hero.max_hp > 0);
        assert!(hero.speed > 0);
        assert!(hero.physical_attack() > 0);

        assert!(turns_armed < turns_unarmed);
        assert!(turns_armed < 20);
    }
}

#[test]
fn test_receive_status_effect_damage() {
    let mut hero = new_char();
    assert_eq!(25, hero.current_hp);

    hero.receive_status_effect_damage(&Steady).unwrap_or_default();
    assert_eq!(25, hero.current_hp);

    hero.status_effect = Some(StatusEffect::Burn);
    hero.receive_status_effect_damage(&Steady).unwrap_or_default();
    assert_eq!(24, hero.current_hp);

    hero.status_effect = Some(StatusEffect::Poison);
    hero.receive_status_effect_damage(&Steady).unwrap_or_default();
    assert_eq!(23, hero.current_hp);

    hero.maybe_remove_status_effect();
    hero.receive_status_effect_damage(&Steady).unwrap_or_default();
    assert_eq!(23, hero.current_hp);

    hero.status_effect = Some(StatusEffect::Burn);
    hero.current_hp = 1;
    assert!(hero.receive_status_effect_damage(&Steady).is_err());
    assert!(hero.is_dead());
}

#[test]
fn test_class_change() {
    let registry = registry();
    let mut player = Character::player(&registry, &Steady);
    player.xp = 20;
    player.sword = Some(sword_for(1, &registry));

    let warrior_class = Class::player_by_name(&registry, "warrior").unwrap();
    let thief_class = Class::player_by_name(&registry, "thief").unwrap();

    // attempt change to same class
    assert_eq!("warrior", player.class.name);
    assert!(player.change_class("warrior", &registry, &Steady).is_ok());
    assert_eq!("warrior", player.class.name);
    assert_eq!(20, player.xp);
    assert_eq!(player.max_hp, warrior_class.hp.base());
    assert_eq!(player.strength, warrior_class.strength.base());
    assert_eq!(player.speed, warrior_class.speed.base());
    assert!(player.sword.is_some());

    // attempt change to unknown class
    assert!(player.change_class("choripan", &registry, &Steady).is_err());

    // attempt change to different class at level 1 (reset)
    assert!(player.change_class("thief", &registry, &Steady).is_ok());
    assert_eq!("thief", player.class.name);
    assert_eq!(0, player.xp);
    assert_eq!(player.max_hp, thief_class.hp.base());
    assert_eq!(player.strength, thief_class.strength.base());
    assert_eq!(player.speed, thief_class.speed.base());
    assert!(player.sword.is_some());

    // attempt change to different class at level 2
    player.level = 2;
    player.xp = 20;
    assert!(player.change_class("warrior", &registry, &Steady).is_ok());
    assert_eq!("warrior", player.class.name);
    assert_eq!(0, player.xp);
    assert_eq!(player.max_hp, thief_class.hp.base());
    assert_eq!(player.strength, thief_class.strength.base());
    assert_eq!(player.speed, thief_class.speed.base());
    assert!(player.sword.is_some());
}

#[test]
fn test_change_to_magic_class() {
    let registry = registry();
    let mut player = Character::player(&registry, &Steady);
    assert_eq!("warrior", player.class.name);
    assert_eq!(0, player.max_mp);
    assert_eq!(0, player.current_mp);

    // when changing at level 1, it's a re-roll of the character
    player.change_class("mage", &registry, &Steady).unwrap_or_default();
    let base_mp = player.class.mp.as_ref().map_or(0, |mp| mp.base());
    assert!(base_mp > 0);
    assert_eq!(base_mp, player.max_mp);
    assert_eq!(base_mp, player.current_mp);

    player.change_class("warrior", &registry, &Steady).unwrap_or_default();
    assert_eq!(0, player.max_mp);
    assert_eq!(0, player.current_mp);

    player.increase_level(&Steady);
    player.increase_level(&Steady);
    assert_eq!(0, player.max_mp);
    assert_eq!(0, player.current_mp);

    // in level > 1, change to magic class should give base magic instead of zero
    player.change_class("mage", &registry, &Steady).unwrap_or_default();
    assert_eq!(base_mp, player.max_mp);
    assert_eq!(base_mp, player.current_mp);
}

#[test]
fn test_magic_attacks() {
    let registry = registry();
    let mut hero = Character::player(&registry, &Steady);
    let foe = new_char();

    assert_eq!("warrior", hero.class.name);
    assert!(!hero.can_magic_attack());
    let base_strength = hero.class.strength.base();

    // warrior mp = 0
    assert_eq!((base_strength, 0), hero.damage(&foe));

    // warrior with non zero mp, mp = 0
    // (this can happen if accumulated mp via class change)
    hero.current_mp = 10;
    hero.max_mp = 10;
    assert!(!hero.can_magic_attack());
    assert_eq!((base_strength, 0), hero.damage(&foe));

    // warrior + sword, increased damage + mp = 0
    let sword = sword_for(hero.level, &registry);
    let sword_strength = sword.strength();
    hero.sword = Some(sword);
    assert_eq!((base_strength + sword_strength, 0), hero.damage(&foe));

    let mut mage = Character::player(&registry, &Steady);
    mage.change_class("mage", &registry, &Steady).unwrap_or_default();
    assert_eq!("mage", mage.class.name);
    assert!(mage.can_magic_attack());

    // mage with enough mp, -mp, *3
    let base_strength = mage.class.strength.base();
    assert_eq!((base_strength * 3, mage.max_mp / 3), mage.damage(&foe));

    // enough for one more
    mage.current_mp = mage.max_mp / 3;
    assert!(mage.can_magic_attack());
    assert_eq!((base_strength * 3, mage.max_mp / 3), mage.damage(&foe));

    // same with sword
    mage.sword = Some(sword_for(hero.level, &registry));
    assert_eq!((base_strength * 3, mage.max_mp / 3), mage.damage(&foe));

    // mage without enough mp, 0 mp, /3
    mage.current_mp = mage.max_mp / 3 - 1;
    assert!(!mage.can_magic_attack());
    assert_eq!((base_strength / 3, 0), mage.damage(&foe));
}
