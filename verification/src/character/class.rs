//! Character classes, the stat curves that define them, and the registry that
//! groups the classes by category.

use crate::chance::pick;
use crate::character::StatusEffect;
use vstd::prelude::*;

verus! {

/// A stat curve: the value of an attribute at level 1 and the amount added
/// for each further level.
#[derive(Debug, Clone, Copy, PartialEq, Eq, Structural)]
pub struct Stat(pub i32, pub i32);

impl Stat {
    /// The value at level 1.
    pub fn base(&self) -> (value: i32)
        ensures
            value == self.0,
    {
        self.0
    }

    /// The amount added per level.
    pub fn increase(&self) -> (value: i32)
        ensures
            value == self.1,
    {
        self.1
    }

    /// The nominal value of the stat at `level`, as an unbounded integer.
    pub open spec fn value_at(self, level: int) -> int {
        self.0 + (level - 1) * self.1
    }

    /// Whether the nominal value of the stat at `level` fits in an `i32`.
    pub fn fits_at(&self, level: i32) -> (fits: bool)
        ensures
            fits == (i32::MIN <= self.value_at(level as int) <= i32::MAX),
    {
        let steps: i64 = level as i64 - 1;
        assert(-0x4000_0001_0000_0000 <= steps * self.1 <= 0x4000_0001_0000_0000)
            by (nonlinear_arith)
            requires
                -0x8000_0001 <= steps <= 0x8000_0000,
                -0x8000_0000 <= self.1 <= 0x8000_0000,
        ;
        let grown: i64 = steps * (self.1 as i64);
        let value: i64 = self.0 as i64 + grown;
        i32::MIN as i64 <= value && value <= i32::MAX as i64
    }

    /// The nominal value of the stat at `level`.
    pub fn at(&self, level: i32) -> (value: i32)
        requires
            i32::MIN <= self.value_at(level as int) <= i32::MAX,
        ensures
            value == self.value_at(level as int),
    {
        let steps: i64 = level as i64 - 1;
        let grown: i64 = steps * (self.1 as i64);
        (self.0 as i64 + grown) as i32
    }
}

/// Who a class is meant for: the player, or enemies of a given rarity.
#[derive(Debug, Clone, Copy, PartialEq, Eq, Hash, Structural)]
pub enum Category {
    Player,
    Common,
    Rare,
    Legendary,
}

/// An archetype for characters: every character of a class grows along the
/// same stat curves.
#[derive(Debug)]
pub struct Class {
    pub name: String,
    pub hp: Stat,
    /// Present exactly for the classes that can use magic.
    pub mp: Option<Stat>,
    pub strength: Stat,
    pub speed: Stat,
    pub category: Category,
    /// The status effect that a successful attack may inflict, with its chance.
    pub inflicts: Option<(StatusEffect, u32)>,
}

/// The mathematical value of a [`Class`]: its name as a sequence of characters
/// beside its curves.
pub struct ClassView {
    pub name: Seq<char>,
    pub hp: Stat,
    pub mp: Option<Stat>,
    pub strength: Stat,
    pub speed: Stat,
    pub category: Category,
    pub inflicts: Option<(StatusEffect, u32)>,
}

impl ClassView {
    /// Whether the class can inflict magic damage.
    pub open spec fn is_magic(self) -> bool {
        self.mp is Some
    }

    /// The per-level increase of the magic pool; zero without a magic curve.
    pub open spec fn mp_increase(self) -> int {
        match self.mp {
            Some(mp) => mp.1 as int,
            None => 0,
        }
    }

    /// Whether no pool of the class shrinks with the level.
    pub open spec fn grows(self) -> bool {
        0 <= self.hp.1 && 0 <= self.mp_increase()
    }

    /// Whether the pools of the class start at zero or above and never
    /// shrink: no increase is negative, and none exceeds its base.
    pub open spec fn regular(self) -> bool {
        &&& 0 <= self.hp.1 <= self.hp.0
        &&& self.mp matches Some(mp) ==> 0 <= mp.1 <= mp.0
    }

    /// The same class under another name.
    pub open spec fn renamed(self, name: Seq<char>) -> ClassView {
        ClassView { name, ..self }
    }
}

impl View for Class {
    type V = ClassView;

    open spec fn view(&self) -> ClassView {
        ClassView {
            name: self.name@,
            hp: self.hp,
            mp: self.mp,
            strength: self.strength,
            speed: self.speed,
            category: self.category,
            inflicts: self.inflicts,
        }
    }
}

impl Clone for Class {
    fn clone(&self) -> (copy: Self)
        ensures
            copy == *self,
    {
        Class {
            name: self.name.clone(),
            hp: self.hp,
            mp: self.mp,
            strength: self.strength,
            speed: self.speed,
            category: self.category,
            inflicts: self.inflicts,
        }
    }
}

/// Reported when a list of classes leaves a category without any class.
#[derive(Debug, Clone, Copy, PartialEq, Eq, Structural)]
pub struct MissingCategory {
    pub category: Category,
}

/// The predicate "belongs to `category`".
pub open spec fn in_category(category: Category) -> spec_fn(Class) -> bool {
    |class: Class| class.category == category
}

/// The classes of `list` that belong to `category`, in the order of `list`.
pub open spec fn of_category(list: Seq<Class>, category: Category) -> Seq<Class> {
    list.filter(in_category(category))
}

/// The first class of `list` called `name`, if there is one.
pub open spec fn first_named(list: Seq<Class>, name: Seq<char>) -> Option<Class>
    decreases list.len(),
{
    if list.len() == 0 {
        None
    } else if list[0].name@ == name {
        Some(list[0])
    } else {
        first_named(list.subrange(1, list.len() as int), name)
    }
}

/// The names of the classes of `list`, each once, in the order in which they
/// first occur.
pub open spec fn distinct_names(list: Seq<Class>) -> Seq<Seq<char>>
    decreases list.len(),
{
    if list.len() == 0 {
        Seq::empty()
    } else {
        let before = distinct_names(list.drop_last());
        if before.contains(list.last().name@) {
            before
        } else {
            before.push(list.last().name@)
        }
    }
}

/// The strings of `names` as sequences of characters.
pub open spec fn name_views(names: Seq<String>) -> Seq<Seq<char>> {
    Seq::new(names.len(), |i: int| names[i]@)
}

/// The first category, in the order player, common, rare, legendary, that has
/// no class in `list`.
pub open spec fn first_missing(list: Seq<Class>) -> Option<Category> {
    if of_category(list, Category::Player).len() == 0 {
        Some(Category::Player)
    } else if of_category(list, Category::Common).len() == 0 {
        Some(Category::Common)
    } else if of_category(list, Category::Rare).len() == 0 {
        Some(Category::Rare)
    } else if of_category(list, Category::Legendary).len() == 0 {
        Some(Category::Legendary)
    } else {
        None
    }
}

/// The catalog of classes, grouped by category. No category is ever empty.
#[derive(Debug)]
pub struct ClassRegistry {
    player: Vec<Class>,
    common: Vec<Class>,
    rare: Vec<Class>,
    legendary: Vec<Class>,
}

impl ClassRegistry {
    #[verifier::type_invariant]
    spec fn stocked(self) -> bool {
        &&& self.player.len() > 0
        &&& self.common.len() > 0
        &&& self.rare.len() > 0
        &&& self.legendary.len() > 0
        &&& forall|i: int| 0 <= i < self.player.len() ==> self.player[i].category == Category::Player
        &&& forall|i: int| 0 <= i < self.common.len() ==> self.common[i].category == Category::Common
        &&& forall|i: int| 0 <= i < self.rare.len() ==> self.rare[i].category == Category::Rare
        &&& forall|i: int|
            0 <= i < self.legendary.len() ==> self.legendary[i].category == Category::Legendary
    }

    /// The classes of one category, in registration order.
    pub closed spec fn group(self, category: Category) -> Seq<Class> {
        match category {
            Category::Player => self.player@,
            Category::Common => self.common@,
            Category::Rare => self.rare@,
            Category::Legendary => self.legendary@,
        }
    }

    /// The player class called `name`, if the registry has one.
    pub open spec fn player_named(self, name: Seq<char>) -> Option<Class> {
        first_named(self.group(Category::Player), name)
    }

    /// The classes of one category: never an empty collection, and none of
    /// another category among them.
    pub fn of(&self, category: Category) -> (classes: &Vec<Class>)
        ensures
            classes@ == self.group(category),
            classes.len() > 0,
            forall|i: int| 0 <= i < classes.len() ==> classes[i].category == category,
    {
        proof {
            use_type_invariant(self);
        }
        match category {
            Category::Player => &self.player,
            Category::Common => &self.common,
            Category::Rare => &self.rare,
            Category::Legendary => &self.legendary,
        }
    }
}

/// Adding one element to a sequence adds it to the filtered sequence exactly
/// when it belongs to the category.
proof fn lemma_of_category_step(list: Seq<Class>, upto: int, category: Category)
    requires
        0 <= upto < list.len(),
    ensures
        of_category(list.take(upto + 1), category) == if list[upto].category == category {
            of_category(list.take(upto), category).push(list[upto])
        } else {
            of_category(list.take(upto), category)
        },
{
    reveal(Seq::filter);
    assert(list.take(upto + 1).drop_last() =~= list.take(upto));
}

/// Every class of the filtered sequence belongs to the category.
proof fn lemma_of_category_members(list: Seq<Class>, category: Category)
    ensures
        forall|i: int|
            0 <= i < of_category(list, category).len() ==> (#[trigger] of_category(
                list,
                category,
            )[i]).category == category,
{
    assert forall|i: int| 0 <= i < of_category(list, category).len() implies (#[trigger] of_category(
        list,
        category,
    )[i]).category == category by {
        list.lemma_filter_pred(in_category(category), i);
    }
}

/// The distinct names of a list hold every name of the list, nothing else,
/// and nothing twice.
pub proof fn lemma_distinct_names(list: Seq<Class>)
    ensures
        distinct_names(list).no_duplicates(),
        forall|name: Seq<char>|
            distinct_names(list).contains(name) <==> exists|i: int|
                0 <= i < list.len() && (#[trigger] list[i]).name@ == name,
    decreases list.len(),
{
    if list.len() > 0 {
        let rest = list.drop_last();
        let last = list.last().name@;
        lemma_distinct_names(rest);
        let before = distinct_names(rest);
        assert forall|name: Seq<char>| distinct_names(list).contains(name) implies exists|i: int|
            0 <= i < list.len() && (#[trigger] list[i]).name@ == name by {
            if before.contains(name) {
                let i = choose|i: int| 0 <= i < rest.len() && (#[trigger] rest[i]).name@ == name;
                assert(list[i].name@ == name);
            } else {
                let at = choose|at: int|
                    0 <= at < distinct_names(list).len() && distinct_names(list)[at] == name;
                assert(name == last);
                assert(list[list.len() - 1].name@ == name);
            }
        }
        assert forall|name: Seq<char>|
            (exists|i: int| 0 <= i < list.len() && (#[trigger] list[i]).name@ == name)
            implies distinct_names(list).contains(name) by {
            let i = choose|i: int| 0 <= i < list.len() && (#[trigger] list[i]).name@ == name;
            if i < list.len() - 1 {
                assert(rest[i].name@ == name);
                assert(before.contains(name));
                let at = choose|at: int| 0 <= at < before.len() && before[at] == name;
                assert(distinct_names(list)[at] == name);
            } else if before.contains(last) {
            } else {
                assert(distinct_names(list)[before.len() as int] == name);
            }
        }
    }
}

impl Class {
    /// Whether this is a magic class, one that can inflict magic damage.
    pub fn is_magic(&self) -> (magic: bool)
        ensures
            magic == self@.is_magic(),
    {
        self.mp.is_some()
    }

    /// Whether the class is called `name`.
    pub fn is_named(&self, name: &str) -> (same: bool)
        ensures
            same == (self.name@ == name@),
    {
        let wanted = name.to_owned();
        self.name == wanted
    }

    /// Builds the registry from a list of classes, keeping within each
    /// category the order of the list. Fails when a category has no class,
    /// naming the first such category.
    pub fn load(classes: Vec<Class>) -> (loaded: Result<ClassRegistry, MissingCategory>)
        ensures
            match loaded {
                Ok(registry) => {
                    &&& first_missing(classes@) is None
                    &&& forall|category: Category|
                        #[trigger] registry.group(category) == of_category(classes@, category)
                },
                Err(missing) => first_missing(classes@) == Some(missing.category),
            },
    {
        let mut player: Vec<Class> = Vec::new();
        let mut common: Vec<Class> = Vec::new();
        let mut rare: Vec<Class> = Vec::new();
        let mut legendary: Vec<Class> = Vec::new();
        let mut done: usize = 0;
        proof {
            reveal(Seq::filter);
            assert(classes@.take(0) =~= Seq::<Class>::empty());
        }
        while done < classes.len()
            invariant
                done <= classes.len(),
                player@ == of_category(classes@.take(done as int), Category::Player),
                common@ == of_category(classes@.take(done as int), Category::Common),
                rare@ == of_category(classes@.take(done as int), Category::Rare),
                legendary@ == of_category(classes@.take(done as int), Category::Legendary),
            decreases classes.len() - done,
        {
            let class = classes[done].clone();
            proof {
                lemma_of_category_step(classes@, done as int, Category::Player);
                lemma_of_category_step(classes@, done as int, Category::Common);
                lemma_of_category_step(classes@, done as int, Category::Rare);
                lemma_of_category_step(classes@, done as int, Category::Legendary);
            }
            match class.category {
                Category::Player => player.push(class),
                Category::Common => common.push(class),
                Category::Rare => rare.push(class),
                Category::Legendary => legendary.push(class),
            }
            done += 1;
        }
        assert(classes@.take(done as int) =~= classes@);
        if player.len() == 0 {
            Err(MissingCategory { category: Category::Player })
        } else if common.len() == 0 {
            Err(MissingCategory { category: Category::Common })
        } else if rare.len() == 0 {
            Err(MissingCategory { category: Category::Rare })
        } else if legendary.len() == 0 {
            Err(MissingCategory { category: Category::Legendary })
        } else {
            proof {
                lemma_of_category_members(classes@, Category::Player);
                lemma_of_category_members(classes@, Category::Common);
                lemma_of_category_members(classes@, Category::Rare);
                lemma_of_category_members(classes@, Category::Legendary);
            }
            let registry = ClassRegistry { player, common, rare, legendary };
            assert forall|category: Category|
                #[trigger] registry.group(category) == of_category(classes@, category) by {
                match category {
                    Category::Player => {},
                    Category::Common => {},
                    Category::Rare => {},
                    Category::Legendary => {},
                }
            }
            Ok(registry)
        }
    }

    /// The default player class: the first one registered for the player.
    pub fn player_first(registry: &ClassRegistry) -> (class: &Class)
        ensures
            registry.group(Category::Player).len() > 0,
            *class == registry.group(Category::Player)[0],
    {
        &registry.of(Category::Player)[0]
    }

    /// A class of `category`, picked at random.
    pub fn random(registry: &ClassRegistry, category: Category) -> (class: &Class)
        ensures
            registry.group(category).contains(*class),
            class.category == category,
    {
        pick(registry.of(category)).unwrap()
    }

    /// The names of the classes of `category`: each name once, in the order
    /// of registration.
    pub fn names(registry: &ClassRegistry, category: Category) -> (names: Vec<String>)
        ensures
            name_views(names@) == distinct_names(registry.group(category)),
    {
        let classes = registry.of(category);
        let mut names: Vec<String> = Vec::new();
        let mut at: usize = 0;
        assert(classes@.take(0) =~= Seq::<Class>::empty());
        assert(name_views(names@) =~= Seq::<Seq<char>>::empty());
        while at < classes.len()
            invariant
                at <= classes.len(),
                name_views(names@) == distinct_names(classes@.take(at as int)),
            decreases classes.len() - at,
        {
            let class = &classes[at];
            let mut known: bool = false;
            let mut seen: usize = 0;
            while seen < names.len()
                invariant
                    seen <= names.len(),
                    known <==> exists|j: int| 0 <= j < seen && (#[trigger] names[j])@ == class.name@,
                decreases names.len() - seen,
            {
                if names[seen] == class.name {
                    known = true;
                }
                seen += 1;
            }
            proof {
                let views = name_views(names@);
                assert(classes@.take(at as int + 1).drop_last() =~= classes@.take(at as int));
                assert(classes@.take(at as int + 1).last() == *class);
                if known {
                    let j = choose|j: int| 0 <= j < seen && (#[trigger] names[j])@ == class.name@;
                    assert(views[j] == class.name@);
                } else if views.contains(class.name@) {
                    let j = choose|j: int| 0 <= j < views.len() && views[j] == class.name@;
                    assert(names[j]@ == class.name@);
                }
                assert(known == views.contains(class.name@));
            }
            if !known {
                let ghost views = name_views(names@);
                names.push(class.name.clone());
                assert(name_views(names@) =~= views.push(class.name@));
            }
            at += 1;
        }
        assert(classes@.take(at as int) =~= classes@);
        names
    }

    /// Looks a player class up by its name; with several of that name, the
    /// first registered one is found.
    pub fn player_by_name<'a>(registry: &'a ClassRegistry, name: &str) -> (found: Option<&'a Class>)
        ensures
            match found {
                Some(class) => registry.player_named(name@) == Some(*class),
                None => registry.player_named(name@) is None,
            },
    {
        let classes = registry.of(Category::Player);
        let mut at: usize = 0;
        assert(classes@.subrange(0, classes@.len() as int) =~= classes@);
        while at < classes.len()
            invariant
                at <= classes.len(),
                classes@ == registry.group(Category::Player),
                first_named(classes@, name@) == first_named(
                    classes@.subrange(at as int, classes@.len() as int),
                    name@,
                ),
            decreases classes.len() - at,
        {
            let rest = Ghost(classes@.subrange(at as int, classes@.len() as int));
            assert(rest@.len() > 0 && rest@[0] == classes@[at as int]);
            if classes[at].is_named(name) {
                return Some(&classes[at]);
            }
            assert(rest@.subrange(1, rest@.len() as int) =~= classes@.subrange(
                at as int + 1,
                classes@.len() as int,
            ));
            at += 1;
        }
        None
    }
}

} // verus!
