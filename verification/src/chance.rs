//! The calls into the `rand` crate. Nothing in this file is proved: each
//! function states what the documentation and source of `rand` say of the call
//! it makes, and the rest of the library reasons from those statements.

use crate::character::class::Category;
use rand::seq::SliceRandom;
use rand::Rng;
use vstd::prelude::*;

verus! {

/// Calls `Rng::gen_range` on the inclusive range from `low` to `high`, with
/// the thread-local generator. `rand` panics on an empty range, which the
/// precondition leaves out; what it hands back lies within the range.
#[verifier::external_body]
pub(crate) fn roll_between(low: i32, high: i32) -> (rolled: i32)
    requires
        low <= high,
    ensures
        low <= rolled <= high,
{
    rand::thread_rng().gen_range(low..=high)
}

/// Calls `Rng::gen_ratio`, with the thread-local generator. `rand` panics on
/// a zero denominator and on a numerator above the denominator; it documents
/// that a ratio of one always gives `true` and a ratio of zero always `false`.
#[verifier::external_body]
pub(crate) fn roll_ratio(numerator: u32, denominator: u32) -> (hit: bool)
    requires
        0 < denominator,
        numerator <= denominator,
    ensures
        numerator == denominator ==> hit,
        numerator == 0 ==> !hit,
{
    rand::thread_rng().gen_ratio(numerator, denominator)
}

/// Calls `SliceRandom::choose`, with the thread-local generator: `None` for
/// an empty collection and otherwise one of its elements.
#[verifier::external_body]
pub(crate) fn pick<T>(items: &Vec<T>) -> (picked: Option<&T>)
    ensures
        picked is None <==> items.len() == 0,
        picked matches Some(item) ==> items@.contains(*item),
{
    items.as_slice().choose(&mut rand::thread_rng())
}

/// Whether some entry of `table` pairs `category` with a positive weight.
pub open spec fn has_positive_weight(table: Seq<(Category, i32)>, category: Category) -> bool {
    exists|i: int| 0 <= i < table.len() && (#[trigger] table[i]).0 == category && table[i].1 > 0
}

/// Whether some entry of `table` has a positive weight.
pub open spec fn some_positive_weight(table: Seq<(Category, i32)>) -> bool {
    exists|i: int| 0 <= i < table.len() && (#[trigger] table[i]).1 > 0
}

/// Whether `rand` can add the weights of `table` up without overflow: there
/// are fewer than 2^15 of them, each from 0 to 2^16 - 1.
pub open spec fn summable_weights(table: Seq<(Category, i32)>) -> bool {
    &&& table.len() <= 0x7fff
    &&& forall|i: int| 0 <= i < table.len() ==> 0 <= (#[trigger] table[i]).1 <= 0xffff
}

/// Calls `SliceRandom::choose_weighted` with the second component of each
/// entry as its weight, on the thread-local generator. `rand` adds the weights
/// up in an `i32`; the precondition keeps that sum from overflowing. The
/// source shows that the call fails exactly when no weight is positive, the
/// weights being non-negative, and that otherwise the entry picked has a
/// positive weight.
#[verifier::external_body]
pub(crate) fn pick_weighted(table: &Vec<(Category, i32)>) -> (picked: Option<Category>)
    requires
        summable_weights(table@),
    ensures
        picked is Some <==> some_positive_weight(table@),
        picked matches Some(category) ==> has_positive_weight(table@, category),
{
    table.as_slice().choose_weighted(&mut rand::thread_rng(), |entry| entry.1).ok().map(|entry| entry.0)
}

} // verus!
