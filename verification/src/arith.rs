//! Integer helpers shared by the game formulas: machine ranges, truncating
//! division and the integer square root.

use vstd::prelude::*;

verus! {

/// Whether `x` can be held in an `i32`.
pub open spec fn in_i32(x: int) -> bool {
    i32::MIN <= x <= i32::MAX
}

/// The larger of two integers.
pub open spec fn larger(a: int, b: int) -> int {
    if a >= b {
        a
    } else {
        b
    }
}

/// The smaller of two integers.
pub open spec fn smaller(a: int, b: int) -> int {
    if a <= b {
        a
    } else {
        b
    }
}

/// Division that rounds toward zero, for a positive divisor.
pub open spec fn trunc_div(a: int, b: int) -> int
    recommends
        b > 0,
{
    if a >= 0 {
        a / b
    } else {
        -((-a) / b)
    }
}

/// Whether `root` is the integer square root of `n`: the one natural number
/// whose square does not exceed `n` while the square of its successor does.
pub open spec fn is_floor_sqrt(n: int, root: int) -> bool {
    0 <= root && root * root <= n < (root + 1) * (root + 1)
}

/// The integer square root of `n`, for `n >= 0`.
pub closed spec fn floor_sqrt(n: int) -> int {
    choose|root: int| is_floor_sqrt(n, root)
}

/// Squaring keeps the order of natural numbers.
pub proof fn lemma_square_monotonic(a: int, b: int)
    requires
        0 <= a <= b,
    ensures
        a * a <= b * b,
{
    assert(a * a <= a * b) by (nonlinear_arith)
        requires
            0 <= a <= b,
    ;
    assert(a * b <= b * b) by (nonlinear_arith)
        requires
            0 <= a <= b,
    ;
}

/// Every natural number has an integer square root.
pub proof fn lemma_floor_sqrt_exists(n: int) -> (root: int)
    requires
        0 <= n,
    ensures
        is_floor_sqrt(n, root),
    decreases n,
{
    if n == 0 {
        assert(is_floor_sqrt(0, 0)) by (nonlinear_arith);
        0
    } else {
        let before = lemma_floor_sqrt_exists(n - 1);
        let next = before + 1;
        assert(n - 1 < next * next);
        if next * next <= n {
            assert(n < (next + 1) * (next + 1)) by (nonlinear_arith)
                requires
                    0 <= next,
                    n <= next * next,
            ;
            next
        } else {
            before
        }
    }
}

/// The integer square root is unique: whatever meets its definition is it.
pub proof fn lemma_floor_sqrt_unique(n: int, root: int)
    requires
        is_floor_sqrt(n, root),
    ensures
        floor_sqrt(n) == root,
{
    let other = floor_sqrt(n);
    assert(is_floor_sqrt(n, other));
    if other < root {
        lemma_square_monotonic(other + 1, root);
    } else if root < other {
        lemma_square_monotonic(root + 1, other);
    }
}

/// The integer square root meets its definition on every natural number.
pub proof fn lemma_floor_sqrt_is_root(n: int)
    requires
        0 <= n,
    ensures
        is_floor_sqrt(n, floor_sqrt(n)),
{
    let root = lemma_floor_sqrt_exists(n);
}

/// The integer square root never decreases when its argument grows.
pub proof fn lemma_floor_sqrt_monotonic(a: int, b: int)
    requires
        0 <= a <= b,
    ensures
        floor_sqrt(a) <= floor_sqrt(b),
{
    lemma_floor_sqrt_is_root(a);
    lemma_floor_sqrt_is_root(b);
    let ra = floor_sqrt(a);
    let rb = floor_sqrt(b);
    if rb < ra {
        lemma_square_monotonic(rb + 1, ra);
    }
}

/// Computes the integer square root of a number below 2^62.
pub fn isqrt(n: u64) -> (root: u64)
    requires
        n < 0x4000_0000_0000_0000,
    ensures
        root == floor_sqrt(n as int),
        root < 0x8000_0000,
{
    let mut low: u64 = 0;
    let mut high: u64 = 0x8000_0000;
    assert(0x8000_0000int * 0x8000_0000int == 0x4000_0000_0000_0000int) by (nonlinear_arith);
    while high - low > 1
        invariant
            low < high <= 0x8000_0000,
            low * low <= n < high * high,
        decreases high - low,
    {
        let middle: u64 = low + (high - low) / 2;
        proof {
            lemma_square_monotonic(middle as int, 0x8000_0000);
        }
        if middle * middle <= n {
            low = middle;
        } else {
            high = middle;
        }
    }
    proof {
        lemma_floor_sqrt_unique(n as int, low as int);
    }
    low
}

} // verus!
