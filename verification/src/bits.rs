use vstd::prelude::*;

verus! {

/// Number of set bits in a byte-sized bitmap.
pub open spec fn popcount(b: u8) -> nat
    decreases b,
{
    if b == 0 {
        0
    } else {
        (b % 2) as nat + popcount(b / 2)
    }
}

/// `2^k`.
pub open spec fn two_to(k: nat) -> nat
    decreases k,
{
    if k == 0 {
        1
    } else {
        2 * two_to((k - 1) as nat)
    }
}

/// A value below `2^k` has at most `k` set bits.
pub proof fn lemma_popcount_below(b: u8, k: nat)
    requires
        b < two_to(k),
    ensures
        popcount(b) <= k,
    decreases k,
{
    if b != 0 {
        assert(k > 0);
        lemma_popcount_below(b / 2, (k - 1) as nat);
    }
}

/// A byte has at most eight set bits.
pub proof fn lemma_popcount_at_most_8(b: u8)
    ensures
        popcount(b) <= 8,
{
    reveal_with_fuel(two_to, 9);
    assert(two_to(8) == 256);
    lemma_popcount_below(b, 8);
}

/// Number of set bits in `b` (`u8::count_ones`).
pub fn count_ones(b: u8) -> (r: u32)
    ensures
        r == popcount(b),
        r <= 8,
{
    let mut x: u8 = b;
    let mut c: u32 = 0;
    proof {
        lemma_popcount_at_most_8(b);
    }
    while x > 0
        invariant
            c + popcount(x) == popcount(b),
            popcount(b) <= 8,
        decreases x,
    {
        c = c + (x % 2) as u32;
        x = x / 2;
    }
    c
}

/// `a - b`, clamped to the `i64` range (`i64::saturating_sub`).
pub open spec fn sat_sub_i64_spec(a: i64, b: i64) -> i64 {
    if a - b > i64::MAX {
        i64::MAX
    } else if a - b < i64::MIN {
        i64::MIN
    } else {
        (a - b) as i64
    }
}

pub fn sat_sub_i64(a: i64, b: i64) -> (r: i64)
    ensures
        r == sat_sub_i64_spec(a, b),
{
    let d: i128 = a as i128 - b as i128;
    if d > i64::MAX as i128 {
        i64::MAX
    } else if d < i64::MIN as i128 {
        i64::MIN
    } else {
        d as i64
    }
}

/// `a + b` if it fits in an `i64` (`i64::checked_add`).
pub open spec fn checked_add_i64_spec(a: i64, b: i64) -> Option<i64> {
    if i64::MIN <= a + b <= i64::MAX {
        Some((a + b) as i64)
    } else {
        None
    }
}

/// `a + b` if it fits in a `u64` (`u64::checked_add`).
pub open spec fn checked_add_u64_spec(a: u64, b: u64) -> Option<u64> {
    if a + b <= u64::MAX {
        Some((a + b) as u64)
    } else {
        None
    }
}

} // verus!
