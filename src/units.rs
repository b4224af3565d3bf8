use vstd::prelude::*;

verus! {

/// Index of the empty prefix among the engineering prefixes.
pub const UNIT_VALUE_OFFSET: i32 = 4;

/// Index of the last engineering prefix (`G`).
pub const UNIT_VALUE_LAST: i32 = 7;

/// The prefix index for a value whose decimal exponent, rounded down, is
/// `exponent` (`floor(log10 v)`): `4 + floor(exponent / 3)`, clamped to
/// `0..=7`. Within that range the value divided by `10^(3 (index - 4))`
/// lies in `[1, 1000)`.
pub open spec fn suffix_index_of(exponent: int) -> int {
    let raw = UNIT_VALUE_OFFSET + exponent / 3;
    if raw < 0 {
        0
    } else if raw > UNIT_VALUE_LAST {
        UNIT_VALUE_LAST as int
    } else {
        raw
    }
}

/// The engineering prefix at index `i`: `p n u m` (none) `k M G`.
pub open spec fn suffix_of(i: int) -> Seq<char> {
    if i == 0 {
        "p"@
    } else if i == 1 {
        "n"@
    } else if i == 2 {
        "u"@
    } else if i == 3 {
        "m"@
    } else if i == 4 {
        ""@
    } else if i == 5 {
        "k"@
    } else if i == 6 {
        "M"@
    } else {
        "G"@
    }
}

/// Chooses the engineering prefix for a value, given its decimal exponent
/// `log10(v)` rounded down.
pub fn unit_suffix_index(exponent: i32) -> (r: usize)
    ensures
        r as int == suffix_index_of(exponent as int),
        r <= 7,
{
    let e = exponent as i64;
    let third: i64 = if e >= 0 { e / 3 } else { -((-e + 2) / 3) };
    proof {
        if e < 0 {
            assert(third == (e as int) / 3) by (nonlinear_arith)
                requires
                    e < 0,
                    third == -((-e + 2) / 3),
            ;
        }
    }
    let mut suff: i64 = 4 + third;
    if suff < 0 {
        suff = 0;
    }
    if suff > 7 {
        suff = 7;
    }
    suff as usize
}

/// The prefix text at index `i`.
pub fn unit_suffix(i: usize) -> (r: &'static str)
    requires
        i <= 7,
    ensures
        r@ == suffix_of(i as int),
{
    if i == 0 {
        "p"
    } else if i == 1 {
        "n"
    } else if i == 2 {
        "u"
    } else if i == 3 {
        "m"
    } else if i == 4 {
        ""
    } else if i == 5 {
        "k"
    } else if i == 6 {
        "M"
    } else {
        "G"
    }
}

/// The power of ten by which a value is divided before it is written with
/// the prefix at index `i`: `3 (i - 4)`.
pub fn unit_scale_exponent(i: usize) -> (r: i32)
    requires
        i <= 7,
    ensures
        r == 3 * (i as int - UNIT_VALUE_OFFSET),
{
    3 * (i as i32 - 4)
}

} // verus!
