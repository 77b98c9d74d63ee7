//! Single-bit manipulation on register bytes, with the lemmas that connect
//! setting a flag to observing it.

use vstd::prelude::*;

verus! {

/// The flag selected by `mask` is set in `b`.
pub open spec fn bit_set(b: u8, mask: u8) -> bool {
    b & mask != 0
}

/// `b` with the flag selected by `mask` forced to `on`.
pub open spec fn with_flag(b: u8, mask: u8, on: bool) -> u8 {
    if on {
        b | mask
    } else {
        b & !mask
    }
}

/// Executable twin of `with_flag`.
pub fn set_flag(b: u8, mask: u8, on: bool) -> (r: u8)
    ensures
        r == with_flag(b, mask, on),
{
    if on {
        b | mask
    } else {
        b & !mask
    }
}

/// Forcing a one-bit flag decides exactly that flag: afterwards it reads
/// back as `on`.
pub broadcast proof fn lemma_with_flag_reads(b: u8, mask: u8, on: bool)
    by (bit_vector)
    requires
        mask != 0,
        mask & ((mask - 1) as u8) == 0,
    ensures
        #[trigger] bit_set(with_flag(b, mask, on), mask) == on,
{
}

/// Forcing one flag leaves every disjoint flag alone.
pub broadcast proof fn lemma_with_flag_other(b: u8, mask: u8, other: u8, on: bool)
    by (bit_vector)
    requires
        mask & other == 0,
    ensures
        #[trigger] bit_set(with_flag(b, mask, on), other) == bit_set(b, other),
{
}

/// Forcing the same flag twice keeps only the second setting.
pub broadcast proof fn lemma_with_flag_overwrite(b: u8, mask: u8, x: bool, y: bool)
    by (bit_vector)
    ensures
        #[trigger] with_flag(with_flag(b, mask, x), mask, y) == with_flag(b, mask, y),
{
}

/// Forcing two disjoint flags commutes.
pub broadcast proof fn lemma_with_flag_commute(b: u8, m1: u8, m2: u8, x: bool, y: bool)
    by (bit_vector)
    requires
        m1 & m2 == 0,
    ensures
        #[trigger] with_flag(with_flag(b, m1, x), m2, y) == with_flag(with_flag(b, m2, y), m1, x),
{
}

/// Forcing a flag to the value it already has changes nothing.
pub broadcast proof fn lemma_with_flag_id(b: u8, mask: u8)
    by (bit_vector)
    requires
        mask & ((mask - 1) as u8) == 0,
    ensures
        #[trigger] with_flag(b, mask, bit_set(b, mask)) == b,
{
}

} // verus!
