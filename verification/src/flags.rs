//! Sets of bit flags, as the portals pass them: a `u32` whose set bits name
//! the members.

use vstd::prelude::*;

verus! {

/// The flags of `bits` that no member of a set with the members `all`
/// stands for.
pub open spec fn unknown_bits(bits: u32, all: u32) -> u32 {
    bits & !all
}

/// The set of flags that `bits` stands for, where `all` holds every member
/// that the set can have; `None` where `bits` holds another.
pub fn checked_bits(bits: u32, all: u32) -> (r: Option<u32>)
    ensures
        r == (if unknown_bits(bits, all) == 0u32 {
            Some(bits)
        } else {
            None
        }),
{
    if bits & !all == 0u32 {
        Some(bits)
    } else {
        None
    }
}

/// The set of flags that `bits` stands for, without the bits that stand for
/// no member.
pub fn truncated_bits(bits: u32, all: u32) -> (r: u32)
    ensures
        r == bits & all,
{
    bits & all
}

/// Whether the set `bits` holds the flag `flag`.
pub fn has_flag(bits: u32, flag: u32) -> (b: bool)
    ensures
        b == (bits & flag == flag),
{
    bits & flag == flag
}

} // verus!
