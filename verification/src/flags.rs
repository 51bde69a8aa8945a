//! Administrative flag arithmetic for a virtual interface.
//!
//! Bringing an interface up or down is a read-modify-write of the kernel's
//! flag bitmask: exactly the "administratively up" bit is set or cleared,
//! every other bit is left as the kernel (or another tool) had it.

use vstd::prelude::*;

verus! {

/// The "administratively up" bit of the interface flag word.
pub const IFF_UP: u16 = 0x0001;

/// Interface-creation flag: a TUN-style device delivering raw IP packets.
pub const IFF_TUN: u16 = 0x0001;

/// Interface-creation flag: no extra per-packet information header.
pub const IFF_NO_PI: u16 = 0x1000;

/// The flag word with which a new tunnel interface is requested:
/// a TUN device with no extra per-packet header.
pub const TUN_CREATE_FLAGS: u16 = IFF_TUN | IFF_NO_PI;

/// The flag word after bringing the interface up.
pub open spec fn spec_up_flags(f: u16) -> u16 {
    f | IFF_UP
}

/// The flag word after bringing the interface down.
pub open spec fn spec_down_flags(f: u16) -> u16 {
    f & !IFF_UP
}

/// Set the "up" bit, leaving all other bits unchanged.
pub fn up_flags(f: u16) -> (r: u16)
    ensures
        r == spec_up_flags(f),
{
    f | IFF_UP
}

/// Clear the "up" bit, leaving all other bits unchanged.
pub fn down_flags(f: u16) -> (r: u16)
    ensures
        r == spec_down_flags(f),
{
    f & !IFF_UP
}

/// Law: bringing an interface up and down touches only the "up" bit.
///
/// For any mask of bits disjoint from `IFF_UP`, those bits read the same
/// before and after `spec_up_flags`, after `spec_down_flags`, and after the
/// two composed; the "up" bit itself ends set after up and clear after down.
pub proof fn lemma_flag_preservation(f: u16, unrelated: u16)
    requires
        unrelated & IFF_UP == 0,
    ensures
        spec_up_flags(f) & unrelated == f & unrelated,
        spec_down_flags(f) & unrelated == f & unrelated,
        spec_down_flags(spec_up_flags(f)) & unrelated == f & unrelated,
        spec_up_flags(f) & IFF_UP == IFF_UP,
        spec_down_flags(f) & IFF_UP == 0,
{
    assert((f | 0x0001u16) & unrelated == f & unrelated) by (bit_vector)
        requires
            unrelated & 0x0001u16 == 0,
    ;
    assert((f & !0x0001u16) & unrelated == f & unrelated) by (bit_vector)
        requires
            unrelated & 0x0001u16 == 0,
    ;
    assert(((f | 0x0001u16) & !0x0001u16) & unrelated == f & unrelated) by (bit_vector)
        requires
            unrelated & 0x0001u16 == 0,
    ;
    assert((f | 0x0001u16) & 0x0001u16 == 0x0001u16) by (bit_vector);
    assert((f & !0x0001u16) & 0x0001u16 == 0) by (bit_vector);
}

} // verus!
