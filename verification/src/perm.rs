//! Unix permission bits.

use vstd::prelude::*;

verus! {

/// The three permission bits of the owning user.
pub open spec fn user_bits(perms: u32) -> u32 {
    (perms >> 6) & 0o7
}

/// The three permission bits of the owning group.
pub open spec fn group_bits(perms: u32) -> u32 {
    (perms >> 3) & 0o7
}

/// The three permission bits of everyone else.
pub open spec fn other_bits(perms: u32) -> u32 {
    perms & 0o7
}

/// Everything above the nine permission bits: file type, setuid, setgid, sticky.
pub open spec fn upper_bits(perms: u32) -> u32 {
    perms >> 9
}

/// Sets the group permission bits equal to the user bits and keeps every
/// other bit, as `chmod g=u` does.
pub fn g_equals_u(perms: u32) -> (r: u32)
    ensures
        user_bits(r) == user_bits(perms),
        group_bits(r) == user_bits(perms),
        other_bits(r) == other_bits(perms),
        upper_bits(r) == upper_bits(perms),
{
    let other: u32 = perms & 0o7;
    let user: u32 = (perms >> 6) & 0o7;
    let cleared: u32 = (perms >> 9) << 9;
    let new_perms: u32 = (((user << 3) | user) << 3) | other;
    let r: u32 = cleared | new_perms;
    assert((r >> 6) & 0o7 == (perms >> 6) & 0o7 && (r >> 3) & 0o7 == (perms >> 6) & 0o7 && r & 0o7
        == perms & 0o7 && r >> 9 == perms >> 9) by (bit_vector)
        requires
            r == ((perms >> 9) << 9) | ((((((perms >> 6) & 0o7) << 3) | ((perms >> 6) & 0o7)) << 3)
                | (perms & 0o7)),
    ;
    r
}

/// Two permission words with the same four parts are the same word: what
/// is said of the four parts of a result says which word it is.
pub proof fn law_parts_make_the_word(a: u32, b: u32)
    requires
        user_bits(a) == user_bits(b),
        group_bits(a) == group_bits(b),
        other_bits(a) == other_bits(b),
        upper_bits(a) == upper_bits(b),
    ensures
        a == b,
{
    assert(a == b) by (bit_vector)
        requires
            (a >> 6) & 0o7 == (b >> 6) & 0o7,
            (a >> 3) & 0o7 == (b >> 3) & 0o7,
            a & 0o7 == b & 0o7,
            a >> 9 == b >> 9,
    ;
}

} // verus!
