//! A deterministic mapping from an identifying name to a native integer tag.
//!
//! Both widgets mark a view with the tag of its name so the view can later be
//! located among its siblings without keeping a reference to it. The mapping
//! is a pure function of the name: the same name always yields the same tag,
//! in every call and in every process. Collisions between distinct names are
//! the caller's responsibility.

use vstd::prelude::*;

verus! {

/// Offset basis of the 64-bit FNV-1a hash.
pub const TAG_SEED: u64 = 0xcbf2_9ce4_8422_2325;

/// Multiplier of the 64-bit FNV-1a hash.
pub const TAG_PRIME: u64 = 0x0000_0100_0000_01b3;

/// One FNV-1a round: fold one character into the running hash.
pub open spec fn tag_round(h: u64, c: char) -> u64 {
    vstd::wrapping::u64_specs::wrapping_mul(h ^ (c as u64), TAG_PRIME)
}

/// The hash of the first `n` characters of `s`, starting from the seed.
pub open spec fn tag_fold(s: Seq<char>, n: int) -> u64
    decreases n,
{
    if n <= 0 {
        TAG_SEED
    } else {
        tag_round(tag_fold(s, n - 1), s[n - 1])
    }
}

/// The tag of a name: its 64-bit FNV-1a hash, reinterpreted as the native
/// signed tag type.
pub open spec fn spec_tag_for(s: Seq<char>) -> i64 {
    tag_fold(s, s.len() as int) as i64
}

/// Maps a name to its integer tag. Deterministic: the result depends on the
/// characters of `name` alone.
pub fn tag_for(name: &str) -> (t: i64)
    ensures
        t == spec_tag_for(name@),
{
    let len: usize = name.unicode_len();
    let mut h: u64 = TAG_SEED;
    let mut i: usize = 0;
    while i < len
        invariant
            len == name@.len(),
            0 <= i <= len,
            h == tag_fold(name@, i as int),
        decreases len - i,
    {
        let c: char = name.get_char(i);
        h = (h ^ (c as u64)).wrapping_mul(TAG_PRIME);
        i = i + 1;
    }
    h as i64
}

} // verus!
