//! The crate's only source of randomness: a seedable generator from the
//! `rand` crate, and the glyph alphabet from the `ezemoji` crate. Every
//! operation that draws a value takes the generator explicitly, so a run
//! can be reproduced from its seed.

use vstd::prelude::*;

use rand::Rng;

verus! {

#[verifier::external_type_specification]
#[verifier::external_body]
pub struct ExStdRng(rand::rngs::StdRng);

/// Relies on rand's `Rng::gen_range`, which returns a value uniformly
/// distributed in the given range and panics only when the range is empty.
#[verifier::external_body]
pub(crate) fn sample_range_u16(rng: &mut rand::rngs::StdRng, lo: u16, hi: u16) -> (r: u16)
    requires
        lo < hi,
    ensures
        lo <= r < hi,
{
    rng.gen_range(lo..hi)
}

/// Relies on rand's `Rng::gen_range`, which returns a value uniformly
/// distributed in the given range and panics only when the range is empty.
#[verifier::external_body]
pub(crate) fn sample_range_u64(rng: &mut rand::rngs::StdRng, lo: u64, hi: u64) -> (r: u64)
    requires
        lo < hi,
    ensures
        lo <= r < hi,
{
    rng.gen_range(lo..hi)
}

/// Relies on rand's `Rng::gen_range`, which returns a value uniformly
/// distributed in the given range and panics only when the range is empty.
#[verifier::external_body]
pub(crate) fn sample_range_usize(rng: &mut rand::rngs::StdRng, lo: usize, hi: usize) -> (r: usize)
    requires
        lo < hi,
    ensures
        lo <= r < hi,
{
    rng.gen_range(lo..hi)
}

/// Relies on ezemoji's `CharGroup::JAP`, whose single code-point range
/// 65382..65437 makes its `len` exactly 55.
#[verifier::external_body]
pub(crate) fn glyph_alphabet_len() -> (r: usize)
    ensures
        r == 55,
{
    ezemoji::CharGroup::JAP.len()
}

/// Relies on ezemoji's `CharGroup::nth_char`: for `JAP` it returns exactly
/// the character at code point `65382 + index`, which exists (the range
/// holds no surrogates) whenever `index` is below the group's length of 55.
#[verifier::external_body]
pub(crate) fn glyph_alphabet_nth(index: usize) -> (r: Option<char>)
    ensures
        index < 55 ==> r is Some && r->Some_0 as int == 65382 + index,
{
    ezemoji::CharGroup::JAP.nth_char(index)
}

} // verus!
