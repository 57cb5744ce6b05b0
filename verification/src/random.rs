//! The random source that fills a grid. The generator itself is the `rand`
//! crate's; this module holds the few calls into it, and states what the rest
//! of the library may rely on.

use vstd::prelude::*;
use rand::rngs::{OsRng, StdRng};
use rand::{Rng, SeedableRng};

verus! {

/// `rand::rngs::StdRng`, the generator that a grid is filled from. Its state is
/// opaque here: a value of it is handed on, never looked into.
#[verifier::external_type_specification]
#[verifier::external_body]
pub struct ExStdRng(StdRng);

/// Calls `rand::Rng::gen_range` on the half-open range from zero to `bound`.
///
/// Not proved: that the number drawn lies in that range, as `gen_range`
/// documents. `gen_range` panics on an empty range, which `bound > 0` rules
/// out. Nothing is claimed of which number comes.
#[verifier::external_body]
pub(crate) fn draw_below(source: &mut StdRng, bound: usize) -> (id: usize)
    requires
        bound > 0,
    ensures
        id < bound,
{
    source.gen_range(0..bound)
}

/// Calls `rand::SeedableRng::from_rng` on `rand::rngs::OsRng` for a generator
/// seeded by the operating system, and hands back `None` where the operating
/// system reports that it has no entropy to give.
///
/// Nothing is claimed of the generator that comes back, nor of when one
/// comes back.
#[verifier::external_body]
pub(crate) fn entropy_source() -> (source: Option<StdRng>) {
    StdRng::from_rng(OsRng).ok()
}

} // verus!
