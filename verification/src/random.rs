//! The random source. Nothing in this file is proved: each item states what
//! the `rand` crate documents, and the rest of the library builds on that.

use rand::Rng;
use vstd::prelude::*;

verus! {

/// `rand::rngs::ThreadRng`, carried through verified code as an opaque value.
#[verifier::external_type_specification]
#[verifier::external_body]
pub struct ExThreadRng(rand::rngs::ThreadRng);

/// `rand::thread_rng`: a handle to the calling thread's generator. Nothing
/// is claimed about the handle.
pub assume_specification[ rand::thread_rng ]() -> (rng: rand::rngs::ThreadRng);

/// `Rng::gen_range` on the half-open range `low..high`. The crate rejects an
/// empty range by panicking, hence the precondition; the value it returns
/// lies in the range. Which value is not determined.
#[verifier::external_body]
pub(crate) fn draw_below(rng: &mut rand::rngs::ThreadRng, low: i32, high: i32) -> (drawn: i32)
    requires
        low < high,
    ensures
        low <= drawn < high,
{
    rng.gen_range(low..high)
}

/// `Rng::gen_range` on the closed range `low..=high`. The crate rejects an
/// empty range by panicking, hence the precondition; the value it returns
/// lies in the range. Which value is not determined.
#[verifier::external_body]
pub(crate) fn draw_through(rng: &mut rand::rngs::ThreadRng, low: i32, high: i32) -> (drawn: i32)
    requires
        low <= high,
    ensures
        low <= drawn <= high,
{
    rng.gen_range(low..=high)
}

} // verus!
