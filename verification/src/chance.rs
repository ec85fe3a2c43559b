//! The two sources of chance that the game draws on: the dice of
//! `bracket_lib` for the position of a gap, and the thread-local generator of
//! `rand` for the choice of a message.
//!
//! Nothing in this file is proved. Each item states what the named function
//! of the outside crate is taken to do.

use vstd::prelude::*;
use bracket_lib::prelude::RandomNumberGenerator;
use rand::rngs::ThreadRng;
use rand::seq::SliceRandom;

verus! {

#[verifier::external_type_specification]
#[verifier::external_body]
pub struct ExRandomNumberGenerator(bracket_lib::prelude::RandomNumberGenerator);

#[verifier::external_type_specification]
#[verifier::external_body]
pub struct ExThreadRng(rand::rngs::ThreadRng);

/// `RandomNumberGenerator::new` of `bracket_lib` seeds a fresh generator from
/// the system. Nothing is claimed about the generator it returns.
pub assume_specification[ RandomNumberGenerator::new ]() -> (rng: RandomNumberGenerator);

/// `rand::thread_rng` hands out the generator of the current thread. Nothing
/// is claimed about it.
pub assume_specification[ rand::thread_rng ]() -> (rng: ThreadRng);

/// `RandomNumberGenerator::range` of `bracket_lib`: a number that is at least
/// `min` and less than `max`. The outside function panics on an empty range,
/// which the precondition rules out.
#[verifier::external_body]
pub(crate) fn roll_range(rng: &mut RandomNumberGenerator, min: i32, max: i32) -> (n: i32)
    requires
        min < max,
    ensures
        min <= n < max,
{
    rng.range(min, max)
}

/// `SliceRandom::choose` of `rand` on a slice: `None` exactly when the slice
/// is empty, and otherwise a reference to one of its elements.
#[verifier::external_body]
pub(crate) fn choose_one<'a>(pool: &'a [&'static str], rng: &mut ThreadRng) -> (pick: Option<&'a &'static str>)
    ensures
        pick is None <==> pool@.len() == 0,
        pick matches Some(s) ==> pool@.contains(*s),
{
    pool.choose(rng)
}

} // verus!
