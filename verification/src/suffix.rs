//! The random suffix that makes identifiers of one file name differ.

use rand::Rng;
use vstd::prelude::*;
use vstd::string::StringExecFns;

use crate::charset::{all_alphanumeric, base62_symbol};

verus! {

/// The length of the random suffix of every identifier that the service
/// hands out. The original name of a stored file is found by cutting exactly
/// this many characters off the end of its identifier.
pub const ID_LENGTH: usize = 32;

/// `rand::rngs::ThreadRng`, the handle of the thread-local generator. Nothing
/// of its state is read here.
#[verifier::external_type_specification]
#[verifier::external_body]
pub struct ExThreadRng(rand::rngs::ThreadRng);

/// `rand::thread_rng`. Nothing is claimed of the handle it returns. It
/// panics where the system gives the generator no seed.
pub assume_specification[ rand::thread_rng ]() -> (rng: rand::rngs::ThreadRng)
;

/// `rand::Rng::gen::<usize>` on the thread-local generator.
///
/// Nothing is claimed of the number drawn: it depends on chance.
#[verifier::external_body]
pub(crate) fn draw(rng: &mut rand::rngs::ThreadRng) -> (drawn: usize) {
    rng.gen::<usize>()
}

/// A text of `size` symbols of the 62-symbol alphabet, each selected by a
/// fresh draw from the thread-local generator.
pub fn random_suffix(size: usize) -> (suffix: String)
    ensures
        suffix@.len() == size,
        all_alphanumeric(suffix@),
{
    let mut rng = rand::thread_rng();
    let mut suffix = String::new();
    let mut i: usize = 0;
    while i < size
        invariant
            i <= size,
            suffix@.len() == i,
            all_alphanumeric(suffix@),
        decreases size - i,
    {
        let drawn: usize = draw(&mut rng);
        suffix.append(base62_symbol(drawn));
        i = i + 1;
    }
    suffix
}

} // verus!
