use vstd::prelude::*;

verus! {

/// The random source that every draw of the library reads from: rand_chacha's
/// ChaCha generator with eight rounds, seeded by the caller.
#[verifier::external_type_specification]
#[verifier::external_body]
pub struct ExChaCha8Rng(rand_chacha::ChaCha8Rng);

} // verus!
