//! The 32-byte seed from which the setup is generated, and the generator it
//! seeds.
use vstd::prelude::*;
use vstd::string::{is_ascii, is_ascii_spec_bytes, StringSliceAdditionalSpecFns};
use rand::SeedableRng;
use rand_chacha::ChaCha20Rng;

verus! {

/// Number of bytes in a seed.
pub const SEED_LEN: usize = 32;

/// The identifier from which every run derives its seed.
pub const SEED_IDENTIFIER: &'static str = "SpaceAndTime";

/// The seed of an identifier: its bytes, cut or padded with zero bytes to 32.
pub open spec fn seed_of(id: Seq<u8>) -> Seq<u8> {
    Seq::new(32, |i: int| if i < id.len() { id[i] } else { 0u8 })
}

/// The seed of the identifier `id`.
pub fn derive_seed(id: &[u8]) -> (r: [u8; 32])
    ensures
        r@ == seed_of(id@),
{
    let mut seed: [u8; 32] = [0u8; 32];
    let mut i: usize = 0;
    while i < SEED_LEN
        invariant
            i <= SEED_LEN,
            seed@.len() == 32,
            forall|j: int| 0 <= j < i ==> #[trigger] seed@[j] == seed_of(id@)[j],
            forall|j: int| i <= j < 32 ==> #[trigger] seed@[j] == 0u8,
        decreases SEED_LEN - i,
    {
        if i < id.len() {
            seed[i] = id[i];
        }
        i = i + 1;
    }
    assert(seed@ =~= seed_of(id@));
    seed
}

/// The seed of every run.
pub fn setup_seed() -> (r: [u8; 32])
    ensures
        r@ == seed_of(SEED_IDENTIFIER.spec_bytes()),
{
    derive_seed(SEED_IDENTIFIER.as_bytes())
}

/// The bytes of the seed of every run: the ASCII of the identifier, then
/// zero bytes.
pub open spec fn setup_seed_bytes() -> Seq<u8> {
    seq![83u8, 112u8, 97u8, 99u8, 101u8, 65u8, 110u8, 100u8, 84u8, 105u8, 109u8, 101u8]
        + Seq::new(20, |_i: int| 0u8)
}

/// Every run, on any machine, derives the same seed: the one fixed sequence
/// of 32 bytes.
pub proof fn lemma_setup_seed_is_fixed()
    ensures
        seed_of(SEED_IDENTIFIER.spec_bytes()) == setup_seed_bytes(),
{
    reveal_strlit("SpaceAndTime");
    let s: &str = SEED_IDENTIFIER;
    assert(is_ascii(s));
    is_ascii_spec_bytes(s);
    assert(seed_of(s.spec_bytes()) =~= setup_seed_bytes());
}

#[verifier::external_type_specification]
#[verifier::external_body]
pub struct ExChaCha20Rng(ChaCha20Rng);

/// The seed that a ChaCha20 generator was made with.
pub uninterp spec fn rng_seed(r: ChaCha20Rng) -> Seq<u8>;

/// Relies on rand_chacha's `SeedableRng::from_seed` for `ChaCha20Rng`: a
/// generator that keeps the seed it was made with (its `get_seed` returns it),
/// and whose stream that seed fixes.
#[verifier::external_body]
fn rng_from_seed(seed: [u8; 32]) -> (r: ChaCha20Rng)
    ensures
        rng_seed(r) == seed@,
{
    ChaCha20Rng::from_seed(seed)
}

/// The generator that the public parameters are drawn from: ChaCha20 seeded
/// with the seed of every run.
pub fn setup_rng() -> (r: ChaCha20Rng)
    ensures
        rng_seed(r) == setup_seed_bytes(),
{
    proof {
        lemma_setup_seed_is_fixed();
    }
    rng_from_seed(setup_seed())
}

} // verus!
