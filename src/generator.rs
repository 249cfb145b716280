//! Validation of the requested length and the drawing of a random string.
use rand::Rng;
use rand_chacha::rand_core::SeedableRng;
use rand_chacha::ChaCha20Rng;
use vstd::prelude::*;

use crate::alphabet::{alphabet, build_alphabet, MAX_ALLOWED_LENGTH, MIN_REQUIRED_LENGTH};

verus! {

/// Why a string could not be generated: the requested length and the bound
/// that it broke.
#[derive(Debug, PartialEq, Eq, Structural)]
pub enum RandError {
    /// The requested length is above the maximum.
    LengthExceeded(usize, usize),
    /// The requested length is below the minimum.
    LengthTooShort(usize, usize),
}

#[verifier::external_type_specification]
#[verifier::external_body]
pub struct ExChaCha20Rng(ChaCha20Rng);

/// Relies on rand_core's `SeedableRng::from_os_rng` for `ChaCha20Rng`: a fresh
/// generator seeded from the operating system's entropy source. It panics
/// when no entropy can be had, which ends the call as a fatal fault.
#[verifier::external_body]
fn os_seeded_rng() -> ChaCha20Rng {
    ChaCha20Rng::from_os_rng()
}

/// Relies on rand's `Rng::random_range` over `0..bound`: a value drawn
/// uniformly from that range, which it panics on only when it is empty.
#[verifier::external_body]
fn draw_index(rng: &mut ChaCha20Rng, bound: usize) -> (r: usize)
    requires
        0 < bound,
    ensures
        r < bound,
{
    rng.random_range(0..bound)
}

/// Relies on std's `String::push`: appends one character.
#[verifier::external_body]
fn push_char(s: &mut String, c: char)
    ensures
        final(s)@ == old(s)@.push(c),
{
    s.push(c);
}

/// The string whose i-th character is the character of `alpha` at the i-th
/// index.
pub open spec fn secret_of(alpha: Seq<char>, indices: Seq<usize>) -> Seq<char> {
    indices.map_values(|k: usize| alpha[k as int])
}

/// Every index lies inside an alphabet of `n` characters.
pub open spec fn indices_below(indices: Seq<usize>, n: nat) -> bool {
    forall|j: int| 0 <= j < indices.len() ==> indices[j] < n
}

/// Turns drawn indices into the characters of `alpha` that they select.
pub fn compose_secret(alpha: &Vec<char>, indices: &Vec<usize>) -> (r: String)
    requires
        indices_below(indices@, alpha@.len()),
    ensures
        r@ == secret_of(alpha@, indices@),
{
    let mut r = String::new();
    let mut i: usize = 0;
    while i < indices.len()
        invariant
            i <= indices.len(),
            indices_below(indices@, alpha@.len()),
            r@ == secret_of(alpha@, indices@.subrange(0, i as int)),
        decreases indices.len() - i,
    {
        let c = alpha[indices[i]];
        push_char(&mut r, c);
        assert(indices@.subrange(0, i + 1) =~= indices@.subrange(0, i as int).push(indices@[i as int]));
        assert(secret_of(alpha@, indices@.subrange(0, i + 1)) =~= secret_of(
            alpha@,
            indices@.subrange(0, i as int),
        ).push(c));
        i = i + 1;
    }
    assert(indices@.subrange(0, i as int) =~= indices@);
    r
}

/// Generates a random string of `length` characters, each drawn uniformly
/// from the letters, plus the digits if `numbers` and the special characters
/// if `special_chars`, with a ChaCha20 generator freshly seeded from the
/// operating system. The length is checked before any randomness is used.
pub fn generate_secure_string(numbers: bool, special_chars: bool, length: usize) -> (r: Result<
    String,
    RandError,
>)
    ensures
        length < MIN_REQUIRED_LENGTH <==> r == Err::<String, RandError>(
            RandError::LengthTooShort(length, MIN_REQUIRED_LENGTH),
        ),
        length > MAX_ALLOWED_LENGTH <==> r == Err::<String, RandError>(
            RandError::LengthExceeded(length, MAX_ALLOWED_LENGTH),
        ),
        MIN_REQUIRED_LENGTH <= length <= MAX_ALLOWED_LENGTH <==> r is Ok,
        r matches Ok(s) ==> s@.len() == length && forall|i: int|
            0 <= i < s@.len() ==> alphabet(numbers, special_chars).contains(#[trigger] s@[i]),
{
    if length < MIN_REQUIRED_LENGTH {
        return Err(RandError::LengthTooShort(length, MIN_REQUIRED_LENGTH));
    }
    if length > MAX_ALLOWED_LENGTH {
        return Err(RandError::LengthExceeded(length, MAX_ALLOWED_LENGTH));
    }
    let alpha = build_alphabet(numbers, special_chars);
    let mut rng = os_seeded_rng();
    let mut indices: Vec<usize> = Vec::new();
    let mut i: usize = 0;
    while i < length
        invariant
            i <= length,
            indices@.len() == i,
            alpha@ == alphabet(numbers, special_chars),
            indices_below(indices@, alpha@.len()),
        decreases length - i,
    {
        let k = draw_index(&mut rng, alpha.len());
        indices.push(k);
        i = i + 1;
    }
    let s = compose_secret(&alpha, &indices);
    assert forall|j: int| 0 <= j < s@.len() implies alpha@.contains(#[trigger] s@[j]) by {
        assert(alpha@[indices@[j] as int] == s@[j]);
    }
    Ok(s)
}

} // verus!
