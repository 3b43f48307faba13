//! Unguessable text for session identifiers, login state values and API keys.
use vstd::prelude::*;
use rand::rngs::StdRng;

verus! {

#[verifier::external_type_specification]
#[verifier::external_body]
pub struct ExStdRng(StdRng);

/// Length of every generated session identifier, state value and API key.
pub const SECRET_LEN: usize = 32;

/// `c` is an ASCII letter or digit.
pub open spec fn is_alphanumeric_char(c: char) -> bool {
    ('A' <= c && c <= 'Z') || ('a' <= c && c <= 'z') || ('0' <= c && c <= '9')
}

/// `s` is made of ASCII letters and digits only.
pub open spec fn is_alphanumeric_text(s: Seq<char>) -> bool {
    forall|i: int| 0 <= i < s.len() ==> is_alphanumeric_char(#[trigger] s[i])
}

/// A text that `rand_alphanumeric_string` can hand out for length `len`.
pub open spec fn is_secret_text(s: Seq<char>, len: nat) -> bool {
    s.len() == len && is_alphanumeric_text(s)
}

/// Relies on rand's `Rng::sample_iter` with the `Alphanumeric` distribution:
/// each item is one byte of A-Z, a-z or 0-9, and `take` keeps `amt` of them.
#[verifier::external_body]
pub(crate) fn rand_alphanumeric_string(rng: &mut StdRng, amt: usize) -> (r: String)
    ensures
        is_secret_text(r@, amt as nat),
{
    rand::Rng::sample_iter(rng, &rand::distributions::Alphanumeric).take(amt).map(char::from).collect()
}

/// A fresh unguessable text of `SECRET_LEN` letters and digits.
pub fn new_secret(rng: &mut StdRng) -> (r: String)
    ensures
        is_secret_text(r@, SECRET_LEN as nat),
{
    rand_alphanumeric_string(rng, SECRET_LEN)
}

} // verus!
