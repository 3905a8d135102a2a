//! Session tokens: random strings of ASCII letters and digits.
use vstd::prelude::*;
use rand::Rng;
use crate::text::push_char;

verus! {

/// The number of characters of a session token.
pub const TOKEN_LENGTH: usize = 32;

/// Whether `c` is an ASCII letter or digit.
pub open spec fn is_ascii_alphanumeric(c: char) -> bool {
    ||| ('0' <= c && c <= '9')
    ||| ('A' <= c && c <= 'Z')
    ||| ('a' <= c && c <= 'z')
}

/// Whether `t` has the shape of a session token.
pub open spec fn is_session_token(t: Seq<char>) -> bool {
    &&& t.len() == TOKEN_LENGTH
    &&& forall|i: int| 0 <= i < t.len() ==> is_ascii_alphanumeric(#[trigger] t[i])
}

/// One character drawn by `rand`'s `Alphanumeric` distribution from the
/// thread-local generator: `rand` picks it from `A-Z`, `a-z` and `0-9`.
/// Which character comes out is left open.
#[verifier::external_body]
fn random_alphanumeric() -> (c: char)
    ensures
        is_ascii_alphanumeric(c),
{
    rand::thread_rng().sample(rand::distributions::Alphanumeric)
}

/// Draws a fresh session token: `TOKEN_LENGTH` random ASCII letters and
/// digits.
pub fn new_session_token() -> (t: String)
    ensures
        is_session_token(t@),
{
    let mut t = String::new();
    let mut i: usize = 0;
    while i < TOKEN_LENGTH
        invariant
            i <= TOKEN_LENGTH,
            t@.len() == i,
            forall|j: int| 0 <= j < t@.len() ==> is_ascii_alphanumeric(#[trigger] t@[j]),
        decreases TOKEN_LENGTH - i,
    {
        let c = random_alphanumeric();
        push_char(&mut t, c);
        i = i + 1;
    }
    t
}

} // verus!
