//! The one-time code that is sent by SMS, and its verification.
use vstd::prelude::*;
use rand::Rng;
use crate::decimal::{decimal, decimal_string, digits_value, is_digit, lemma_decimal_len, lemma_decimal_round_trip, pow10};
use crate::error::Refusal;
use crate::token::{is_session_token, new_session_token};

verus! {

/// The smallest one-time code.
pub const SECRET_CODE_MIN: u32 = 100000;

/// One-time codes lie below this bound.
pub const SECRET_CODE_BOUND: u32 = 999999;

/// A number drawn from `low` up to below `high` by `rand`'s `gen_range` on
/// the thread-local generator. `rand` panics unless `low < high`. Which
/// number comes out is left open.
#[verifier::external_body]
fn random_in_range(low: u32, high: u32) -> (r: u32)
    requires
        low < high,
    ensures
        low <= r < high,
{
    rand::thread_rng().gen_range(low, high)
}

/// Draws a fresh one-time code.
pub fn new_secret_code() -> (code: u32)
    ensures
        SECRET_CODE_MIN <= code < SECRET_CODE_BOUND,
{
    random_in_range(SECRET_CODE_MIN, SECRET_CODE_BOUND)
}

/// The text of a one-time code is six decimal digits that denote the code.
pub proof fn lemma_secret_code_text(code: u32)
    requires
        SECRET_CODE_MIN <= code < SECRET_CODE_BOUND,
    ensures
        decimal(code as nat).len() == 6,
        forall|i: int| 0 <= i < 6 ==> is_digit(#[trigger] decimal(code as nat)[i]),
        digits_value(decimal(code as nat)) == code,
{
    reveal_with_fuel(pow10, 7);
    assert(pow10(5) == 100000);
    assert(pow10(6) == 1000000);
    lemma_decimal_len(code as nat, 5);
    lemma_decimal_round_trip(code as nat);
}

/// What a login by SMS starts with: the session token of the new user, the
/// one-time code, and the text of the code that is sent to the phone.
pub struct LoginTicket {
    pub token: String,
    pub secret: u32,
    pub secret_text: String,
}

/// Draws the token and the one-time code of a new login.
pub fn new_login_ticket() -> (t: LoginTicket)
    ensures
        is_session_token(t.token@),
        SECRET_CODE_MIN <= t.secret < SECRET_CODE_BOUND,
        t.secret_text@ == decimal(t.secret as nat),
        t.secret_text@.len() == 6,
{
    let token = new_session_token();
    let secret = new_secret_code();
    let secret_text = decimal_string(secret);
    proof {
        lemma_secret_code_text(secret);
    }
    LoginTicket { token, secret, secret_text }
}

/// Compares the code that the user submitted with the one that was sent.
pub fn check_code(submitted: u32, correct: u32) -> (r: Result<(), Refusal>)
    ensures
        submitted == correct ==> r == Ok::<(), Refusal>(()),
        submitted != correct ==> r == Err::<(), Refusal>(Refusal::InvalidCode),
{
    if submitted != correct {
        Err(Refusal::InvalidCode)
    } else {
        Ok(())
    }
}

/// What `String::from_utf8_lossy` makes of `bytes`.
pub uninterp spec fn lossy_utf8(bytes: Seq<u8>) -> Seq<char>;

/// Whether `c` is JSON whitespace: space, tab, line feed or carriage return.
pub open spec fn is_json_whitespace(c: char) -> bool {
    c == ' ' || c == '\t' || c == '\n' || c == '\r'
}

/// Whether `text` is the JSON number `n` alone: the plain decimal text of
/// `n` (no sign, no leading zero, no fraction, no exponent) with nothing
/// but JSON whitespace before and after it.
pub open spec fn is_json_u32_text(text: Seq<char>, n: u32) -> bool {
    exists|before: Seq<char>, after: Seq<char>|
        {
            &&& forall|i: int| 0 <= i < before.len() ==> is_json_whitespace(#[trigger] before[i])
            &&& forall|i: int| 0 <= i < after.len() ==> is_json_whitespace(#[trigger] after[i])
            &&& text == before + decimal(n as nat) + after
        }
}

/// A text is the JSON number of at most one `u32`: the digits stand between
/// the whitespace runs, so the text fixes them.
pub proof fn lemma_json_u32_text_unique(text: Seq<char>, n: u32, m: u32)
    requires
        is_json_u32_text(text, n),
        is_json_u32_text(text, m),
    ensures
        n == m,
{
    let (a, b) = choose|before: Seq<char>, after: Seq<char>|
        {
            &&& forall|i: int| 0 <= i < before.len() ==> is_json_whitespace(#[trigger] before[i])
            &&& forall|i: int| 0 <= i < after.len() ==> is_json_whitespace(#[trigger] after[i])
            &&& text == before + decimal(n as nat) + after
        };
    let (c, d) = choose|before: Seq<char>, after: Seq<char>|
        {
            &&& forall|i: int| 0 <= i < before.len() ==> is_json_whitespace(#[trigger] before[i])
            &&& forall|i: int| 0 <= i < after.len() ==> is_json_whitespace(#[trigger] after[i])
            &&& text == before + decimal(m as nat) + after
        };
    let dn = decimal(n as nat);
    let dm = decimal(m as nat);
    lemma_decimal_round_trip(n as nat);
    lemma_decimal_round_trip(m as nat);
    lemma_decimal_nonempty(n as nat);
    lemma_decimal_nonempty(m as nat);
    if a.len() < c.len() {
        assert(text[a.len() as int] == dn[0]);
        assert(text[a.len() as int] == c[a.len() as int]);
        assert(is_digit(dn[0]));
        assert(false);
    }
    if c.len() < a.len() {
        assert(text[c.len() as int] == dm[0]);
        assert(text[c.len() as int] == a[c.len() as int]);
        assert(is_digit(dm[0]));
        assert(false);
    }
    let k = text.len() - 1;
    if b.len() < d.len() {
        assert(text[k - b.len()] == dn[dn.len() - 1]);
        assert(text[k - b.len()] == d[d.len() - 1 - b.len()]);
        assert(is_digit(dn[dn.len() - 1]));
        assert(false);
    }
    if d.len() < b.len() {
        assert(text[k - d.len()] == dm[dm.len() - 1]);
        assert(text[k - d.len()] == b[b.len() - 1 - d.len()]);
        assert(is_digit(dm[dm.len() - 1]));
        assert(false);
    }
    assert(dn =~= text.subrange(a.len() as int, text.len() - b.len()));
    assert(dm =~= text.subrange(c.len() as int, text.len() - d.len()));
}

proof fn lemma_decimal_nonempty(n: nat)
    ensures
        decimal(n).len() >= 1,
    decreases n,
{
    if n >= 10 {
        lemma_decimal_nonempty(n / 10);
    }
}

/// `String::from_utf8_lossy`: its result is `lossy_utf8` of the bytes; where
/// the bytes are valid UTF-8, std documents it as their decoding.
#[verifier::external_body]
fn utf8_lossy_text(bytes: &[u8]) -> (s: String)
    ensures
        s@ == lossy_utf8(bytes@),
        vstd::utf8::valid_utf8(bytes@) ==> s@ == vstd::utf8::decode_utf8(bytes@),
{
    String::from_utf8_lossy(bytes).into_owned()
}

/// `serde_json::from_str::<u32>`, with its error dropped. serde_json skips
/// JSON whitespace, reads a number (refusing a leading zero before another
/// digit), turns a sign, a fraction, an exponent or `-0` into a negative or
/// floating value that a `u32` refuses, refuses a value above `u32::MAX`,
/// and refuses anything but whitespace after the number (`from_str`,
/// `deserialize_number`, `parse_integer`, `parse_number` and `end` in its
/// de.rs). So it gives `n` exactly when the text is `n` alone.
#[verifier::external_body]
fn parse_json_u32(text: &str) -> (r: Option<u32>)
    ensures
        r matches Some(n) ==> is_json_u32_text(text@, n),
        forall|n: u32| is_json_u32_text(text@, n) ==> r == Some(n),
{
    serde_json::from_str::<u32>(text).ok()
}

/// Reads a code from a request text that holds a bare JSON number, or gives
/// the error text of one that does not.
pub fn code_from_text(text: &str) -> (r: Result<u32, &'static str>)
    ensures
        r matches Ok(n) ==> is_json_u32_text(text@, n),
        forall|n: u32| is_json_u32_text(text@, n) ==> r == Ok::<u32, &'static str>(n),
        r matches Err(e) ==> e@ == "failed to parse json"@,
{
    match parse_json_u32(text) {
        Some(v) => Ok(v),
        None => Err("failed to parse json"),
    }
}

/// Reads a code from a request body that holds a bare JSON number.
pub fn get_code(bytes: &[u8]) -> (r: Result<u32, &'static str>)
    ensures
        r matches Ok(n) ==> is_json_u32_text(lossy_utf8(bytes@), n),
        forall|n: u32| is_json_u32_text(lossy_utf8(bytes@), n) ==> r == Ok::<u32, &'static str>(n),
        r matches Err(e) ==> e@ == "failed to parse json"@,
        vstd::utf8::valid_utf8(bytes@) ==> lossy_utf8(bytes@) == vstd::utf8::decode_utf8(bytes@),
{
    let data = utf8_lossy_text(bytes);
    code_from_text(data.as_str())
}

} // verus!
