//! The limit on one-time-code verification attempts per session.
use vstd::prelude::*;
use crate::error::Refusal;

verus! {

/// How many code verifications one session may attempt.
pub const MAX_LOGIN_ATTEMPTS: i32 = 5;

/// Whether a session whose attempt counter is `counter` (absent before the
/// first attempt) may attempt another verification.
pub open spec fn attempt_allowed(counter: Option<i32>) -> bool {
    match counter {
        Some(c) => c < MAX_LOGIN_ATTEMPTS,
        None => true,
    }
}

/// The attempt counter after one more allowed attempt.
pub open spec fn counter_after_attempt(counter: Option<i32>) -> i32
    recommends
        attempt_allowed(counter),
{
    match counter {
        Some(c) => (c + 1) as i32,
        None => 1,
    }
}

/// Records one verification attempt against the session's counter.
///
/// A counter that has reached the limit refuses the attempt and is to be
/// left as it is; otherwise the attempt goes ahead and the counter becomes
/// the returned value (one where there was none).
pub fn record_login_attempt(counter: Option<i32>) -> (r: Result<i32, Refusal>)
    ensures
        attempt_allowed(counter) ==> r == Ok::<i32, Refusal>(counter_after_attempt(counter)),
        !attempt_allowed(counter) ==> r == Err::<i32, Refusal>(Refusal::TooManyLoginFailures),
{
    match counter {
        Some(count) => {
            if count >= MAX_LOGIN_ATTEMPTS {
                Err(Refusal::TooManyLoginFailures)
            } else {
                Ok(count + 1)
            }
        },
        None => Ok(1),
    }
}

/// The attempt counter after `n` verification attempts made from a session
/// whose counter was `start`, where each attempt goes through
/// `record_login_attempt` and a refused one leaves the counter unchanged.
pub open spec fn counter_after_attempts(start: Option<i32>, n: nat) -> Option<i32>
    decreases n,
{
    if n == 0 {
        start
    } else {
        let before = counter_after_attempts(start, (n - 1) as nat);
        if attempt_allowed(before) {
            Some(counter_after_attempt(before))
        } else {
            before
        }
    }
}

/// In a fresh session the first five verification attempts go ahead and
/// every later one is refused; after `n` attempts the counter holds
/// `min(n, 5)`.
pub proof fn lemma_attempt_limit(n: nat)
    ensures
        attempt_allowed(counter_after_attempts(None, n)) <==> n < MAX_LOGIN_ATTEMPTS,
        n > 0 ==> counter_after_attempts(None, n) == Some(
            if n < MAX_LOGIN_ATTEMPTS { n as i32 } else { MAX_LOGIN_ATTEMPTS },
        ),
    decreases n,
{
    if n > 0 {
        lemma_attempt_limit((n - 1) as nat);
    }
}

/// Once a session is refused it stays refused: refused attempts leave the
/// counter as it was, however many follow.
pub proof fn lemma_refusal_is_final(counter: Option<i32>, n: nat)
    requires
        !attempt_allowed(counter),
    ensures
        counter_after_attempts(counter, n) == counter,
        !attempt_allowed(counter_after_attempts(counter, n)),
    decreases n,
{
    if n > 0 {
        lemma_refusal_is_final(counter, (n - 1) as nat);
    }
}

} // verus!
