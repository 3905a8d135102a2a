//! Why a request is refused.
use vstd::prelude::*;

verus! {

/// A request that the service turns down with "400 Bad Request".
#[derive(Debug, Clone, Copy, PartialEq, Eq, Structural)]
pub enum Refusal {
    /// The session has used up its code-verification attempts.
    TooManyLoginFailures,
    /// The submitted one-time code is not the one that was sent.
    InvalidCode,
    /// The blind-signature check parameters did not pass the signer's check.
    InvalidCheckParameter,
}

impl Refusal {
    /// The text of the response body for this refusal.
    pub open spec fn message_text(self) -> Seq<char> {
        match self {
            Refusal::TooManyLoginFailures => "too many login failures"@,
            Refusal::InvalidCode => "invalid code"@,
            Refusal::InvalidCheckParameter => "invalid"@,
        }
    }

    /// The text of the response body for this refusal.
    pub fn message(&self) -> (m: &'static str)
        ensures
            m@ == self.message_text(),
    {
        match self {
            Refusal::TooManyLoginFailures => "too many login failures",
            Refusal::InvalidCode => "invalid code",
            Refusal::InvalidCheckParameter => "invalid",
        }
    }
}

} // verus!
