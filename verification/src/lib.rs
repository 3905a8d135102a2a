//! Verified core of an SMS-login and blind-signing service: the login
//! attempt limit, the one-time code and session token, and the JSON
//! bodies that the service answers with.
use vstd::prelude::*;

pub mod attempts;
pub mod code;
pub mod config;
pub mod decimal;
pub mod error;
pub mod response;
pub mod text;
pub mod token;

verus! {

} // verus!
