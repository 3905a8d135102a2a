//! The service's configuration: its signing keys and its debugging switch.
use vstd::prelude::*;

verus! {

/// The signer's key pair, in PEM text.
#[derive(Debug)]
pub struct Keys {
    pub signer_pubkey: String,
    pub signer_privkey: String,
}

impl Default for Keys {
    fn default() -> (k: Self)
        ensures
            k.signer_pubkey@ == Seq::<char>::empty(),
            k.signer_privkey@ == Seq::<char>::empty(),
    {
        Keys { signer_pubkey: String::new(), signer_privkey: String::new() }
    }
}

/// Whether the `DEBUGGING` setting turns debugging on: only the exact text
/// `true` does. In debugging mode the service reveals the one-time code,
/// the token and the id instead of sending the code by SMS.
pub fn debugging_enabled(setting: &str) -> (on: bool)
    ensures
        on == (setting@ == "true"@),
{
    let expected = String::from_str("true");
    let given = String::from_str(setting);
    given == expected
}

} // verus!
