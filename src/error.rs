//! The failures that a gateway call can end in.
use vstd::prelude::*;

verus! {

/// The delegated calls that the gateway makes.
#[derive(Clone, Copy, Debug, PartialEq, Eq, Structural)]
pub enum DelegatedMethod {
    EcdsaPublicKey,
    SignWithEcdsa,
    CanisterStatus,
}

/// Why a gateway call failed.
#[derive(Debug)]
pub enum GatewayError {
    /// The caller lacks the owner (or metrics delegate) status the call needs.
    NotAuthorized,
    /// A message digest to sign is not 32 bytes long.
    InvalidMessageLength,
    /// A supplied subaccount is not 32 bytes long.
    InvalidSubaccountLength,
    /// A delegated call failed; `message` is the remote diagnostic text.
    DelegatedCall { method: DelegatedMethod, message: String },
}

} // verus!
