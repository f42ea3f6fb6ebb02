//! The requests that the gateway hands to the threshold-signing service, and
//! what it makes of the replies.
use vstd::prelude::*;
use crate::config::{EcdsaKeyId, derivation_path};
use crate::error::{DelegatedMethod, GatewayError};
use crate::identity::{Identity, self_authenticating_id};
use crate::state::GatewayState;

verus! {

/// The textual account identifier that `AccountIdentifier::new` derives from
/// an owner's bytes and a 32-byte subaccount.
pub uninterp spec fn account_identifier_text(owner: Seq<u8>, subaccount: Seq<u8>) -> Seq<char>;

/// The cycles reserved to pay for one delegated signature.
pub const SIGN_WITH_ECDSA_CYCLES: u64 = 25_000_000_000;

/// The subaccount used where none is supplied: 32 zero bytes.
pub open spec fn default_subaccount() -> Seq<u8> {
    Seq::new(32, |i: int| 0u8)
}

/// Whether a supplied subaccount, if any, is 32 bytes long.
pub open spec fn valid_subaccount(subaccount: Option<Vec<u8>>) -> bool {
    match subaccount {
        Some(s) => s@.len() == 32,
        None => true,
    }
}

/// The subaccount an address is derived with.
pub open spec fn chosen_subaccount(subaccount: Option<Vec<u8>>) -> Seq<u8> {
    match subaccount {
        Some(s) => s@,
        None => default_subaccount(),
    }
}

/// A request for the public key of the configured key.
pub struct EcdsaPublicKeyArgument {
    pub canister_id: Option<Identity>,
    pub derivation_path: Vec<Vec<u8>>,
    pub key_id: EcdsaKeyId,
}

/// A request to sign a 32-byte digest with the configured key.
pub struct SignWithEcdsaArgument {
    pub message_hash: Vec<u8>,
    pub derivation_path: Vec<Vec<u8>>,
    pub key_id: EcdsaKeyId,
}

/// The reply of a delegated call, with the remote diagnostic text on failure,
/// as the gateway's result.
fn delegated_reply(method: DelegatedMethod, response: Result<Vec<u8>, String>) -> (r: Result<Vec<u8>, GatewayError>)
    ensures
        response matches Ok(b) ==> r matches Ok(c) && c@ == b@,
        response matches Err(m) ==> r matches Err(GatewayError::DelegatedCall { method: k, message: n })
            && k == method && n@ == m@,
{
    match response {
        Ok(bytes) => Ok(bytes),
        Err(message) => Err(GatewayError::DelegatedCall { method, message }),
    }
}

/// The outcome of a public key request: the key's bytes, or the failure with
/// its remote text.
pub fn public_key_reply(response: Result<Vec<u8>, String>) -> (r: Result<Vec<u8>, GatewayError>)
    ensures
        response matches Ok(b) ==> r matches Ok(c) && c@ == b@,
        response matches Err(m) ==> r matches Err(GatewayError::DelegatedCall { method: k, message: n })
            && k == DelegatedMethod::EcdsaPublicKey && n@ == m@,
{
    delegated_reply(DelegatedMethod::EcdsaPublicKey, response)
}

/// The outcome of a sign request: the signature's bytes unchanged, or the
/// failure with its remote text.
pub fn sign_reply(response: Result<Vec<u8>, String>) -> (r: Result<Vec<u8>, GatewayError>)
    ensures
        response matches Ok(b) ==> r matches Ok(c) && c@ == b@,
        response matches Err(m) ==> r matches Err(GatewayError::DelegatedCall { method: k, message: n })
            && k == DelegatedMethod::SignWithEcdsa && n@ == m@,
{
    delegated_reply(DelegatedMethod::SignWithEcdsa, response)
}

/// The gateway's own identity, derived from its public key; a failure to get
/// the key is passed on.
pub fn get_principal(public_key: Result<Vec<u8>, GatewayError>) -> (r: Result<Identity, GatewayError>)
    ensures
        public_key matches Err(e) ==> r matches Err(f) && f == e,
        public_key is Ok ==> r is Ok,
        public_key matches Ok(k) ==> r matches Ok(p) && p@ == self_authenticating_id(k@),
{
    match public_key {
        Ok(k) => Ok(Identity::self_authenticating(&k)),
        Err(e) => Err(e),
    }
}

/// The textual account address of the gateway's identity and a subaccount:
/// 32 zero bytes where none is supplied, else exactly 32 bytes.
pub fn address(public_key: Result<Vec<u8>, GatewayError>, subaccount: Option<Vec<u8>>) -> (r: Result<String, GatewayError>)
    ensures
        public_key matches Err(e) ==> r matches Err(f) && f == e,
        public_key is Ok ==> (r matches Err(GatewayError::InvalidSubaccountLength) <==> !valid_subaccount(
            subaccount,
        )),
        public_key is Ok ==> (r is Ok <==> valid_subaccount(subaccount)),
        public_key matches Ok(k) ==> (r matches Ok(a) ==> a@ == account_identifier_text(
            self_authenticating_id(k@),
            chosen_subaccount(subaccount),
        )),
{
    let key = match public_key {
        Ok(k) => k,
        Err(e) => {
            return Err(e);
        },
    };
    let owner = Identity::self_authenticating(&key);
    let sub = match subaccount {
        Some(s) => s,
        None => {
            let mut zeros: Vec<u8> = Vec::new();
            while zeros.len() < 32
                invariant
                    zeros@.len() <= 32,
                    forall|j: int| 0 <= j < zeros@.len() ==> zeros@[j] == 0u8,
                decreases 32 - zeros@.len(),
            {
                zeros.push(0u8);
            }
            assert(zeros@ =~= default_subaccount());
            zeros
        },
    };
    if sub.len() != 32 {
        return Err(GatewayError::InvalidSubaccountLength);
    }
    Ok(ledger_account_text(&owner.bytes, &sub))
}

/// Relies on `ic_ledger_types::AccountIdentifier::new` and its `Display`: the
/// text depends on the owner and the subaccount alone, and is the hex form of
/// 32 bytes. `Principal::from_slice` panics on more than 29 bytes.
#[verifier::external_body]
fn ledger_account_text(owner: &Vec<u8>, subaccount: &Vec<u8>) -> (r: String)
    requires
        owner@.len() <= 29,
        subaccount@.len() == 32,
    ensures
        r@ == account_identifier_text(owner@, subaccount@),
        r@.len() == 64,
{
    let sub: [u8; 32] = subaccount.as_slice().try_into().unwrap();
    let principal = candid::Principal::from_slice(owner);
    ic_ledger_types::AccountIdentifier::new(&principal, &ic_ledger_types::Subaccount(sub)).to_string()
}

impl GatewayState {
    /// The public key request: no canister override, the empty derivation
    /// path and the configured key. Open to every caller.
    pub fn public_key_request(&self) -> (r: EcdsaPublicKeyArgument)
        ensures
            r.canister_id is None,
            r.derivation_path@.len() == 0,
            r.key_id == self.key_id,
    {
        EcdsaPublicKeyArgument {
            canister_id: None,
            derivation_path: derivation_path(),
            key_id: self.key_id(),
        }
    }

    /// The sign request for an owner's 32-byte digest: the digest as given,
    /// the empty derivation path and the configured key.
    pub fn sign(&self, caller: &Identity, message: Vec<u8>) -> (r: Result<SignWithEcdsaArgument, GatewayError>)
        ensures
            !self.owner_spec(caller@) ==> r matches Err(GatewayError::NotAuthorized),
            self.owner_spec(caller@) && message@.len() != 32 ==> r matches Err(
                GatewayError::InvalidMessageLength,
            ),
            r is Ok <==> self.owner_spec(caller@) && message@.len() == 32,
            r matches Ok(a) ==> a.message_hash@ == message@ && a.derivation_path@.len() == 0
                && a.key_id == self.key_id,
    {
        self.require_owner(caller)?;
        if message.len() != 32 {
            return Err(GatewayError::InvalidMessageLength);
        }
        Ok(SignWithEcdsaArgument {
            message_hash: message,
            derivation_path: derivation_path(),
            key_id: self.key_id(),
        })
    }
}

} // verus!
