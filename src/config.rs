//! The key configuration: which threshold key the gateway signs with.
use vstd::prelude::*;

verus! {

/// The curves that the signing service offers keys on.
#[derive(Clone, Copy, Debug, PartialEq, Eq, Structural)]
pub enum EcdsaCurve {
    Secp256k1,
}

/// A signing key of the service: its curve and its name.
#[derive(Debug)]
pub struct EcdsaKeyId {
    pub curve: EcdsaCurve,
    pub name: String,
}

/// The deployment tiers, each tied to one key of the service.
#[derive(Clone, Copy, Debug, PartialEq, Eq, Structural)]
pub enum EcdsaKeyIds {
    TestKeyLocalDevelopment,
    TestKey1,
    ProductionKey1,
}

/// Raised for a key name outside the three known tiers.
#[derive(Clone, Copy, Debug, PartialEq, Eq, Structural)]
pub enum ParseEcdsaKeyIdError {
    UnknownKeyId,
}

/// The name of the key that a tier stands for.
pub open spec fn tier_key_name(tier: EcdsaKeyIds) -> Seq<char> {
    match tier {
        EcdsaKeyIds::TestKeyLocalDevelopment => "dfx_test_key"@,
        EcdsaKeyIds::TestKey1 => "test_key_1"@,
        EcdsaKeyIds::ProductionKey1 => "key_1"@,
    }
}

/// The tier whose key has this name, if any.
pub open spec fn tier_of_name(name: Seq<char>) -> Option<EcdsaKeyIds> {
    if name == "dfx_test_key"@ {
        Some(EcdsaKeyIds::TestKeyLocalDevelopment)
    } else if name == "test_key_1"@ {
        Some(EcdsaKeyIds::TestKey1)
    } else if name == "key_1"@ {
        Some(EcdsaKeyIds::ProductionKey1)
    } else {
        None
    }
}

impl EcdsaKeyId {
    /// A copy of this key id.
    pub fn copy(&self) -> (r: EcdsaKeyId)
        ensures
            r == *self,
    {
        EcdsaKeyId { curve: self.curve, name: self.name.clone() }
    }
}

impl EcdsaKeyIds {
    /// The key of this tier, always on secp256k1.
    pub fn to_key_id(&self) -> (r: EcdsaKeyId)
        ensures
            r.curve == EcdsaCurve::Secp256k1,
            r.name@ == tier_key_name(*self),
    {
        let name = match self {
            EcdsaKeyIds::TestKeyLocalDevelopment => "dfx_test_key",
            EcdsaKeyIds::TestKey1 => "test_key_1",
            EcdsaKeyIds::ProductionKey1 => "key_1",
        };
        proof {
            reveal_strlit("dfx_test_key");
            reveal_strlit("test_key_1");
            reveal_strlit("key_1");
        }
        EcdsaKeyId { curve: EcdsaCurve::Secp256k1, name: name.to_string() }
    }

    /// The tier named by `s`, or `UnknownKeyId` for any other name.
    pub fn try_from(s: String) -> (r: Result<EcdsaKeyIds, ParseEcdsaKeyIdError>)
        ensures
            match tier_of_name(s@) {
                Some(t) => r == Ok::<EcdsaKeyIds, ParseEcdsaKeyIdError>(t),
                None => r == Err::<EcdsaKeyIds, ParseEcdsaKeyIdError>(
                    ParseEcdsaKeyIdError::UnknownKeyId,
                ),
            },
    {
        proof {
            reveal_strlit("dfx_test_key");
            reveal_strlit("test_key_1");
            reveal_strlit("key_1");
        }
        if s == "dfx_test_key".to_string() {
            Ok(EcdsaKeyIds::TestKeyLocalDevelopment)
        } else if s == "test_key_1".to_string() {
            Ok(EcdsaKeyIds::TestKey1)
        } else if s == "key_1".to_string() {
            Ok(EcdsaKeyIds::ProductionKey1)
        } else {
            Err(ParseEcdsaKeyIdError::UnknownKeyId)
        }
    }
}

/// The derivation path of every request: empty, as the gateway uses a single
/// key per deployment.
pub fn derivation_path() -> (r: Vec<Vec<u8>>)
    ensures
        r@.len() == 0,
{
    Vec::new()
}

/// Each of the three tier names resolves to its own tier, whose key carries
/// that name; the three keys differ, and every other name resolves to none.
pub proof fn lemma_key_tiers(name: Seq<char>)
    ensures
        tier_of_name("dfx_test_key"@) == Some(EcdsaKeyIds::TestKeyLocalDevelopment),
        tier_of_name("test_key_1"@) == Some(EcdsaKeyIds::TestKey1),
        tier_of_name("key_1"@) == Some(EcdsaKeyIds::ProductionKey1),
        tier_of_name(name) matches Some(t) ==> tier_key_name(t) == name,
        tier_key_name(EcdsaKeyIds::TestKeyLocalDevelopment) != tier_key_name(EcdsaKeyIds::TestKey1),
        tier_key_name(EcdsaKeyIds::TestKeyLocalDevelopment) != tier_key_name(
            EcdsaKeyIds::ProductionKey1,
        ),
        tier_key_name(EcdsaKeyIds::TestKey1) != tier_key_name(EcdsaKeyIds::ProductionKey1),
        name != "dfx_test_key"@ && name != "test_key_1"@ && name != "key_1"@ ==> tier_of_name(
            name,
        ) is None,
{
    reveal_strlit("dfx_test_key");
    reveal_strlit("test_key_1");
    reveal_strlit("key_1");
    assert("dfx_test_key"@.len() != "test_key_1"@.len());
    assert("dfx_test_key"@.len() != "key_1"@.len());
    assert("test_key_1"@.len() != "key_1"@.len());
}

} // verus!
