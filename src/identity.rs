//! Caller identities, held as the bytes that make them up.
use vstd::prelude::*;

verus! {

/// What `Principal::self_authenticating` derives from a public key's bytes.
pub uninterp spec fn self_authenticating_id(public_key: Seq<u8>) -> Seq<u8>;

/// The identity of a caller or of an owner: its raw bytes.
pub struct Identity {
    pub bytes: Vec<u8>,
}

impl View for Identity {
    type V = Seq<u8>;

    open spec fn view(&self) -> Seq<u8> {
        self.bytes@
    }
}

impl Identity {
    pub fn new(bytes: Vec<u8>) -> (r: Identity)
        ensures
            r@ == bytes@,
    {
        Identity { bytes }
    }

    /// A copy that holds the same bytes.
    pub fn copy(&self) -> (r: Identity)
        ensures
            r@ == self@,
    {
        let mut bytes: Vec<u8> = Vec::new();
        let mut i: usize = 0;
        while i < self.bytes.len()
            invariant
                i <= self.bytes@.len(),
                bytes@ == self.bytes@.subrange(0, i as int),
            decreases self.bytes@.len() - i,
        {
            bytes.push(self.bytes[i]);
            i = i + 1;
        }
        assert(bytes@ =~= self.bytes@);
        Identity { bytes }
    }

    /// Whether both identities hold the same bytes.
    pub fn same_as(&self, other: &Identity) -> (r: bool)
        ensures
            r == (self@ == other@),
    {
        if self.bytes.len() != other.bytes.len() {
            return false;
        }
        let mut i: usize = 0;
        while i < self.bytes.len()
            invariant
                i <= self.bytes@.len(),
                self.bytes@.len() == other.bytes@.len(),
                self.bytes@.subrange(0, i as int) == other.bytes@.subrange(0, i as int),
            decreases self.bytes@.len() - i,
        {
            if self.bytes[i] != other.bytes[i] {
                assert(self.bytes@[i as int] != other.bytes@[i as int]);
                return false;
            }
            assert(self.bytes@.subrange(0, i + 1) =~= self.bytes@.subrange(0, i as int).push(
                self.bytes@[i as int],
            ));
            assert(other.bytes@.subrange(0, i + 1) =~= other.bytes@.subrange(0, i as int).push(
                other.bytes@[i as int],
            ));
            i = i + 1;
        }
        assert(self.bytes@ =~= self.bytes@.subrange(0, i as int));
        assert(other.bytes@ =~= other.bytes@.subrange(0, i as int));
        true
    }

    /// The self-authenticating identity of a public key: a one-way digest of
    /// its bytes followed by a tag.
    pub fn self_authenticating(public_key: &Vec<u8>) -> (r: Identity)
        ensures
            r@ == self_authenticating_id(public_key@),
            r@.len() == 29,
    {
        Identity { bytes: principal_self_authenticating(public_key) }
    }
}

/// Relies on `candid::Principal::self_authenticating`: its bytes depend on the
/// public key alone, and are a 28-byte digest followed by a one-byte tag.
#[verifier::external_body]
fn principal_self_authenticating(public_key: &Vec<u8>) -> (r: Vec<u8>)
    ensures
        r@ == self_authenticating_id(public_key@),
        r@.len() == 29,
{
    candid::Principal::self_authenticating(public_key).as_slice().to_vec()
}

} // verus!
