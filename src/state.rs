//! The gateway's durable state: the owner set, the key configuration and the
//! metrics delegate, with the owner-gated operations on them and the snapshot
//! that carries them across restarts.
use vstd::prelude::*;
use crate::config::{EcdsaCurve, EcdsaKeyId, EcdsaKeyIds, ParseEcdsaKeyIdError, tier_of_name, tier_key_name};
use crate::error::GatewayError;
use crate::identity::Identity;

verus! {

/// The identities of a list of owners, in order and with repeats.
pub open spec fn identities_view(owners: Seq<Identity>) -> Seq<Seq<u8>> {
    owners.map_values(|o: Identity| o@)
}

/// The identity in an optional value.
pub open spec fn optional_view(o: Option<Identity>) -> Option<Seq<u8>> {
    match o {
        Some(i) => Some(i@),
        None => None,
    }
}

/// The owner list that remains once every entry equal to `target` is gone.
pub open spec fn without(owners: Seq<Seq<u8>>, target: Seq<u8>) -> Seq<Seq<u8>> {
    owners.filter(differs_from(target))
}

/// Whether an identity differs from `target`.
pub open spec fn differs_from(target: Seq<u8>) -> spec_fn(Seq<u8>) -> bool {
    |p: Seq<u8>| p != target
}

/// The contents of a gateway state, or of a snapshot of one.
pub struct StateView {
    pub curve: EcdsaCurve,
    pub key_name: Seq<char>,
    pub metrics_canister: Option<Seq<u8>>,
    pub owners: Seq<Seq<u8>>,
}

/// Whether `user` is in the owner set of `v`.
pub open spec fn is_owner_of(v: StateView, user: Seq<u8>) -> bool {
    v.owners.contains(user)
}

/// Whether `user` may read the metrics of `v`: an owner or the delegate.
pub open spec fn is_metrics_reader_of(v: StateView, user: Seq<u8>) -> bool {
    is_owner_of(v, user) || v.metrics_canister == Some(user)
}

/// `v` with `owner` appended to its owner set.
pub open spec fn with_owner_added(v: StateView, owner: Seq<u8>) -> StateView {
    StateView { owners: v.owners.push(owner), ..v }
}

/// `v` with every entry equal to `owner` taken out of its owner set.
pub open spec fn with_owner_removed(v: StateView, owner: Seq<u8>) -> StateView {
    StateView { owners: without(v.owners, owner), ..v }
}

/// `v` with its metrics delegate replaced.
pub open spec fn with_metrics_delegate(v: StateView, delegate: Option<Seq<u8>>) -> StateView {
    StateView { metrics_canister: delegate, ..v }
}

/// The arguments the gateway starts from.
pub struct InitArgs {
    pub key_id: String,
    pub metrics_canister: Option<Identity>,
    pub owners: Vec<Identity>,
}

/// The live state of the gateway.
pub struct GatewayState {
    pub key_id: EcdsaKeyId,
    pub metrics_canister: Option<Identity>,
    pub owners: Vec<Identity>,
}

/// What is saved before a restart and restored after it.
pub struct StableState {
    pub key_id: EcdsaKeyId,
    pub metrics_canister: Option<Identity>,
    pub owners: Vec<Identity>,
}

impl View for GatewayState {
    type V = StateView;

    open spec fn view(&self) -> StateView {
        StateView {
            curve: self.key_id.curve,
            key_name: self.key_id.name@,
            metrics_canister: optional_view(self.metrics_canister),
            owners: identities_view(self.owners@),
        }
    }
}

impl View for StableState {
    type V = StateView;

    open spec fn view(&self) -> StateView {
        StateView {
            curve: self.key_id.curve,
            key_name: self.key_id.name@,
            metrics_canister: optional_view(self.metrics_canister),
            owners: identities_view(self.owners@),
        }
    }
}

fn copy_optional(o: &Option<Identity>) -> (r: Option<Identity>)
    ensures
        optional_view(r) == optional_view(*o),
{
    match o {
        Some(i) => Some(i.copy()),
        None => None,
    }
}

fn copy_identities(v: &Vec<Identity>) -> (r: Vec<Identity>)
    ensures
        identities_view(r@) == identities_view(v@),
{
    let mut r: Vec<Identity> = Vec::new();
    let mut i: usize = 0;
    while i < v.len()
        invariant
            i <= v@.len(),
            r@.len() == i,
            forall|j: int| 0 <= j < i ==> r@[j]@ == v@[j]@,
        decreases v@.len() - i,
    {
        r.push(v[i].copy());
        i = i + 1;
    }
    assert(identities_view(r@) =~= identities_view(v@));
    r
}

impl GatewayState {
    /// Whether `user` holds owner status.
    pub open spec fn owner_spec(&self, user: Seq<u8>) -> bool {
        is_owner_of(self@, user)
    }

    /// Whether `user` may read the metrics: an owner or the delegate.
    pub open spec fn metrics_reader_spec(&self, user: Seq<u8>) -> bool {
        is_metrics_reader_of(self@, user)
    }

    /// The state at startup: the key of the named tier, the given delegate and
    /// the given owners in order. An unknown tier name fails.
    pub fn init(args: InitArgs) -> (r: Result<GatewayState, ParseEcdsaKeyIdError>)
        ensures
            r is Err <==> tier_of_name(args.key_id@) is None,
            r is Err ==> r == Err::<GatewayState, ParseEcdsaKeyIdError>(
                ParseEcdsaKeyIdError::UnknownKeyId,
            ),
            r matches Ok(s) ==> s@ == (StateView {
                curve: EcdsaCurve::Secp256k1,
                key_name: args.key_id@,
                metrics_canister: optional_view(args.metrics_canister),
                owners: identities_view(args.owners@),
            }),
    {
        let name = args.key_id;
        let ghost name_view = name@;
        let tier = match EcdsaKeyIds::try_from(name) {
            Ok(t) => t,
            Err(e) => {
                return Err(e);
            },
        };
        let key_id = tier.to_key_id();
        proof {
            reveal_strlit("dfx_test_key");
            reveal_strlit("test_key_1");
            reveal_strlit("key_1");
            assert(tier_key_name(tier) == name_view);
        }
        Ok(GatewayState { key_id, metrics_canister: args.metrics_canister, owners: args.owners })
    }

    /// Whether `user` appears anywhere in the owner set.
    pub fn is_owner(&self, user: &Identity) -> (r: bool)
        ensures
            r == self.owner_spec(user@),
    {
        let mut i: usize = 0;
        while i < self.owners.len()
            invariant
                i <= self.owners@.len(),
                forall|j: int| 0 <= j < i ==> self.owners@[j]@ != user@,
            decreases self.owners@.len() - i,
        {
            if self.owners[i].same_as(user) {
                assert(self@.owners[i as int] == user@);
                return true;
            }
            i = i + 1;
        }
        assert(!self@.owners.contains(user@)) by {
            if self@.owners.contains(user@) {
                let k = choose|k: int| 0 <= k < self@.owners.len() && self@.owners[k] == user@;
                assert(self.owners@[k]@ == user@);
            }
        }
        false
    }

    /// Succeeds exactly when `user` is an owner.
    pub fn require_owner(&self, user: &Identity) -> (r: Result<(), GatewayError>)
        ensures
            r is Ok <==> self.owner_spec(user@),
            r is Err ==> r matches Err(GatewayError::NotAuthorized),
    {
        if self.is_owner(user) {
            Ok(())
        } else {
            Err(GatewayError::NotAuthorized)
        }
    }

    /// An owner appends `owner` to the owner set, even where it is there
    /// already.
    pub fn add_owner(&mut self, caller: &Identity, owner: Identity) -> (r: Result<(), GatewayError>)
        ensures
            r is Ok <==> old(self).owner_spec(caller@),
            r is Err ==> r matches Err(GatewayError::NotAuthorized),
            r is Ok ==> final(self)@ == with_owner_added(old(self)@, owner@),
            r is Err ==> final(self)@ == old(self)@,
    {
        self.require_owner(caller)?;
        let ghost before = self.owners@;
        self.owners.push(owner);
        assert(identities_view(self.owners@) =~= identities_view(before).push(owner@));
        Ok(())
    }

    /// An owner removes every entry equal to `owner` from the owner set; the
    /// set may end up empty.
    pub fn remove_owner(&mut self, caller: &Identity, owner: &Identity) -> (r: Result<(), GatewayError>)
        ensures
            r is Ok <==> old(self).owner_spec(caller@),
            r is Err ==> r matches Err(GatewayError::NotAuthorized),
            r is Ok ==> final(self)@ == with_owner_removed(old(self)@, owner@),
            r is Err ==> final(self)@ == old(self)@,
    {
        self.require_owner(caller)?;
        let ghost all = identities_view(self.owners@);
        let mut kept: Vec<Identity> = Vec::new();
        let mut i: usize = 0;
        while i < self.owners.len()
            invariant
                i <= self.owners@.len(),
                all == identities_view(self.owners@),
                identities_view(kept@) == without(all.subrange(0, i as int), owner@),
            decreases self.owners@.len() - i,
        {
            proof {
                let pre = all.subrange(0, i as int);
                let next = all.subrange(0, i + 1);
                assert(next.drop_last() =~= pre);
                assert(next.last() == self.owners@[i as int]@);
                reveal(Seq::filter);
            }
            if !self.owners[i].same_as(owner) {
                kept.push(self.owners[i].copy());
                assert(identities_view(kept@) =~= without(all.subrange(0, i + 1), owner@));
            }
            i = i + 1;
        }
        assert(all.subrange(0, i as int) =~= all);
        self.owners = kept;
        Ok(())
    }

    /// An owner replaces the metrics delegate, or clears it with `None`.
    pub fn set_metrics(&mut self, caller: &Identity, new_value: Option<Identity>) -> (r: Result<(), GatewayError>)
        ensures
            r is Ok <==> old(self).owner_spec(caller@),
            r is Err ==> r matches Err(GatewayError::NotAuthorized),
            r is Ok ==> final(self)@ == with_metrics_delegate(old(self)@, optional_view(new_value)),
            r is Err ==> final(self)@ == old(self)@,
    {
        self.require_owner(caller)?;
        self.metrics_canister = new_value;
        assert(self@ =~= with_metrics_delegate(old(self)@, optional_view(new_value)));
        Ok(())
    }

    /// Succeeds exactly when `caller` is an owner or the metrics delegate.
    pub fn require_metrics_reader(&self, caller: &Identity) -> (r: Result<(), GatewayError>)
        ensures
            r is Ok <==> self.metrics_reader_spec(caller@),
            r is Err ==> r matches Err(GatewayError::NotAuthorized),
    {
        if self.is_owner(caller) {
            return Ok(());
        }
        match &self.metrics_canister {
            Some(m) => {
                if m.same_as(caller) {
                    Ok(())
                } else {
                    Err(GatewayError::NotAuthorized)
                }
            },
            None => Err(GatewayError::NotAuthorized),
        }
    }

    /// The key id that every request names.
    pub fn key_id(&self) -> (r: EcdsaKeyId)
        ensures
            r == self.key_id,
    {
        self.key_id.copy()
    }

    /// The snapshot saved before a restart: every field, owners in order and
    /// with repeats.
    pub fn pre_upgrade(&self) -> (r: StableState)
        ensures
            r@ == self@,
    {
        StableState {
            key_id: self.key_id.copy(),
            metrics_canister: copy_optional(&self.metrics_canister),
            owners: copy_identities(&self.owners),
        }
    }

    /// Replaces the whole state with a restored snapshot.
    pub fn post_upgrade(&mut self, s: StableState)
        ensures
            final(self)@ == s@,
    {
        self.key_id = s.key_id;
        self.metrics_canister = s.metrics_canister;
        self.owners = s.owners;
    }
}

/// Adding an owner twice puts it in the owner set twice, and one removal
/// takes out every occurrence while keeping everyone else.
pub proof fn lemma_duplicate_owner(v: StateView, x: Seq<u8>)
    ensures
        with_owner_added(with_owner_added(v, x), x).owners.to_multiset().count(x)
            == v.owners.to_multiset().count(x) + 2,
        !is_owner_of(with_owner_removed(with_owner_added(with_owner_added(v, x), x), x), x),
        forall|y: Seq<u8>| y != x ==> (is_owner_of(
            with_owner_removed(with_owner_added(with_owner_added(v, x), x), x),
            y,
        ) <==> is_owner_of(v, y)),
{
    broadcast use vstd::seq_lib::group_seq_properties;
    broadcast use vstd::seq_lib::group_filter_ensures;
    let twice = v.owners.push(x).push(x);
    assert(twice.to_multiset() =~= v.owners.to_multiset().insert(x).insert(x));
    assert forall|y: Seq<u8>| y != x implies (without(twice, x).contains(y) <==> v.owners.contains(y)) by {
        if v.owners.contains(y) {
            let k = choose|k: int| 0 <= k < v.owners.len() && v.owners[k] == y;
            assert(twice[k] == y);
            twice.lemma_filter_contains(differs_from(x), k);
        }
        if without(twice, x).contains(y) {
            twice.lemma_filter_contains_rev(differs_from(x), y);
            let k = choose|k: int| 0 <= k < twice.len() && twice[k] == y;
            assert(k < v.owners.len());
            assert(v.owners[k] == y);
        }
    }
    if without(twice, x).contains(x) {
        let k = choose|k: int| 0 <= k < without(twice, x).len() && without(twice, x)[k] == x;
        twice.lemma_filter_pred(differs_from(x), k);
    }
}

/// Once the delegate is cleared, only owners may read the metrics; before,
/// the readers are the owners and exactly the delegate.
pub proof fn lemma_metrics_readers(v: StateView, user: Seq<u8>)
    ensures
        is_metrics_reader_of(v, user) <==> (is_owner_of(v, user) || v.metrics_canister == Some(user)),
        is_metrics_reader_of(with_metrics_delegate(v, None), user) <==> is_owner_of(v, user),
        is_metrics_reader_of(with_metrics_delegate(v, Some(user)), user),
{
}

/// Saving a state before a restart and restoring it after gives back every
/// field, with the owners in the same order and with the same repeats.
pub proof fn lemma_upgrade_round_trip(s: GatewayState, saved: StableState, restored: GatewayState)
    requires
        saved@ == s@,
        restored@ == saved@,
    ensures
        restored@ == s@,
        restored.key_id.curve == s.key_id.curve,
        restored.key_id.name@ == s.key_id.name@,
        optional_view(restored.metrics_canister) == optional_view(s.metrics_canister),
        restored.owners@.len() == s.owners@.len(),
        forall|i: int| 0 <= i < s.owners@.len() ==> restored.owners@[i]@ == s.owners@[i]@,
{
    assert(identities_view(restored.owners@).len() == restored.owners@.len());
    assert forall|i: int| 0 <= i < s.owners@.len() implies restored.owners@[i]@ == s.owners@[i]@ by {
        assert(identities_view(restored.owners@)[i] == identities_view(s.owners@)[i]);
    }
}

} // verus!
