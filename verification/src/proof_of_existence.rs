//! The proof-of-existence pallet: a mapping from claimed content to the
//! account that claimed it first, with its dispatchable call surface. Each
//! content key has at most one owner at any time.

use vstd::prelude::*;

use crate::account_map::AccountMap;
use crate::support::{DispatchError, DispatchResult};
use crate::types::{AccountId, Content};

verus! {

/// What `Pallet::create_claim` does to a claims mapping: the resulting
/// mapping and the returned outcome. Content already claimed by anyone,
/// the caller included, is refused.
pub open spec fn spec_create_claim(
    claims: Map<Seq<char>, AccountId>,
    caller: AccountId,
    claim: Seq<char>,
) -> (Map<Seq<char>, AccountId>, DispatchResult) {
    if claims.contains_key(claim) {
        (claims, Err(DispatchError::ClaimAlreadyExists))
    } else {
        (claims.insert(claim, caller), Ok(()))
    }
}

/// What `Pallet::revoke_claim` does to a claims mapping: only the holder of
/// an existing claim may remove it.
pub open spec fn spec_revoke_claim(
    claims: Map<Seq<char>, AccountId>,
    caller: Seq<char>,
    claim: Seq<char>,
) -> (Map<Seq<char>, AccountId>, DispatchResult) {
    if !claims.contains_key(claim) {
        (claims, Err(DispatchError::ClaimNotFound))
    } else if claims[claim]@ != caller {
        (claims, Err(DispatchError::NotClaimOwner))
    } else {
        (claims.remove(claim), Ok(()))
    }
}

/// Owns the mapping from content to the account that claimed it.
#[derive(Debug)]
pub struct Pallet {
    claims: AccountMap<AccountId>,
}

/// The dispatchable operations of the proof-of-existence pallet.
#[derive(Debug)]
pub enum Call {
    CreateClaim { claim: Content },
    RevokeClaim { claim: Content },
}

impl Pallet {
    pub closed spec fn wf(self) -> bool {
        self.claims.wf()
    }

    /// The claims mapping, as a specification value.
    pub closed spec fn claims(self) -> Map<Seq<char>, AccountId> {
        self.claims@
    }

    /// A fresh proof-of-existence pallet, with no content claimed.
    pub fn new() -> (r: Self)
        ensures
            r.wf(),
            r.claims() == Map::<Seq<char>, AccountId>::empty(),
    {
        Pallet { claims: AccountMap::new() }
    }

    /// The owner of a claim, if the content is claimed.
    pub fn get_claim(&self, claim: &Content) -> (r: Option<&AccountId>)
        requires
            self.wf(),
        ensures
            match r {
                Some(owner) => self.claims().contains_key(claim@) && *owner == self.claims()[claim@],
                None => !self.claims().contains_key(claim@),
            },
    {
        self.claims.get(claim)
    }

    /// Claims `claim` for `caller`, unless someone already holds it.
    pub fn create_claim(&mut self, caller: AccountId, claim: Content) -> (r: DispatchResult)
        requires
            old(self).wf(),
        ensures
            final(self).wf(),
            (final(self).claims(), r) == spec_create_claim(old(self).claims(), caller, claim@),
    {
        match self.claims.get(&claim) {
            Some(_) => Err(DispatchError::ClaimAlreadyExists),
            None => {
                self.claims.insert(&claim, caller);
                Ok(())
            },
        }
    }

    /// Removes `caller`'s claim on `claim`; fails if the content is not
    /// claimed, or claimed by someone else.
    pub fn revoke_claim(&mut self, caller: AccountId, claim: Content) -> (r: DispatchResult)
        requires
            old(self).wf(),
        ensures
            final(self).wf(),
            (final(self).claims(), r) == spec_revoke_claim(old(self).claims(), caller@, claim@),
    {
        let owner = match self.claims.get(&claim) {
            Some(owner) => owner,
            None => {
                return Err(DispatchError::ClaimNotFound);
            },
        };
        if *owner != caller {
            return Err(DispatchError::NotClaimOwner);
        }
        self.claims.remove(&claim);
        Ok(())
    }

    /// Routes a proof-of-existence call to the operation it names, on behalf
    /// of `caller`.
    pub fn dispatch(&mut self, caller: AccountId, call: Call) -> (r: DispatchResult)
        requires
            old(self).wf(),
        ensures
            final(self).wf(),
            (final(self).claims(), r) == spec_dispatch(old(self).claims(), caller, call),
    {
        match call {
            Call::CreateClaim { claim } => self.create_claim(caller, claim),
            Call::RevokeClaim { claim } => self.revoke_claim(caller, claim),
        }
    }
}

/// The life of a claim: once `caller` claims unclaimed content, the mapping
/// records `caller` as its owner; a second claim of it, by anyone, is
/// refused; someone else cannot revoke it; and `caller`'s own revocation
/// succeeds and restores the mapping to exactly what it was.
pub proof fn lemma_claim_lifecycle(
    claims: Map<Seq<char>, AccountId>,
    caller: AccountId,
    other: AccountId,
    claim: Seq<char>,
)
    requires
        !claims.contains_key(claim),
        other@ != caller@,
    ensures
        ({
            let (created, r) = spec_create_claim(claims, caller, claim);
            &&& r == Ok::<(), DispatchError>(())
            &&& created.contains_key(claim) && created[claim] == caller
            &&& spec_create_claim(created, other, claim).1 == Err::<(), DispatchError>(
                DispatchError::ClaimAlreadyExists,
            )
            &&& spec_create_claim(created, other, claim).0 == created
            &&& spec_revoke_claim(created, other@, claim).1 == Err::<(), DispatchError>(
                DispatchError::NotClaimOwner,
            )
            &&& spec_revoke_claim(created, other@, claim).0 == created
            &&& spec_revoke_claim(created, caller@, claim).1 == Ok::<(), DispatchError>(())
            &&& spec_revoke_claim(created, caller@, claim).0 == claims
        }),
{
    assert(claims.insert(claim, caller).remove(claim) =~= claims);
}

/// What `Pallet::dispatch` does to a claims mapping for each call variant.
pub open spec fn spec_dispatch(
    claims: Map<Seq<char>, AccountId>,
    caller: AccountId,
    call: Call,
) -> (Map<Seq<char>, AccountId>, DispatchResult) {
    match call {
        Call::CreateClaim { claim } => spec_create_claim(claims, caller, claim@),
        Call::RevokeClaim { claim } => spec_revoke_claim(claims, caller@, claim@),
    }
}

} // verus!
