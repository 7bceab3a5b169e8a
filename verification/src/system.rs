//! The system pallet: the current block number and the per-account nonce,
//! the low-level bookkeeping every block execution relies on.

use vstd::prelude::*;

use crate::account_map::AccountMap;
use crate::types::{AccountId, BlockNumber, Nonce};

verus! {

/// The nonce an account holds in a nonce mapping; zero when absent.
pub open spec fn nonce_of(nonces: Map<Seq<char>, Nonce>, who: Seq<char>) -> Nonce {
    if nonces.contains_key(who) {
        nonces[who]
    } else {
        0
    }
}

/// Owns the current block number and the mapping from account to nonce.
#[derive(Debug)]
pub struct Pallet {
    block_number: BlockNumber,
    nonce: AccountMap<Nonce>,
}

impl Pallet {
    pub closed spec fn wf(self) -> bool {
        self.nonce.wf()
    }

    /// The current block number, as a specification value.
    pub closed spec fn spec_block_number(self) -> BlockNumber {
        self.block_number
    }

    /// The nonce mapping, as a specification value.
    pub closed spec fn nonces(self) -> Map<Seq<char>, Nonce> {
        self.nonce@
    }

    /// A fresh system pallet: block number zero and no nonce recorded, so
    /// every account's nonce reads as zero.
    pub fn new() -> (r: Self)
        ensures
            r.wf(),
            r.spec_block_number() == 0,
            r.nonces() == Map::<Seq<char>, Nonce>::empty(),
            forall|who: Seq<char>| nonce_of(r.nonces(), who) == 0,
    {
        Pallet { block_number: 0, nonce: AccountMap::new() }
    }

    pub fn block_number(&self) -> (r: BlockNumber)
        ensures
            r == self.spec_block_number(),
    {
        self.block_number
    }

    /// Steps the block counter. Exhaustion of the counter is treated as
    /// unrecoverable and is excluded here rather than handled.
    pub fn inc_block_number(&mut self)
        requires
            old(self).wf(),
            old(self).spec_block_number() < BlockNumber::MAX,
        ensures
            final(self).wf(),
            final(self).spec_block_number() == old(self).spec_block_number() + 1,
            final(self).nonces() == old(self).nonces(),
    {
        self.block_number = self.block_number + 1;
    }

    /// Steps `who`'s nonce by one, recording it explicitly even when the
    /// account had none recorded before.
    pub fn inc_nonce(&mut self, who: &AccountId)
        requires
            old(self).wf(),
            nonce_of(old(self).nonces(), who@) < Nonce::MAX,
        ensures
            final(self).wf(),
            final(self).nonces() == old(self).nonces().insert(
                who@,
                (nonce_of(old(self).nonces(), who@) + 1) as Nonce,
            ),
            final(self).spec_block_number() == old(self).spec_block_number(),
    {
        let nonce = self.get_nonce(who);
        self.nonce.insert(who, nonce + 1);
    }

    pub fn get_nonce(&self, who: &AccountId) -> (r: Nonce)
        requires
            self.wf(),
        ensures
            r == nonce_of(self.nonces(), who@),
    {
        match self.nonce.get(who) {
            Some(nonce) => *nonce,
            None => 0,
        }
    }
}

} // verus!
