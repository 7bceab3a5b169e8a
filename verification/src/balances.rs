//! The balances pallet: the mapping from account to spendable balance and
//! the checked transfer operation, with its dispatchable call surface.

use vstd::prelude::*;

use crate::account_map::AccountMap;
use crate::support::{DispatchError, DispatchResult};
use crate::types::{AccountId, Balance};

verus! {

/// The balance an account holds in a balances mapping; zero when absent.
pub open spec fn balance_of(balances: Map<Seq<char>, Balance>, who: Seq<char>) -> Balance {
    if balances.contains_key(who) {
        balances[who]
    } else {
        0
    }
}

/// What `Pallet::transfer` does to a balances mapping: the resulting mapping
/// and the returned outcome. Both checks are made against the balances read
/// before any write, and a failed check leaves the mapping untouched.
pub open spec fn spec_transfer(
    balances: Map<Seq<char>, Balance>,
    caller: Seq<char>,
    to: Seq<char>,
    amount: Balance,
) -> (Map<Seq<char>, Balance>, DispatchResult) {
    let caller_balance = balance_of(balances, caller);
    let to_balance = balance_of(balances, to);
    if caller_balance < amount {
        (balances, Err(DispatchError::InsufficientBalance))
    } else if to_balance + amount > Balance::MAX {
        (balances, Err(DispatchError::Overflow))
    } else if caller == to {
        (balances, Ok(()))
    } else {
        (
            balances.insert(caller, (caller_balance - amount) as Balance).insert(
                to,
                (to_balance + amount) as Balance,
            ),
            Ok(()),
        )
    }
}

/// Owns the mapping from account to balance.
#[derive(Debug)]
pub struct Pallet {
    balances: AccountMap<Balance>,
}

/// The dispatchable operations of the balances pallet.
#[derive(Debug)]
pub enum Call {
    Transfer { to: AccountId, amount: Balance },
}

impl Pallet {
    pub closed spec fn wf(self) -> bool {
        self.balances.wf()
    }

    /// The balances mapping, as a specification value.
    pub closed spec fn balances(self) -> Map<Seq<char>, Balance> {
        self.balances@
    }

    /// A fresh balances pallet: nothing recorded, so every account's balance
    /// reads as zero.
    pub fn new() -> (r: Self)
        ensures
            r.wf(),
            r.balances() == Map::<Seq<char>, Balance>::empty(),
            forall|who: Seq<char>| balance_of(r.balances(), who) == 0,
    {
        Pallet { balances: AccountMap::new() }
    }

    /// Overwrites `who`'s balance unconditionally. Administrative: meant for
    /// genesis setup, and not reachable through dispatch.
    pub fn set_balance(&mut self, who: &AccountId, amount: Balance)
        requires
            old(self).wf(),
        ensures
            final(self).wf(),
            final(self).balances() == old(self).balances().insert(who@, amount),
    {
        self.balances.insert(who, amount);
    }

    pub fn balance(&self, who: &AccountId) -> (r: Balance)
        requires
            self.wf(),
        ensures
            r == balance_of(self.balances(), who@),
    {
        match self.balances.get(who) {
            Some(amount) => *amount,
            None => 0,
        }
    }

    /// Moves `amount` from `caller` to `to`, atomically: on any failure the
    /// mapping is left exactly as it was. Both balances are read before
    /// either write, and a transfer to oneself succeeds without any effect.
    pub fn transfer(&mut self, caller: AccountId, to: AccountId, amount: Balance) -> (r:
        DispatchResult)
        requires
            old(self).wf(),
        ensures
            final(self).wf(),
            (final(self).balances(), r) == spec_transfer(
                old(self).balances(),
                caller@,
                to@,
                amount,
            ),
    {
        let caller_balance = self.balance(&caller);
        let to_balance = self.balance(&to);

        let new_caller_balance = match caller_balance.checked_sub(amount) {
            Some(b) => b,
            None => {
                return Err(DispatchError::InsufficientBalance);
            },
        };
        let new_to_balance = match to_balance.checked_add(amount) {
            Some(b) => b,
            None => {
                return Err(DispatchError::Overflow);
            },
        };
        if caller == to {
            return Ok(());
        }
        self.balances.insert(&caller, new_caller_balance);
        self.balances.insert(&to, new_to_balance);
        Ok(())
    }

    /// Routes a balances call to the operation it names, on behalf of
    /// `caller`.
    pub fn dispatch(&mut self, caller: AccountId, call: Call) -> (r: DispatchResult)
        requires
            old(self).wf(),
        ensures
            final(self).wf(),
            (final(self).balances(), r) == spec_dispatch(old(self).balances(), caller@, call),
    {
        match call {
            Call::Transfer { to, amount } => self.transfer(caller, to, amount),
        }
    }
}

/// What `Pallet::dispatch` does to a balances mapping for each call variant.
pub open spec fn spec_dispatch(
    balances: Map<Seq<char>, Balance>,
    caller: Seq<char>,
    call: Call,
) -> (Map<Seq<char>, Balance>, DispatchResult) {
    match call {
        Call::Transfer { to, amount } => spec_transfer(balances, caller, to@, amount),
    }
}

/// A successful transfer between two distinct accounts moves exactly
/// `amount`: the caller's balance drops by it, the recipient's rises by it,
/// and their sum is conserved.
pub proof fn lemma_transfer_conservation(
    balances: Map<Seq<char>, Balance>,
    caller: Seq<char>,
    to: Seq<char>,
    amount: Balance,
)
    requires
        caller != to,
        amount <= balance_of(balances, caller),
        balance_of(balances, to) + amount <= Balance::MAX,
    ensures
        ({
            let (after, r) = spec_transfer(balances, caller, to, amount);
            &&& r == Ok::<(), DispatchError>(())
            &&& balance_of(after, caller) == balance_of(balances, caller) - amount
            &&& balance_of(after, to) == balance_of(balances, to) + amount
            &&& balance_of(after, caller) + balance_of(after, to) == balance_of(balances, caller)
                + balance_of(balances, to)
        }),
{
}

/// Setting an account's balance makes exactly that amount readable for it.
pub proof fn lemma_set_balance_then_balance(
    balances: Map<Seq<char>, Balance>,
    who: Seq<char>,
    amount: Balance,
)
    ensures
        balance_of(balances.insert(who, amount), who) == amount,
{
}

} // verus!
