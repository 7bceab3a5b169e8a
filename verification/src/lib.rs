//! A minimal deterministic state-transition runtime: independent state
//! modules ("pallets"), each owning a disjoint slice of global state,
//! composed into a single runtime that executes blocks of submitted
//! operations ("extrinsics") in order, one at a time, isolating the failure
//! of one extrinsic from the processing of the others.

pub mod account_map;
pub mod balances;
pub mod proof_of_existence;
pub mod support;
pub mod system;
pub mod types;

use vstd::prelude::*;

use crate::support::{DispatchError, DispatchResult};
use crate::system::nonce_of;
use crate::types::{AccountId, Block, BlockNumber, Extrinsic, Nonce};

verus! {

/// Everything the runtime owns, as one specification value: the system
/// pallet's block number and nonces, the balances mapping and the claims
/// mapping.
pub struct StateView {
    pub block_number: BlockNumber,
    pub nonces: Map<Seq<char>, Nonce>,
    pub balances: Map<Seq<char>, types::Balance>,
    pub claims: Map<Seq<char>, AccountId>,
}

/// One operation a caller can submit, routed to the pallet whose variant
/// wraps it. Adding a pallet means adding one variant here and one
/// forwarding arm to `Runtime::dispatch`.
#[derive(Debug)]
pub enum RuntimeCall {
    Balances(balances::Call),
    ProofOfExistence(proof_of_existence::Call),
}

/// What `Runtime::dispatch` does to the state: exactly one pallet's mapping
/// changes, as that pallet's own dispatch function says; the system pallet
/// is never touched by a call.
pub open spec fn spec_dispatch(s: StateView, caller: AccountId, call: RuntimeCall) -> (
    StateView,
    DispatchResult,
) {
    match call {
        RuntimeCall::Balances(call) => {
            let (after, r) = balances::spec_dispatch(s.balances, caller@, call);
            (StateView { balances: after, ..s }, r)
        },
        RuntimeCall::ProofOfExistence(call) => {
            let (after, r) = proof_of_existence::spec_dispatch(s.claims, caller, call);
            (StateView { claims: after, ..s }, r)
        },
    }
}

/// One step of the block-execution loop: the caller's nonce is stepped
/// unconditionally, then the call is dispatched. The outcome is reported but
/// never undoes the nonce step.
pub open spec fn spec_apply_extrinsic(s: StateView, x: Extrinsic) -> (StateView, DispatchResult) {
    let bumped = StateView {
        nonces: s.nonces.insert(x.caller@, (nonce_of(s.nonces, x.caller@) + 1) as Nonce),
        ..s
    };
    spec_dispatch(bumped, x.caller, x.call)
}

/// The state after applying a sequence of extrinsics in order.
pub open spec fn spec_execute(s: StateView, xts: Seq<Extrinsic>) -> StateView
    decreases xts.len(),
{
    if xts.len() == 0 {
        s
    } else {
        spec_apply_extrinsic(spec_execute(s, xts.drop_last()), xts.last()).0
    }
}

/// The outcome of each extrinsic in a sequence, in submission order.
pub open spec fn spec_outcomes(s: StateView, xts: Seq<Extrinsic>) -> Seq<DispatchResult>
    decreases xts.len(),
{
    if xts.len() == 0 {
        Seq::empty()
    } else {
        spec_outcomes(s, xts.drop_last()).push(
            spec_apply_extrinsic(spec_execute(s, xts.drop_last()), xts.last()).1,
        )
    }
}

/// The composition root: one instance of each pallet, exclusively owned.
#[derive(Debug)]
pub struct Runtime {
    pub system: system::Pallet,
    pub balances: balances::Pallet,
    pub proof_of_existence: proof_of_existence::Pallet,
}

impl View for Runtime {
    type V = StateView;

    closed spec fn view(&self) -> StateView {
        StateView {
            block_number: self.system.spec_block_number(),
            nonces: self.system.nonces(),
            balances: self.balances.balances(),
            claims: self.proof_of_existence.claims(),
        }
    }
}

impl Runtime {
    pub open spec fn wf(self) -> bool {
        &&& self.system.wf()
        &&& self.balances.wf()
        &&& self.proof_of_existence.wf()
    }

    /// A fresh runtime: block number zero and every mapping empty, so every
    /// account reads balance zero and nonce zero, and nothing is claimed.
    pub fn new() -> (r: Self)
        ensures
            r.wf(),
            r@.block_number == 0,
            r@.nonces == Map::<Seq<char>, Nonce>::empty(),
            r@.balances == Map::<Seq<char>, types::Balance>::empty(),
            r@.claims == Map::<Seq<char>, AccountId>::empty(),
    {
        Runtime {
            system: system::Pallet::new(),
            balances: balances::Pallet::new(),
            proof_of_existence: proof_of_existence::Pallet::new(),
        }
    }

    /// Routes a call to the pallet that owns it, on behalf of `caller`.
    pub fn dispatch(&mut self, caller: AccountId, runtime_call: RuntimeCall) -> (r: DispatchResult)
        requires
            old(self).wf(),
        ensures
            final(self).wf(),
            (final(self)@, r) == spec_dispatch(old(self)@, caller, runtime_call),
    {
        match runtime_call {
            RuntimeCall::Balances(call) => self.balances.dispatch(caller, call),
            RuntimeCall::ProofOfExistence(call) => self.proof_of_existence.dispatch(caller, call),
        }
    }

    /// Executes one block: the block counter is stepped first, and a block
    /// whose header does not carry the stepped number is refused whole, the
    /// counter staying stepped. Otherwise every extrinsic is attempted in
    /// order — the caller's nonce stepped unconditionally, then the call
    /// dispatched — and the outcome of each is returned in order, a failed
    /// extrinsic never stopping the ones after it.
    pub fn execute_block(&mut self, block: Block) -> (r: Result<
        Vec<DispatchResult>,
        DispatchError,
    >)
        requires
            old(self).wf(),
            old(self)@.block_number < BlockNumber::MAX,
            forall|j: int|
                0 <= j < block.extrinsics@.len() ==> nonce_of(
                    old(self)@.nonces,
                    #[trigger] block.extrinsics@[j].caller@,
                ) + block.extrinsics@.len() <= Nonce::MAX,
        ensures
            final(self).wf(),
            ({
                let stepped = StateView {
                    block_number: (old(self)@.block_number + 1) as BlockNumber,
                    ..old(self)@
                };
                if stepped.block_number == block.header.block_number {
                    &&& r matches Ok(outcomes) && outcomes@ == spec_outcomes(
                        stepped,
                        block.extrinsics@,
                    )
                    &&& final(self)@ == spec_execute(stepped, block.extrinsics@)
                } else {
                    &&& r == Err::<Vec<DispatchResult>, DispatchError>(
                        DispatchError::BlockNumberMismatch,
                    )
                    &&& final(self)@ == stepped
                }
            }),
    {
        self.system.inc_block_number();
        if self.system.block_number() != block.header.block_number {
            return Err(DispatchError::BlockNumberMismatch);
        }
        let ghost stepped = self@;
        let ghost xts = block.extrinsics@;
        let mut extrinsics = block.extrinsics;
        let mut outcomes: Vec<DispatchResult> = Vec::new();
        let n = extrinsics.len();
        let mut i: usize = 0;
        while i < n
            invariant
                self.wf(),
                i <= n,
                n == xts.len(),
                extrinsics@ == xts.skip(i as int),
                self@ == spec_execute(stepped, xts.take(i as int)),
                outcomes@ == spec_outcomes(stepped, xts.take(i as int)),
                forall|j: int|
                    0 <= j < n ==> nonce_of(stepped.nonces, #[trigger] xts[j].caller@) + n
                        <= Nonce::MAX,
                forall|a: Seq<char>|
                    nonce_of(#[trigger] self@.nonces, a) <= nonce_of(stepped.nonces, a) + i,
            decreases n - i,
        {
            let ghost prev = self@;
            proof {
                assert(xts.skip(i as int)[0] == xts[i as int]);
            }
            let x = extrinsics.remove(0);
            self.system.inc_nonce(&x.caller);
            let res = self.dispatch(x.caller, x.call);
            outcomes.push(res);
            proof {
                assert(extrinsics@ =~= xts.skip(i as int + 1));
                assert(xts.take(i as int + 1).drop_last() =~= xts.take(i as int));
                assert(xts.take(i as int + 1).last() == xts[i as int]);
                assert(self@ == spec_apply_extrinsic(prev, xts[i as int]).0);
                assert(res == spec_apply_extrinsic(prev, xts[i as int]).1);
                assert forall|a: Seq<char>|
                    nonce_of(#[trigger] self@.nonces, a) <= nonce_of(stepped.nonces, a) + i
                        + 1 by {
                    assert(nonce_of(prev.nonces, a) <= nonce_of(stepped.nonces, a) + i);
                }
            }
            i = i + 1;
        }
        proof {
            assert(xts.take(n as int) =~= xts);
        }
        Ok(outcomes)
    }
}

/// How many extrinsics of a sequence are submitted by `who`.
pub open spec fn count_calls_by(xts: Seq<Extrinsic>, who: Seq<char>) -> nat
    decreases xts.len(),
{
    if xts.len() == 0 {
        0
    } else {
        count_calls_by(xts.drop_last(), who) + if xts.last().caller@ == who {
            1nat
        } else {
            0nat
        }
    }
}

/// Dispatching a call never touches the system pallet: the block number and
/// every nonce are exactly what they were.
pub proof fn lemma_dispatch_preserves_system(s: StateView, caller: AccountId, call: RuntimeCall)
    ensures
        spec_dispatch(s, caller, call).0.nonces == s.nonces,
        spec_dispatch(s, caller, call).0.block_number == s.block_number,
{
    match call {
        RuntimeCall::Balances(_) => {},
        RuntimeCall::ProofOfExistence(_) => {},
    }
}

/// Executing a sequence of extrinsics steps an account's nonce by exactly
/// the number of extrinsics that account submitted — once per extrinsic,
/// whatever each dispatch returned.
pub proof fn lemma_nonce_counts_extrinsics(s: StateView, xts: Seq<Extrinsic>, who: Seq<char>)
    requires
        nonce_of(s.nonces, who) + count_calls_by(xts, who) <= Nonce::MAX,
    ensures
        nonce_of(spec_execute(s, xts).nonces, who) == nonce_of(s.nonces, who) + count_calls_by(
            xts,
            who,
        ),
    decreases xts.len(),
{
    if xts.len() == 0 {
    } else {
        let prefix = xts.drop_last();
        let x = xts.last();
        lemma_nonce_counts_extrinsics(s, prefix, who);
        let mid = spec_execute(s, prefix);
        let bumped = StateView {
            nonces: mid.nonces.insert(x.caller@, (nonce_of(mid.nonces, x.caller@) + 1) as Nonce),
            ..mid
        };
        lemma_dispatch_preserves_system(bumped, x.caller, x.call);
    }
}

} // verus!

