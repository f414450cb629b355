//! A minimal deterministic state-transition engine in the style of a
//! blockchain runtime: blocks of extrinsics are applied, in order, to the
//! state of three independent pallets.

use vstd::prelude::*;

use crate::state::{calls_by, lemma_calls_by_suffix, RuntimeState};
use crate::support::{DispatchError, DispatchResult};
use crate::types::{AccountId, Block, BlockNumber, Extrinsic, ExtrinsicView, Nonce};

mod arithmetic;
pub mod balances;
pub mod proof_of_existence;
pub mod state;
pub mod storage;
pub mod support;
pub mod system;
pub mod types;

verus! {

/// Every call that an account can submit, tagged with the pallet that
/// handles it.
#[derive(Debug)]
pub enum RuntimeCall {
    Balances(balances::Call),
    ProofOfExistence(proof_of_existence::Call),
}

/// A [`RuntimeCall`] as plain mathematics.
pub enum RuntimeCallView {
    Balances(balances::CallView),
    ProofOfExistence(proof_of_existence::CallView),
}

impl View for RuntimeCall {
    type V = RuntimeCallView;

    open spec fn view(&self) -> RuntimeCallView {
        match *self {
            RuntimeCall::Balances(call) => RuntimeCallView::Balances(call@),
            RuntimeCall::ProofOfExistence(call) => RuntimeCallView::ProofOfExistence(call@),
        }
    }
}

/// The record of an extrinsic that was rejected while its block was applied.
#[derive(Clone, Copy, Debug, PartialEq, Eq)]
pub struct ExtrinsicFailure {
    /// The number in the header of the block.
    pub block_number: BlockNumber,
    /// The position of the extrinsic in the block, counted from 0.
    pub index: usize,
    /// Why the extrinsic was rejected.
    pub error: DispatchError,
}

/// What handling a block gives back: the records of the extrinsics that
/// were rejected, or why the whole block was.
pub type ExecutionResult = Result<Vec<ExtrinsicFailure>, DispatchError>;

/// The runtime: the three pallets, behind one entry point for blocks.
#[derive(Debug)]
pub struct Runtime {
    pub system: system::Pallet,
    pub balances: balances::Pallet,
    pub proof_of_existence: proof_of_existence::Pallet,
}

impl View for Runtime {
    type V = RuntimeState;

    open spec fn view(&self) -> RuntimeState {
        RuntimeState {
            system: self.system@,
            balances: self.balances@,
            claims: self.proof_of_existence@,
        }
    }
}

impl Runtime {
    /// Create a new runtime, at genesis.
    pub fn new() -> (runtime: Self)
        ensures
            runtime@ == RuntimeState::genesis(),
    {
        Runtime {
            system: system::Pallet::new(),
            balances: balances::Pallet::new(),
            proof_of_existence: proof_of_existence::Pallet::new(),
        }
    }

    /// Create a new runtime, at genesis.
    pub fn instace() -> (runtime: Self)
        ensures
            runtime@ == RuntimeState::genesis(),
    {
        Self::new()
    }

    /// Route `call` to the pallet it is addressed to, on behalf of `caller`.
    pub fn dispatch(&mut self, caller: AccountId, call: RuntimeCall) -> (result: DispatchResult)
        ensures
            result == old(self)@.dispatch_outcome(caller@, call@),
            final(self)@ == old(self)@.dispatched(caller@, call@),
    {
        match call {
            RuntimeCall::Balances(call) => self.balances.dispatch(caller, call),
            RuntimeCall::ProofOfExistence(call) => self.proof_of_existence.dispatch(caller, call),
        }
    }

    /// Handle a block: advance the block counter, check that the block is
    /// the expected one, and apply its extrinsics in order.
    ///
    /// A block that is not the expected one is rejected as a whole, after
    /// the block counter has advanced. An extrinsic that is rejected does
    /// not stop the block: its caller's nonce still advances, the extrinsics
    /// after it are still applied, and its record is handed back.
    pub fn execute_block(&mut self, block: Block) -> (result: ExecutionResult)
        requires
            old(self)@.can_execute(block@),
        ensures
            final(self)@ == old(self)@.executed(block@),
            match result {
                Ok(report) => old(self)@.execution_outcome(block@) == Ok::<
                    Seq<ExtrinsicFailure>,
                    DispatchError,
                >(report@),
                Err(error) => old(self)@.execution_outcome(block@) == Err::<
                    Seq<ExtrinsicFailure>,
                    DispatchError,
                >(error),
            },
    {
        self.system.inc_block_number();
        let number: BlockNumber = block.header.block_number;
        if number != self.system.block_number() {
            return Err(DispatchError::BlockNumberMismatch);
        }
        let ghost all = block@.extrinsics;
        let ghost start = self@;
        assert(all.len() == block.extrinsics.len());
        let mut report: Vec<ExtrinsicFailure> = Vec::new();
        let mut index: usize = 0;
        assert(all.skip(0) =~= all);
        for extrinsic in it: block.extrinsics.into_iter()
            invariant
                index == it.index(),
                it.seq().map_values(|extrinsic: Extrinsic| extrinsic@) == all,
                all.len() <= usize::MAX,
                self@.applied_all(all.skip(index as int)) == start.applied_all(all),
                report@ + self@.failures(number, all.skip(index as int), index as nat)
                    == start.failures(number, all, 0),
                self@.nonces_fit(all.skip(index as int)),
        {
            let ghost before = self@;
            let ghost rest = all.skip(index as int);
            assert(rest.drop_first() =~= all.skip(index + 1));
            assert(before.system.nonce_of(extrinsic.caller@) + calls_by(rest, extrinsic.caller@)
                <= Nonce::MAX);
            let support::Extrinsic { caller, call } = extrinsic;
            self.system.inc_nonce(&caller);
            match self.dispatch(caller, call) {
                Ok(_) => {},
                Err(error) => {
                    report.push(ExtrinsicFailure { block_number: number, index, error });
                },
            }
            assert forall|who: Seq<char>|
                self@.system.nonce_of(who) + #[trigger] calls_by(all.skip(index + 1), who)
                    <= Nonce::MAX by {
                assert(before.system.nonce_of(who) + calls_by(rest, who) <= Nonce::MAX);
            }
            index = index + 1;
        }
        Ok(report)
    }

    /// Whether the counters leave room for `block`, so that it can be handed
    /// to [`Runtime::execute_block`].
    pub fn can_execute(&self, block: &Block) -> (ok: bool)
        ensures
            ok == self@.can_execute(block@),
    {
        let current: BlockNumber = self.system.block_number();
        if current == BlockNumber::MAX {
            return false;
        }
        if block.header.block_number != current + 1 {
            return true;
        }
        let ghost all = block@.extrinsics;
        let mut i: usize = block.extrinsics.len();
        while i > 0
            invariant
                i <= block.extrinsics.len(),
                all == block@.extrinsics,
                self@.expects(block.header.block_number),
                self@.nonces_fit(all.skip(i as int)),
            decreases i,
        {
            i = i - 1;
            let caller = &block.extrinsics[i].caller;
            let nonce: Nonce = self.system.get_nonce(caller);
            let later: usize = count_calls_from(block, i + 1, caller);
            proof {
                assert(all.skip(i as int).drop_first() =~= all.skip(i + 1));
            }
            if later >= (Nonce::MAX - nonce) as usize {
                proof {
                    lemma_calls_by_suffix(all, i as int, caller@);
                }
                return false;
            }
            assert forall|who: Seq<char>|
                self@.system.nonce_of(who) + #[trigger] calls_by(all.skip(i as int), who)
                    <= Nonce::MAX by {
                assert(self@.system.nonce_of(who) + calls_by(all.skip(i + 1), who) <= Nonce::MAX);
            }
        }
        assert(all.skip(0) =~= all);
        true
    }

    /// Handle a block; see [`Runtime::execute_block`].
    pub fn execute(&mut self, block: Block) -> (result: ExecutionResult)
        requires
            old(self)@.can_execute(block@),
        ensures
            final(self)@ == old(self)@.executed(block@),
            match result {
                Ok(report) => old(self)@.execution_outcome(block@) == Ok::<
                    Seq<ExtrinsicFailure>,
                    DispatchError,
                >(report@),
                Err(error) => old(self)@.execution_outcome(block@) == Err::<
                    Seq<ExtrinsicFailure>,
                    DispatchError,
                >(error),
            },
    {
        self.execute_block(block)
    }
}

/// How many of the extrinsics of `block` from position `from` on were
/// submitted by `who`.
fn count_calls_from(block: &Block, from: usize, who: &AccountId) -> (count: usize)
    requires
        from <= block.extrinsics.len(),
    ensures
        count == calls_by(block@.extrinsics.skip(from as int), who@),
{
    let ghost all = block@.extrinsics;
    let mut count: usize = 0;
    let mut i: usize = block.extrinsics.len();
    while i > from
        invariant
            from <= i <= block.extrinsics.len(),
            all == block@.extrinsics,
            count == calls_by(all.skip(i as int), who@),
            count <= block.extrinsics.len() - i,
        decreases i,
    {
        i = i - 1;
        proof {
            assert(all.skip(i as int).drop_first() =~= all.skip(i + 1));
        }
        if block.extrinsics[i].caller == *who {
            count = count + 1;
        }
    }
    count
}

} // verus!
