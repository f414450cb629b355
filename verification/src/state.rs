//! The runtime as plain mathematics: its state, what one extrinsic and a
//! whole block do to it, and the laws that follow.

use vstd::prelude::*;

use crate::balances::Ledger;
use crate::proof_of_existence::Claims;
use crate::support::{DispatchError, DispatchResult};
use crate::system::SystemState;
use crate::types::{BlockNumber, BlockView, ExtrinsicView, Nonce};
use crate::{balances, proof_of_existence, ExtrinsicFailure, RuntimeCallView};

verus! {

/// How many of `extrinsics` were submitted by `who`.
pub open spec fn calls_by(extrinsics: Seq<ExtrinsicView>, who: Seq<char>) -> nat
    decreases extrinsics.len(),
{
    if extrinsics.len() == 0 {
        0
    } else if extrinsics.first().caller == who {
        1 + calls_by(extrinsics.drop_first(), who)
    } else {
        calls_by(extrinsics.drop_first(), who)
    }
}

/// The whole state of the runtime, as plain mathematics: the state of each
/// of its pallets.
pub struct RuntimeState {
    pub system: SystemState,
    pub balances: Ledger,
    pub claims: Claims,
}

impl RuntimeState {
    /// The state of a new runtime: block 0, no nonce, no balance, no claim.
    pub open spec fn genesis() -> RuntimeState {
        RuntimeState {
            system: SystemState::genesis(),
            balances: Map::empty(),
            claims: Map::empty(),
        }
    }

    /// Whether `call`, made by `caller`, is accepted by the pallet it is
    /// addressed to.
    pub open spec fn dispatch_outcome(
        self,
        caller: Seq<char>,
        call: RuntimeCallView,
    ) -> DispatchResult {
        match call {
            RuntimeCallView::Balances(call) => balances::call_outcome(self.balances, caller, call),
            RuntimeCallView::ProofOfExistence(call) => proof_of_existence::call_outcome(
                self.claims,
                caller,
                call,
            ),
        }
    }

    /// The state after `call` was routed to its pallet. Only that pallet's
    /// state can differ.
    pub open spec fn dispatched(self, caller: Seq<char>, call: RuntimeCallView) -> RuntimeState {
        match call {
            RuntimeCallView::Balances(call) => RuntimeState {
                balances: balances::call_effect(self.balances, caller, call),
                ..self
            },
            RuntimeCallView::ProofOfExistence(call) => RuntimeState {
                claims: proof_of_existence::call_effect(self.claims, caller, call),
                ..self
            },
        }
    }

    /// The state after the nonce of `caller` was advanced.
    pub open spec fn counted(self, caller: Seq<char>) -> RuntimeState {
        RuntimeState { system: self.system.next_nonce(caller), ..self }
    }

    /// The state after one extrinsic: the caller's nonce advances, and the
    /// call is dispatched.
    pub open spec fn applied(self, extrinsic: ExtrinsicView) -> RuntimeState {
        self.counted(extrinsic.caller).dispatched(extrinsic.caller, extrinsic.call)
    }

    /// The state after `extrinsics` were applied one after the other.
    pub open spec fn applied_all(self, extrinsics: Seq<ExtrinsicView>) -> RuntimeState
        decreases extrinsics.len(),
    {
        if extrinsics.len() == 0 {
            self
        } else {
            self.applied(extrinsics.first()).applied_all(extrinsics.drop_first())
        }
    }

    /// The records of the extrinsics among `extrinsics` that are rejected
    /// when they are applied one after the other, in their order. The first
    /// of `extrinsics` stands at position `first_index` of block `number`.
    pub open spec fn failures(
        self,
        number: BlockNumber,
        extrinsics: Seq<ExtrinsicView>,
        first_index: nat,
    ) -> Seq<ExtrinsicFailure>
        decreases extrinsics.len(),
    {
        if extrinsics.len() == 0 {
            Seq::empty()
        } else {
            let first = extrinsics.first();
            let rest = self.applied(first).failures(
                number,
                extrinsics.drop_first(),
                first_index + 1,
            );
            match self.counted(first.caller).dispatch_outcome(first.caller, first.call) {
                Ok(_) => rest,
                Err(error) => seq![
                    ExtrinsicFailure { block_number: number, index: first_index as usize, error },
                ] + rest,
            }
        }
    }

    /// Whether no nonce would leave the range of a nonce if `extrinsics`
    /// were applied.
    pub open spec fn nonces_fit(self, extrinsics: Seq<ExtrinsicView>) -> bool {
        forall|who: Seq<char>|
            self.system.nonce_of(who) + #[trigger] calls_by(extrinsics, who) <= Nonce::MAX
    }

    /// Whether a block with `number` in its header is the one expected next.
    pub open spec fn expects(self, number: BlockNumber) -> bool {
        number == self.system.block_number + 1
    }

    /// Whether the counters leave room for `block`: the block counter can
    /// advance, and if the block is the expected one, so can the nonce of
    /// each caller, once for each of their extrinsics.
    pub open spec fn can_execute(self, block: BlockView) -> bool {
        &&& self.system.block_number < BlockNumber::MAX
        &&& self.expects(block.header.block_number) ==> self.nonces_fit(block.extrinsics)
    }

    /// The state after the block counter advanced.
    pub open spec fn advanced(self) -> RuntimeState {
        RuntimeState { system: self.system.next_block(), ..self }
    }

    /// The state after `block` was handled: the block counter advances in
    /// any case, and the extrinsics are applied if the block is the expected
    /// one.
    pub open spec fn executed(self, block: BlockView) -> RuntimeState {
        if self.expects(block.header.block_number) {
            self.advanced().applied_all(block.extrinsics)
        } else {
            self.advanced()
        }
    }

    /// What handling `block` gives back: the records of its rejected
    /// extrinsics if the block is the expected one, and otherwise the
    /// rejection of the whole block.
    pub open spec fn execution_outcome(self, block: BlockView) -> Result<
        Seq<ExtrinsicFailure>,
        DispatchError,
    > {
        if self.expects(block.header.block_number) {
            Ok(self.advanced().failures(block.header.block_number, block.extrinsics, 0))
        } else {
            Err(DispatchError::BlockNumberMismatch)
        }
    }
}

/// The extrinsics from some position on hold no more calls by `who` than
/// all of them do.
pub proof fn lemma_calls_by_suffix(extrinsics: Seq<ExtrinsicView>, from: int, who: Seq<char>)
    requires
        0 <= from <= extrinsics.len(),
    ensures
        calls_by(extrinsics.skip(from), who) <= calls_by(extrinsics, who),
    decreases from,
{
    if from == 0 {
        assert(extrinsics.skip(0) =~= extrinsics);
    } else {
        assert(extrinsics.drop_first().skip(from - 1) =~= extrinsics.skip(from));
        lemma_calls_by_suffix(extrinsics.drop_first(), from - 1, who);
    }
}

/// Applying extrinsics advances the nonce of each account by the number of
/// extrinsics it submitted, whether or not they were accepted, and leaves
/// the block counter as it was.
pub proof fn lemma_nonces_count_extrinsics(
    state: RuntimeState,
    extrinsics: Seq<ExtrinsicView>,
    who: Seq<char>,
)
    requires
        state.nonces_fit(extrinsics),
    ensures
        state.applied_all(extrinsics).system.nonce_of(who) == state.system.nonce_of(who)
            + calls_by(extrinsics, who),
        state.applied_all(extrinsics).system.block_number == state.system.block_number,
    decreases extrinsics.len(),
{
    if extrinsics.len() > 0 {
        let first = extrinsics.first();
        let rest = extrinsics.drop_first();
        let next = state.applied(first);
        assert forall|other: Seq<char>|
            next.system.nonce_of(other) + #[trigger] calls_by(rest, other) <= Nonce::MAX by {
            assert(state.system.nonce_of(other) + calls_by(extrinsics, other) <= Nonce::MAX);
        }
        lemma_nonces_count_extrinsics(next, rest, who);
    }
}

/// A rejected extrinsic advances its caller's nonce and changes nothing
/// else; an accepted one also has the effect of its call.
pub proof fn lemma_rejected_extrinsic_only_counts(state: RuntimeState, extrinsic: ExtrinsicView)
    ensures
        state.counted(extrinsic.caller).dispatch_outcome(extrinsic.caller, extrinsic.call)
            == state.dispatch_outcome(extrinsic.caller, extrinsic.call),
        state.dispatch_outcome(extrinsic.caller, extrinsic.call) is Err ==> state.applied(extrinsic)
            == state.counted(extrinsic.caller),
        state.applied(extrinsic).balances == state.dispatched(
            extrinsic.caller,
            extrinsic.call,
        ).balances,
        state.applied(extrinsic).claims == state.dispatched(
            extrinsic.caller,
            extrinsic.call,
        ).claims,
{
}

/// A block whose header does not carry the number after the current one is
/// rejected, and it advances the block counter and changes nothing else: no
/// nonce, no balance, no claim.
pub proof fn lemma_unexpected_block_applies_nothing(state: RuntimeState, block: BlockView)
    requires
        state.system.block_number < BlockNumber::MAX,
        block.header.block_number != state.system.block_number + 1,
    ensures
        state.execution_outcome(block) == Err::<Seq<ExtrinsicFailure>, DispatchError>(
            DispatchError::BlockNumberMismatch,
        ),
        state.executed(block).system.block_number == state.system.block_number + 1,
        state.executed(block).system.nonces == state.system.nonces,
        state.executed(block).balances == state.balances,
        state.executed(block).claims == state.claims,
{
}

/// Applying extrinsics never moves the block counter.
pub proof fn lemma_extrinsics_keep_block_counter(
    state: RuntimeState,
    extrinsics: Seq<ExtrinsicView>,
)
    ensures
        state.applied_all(extrinsics).system.block_number == state.system.block_number,
    decreases extrinsics.len(),
{
    if extrinsics.len() > 0 {
        lemma_extrinsics_keep_block_counter(
            state.applied(extrinsics.first()),
            extrinsics.drop_first(),
        );
    }
}

/// Every block handed to the runtime, accepted or not, advances the block
/// counter by exactly one.
pub proof fn lemma_every_block_is_counted(state: RuntimeState, block: BlockView)
    requires
        state.system.block_number < BlockNumber::MAX,
    ensures
        state.executed(block).system.block_number == state.system.block_number + 1,
{
    lemma_extrinsics_keep_block_counter(state.advanced(), block.extrinsics);
}

/// Applying extrinsics removes no account: whoever has a nonce or a balance
/// on record still has one afterwards.
pub proof fn lemma_accounts_are_kept(
    state: RuntimeState,
    extrinsics: Seq<ExtrinsicView>,
    who: Seq<char>,
)
    ensures
        state.system.nonces.contains_key(who) ==> state.applied_all(
            extrinsics,
        ).system.nonces.contains_key(who),
        state.balances.contains_key(who) ==> state.applied_all(extrinsics).balances.contains_key(
            who,
        ),
    decreases extrinsics.len(),
{
    if extrinsics.len() > 0 {
        lemma_accounts_are_kept(state.applied(extrinsics.first()), extrinsics.drop_first(), who);
    }
}

/// A call reaches the pallet it is addressed to and no other: a call to the
/// balances pallet leaves the claims as they were, a call to the proof of
/// existence pallet leaves the balances as they were, and neither touches
/// the block counter or a nonce.
pub proof fn lemma_dispatch_reaches_one_pallet(
    state: RuntimeState,
    caller: Seq<char>,
    call: RuntimeCallView,
)
    ensures
        state.dispatched(caller, call).system == state.system,
        call is Balances ==> state.dispatched(caller, call).claims == state.claims,
        call is ProofOfExistence ==> state.dispatched(caller, call).balances == state.balances,
        state.dispatch_outcome(caller, call) is Err ==> state.dispatched(caller, call) == state,
{
}

/// In an accepted block of three extrinsics of which the second is rejected
/// and the others are not, the rejected one does not stop the block: the
/// block as a whole succeeds and reports the second extrinsic only, the first
/// and the third have their effect and the second has none, and each caller's
/// nonce advances once for each of its extrinsics.
pub proof fn lemma_rejected_extrinsic_is_isolated(
    state: RuntimeState,
    block: BlockView,
    first: ExtrinsicView,
    second: ExtrinsicView,
    third: ExtrinsicView,
    who: Seq<char>,
)
    requires
        state.can_execute(block),
        state.expects(block.header.block_number),
        block.extrinsics == seq![first, second, third],
        state.dispatch_outcome(first.caller, first.call) is Ok,
        state.applied(first).dispatch_outcome(second.caller, second.call) is Err,
        state.applied(first).applied(second).dispatch_outcome(third.caller, third.call) is Ok,
    ensures
        state.execution_outcome(block) == Ok::<Seq<ExtrinsicFailure>, DispatchError>(
            seq![
                ExtrinsicFailure {
                    block_number: block.header.block_number,
                    index: 1,
                    error: state.applied(first).dispatch_outcome(
                        second.caller,
                        second.call,
                    )->Err_0,
                },
            ],
        ),
        state.executed(block).balances == state.dispatched(first.caller, first.call).dispatched(
            third.caller,
            third.call,
        ).balances,
        state.executed(block).claims == state.dispatched(first.caller, first.call).dispatched(
            third.caller,
            third.call,
        ).claims,
        state.executed(block).system.nonce_of(who) == state.system.nonce_of(who) + calls_by(
            block.extrinsics,
            who,
        ),
{
    let all = block.extrinsics;
    let tail = seq![second, third];
    let last = seq![third];
    assert(all.drop_first() =~= tail);
    assert(tail.drop_first() =~= last);
    assert(last.drop_first() =~= Seq::<ExtrinsicView>::empty());
    let begun = state.advanced();
    let one = begun.applied(first);
    let two = one.applied(second);
    let three = two.applied(third);
    assert(begun.applied_all(all) == one.applied_all(tail));
    assert(one.applied_all(tail) == two.applied_all(last));
    assert(two.applied_all(last) == three.applied_all(Seq::<ExtrinsicView>::empty()));
    lemma_nonces_count_extrinsics(begun, all, who);
    assert(three.failures(block.header.block_number, Seq::<ExtrinsicView>::empty(), 3)
        =~= Seq::<ExtrinsicFailure>::empty());
    assert(two.failures(block.header.block_number, last, 2) =~= Seq::<ExtrinsicFailure>::empty());
    assert(begun.failures(block.header.block_number, all, 0) =~= one.failures(
        block.header.block_number,
        tail,
        1,
    ));
}

} // verus!
