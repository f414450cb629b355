//! The vocabulary shared by the pallets and the runtime: blocks, extrinsics
//! and the outcome of dispatching a call.

use vstd::prelude::*;

verus! {

/// Why a call, or a whole block, was rejected.
#[derive(Clone, Copy, Debug, PartialEq, Eq, Structural)]
pub enum DispatchError {
    /// The caller's balance is below the amount to transfer.
    InsufficientFunds,
    /// The receiver's balance would exceed the range of a balance.
    BalanceOverflow,
    /// The content already has an owner.
    ClaimAlreadyExists,
    /// The content to revoke has no owner.
    ClaimNotFound,
    /// The content to revoke is owned by another account.
    NotClaimOwner,
    /// The block's header does not carry the next block number.
    BlockNumberMismatch,
}

impl DispatchError {
    /// The text of [`DispatchError::message`].
    pub open spec fn message_text(self) -> Seq<char> {
        match self {
            DispatchError::InsufficientFunds => "Not enough funds."@,
            DispatchError::BalanceOverflow => "Fund overflow."@,
            DispatchError::ClaimAlreadyExists => "Claim already exists"@,
            DispatchError::ClaimNotFound => "Claim does not exist"@,
            DispatchError::NotClaimOwner => "Caller is not the owner of the claim"@,
            DispatchError::BlockNumberMismatch => "block number does not match what is expected"@,
        }
    }

    /// A short description for logs and messages.
    pub fn message(&self) -> (text: &'static str)
        ensures
            text@ == self.message_text(),
    {
        match self {
            DispatchError::InsufficientFunds => "Not enough funds.",
            DispatchError::BalanceOverflow => "Fund overflow.",
            DispatchError::ClaimAlreadyExists => "Claim already exists",
            DispatchError::ClaimNotFound => "Claim does not exist",
            DispatchError::NotClaimOwner => "Caller is not the owner of the claim",
            DispatchError::BlockNumberMismatch => "block number does not match what is expected",
        }
    }
}

/// The outcome of dispatching a call or of handling a block.
pub type DispatchResult = Result<(), DispatchError>;

/// The header of a block: the number the block claims to have.
#[derive(Debug)]
pub struct Header<BlockNumber> {
    pub block_number: BlockNumber,
}

/// A call together with the account that submitted it.
#[derive(Debug)]
pub struct Extrinsic<Caller, Call> {
    pub caller: Caller,
    pub call: Call,
}

/// A header and the extrinsics to apply, in order.
#[derive(Debug)]
pub struct Block<Header, Extrinsic> {
    pub header: Header,
    pub extrinsics: Vec<Extrinsic>,
}

/// A [`Block`] as plain mathematics: its header and the views of its
/// extrinsics, in their order.
pub struct BlockView<Header, Extrinsic> {
    pub header: Header,
    pub extrinsics: Seq<Extrinsic>,
}

impl<Header, Extrinsic: View> View for Block<Header, Extrinsic> {
    type V = BlockView<Header, Extrinsic::V>;

    open spec fn view(&self) -> BlockView<Header, Extrinsic::V> {
        BlockView {
            header: self.header,
            extrinsics: self.extrinsics@.map_values(|extrinsic: Extrinsic| extrinsic@),
        }
    }
}

impl<Caller: View, Call: View> View for Extrinsic<Caller, Call> {
    type V = Extrinsic<Caller::V, Call::V>;

    open spec fn view(&self) -> Extrinsic<Caller::V, Call::V> {
        Extrinsic { caller: self.caller@, call: self.call@ }
    }
}

} // verus!
