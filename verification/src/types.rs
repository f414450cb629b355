//! The concrete types that every pallet of the runtime shares.

use vstd::prelude::*;

use crate::support;
use crate::{RuntimeCall, RuntimeCallView};

verus! {

/// Identifies an account. Pallets only compare and copy identifiers.
pub type AccountId = String;

/// An amount held by an account.
pub type Balance = u128;

/// The number of a block; genesis is 0.
pub type BlockNumber = u32;

/// How many extrinsics an account has submitted.
pub type Nonce = u32;

/// Content that can be claimed.
pub type Content = String;

/// A call of the runtime with the account that submitted it.
pub type Extrinsic = support::Extrinsic<AccountId, RuntimeCall>;

/// An [`Extrinsic`] as plain mathematics.
pub type ExtrinsicView = support::Extrinsic<Seq<char>, RuntimeCallView>;

/// The header of a block of the runtime.
pub type Header = support::Header<BlockNumber>;

/// A block of the runtime.
pub type Block = support::Block<Header, Extrinsic>;

/// A [`Block`] as plain mathematics.
pub type BlockView = support::BlockView<Header, ExtrinsicView>;

} // verus!
