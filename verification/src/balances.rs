//! The balances pallet: how much each account holds, and transfers between
//! accounts.

use vstd::prelude::*;

use crate::arithmetic::{checked_add_u128, checked_sub_u128, zero_u128};
use crate::storage::StorageMap;
use crate::support::{DispatchError, DispatchResult};
use crate::types::{AccountId, Balance};

verus! {

/// What the balances pallet holds, as plain mathematics: the recorded
/// balances. An account without an entry holds nothing.
pub type Ledger = Map<Seq<char>, Balance>;

/// The balance of `who`: 0 until one is set or received.
pub open spec fn balance_of(ledger: Ledger, who: Seq<char>) -> Balance {
    if ledger.contains_key(who) {
        ledger[who]
    } else {
        0
    }
}

/// Whether a transfer of `amount` from `caller` to `to` is accepted, and if
/// not, why. Both balances are read before anything is written, and the
/// caller's funds are checked first.
pub open spec fn transfer_outcome(
    ledger: Ledger,
    caller: Seq<char>,
    to: Seq<char>,
    amount: Balance,
) -> DispatchResult {
    if balance_of(ledger, caller) < amount {
        Err(DispatchError::InsufficientFunds)
    } else if balance_of(ledger, to) + amount > Balance::MAX {
        Err(DispatchError::BalanceOverflow)
    } else {
        Ok(())
    }
}

/// The ledger after `amount` was taken from `caller`.
pub open spec fn withdrawn(ledger: Ledger, caller: Seq<char>, amount: Balance) -> Ledger {
    ledger.insert(caller, (balance_of(ledger, caller) - amount) as Balance)
}

/// The ledger after `amount` was given to `to`.
pub open spec fn deposited(ledger: Ledger, to: Seq<char>, amount: Balance) -> Ledger {
    ledger.insert(to, (balance_of(ledger, to) + amount) as Balance)
}

/// The ledger after a transfer was attempted: an accepted transfer takes
/// `amount` from `caller` and gives it to `to`; a rejected one changes
/// nothing.
pub open spec fn transfer_effect(
    ledger: Ledger,
    caller: Seq<char>,
    to: Seq<char>,
    amount: Balance,
) -> Ledger {
    if transfer_outcome(ledger, caller, to, amount) is Ok {
        deposited(withdrawn(ledger, caller, amount), to, amount)
    } else {
        ledger
    }
}

/// A transfer is accepted exactly when the caller holds at least `amount`
/// and the balance of `to` can take it. An accepted transfer between two
/// accounts lowers the caller's balance by `amount` and raises the balance
/// of `to` by `amount`; a rejected one leaves the ledger as it was. No other
/// account's balance changes either way.
pub proof fn lemma_transfer_moves_amount(
    ledger: Ledger,
    caller: Seq<char>,
    to: Seq<char>,
    amount: Balance,
    other: Seq<char>,
)
    ensures
        transfer_outcome(ledger, caller, to, amount) is Ok <==> balance_of(ledger, caller) >= amount
            && balance_of(ledger, to) + amount <= Balance::MAX,
        transfer_outcome(ledger, caller, to, amount) is Ok && caller != to ==> {
            &&& balance_of(transfer_effect(ledger, caller, to, amount), caller) == balance_of(
                ledger,
                caller,
            ) - amount
            &&& balance_of(transfer_effect(ledger, caller, to, amount), to) == balance_of(
                ledger,
                to,
            ) + amount
        },
        transfer_outcome(ledger, caller, to, amount) is Err ==> transfer_effect(
            ledger,
            caller,
            to,
            amount,
        ) == ledger,
        other != caller && other != to ==> balance_of(
            transfer_effect(ledger, caller, to, amount),
            other,
        ) == balance_of(ledger, other),
{
}

/// A transfer from an account to itself is accepted when the account holds
/// at least `amount` and its balance could take `amount` more, and it leaves
/// the balance as it was.
pub proof fn lemma_self_transfer_keeps_balance(ledger: Ledger, who: Seq<char>, amount: Balance)
    requires
        balance_of(ledger, who) >= amount,
        balance_of(ledger, who) + amount <= Balance::MAX,
    ensures
        transfer_outcome(ledger, who, who, amount) is Ok,
        balance_of(transfer_effect(ledger, who, who, amount), who) == balance_of(ledger, who),
{
}

/// One step in the life of a ledger.
pub enum LedgerOp {
    /// The balance of `who` is set to `amount`.
    SetBalance { who: Seq<char>, amount: Balance },
    /// A transfer of `amount` from `caller` to `to` is attempted.
    Transfer { caller: Seq<char>, to: Seq<char>, amount: Balance },
}

/// The ledger after `op`.
pub open spec fn op_effect(ledger: Ledger, op: LedgerOp) -> Ledger {
    match op {
        LedgerOp::SetBalance { who, amount } => ledger.insert(who, amount),
        LedgerOp::Transfer { caller, to, amount } => transfer_effect(ledger, caller, to, amount),
    }
}

/// Whether `op` sets the balance of `who`, or is an accepted transfer from
/// or to `who`.
pub open spec fn op_involves(ledger: Ledger, op: LedgerOp, who: Seq<char>) -> bool {
    match op {
        LedgerOp::SetBalance { who: target, amount } => target == who,
        LedgerOp::Transfer { caller, to, amount } => transfer_outcome(ledger, caller, to, amount)
            is Ok && (caller == who || to == who),
    }
}

/// The ledger reached from the empty one by `ops`, in order.
pub open spec fn replay(ops: Seq<LedgerOp>) -> Ledger
    decreases ops.len(),
{
    if ops.len() == 0 {
        Map::empty()
    } else {
        op_effect(replay(ops.drop_last()), ops.last())
    }
}

/// Whether none of `ops`, run in order from the empty ledger, involves
/// `who`.
pub open spec fn never_involved(ops: Seq<LedgerOp>, who: Seq<char>) -> bool
    decreases ops.len(),
{
    ops.len() == 0 || (never_involved(ops.drop_last(), who) && !op_involves(
        replay(ops.drop_last()),
        ops.last(),
        who,
    ))
}

/// An account holds nothing until its balance is set or an accepted
/// transfer involves it.
pub proof fn lemma_untouched_account_holds_nothing(ops: Seq<LedgerOp>, who: Seq<char>)
    requires
        never_involved(ops, who),
    ensures
        balance_of(replay(ops), who) == 0,
    decreases ops.len(),
{
    if ops.len() > 0 {
        lemma_untouched_account_holds_nothing(ops.drop_last(), who);
    }
}

/// The calls that the balances pallet accepts from accounts.
#[derive(Debug)]
pub enum Call {
    /// Transfer `amount` from the caller to `to`.
    Transfer { to: AccountId, amount: Balance },
}

/// A [`Call`] as plain mathematics.
pub enum CallView {
    Transfer { to: Seq<char>, amount: Balance },
}

impl View for Call {
    type V = CallView;

    open spec fn view(&self) -> CallView {
        match *self {
            Call::Transfer { to, amount } => CallView::Transfer { to: to@, amount },
        }
    }
}

/// Whether `call`, made by `caller`, is accepted.
pub open spec fn call_outcome(ledger: Ledger, caller: Seq<char>, call: CallView) -> DispatchResult {
    match call {
        CallView::Transfer { to, amount } => transfer_outcome(ledger, caller, to, amount),
    }
}

/// The ledger after `call` was made by `caller`.
pub open spec fn call_effect(ledger: Ledger, caller: Seq<char>, call: CallView) -> Ledger {
    match call {
        CallView::Transfer { to, amount } => transfer_effect(ledger, caller, to, amount),
    }
}

/// The balances pallet. It keeps track of how much balance each account has
/// in this state machine.
#[derive(Debug)]
pub struct Pallet {
    balances: StorageMap<Balance>,
}

impl View for Pallet {
    type V = Ledger;

    closed spec fn view(&self) -> Ledger {
        self.balances@
    }
}

impl Pallet {
    /// Transfer `amount` from `caller` to `to`.
    ///
    /// The transfer is rejected, and nothing changes, when `caller` holds
    /// less than `amount` or when the balance of `to` would overflow.
    pub fn transfer(&mut self, caller: AccountId, to: AccountId, amount: Balance) -> (result:
        DispatchResult)
        ensures
            result == transfer_outcome(old(self)@, caller@, to@, amount),
            final(self)@ == transfer_effect(old(self)@, caller@, to@, amount),
    {
        let caller_balance: Balance = self.balance(&caller);
        let to_balance: Balance = self.balance(&to);

        let new_caller_balance: Balance = match checked_sub_u128(caller_balance, amount) {
            Some(balance) => balance,
            None => {
                return Err(DispatchError::InsufficientFunds);
            },
        };
        let new_to_balance: Balance = match checked_add_u128(to_balance, amount) {
            Some(balance) => balance,
            None => {
                return Err(DispatchError::BalanceOverflow);
            },
        };

        if caller == to {
            self.set_balance(&caller, caller_balance);
        } else {
            self.set_balance(&caller, new_caller_balance);
            self.set_balance(&to, new_to_balance);
        }
        Ok(())
    }

    /// Handle `call` on behalf of `caller`.
    pub fn dispatch(&mut self, caller: AccountId, call: Call) -> (result: DispatchResult)
        ensures
            result == call_outcome(old(self)@, caller@, call@),
            final(self)@ == call_effect(old(self)@, caller@, call@),
    {
        match call {
            Call::Transfer { to, amount } => self.transfer(caller, to, amount),
        }
    }

    /// Create a new instance of the balances pallet, with no balance set.
    pub fn new() -> (pallet: Self)
        ensures
            pallet@ == Map::<Seq<char>, Balance>::empty(),
    {
        Pallet { balances: StorageMap::new() }
    }

    /// Set the balance of an account `who` to some `amount`.
    pub fn set_balance(&mut self, who: &AccountId, amount: Balance)
        ensures
            final(self)@ == old(self)@.insert(who@, amount),
    {
        self.balances.insert(who.clone(), amount);
    }

    /// Get the balance of an account `who`.
    /// If the account has no stored balance, we return zero.
    pub fn balance(&self, who: &AccountId) -> (balance: Balance)
        ensures
            balance == balance_of(self@, who@),
    {
        match self.balances.get(who) {
            Some(balance) => *balance,
            None => zero_u128(),
        }
    }
}

} // verus!
