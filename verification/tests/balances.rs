use rust_state_machine::balances::{Call, Pallet};
use rust_state_machine::support::DispatchError;

fn setup() -> (Pallet, String, String) {
    let balances = Pallet::new();
    let alice = String::from("alice");
    let bob = String::from("bob");

    (balances, alice, bob)
}

#[test]
fn init_balances() {
    let (mut balances, alice, bob) = setup();

    assert_eq!(balances.balance(&alice), 0);
    balances.set_balance(&alice, 100);
    assert_eq!(balances.balance(&alice), 100);
    assert_eq!(balances.balance(&bob), 0);
}

#[test]
fn transfer_balance() {
    // That `alice` can successfully transfer funds to `bob`
    // That the balance of `alice` and `bob` is correctly updated.
    // Arrange
    let (mut balances, alice, bob) = setup();
    balances.set_balance(&alice, 100);
    // Act
    let result = balances.transfer(alice.clone(), bob.clone(), 75);
    // Assert
    assert_eq!(result, Ok(()));
    assert_eq!(balances.balance(&alice), 25);
    assert_eq!(balances.balance(&bob), 75);
}

#[test]
fn transfer_balance_insufficient() {
    // Arrange
    let (mut balances, alice, bob) = setup();
    balances.set_balance(&alice, 100);
    // Act
    let result = balances.transfer(alice, bob, 110);
    // Assert
    assert_eq!(result.map_err(|error| error.message()), Err("Not enough funds."));
    assert_eq!(result, Err(DispatchError::InsufficientFunds));
}

#[test]
fn transfer_balance_overflow() {
    // Arrange
    let (mut balances, alice, bob) = setup();
    balances.set_balance(&alice, 100);
    balances.set_balance(&bob, std::u128::MAX);
    // Act
    let result = balances.transfer(alice, bob, 1);
    // Assert
    assert_eq!(result.map_err(|error| error.message()), Err("Fund overflow."));
    assert_eq!(result, Err(DispatchError::BalanceOverflow));
}

#[test]
fn unset_balance_is_zero_until_touched() {
    let (mut balances, alice, bob) = setup();
    let charlie = String::from("charlie");
    assert_eq!(balances.balance(&charlie), 0);

    balances.set_balance(&alice, 10);
    assert_eq!(balances.transfer(alice.clone(), bob.clone(), 4), Ok(()));
    assert_eq!(balances.transfer(bob.clone(), alice.clone(), 5), Err(DispatchError::InsufficientFunds));
    // Charlie was the target of nothing, and of a rejected transfer only.
    assert_eq!(balances.transfer(bob.clone(), charlie.clone(), 5), Err(DispatchError::InsufficientFunds));
    assert_eq!(balances.balance(&charlie), 0);
}

#[test]
fn rejected_transfer_changes_no_balance() {
    let (mut balances, alice, bob) = setup();
    balances.set_balance(&alice, 100);
    balances.set_balance(&bob, 7);

    assert_eq!(balances.transfer(alice.clone(), bob.clone(), 101), Err(DispatchError::InsufficientFunds));
    assert_eq!(balances.balance(&alice), 100);
    assert_eq!(balances.balance(&bob), 7);

    balances.set_balance(&bob, u128::MAX - 4);
    assert_eq!(balances.transfer(alice.clone(), bob.clone(), 5), Err(DispatchError::BalanceOverflow));
    assert_eq!(balances.balance(&alice), 100);
    assert_eq!(balances.balance(&bob), u128::MAX - 4);
}

#[test]
fn transfer_succeeds_at_the_limits() {
    let (mut balances, alice, bob) = setup();
    balances.set_balance(&alice, 100);
    balances.set_balance(&bob, u128::MAX - 100);

    // The whole balance, into exactly the room that is left.
    assert_eq!(balances.transfer(alice.clone(), bob.clone(), 100), Ok(()));
    assert_eq!(balances.balance(&alice), 0);
    assert_eq!(balances.balance(&bob), u128::MAX);

    // Nothing at all can always be sent, even by an unknown account.
    let nobody = String::from("nobody");
    assert_eq!(balances.transfer(nobody.clone(), alice.clone(), 0), Ok(()));
    assert_eq!(balances.balance(&nobody), 0);
    assert_eq!(balances.balance(&alice), 0);
}

#[test]
fn missing_funds_are_reported_before_overflow() {
    let (mut balances, alice, bob) = setup();
    balances.set_balance(&alice, 1);
    balances.set_balance(&bob, u128::MAX);

    assert_eq!(balances.transfer(alice, bob, 2), Err(DispatchError::InsufficientFunds));
}

#[test]
fn self_transfer_keeps_the_balance() {
    let (mut balances, alice, _) = setup();
    balances.set_balance(&alice, 100);

    assert_eq!(balances.transfer(alice.clone(), alice.clone(), 30), Ok(()));
    assert_eq!(balances.balance(&alice), 100);
    assert_eq!(balances.transfer(alice.clone(), alice.clone(), 100), Ok(()));
    assert_eq!(balances.balance(&alice), 100);
    assert_eq!(balances.transfer(alice.clone(), alice.clone(), 101), Err(DispatchError::InsufficientFunds));
    assert_eq!(balances.balance(&alice), 100);
}

#[test]
fn self_transfer_is_checked_for_overflow() {
    let (mut balances, alice, _) = setup();
    balances.set_balance(&alice, u128::MAX);

    assert_eq!(balances.transfer(alice.clone(), alice.clone(), 1), Err(DispatchError::BalanceOverflow));
    assert_eq!(balances.balance(&alice), u128::MAX);
    assert_eq!(balances.transfer(alice.clone(), alice.clone(), 0), Ok(()));
    assert_eq!(balances.balance(&alice), u128::MAX);
}

#[test]
fn set_balance_overwrites() {
    let (mut balances, alice, bob) = setup();
    balances.set_balance(&alice, 100);
    balances.set_balance(&bob, 1);
    balances.set_balance(&alice, 3);
    assert_eq!(balances.balance(&alice), 3);
    assert_eq!(balances.balance(&bob), 1);
    balances.set_balance(&alice, 0);
    assert_eq!(balances.balance(&alice), 0);
}

#[test]
fn dispatch_routes_a_transfer() {
    let (mut balances, alice, bob) = setup();
    balances.set_balance(&alice, 100);

    let accepted = balances.dispatch(alice.clone(), Call::Transfer { to: bob.clone(), amount: 60 });
    assert_eq!(accepted, Ok(()));
    assert_eq!(balances.balance(&alice), 40);
    assert_eq!(balances.balance(&bob), 60);

    let rejected = balances.dispatch(alice.clone(), Call::Transfer { to: bob.clone(), amount: 60 });
    assert_eq!(rejected, Err(DispatchError::InsufficientFunds));
    assert_eq!(balances.balance(&alice), 40);
    assert_eq!(balances.balance(&bob), 60);
}
