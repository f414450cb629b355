use rust_state_machine::proof_of_existence::{Call, Pallet};
use rust_state_machine::support::DispatchError;

fn setup() -> (Pallet, String, String) {
    (Pallet::new(), String::from("alice"), String::from("bob"))
}

#[test]
fn return_none_on_non_exisiting_content() {
    // Arrange
    let (poe, _, _) = setup();
    let content = String::from("Lorem ipsum");

    // Act
    let res = poe.get_claim(&content);

    // Assert
    assert_eq!(res, None);
}

#[test]
fn create_claim_success() {
    // Arrange
    let (mut poe, alice, _) = setup();
    let content = String::from("Lorem ipsum");

    // Act
    let res = poe.create_claim(alice.clone(), content.clone());
    let claim_owner = poe.get_claim(&content);

    // Assert
    assert_eq!(res, Ok(()));
    assert_eq!(claim_owner, Some(&alice));
}

#[test]
fn create_claim_failure_on_existant_for_the_same_owner() {
    // Arrange
    let (mut poe, alice, _) = setup();
    let content = String::from("Lorem ipsum");
    let _ = poe.create_claim(alice.clone(), content.clone());

    // Act
    let res = poe.create_claim(alice.clone(), content.clone());

    // Assert
    assert_eq!(res.map_err(|error| error.message()), Err("Claim already exists"));
    assert_eq!(res, Err(DispatchError::ClaimAlreadyExists));
}

#[test]
fn create_claim_failure_on_existant_for_the_another_owner() {
    // Arrange
    let (mut poe, alice, bob) = setup();
    let content = String::from("Lorem ipsum");
    let _ = poe.create_claim(bob.clone(), content.clone());

    // Act
    let res = poe.create_claim(alice.clone(), content.clone());

    // Assert
    assert_eq!(res.map_err(|error| error.message()), Err("Claim already exists"));
    assert_eq!(res, Err(DispatchError::ClaimAlreadyExists));
    assert_eq!(poe.get_claim(&content), Some(&bob));
}

#[test]
fn revoke_claim_success() {
    // Arrange
    let (mut poe, alice, _) = setup();
    let content = String::from("Lorem ipsum");
    let _ = poe.create_claim(alice.clone(), content.clone());

    // Act
    let res = poe.revoke_claim(alice.clone(), content.clone());
    let claim_owner = poe.get_claim(&content);

    // Assert
    assert_eq!(res, Ok(()));
    assert_eq!(claim_owner, None);
}

#[test]
fn revoke_claim_error_does_not_exist() {
    // Arrange
    let (mut poe, alice, _) = setup();
    let content_1 = String::from("Lorem ipsum");
    let content_2 = String::from("Foo bar");
    let _ = poe.create_claim(alice.clone(), content_1.clone());

    // Act
    let res = poe.revoke_claim(alice.clone(), content_2.clone());

    // Assert
    assert_eq!(res.map_err(|error| error.message()), Err("Claim does not exist"));
    assert_eq!(res, Err(DispatchError::ClaimNotFound));
    assert_eq!(poe.get_claim(&content_1), Some(&alice));
}

#[test]
fn revoke_claim_error_caller_not_owner() {
    // Arrange
    let (mut poe, alice, bob) = setup();
    let content = String::from("Lorem ipsum");
    let _ = poe.create_claim(alice.clone(), content.clone());

    // Act
    let res = poe.revoke_claim(bob.clone(), content.clone());

    // Assert
    assert_eq!(res.map_err(|error| error.message()), Err("Caller is not the owner of the claim"));
    assert_eq!(res, Err(DispatchError::NotClaimOwner));
    assert_eq!(poe.get_claim(&content), Some(&alice));
}

#[test]
fn revoked_content_can_be_claimed_by_anyone() {
    let (mut poe, alice, bob) = setup();
    let content = String::from("Lorem ipsum");

    assert_eq!(poe.create_claim(alice.clone(), content.clone()), Ok(()));
    assert_eq!(poe.revoke_claim(alice.clone(), content.clone()), Ok(()));
    assert_eq!(poe.get_claim(&content), None);
    assert_eq!(poe.create_claim(bob.clone(), content.clone()), Ok(()));
    assert_eq!(poe.get_claim(&content), Some(&bob));
    // The first owner has no say any more.
    assert_eq!(poe.revoke_claim(alice.clone(), content.clone()), Err(DispatchError::NotClaimOwner));
}

#[test]
fn claims_on_different_content_are_independent() {
    let (mut poe, alice, bob) = setup();
    let first = String::from("Lorem ipsum");
    let second = String::from("Foo bar");
    let third = String::from("");

    assert_eq!(poe.create_claim(alice.clone(), first.clone()), Ok(()));
    assert_eq!(poe.create_claim(bob.clone(), second.clone()), Ok(()));
    assert_eq!(poe.create_claim(alice.clone(), third.clone()), Ok(()));
    assert_eq!(poe.revoke_claim(alice.clone(), first.clone()), Ok(()));

    assert_eq!(poe.get_claim(&first), None);
    assert_eq!(poe.get_claim(&second), Some(&bob));
    assert_eq!(poe.get_claim(&third), Some(&alice));
}

#[test]
fn dispatch_routes_claims() {
    let (mut poe, alice, bob) = setup();
    let content = String::from("Lorem ipsum");

    let created = poe.dispatch(alice.clone(), Call::CreateClaim { claim: content.clone() });
    assert_eq!(created, Ok(()));
    assert_eq!(poe.get_claim(&content), Some(&alice));

    let stranger = poe.dispatch(bob.clone(), Call::RevokeClaim { claim: content.clone() });
    assert_eq!(stranger, Err(DispatchError::NotClaimOwner));

    let revoked = poe.dispatch(alice.clone(), Call::RevokeClaim { claim: content.clone() });
    assert_eq!(revoked, Ok(()));
    assert_eq!(poe.get_claim(&content), None);

    let missing = poe.dispatch(alice.clone(), Call::RevokeClaim { claim: content.clone() });
    assert_eq!(missing, Err(DispatchError::ClaimNotFound));
}
