use state_machine::balances;
use state_machine::proof_of_existence;
use state_machine::support::DispatchError;
use state_machine::system;

#[test]
fn init_balances() {
    let mut balances: balances::Pallet = balances::Pallet::new();

    assert_eq!(balances.balance(&"alice".to_string()), 0);
    balances.set_balance(&"alice".to_string(), 100);
    assert_eq!(balances.balance(&"alice".to_string()), 100);
    assert_eq!(balances.balance(&"bob".to_string()), 0);
}

#[test]
fn transfer_balance() {
    let alice = "alice".to_string();
    let bob = "bob".to_string();

    let mut balances: balances::Pallet = balances::Pallet::new();
    balances.set_balance(&alice, 100);
    let _ = balances.transfer(alice.clone(), bob.clone(), 90);

    assert_eq!(balances.balance(&alice), 10);
    assert_eq!(balances.balance(&bob), 90);
}

#[test]
fn balance_insufficient() {
    let alice = "alice".to_string();
    let bob = "bob".to_string();

    let mut balances: balances::Pallet = balances::Pallet::new();

    let result = balances.transfer(alice.clone(), bob.clone(), 110);

    assert_eq!(result, Err(DispatchError::InsufficientBalance));
    assert_eq!(result.unwrap_err().as_str(), "Insufficient balance");
    assert_eq!(balances.balance(&"alice".to_string()), 0);
    assert_eq!(balances.balance(&"bob".to_string()), 0);
}

#[test]
fn basic_proof_of_existence() {
    let mut poe = proof_of_existence::Pallet::new();

    let _ = poe.create_claim("alice".to_string(), "my_document".to_string());
    assert_eq!(
        poe.get_claim(&"my_document".to_string()),
        Some(&"alice".to_string())
    );

    let res = poe.revoke_claim("bob".to_string(), "my_document".to_string());
    assert_eq!(res, Err(DispatchError::NotClaimOwner));
    assert_eq!(
        res.unwrap_err().as_str(),
        "Caller is not the owner of the claim"
    );

    let res = poe.create_claim("bob".to_string(), "my_document".to_string());
    assert_eq!(res, Err(DispatchError::ClaimAlreadyExists));
    assert_eq!(res.unwrap_err().as_str(), "Claim already exists");

    let res = poe.revoke_claim("alice".to_string(), "my_document".to_string());
    assert_eq!(res, Ok(()));
    assert_eq!(poe.get_claim(&"my_document".to_string()), None);
}

#[test]
fn test_system_pallet() {
    let mut system = system::Pallet::new();
    assert_eq!(system.block_number(), 0);

    system.inc_block_number();
    assert_eq!(system.block_number(), 1);

    let alice = "alice".to_string();
    system.inc_nonce(&alice);
    assert_eq!(system.get_nonce(&alice), 1);
}

#[test]
fn fresh_pallets_read_zero() {
    let balances = balances::Pallet::new();
    let system = system::Pallet::new();
    let poe = proof_of_existence::Pallet::new();

    for who in ["alice", "bob", "charlie", ""] {
        assert_eq!(balances.balance(&who.to_string()), 0);
        assert_eq!(system.get_nonce(&who.to_string()), 0);
        assert_eq!(poe.get_claim(&who.to_string()), None);
    }
}

#[test]
fn transfer_conserves_total() {
    let alice = "alice".to_string();
    let bob = "bob".to_string();

    let mut balances: balances::Pallet = balances::Pallet::new();
    balances.set_balance(&alice, 100);
    balances.set_balance(&bob, 7);
    let before = balances.balance(&alice) + balances.balance(&bob);

    let res = balances.transfer(alice.clone(), bob.clone(), 42);

    assert_eq!(res, Ok(()));
    assert_eq!(balances.balance(&alice), 58);
    assert_eq!(balances.balance(&bob), 49);
    assert_eq!(balances.balance(&alice) + balances.balance(&bob), before);
}

#[test]
fn transfer_overflow_changes_nothing() {
    let alice = "alice".to_string();
    let bob = "bob".to_string();

    let mut balances: balances::Pallet = balances::Pallet::new();
    balances.set_balance(&alice, 50);
    balances.set_balance(&bob, u128::MAX);

    let res = balances.transfer(alice.clone(), bob.clone(), 1);

    assert_eq!(res, Err(DispatchError::Overflow));
    assert_eq!(res.unwrap_err().as_str(), "Overflow when adding to balance");
    assert_eq!(balances.balance(&alice), 50);
    assert_eq!(balances.balance(&bob), u128::MAX);
}

#[test]
fn transfer_to_self_is_a_noop() {
    let alice = "alice".to_string();

    let mut balances: balances::Pallet = balances::Pallet::new();
    balances.set_balance(&alice, 100);

    let res = balances.transfer(alice.clone(), alice.clone(), 60);

    assert_eq!(res, Ok(()));
    assert_eq!(balances.balance(&alice), 100);
}

#[test]
fn revoke_missing_claim_fails() {
    let mut poe = proof_of_existence::Pallet::new();

    let res = poe.revoke_claim("alice".to_string(), "my_document".to_string());

    assert_eq!(res, Err(DispatchError::ClaimNotFound));
    assert_eq!(res.unwrap_err().as_str(), "Claim does not exist");
}
