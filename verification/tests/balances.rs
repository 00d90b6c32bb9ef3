use state_machine::balances::Pallet;
use state_machine::error::Error;

#[test]
fn init_balances() {
    let mut balances = Pallet::new();
    let alice = "alice".to_string();
    let bob = "bob".to_string();

    assert_eq!(balances.balance(&alice), 0);
    let _ = balances.set_balance(alice.clone(), 100);
    assert_eq!(balances.balance(&alice), 100);
    assert_eq!(balances.balance(&bob), 0);
}

#[test]
fn transfer_balance() {
    let mut balances = Pallet::new();
    let alice = "alice".to_string();
    let bob = "bob".to_string();
    let amount = 100;

    let initial_transfer_result = balances.transfer(alice.clone(), bob.clone(), amount);
    assert!(
        initial_transfer_result.is_err(),
        "Expected Err from initial transfer due to insufficient funds, got: {:?}",
        initial_transfer_result
    );
    balances.set_balance(alice.clone(), amount);
    let transfer_result = balances.transfer(alice.clone(), bob.clone(), amount);
    assert!(
        transfer_result.is_ok(),
        "Expected OK from transfer after setting balance, got: {:?}",
        transfer_result
    );
    let alice_balance = balances.balance(&alice);
    assert_eq!(
        alice_balance, 0,
        "Expected 'alice' balance to be 0 after transfer, found: {}",
        alice_balance
    );
    let bob_balance = balances.balance(&bob);
    assert_eq!(
        bob_balance, amount,
        "Expected 'bob' balance to be 100 after receiving transfer, found: {}",
        bob_balance
    );
}

#[test]
fn untouched_accounts_hold_nothing() {
    let mut balances = Pallet::new();
    for name in ["alice", "bob", "", "a much longer account name"] {
        assert_eq!(balances.balance(&name.to_string()), 0);
    }
    balances.set_balance("alice".to_string(), 7);
    let _ = balances.transfer("alice".to_string(), "bob".to_string(), 3);
    assert_eq!(balances.balance(&"charlie".to_string()), 0);
    assert_eq!(balances.balance(&"".to_string()), 0);
}

#[test]
fn set_balance_overwrites() {
    let mut balances = Pallet::new();
    let alice = "alice".to_string();
    balances.set_balance(alice.clone(), 100);
    balances.set_balance(alice.clone(), 40);
    assert_eq!(balances.balance(&alice), 40);
    balances.set_balance(alice.clone(), 0);
    assert_eq!(balances.balance(&alice), 0);
    balances.set_balance(alice.clone(), u128::MAX);
    assert_eq!(balances.balance(&alice), u128::MAX);
}

#[test]
fn insufficient_balance_changes_nothing() {
    let mut balances = Pallet::new();
    let alice = "alice".to_string();
    let bob = "bob".to_string();
    balances.set_balance(alice.clone(), 10);
    balances.set_balance(bob.clone(), 5);

    let result = balances.transfer(alice.clone(), bob.clone(), 11);
    assert_eq!(
        result,
        Err(Error::InsufficientBalance { caller: alice.clone(), amount: 11, to: bob.clone() })
    );
    assert_eq!(balances.balance(&alice), 10);
    assert_eq!(balances.balance(&bob), 5);
}

#[test]
fn transfer_moves_exactly_the_amount() {
    let mut balances = Pallet::new();
    let alice = "alice".to_string();
    let bob = "bob".to_string();
    balances.set_balance(alice.clone(), 100);
    balances.set_balance(bob.clone(), 1);

    assert_eq!(balances.transfer(alice.clone(), bob.clone(), 30), Ok(()));
    assert_eq!(balances.balance(&alice), 70);
    assert_eq!(balances.balance(&bob), 31);
    assert_eq!(balances.balance(&alice) + balances.balance(&bob), 101);

    assert_eq!(balances.transfer(bob.clone(), alice.clone(), 31), Ok(()));
    assert_eq!(balances.balance(&alice), 101);
    assert_eq!(balances.balance(&bob), 0);
}

#[test]
fn transfer_of_nothing_succeeds() {
    let mut balances = Pallet::new();
    let alice = "alice".to_string();
    let bob = "bob".to_string();
    assert_eq!(balances.transfer(alice.clone(), bob.clone(), 0), Ok(()));
    assert_eq!(balances.balance(&alice), 0);
    assert_eq!(balances.balance(&bob), 0);
}

#[test]
fn receiver_overflow_changes_nothing() {
    let mut balances = Pallet::new();
    let alice = "alice".to_string();
    let bob = "bob".to_string();
    balances.set_balance(alice.clone(), 2);
    balances.set_balance(bob.clone(), u128::MAX - 1);

    let result = balances.transfer(alice.clone(), bob.clone(), 2);
    assert_eq!(
        result,
        Err(Error::BalanceOverflow { to: bob.clone(), amount: 2, caller: alice.clone() })
    );
    assert_eq!(balances.balance(&alice), 2);
    assert_eq!(balances.balance(&bob), u128::MAX - 1);

    assert_eq!(balances.transfer(alice.clone(), bob.clone(), 1), Ok(()));
    assert_eq!(balances.balance(&alice), 1);
    assert_eq!(balances.balance(&bob), u128::MAX);
}

#[test]
fn shortfall_is_reported_before_overflow() {
    let mut balances = Pallet::new();
    let alice = "alice".to_string();
    let bob = "bob".to_string();
    balances.set_balance(alice.clone(), 1);
    balances.set_balance(bob.clone(), u128::MAX);

    let result = balances.transfer(alice.clone(), bob.clone(), 2);
    assert_eq!(
        result,
        Err(Error::InsufficientBalance { caller: alice.clone(), amount: 2, to: bob.clone() })
    );
}

#[test]
fn self_transfer_leaves_the_balance() {
    let mut balances = Pallet::new();
    let alice = "alice".to_string();
    balances.set_balance(alice.clone(), 50);

    assert_eq!(balances.transfer(alice.clone(), alice.clone(), 20), Ok(()));
    assert_eq!(balances.balance(&alice), 50);
    assert_eq!(balances.transfer(alice.clone(), alice.clone(), 50), Ok(()));
    assert_eq!(balances.balance(&alice), 50);

    let result = balances.transfer(alice.clone(), alice.clone(), 51);
    assert_eq!(
        result,
        Err(Error::InsufficientBalance { caller: alice.clone(), amount: 51, to: alice.clone() })
    );
    assert_eq!(balances.balance(&alice), 50);
}

#[test]
fn self_transfer_at_the_largest_balance() {
    let mut balances = Pallet::new();
    let alice = "alice".to_string();
    balances.set_balance(alice.clone(), u128::MAX);
    assert_eq!(balances.transfer(alice.clone(), alice.clone(), u128::MAX), Ok(()));
    assert_eq!(balances.balance(&alice), u128::MAX);
    assert_eq!(balances.transfer(alice.clone(), alice.clone(), 1), Ok(()));
    assert_eq!(balances.balance(&alice), u128::MAX);
}
