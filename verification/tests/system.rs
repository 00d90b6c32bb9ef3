use state_machine::error::Error;
use state_machine::system::Pallet;

#[test]
fn block_number() {
    let mut system = Pallet::new();
    let starting_block_number = system.block_number();
    assert_eq!(starting_block_number, 0);
    let inc_block_number_result = system.inc_block_number();
    assert!(inc_block_number_result.is_ok());
    let incremented_block_number = system.block_number();
    assert_eq!(incremented_block_number, starting_block_number + 1);
}

#[test]
fn nonce() {
    let mut system = Pallet::new();
    let alice = "alice".to_string();

    let starting_nonce = system.nonce(&alice);
    let inc_nonce_result = system.inc_nonce(alice.clone());
    assert!(inc_nonce_result.is_ok());
    let incremented_nonce_number = system.nonce(&alice);
    assert_eq!(incremented_nonce_number, starting_nonce + 1);
}

#[test]
fn nonce_starts_at_zero() {
    let system = Pallet::new();
    assert_eq!(system.nonce(&"alice".to_string()), 0);
    assert_eq!(system.nonce(&"".to_string()), 0);
}

#[test]
fn nonces_are_counted_per_account() {
    let mut system = Pallet::new();
    let alice = "alice".to_string();
    let bob = "bob".to_string();
    for _ in 0..3 {
        assert_eq!(system.inc_nonce(alice.clone()), Ok(()));
    }
    assert_eq!(system.inc_nonce(bob.clone()), Ok(()));
    assert_eq!(system.nonce(&alice), 3);
    assert_eq!(system.nonce(&bob), 1);
    assert_eq!(system.nonce(&"charlie".to_string()), 0);
    assert_eq!(system.block_number(), 0);
}

#[test]
fn block_number_counts_every_increment() {
    let mut system = Pallet::new();
    for expected in 1..=1000u32 {
        assert_eq!(system.inc_block_number(), Ok(()));
        assert_eq!(system.block_number(), expected);
    }
    assert_eq!(system.nonce(&"alice".to_string()), 0);
}

#[test]
fn block_number_stops_at_the_largest_height() {
    let mut system = Pallet::new();
    let alice = "alice".to_string();
    assert_eq!(system.inc_nonce(alice.clone()), Ok(()));
    for _ in 0..u32::MAX {
        let _ = system.inc_block_number();
    }
    assert_eq!(system.block_number(), u32::MAX);

    assert_eq!(
        system.inc_block_number(),
        Err(Error::BlockNumberOverflow { block_number: u32::MAX })
    );
    assert_eq!(system.block_number(), u32::MAX);
    assert_eq!(system.nonce(&alice), 1);
}
