use timelock_wallet::values::{Address, U256};
use timelock_wallet::wallet::{Deposit, TimelockWallet, WalletError, Withdrawal};

fn id(b: u8) -> Address {
    Address::new([b; 20])
}

fn num(n: u64) -> U256 {
    U256::from_u64(n)
}

fn owned_by(owner: Address, unlock: u64) -> TimelockWallet {
    let mut w = TimelockWallet::new();
    assert_eq!(w.init(owner, num(unlock)), Ok(()));
    w
}

#[test]
fn alice_bob_carol_scenario() {
    let (alice, bob, carol) = (id(0xa1), id(0xb0), id(0xc4));
    let mut w = TimelockWallet::new();
    assert_eq!(w.init(alice, num(1000)), Ok(()));
    assert_eq!(w.owner(), alice);
    assert_eq!(w.unlock_time(), num(1000));

    let mut pool = num(0);
    let d = w.deposit(bob, num(50)).unwrap();
    assert_eq!(d, Deposit { from: bob, amount: num(50) });
    pool = U256::from_halves(0, pool.lo + d.amount.lo);
    assert_eq!(pool, num(50));

    assert_eq!(w.withdraw(alice, 800, carol, pool), Err(WalletError::FundsLocked));
    assert_eq!(w.withdraw_check(alice, 800), Err(WalletError::FundsLocked));
    assert_eq!(pool, num(50));

    assert_eq!(w.extend_lock(alice, num(2000)), Ok(()));
    assert_eq!(w.unlock_time(), num(2000));

    let out = w.withdraw(alice, 2100, carol, pool).unwrap();
    assert_eq!(out, Withdrawal { to: carol, amount: num(50) });
    pool = num(0);

    assert_eq!(w.withdraw(alice, 2200, carol, pool), Err(WalletError::ZeroBalance));
}

#[test]
fn fresh_wallet_refuses_everything_but_init() {
    let mut w = TimelockWallet::new();
    assert_eq!(w.owner(), Address::zero());
    assert!(w.owner().is_zero());
    assert_eq!(w.unlock_time(), U256::zero());
    assert_eq!(w.deposit(id(1), num(5)), Err(WalletError::NotInitialized));
    assert_eq!(w.withdraw(id(1), 10, id(2), num(5)), Err(WalletError::NotInitialized));
    assert_eq!(w.withdraw_check(Address::zero(), 10), Err(WalletError::NotInitialized));
    assert_eq!(w.extend_lock(id(1), num(9)), Err(WalletError::NotInitialized));
    assert_eq!(w.unlock_time(), U256::zero());
    assert_eq!(w.owner(), Address::zero());
}

#[test]
fn second_init_is_refused_and_changes_nothing() {
    let mut w = owned_by(id(1), 100);
    assert_eq!(w.init(id(2), num(5)), Err(WalletError::AlreadyInitialized));
    assert_eq!(w.init(id(1), num(500)), Err(WalletError::AlreadyInitialized));
    assert_eq!(w.owner(), id(1));
    assert_eq!(w.unlock_time(), num(100));
}

#[test]
fn init_sets_owner_and_unlock_time() {
    let w = owned_by(id(7), 123_456);
    assert_eq!(w.owner(), id(7));
    assert_eq!(w.unlock_time(), num(123_456));
}

#[test]
fn init_accepts_unlock_time_in_the_past() {
    let w = owned_by(id(7), 0);
    let out = w.withdraw(id(7), 0, id(8), num(3)).unwrap();
    assert_eq!(out, Withdrawal { to: id(8), amount: num(3) });
}

#[test]
fn init_by_zero_identity_leaves_wallet_uninitialized() {
    let mut w = TimelockWallet::new();
    assert_eq!(w.init(Address::zero(), num(40)), Ok(()));
    assert!(w.owner().is_zero());
    assert_eq!(w.deposit(id(1), num(1)), Err(WalletError::NotInitialized));
    assert_eq!(w.init(id(3), num(10)), Ok(()));
    assert_eq!(w.owner(), id(3));
}

#[test]
fn withdraw_by_stranger_is_not_owner() {
    let w = owned_by(id(1), 100);
    assert_eq!(w.withdraw(id(2), 50, id(2), num(9)), Err(WalletError::NotOwner));
    assert_eq!(w.withdraw(id(2), 500, id(2), num(9)), Err(WalletError::NotOwner));
    assert_eq!(w.withdraw(id(2), 500, id(2), num(0)), Err(WalletError::NotOwner));
}

#[test]
fn withdraw_before_unlock_is_locked() {
    let w = owned_by(id(1), 100);
    assert_eq!(w.withdraw(id(1), 99, id(1), num(9)), Err(WalletError::FundsLocked));
    assert_eq!(w.withdraw(id(1), 99, id(1), num(0)), Err(WalletError::FundsLocked));
}

#[test]
fn withdraw_at_unlock_time_is_allowed() {
    let w = owned_by(id(1), 100);
    assert_eq!(w.withdraw_check(id(1), 100), Ok(()));
    let out = w.withdraw(id(1), 100, id(4), num(9)).unwrap();
    assert_eq!(out, Withdrawal { to: id(4), amount: num(9) });
}

#[test]
fn withdraw_from_empty_pool_is_zero_balance() {
    let w = owned_by(id(1), 100);
    assert_eq!(w.withdraw(id(1), 200, id(1), num(0)), Err(WalletError::ZeroBalance));
    assert_eq!(TimelockWallet::payout(id(1), U256::zero()), Err(WalletError::ZeroBalance));
}

#[test]
fn withdraw_pays_whole_large_balance() {
    let w = owned_by(id(1), 100);
    let big = U256::from_halves(u128::MAX, u128::MAX);
    let out = w.withdraw(id(1), u64::MAX, id(5), big).unwrap();
    assert_eq!(out.to, id(5));
    assert_eq!(out.amount, big);
}

#[test]
fn withdraw_checks_owner_before_time() {
    let w = owned_by(id(1), 100);
    assert_eq!(w.withdraw_check(id(2), 10), Err(WalletError::NotOwner));
}

#[test]
fn extend_lock_rules() {
    let mut w = owned_by(id(1), 100);
    assert_eq!(w.extend_lock(id(2), num(200)), Err(WalletError::NotOwner));
    assert_eq!(w.extend_lock(id(1), num(100)), Err(WalletError::FundsLocked));
    assert_eq!(w.extend_lock(id(1), num(50)), Err(WalletError::FundsLocked));
    assert_eq!(w.unlock_time(), num(100));
    assert_eq!(w.extend_lock(id(1), num(101)), Ok(()));
    assert_eq!(w.unlock_time(), num(101));
    let far = U256::from_halves(1, 0);
    assert_eq!(w.extend_lock(id(1), far), Ok(()));
    assert_eq!(w.unlock_time(), far);
    assert_eq!(w.withdraw(id(1), u64::MAX, id(1), num(1)), Err(WalletError::FundsLocked));
    assert_eq!(w.extend_lock(id(1), num(u64::MAX)), Err(WalletError::FundsLocked));
    assert_eq!(w.owner(), id(1));
}

#[test]
fn deposit_by_anyone_after_init() {
    let w = owned_by(id(1), 100);
    assert_eq!(w.deposit(id(9), num(0)), Ok(Deposit { from: id(9), amount: num(0) }));
    assert_eq!(w.deposit(id(1), num(77)), Ok(Deposit { from: id(1), amount: num(77) }));
}

#[test]
fn u256_order_across_halves() {
    let low_max = U256::from_halves(0, u128::MAX);
    let high_one = U256::from_halves(1, 0);
    assert!(low_max.lt(&high_one));
    assert!(!high_one.lt(&low_max));
    assert!(high_one.le(&high_one));
    assert!(!high_one.lt(&high_one));
    assert!(U256::from_halves(1, 5).lt(&U256::from_halves(1, 6)));
    assert!(!U256::from_halves(2, 0).le(&U256::from_halves(1, u128::MAX)));
    assert!(!high_one.is_zero());
    assert!(U256::zero().is_zero());
    assert_eq!(U256::from_u64(7), U256::from_halves(0, 7));
}

#[test]
fn address_comparisons() {
    let mut b = [0u8; 20];
    assert!(Address::new(b).is_zero());
    b[19] = 1;
    assert!(!Address::new(b).is_zero());
    assert!(!Address::new(b).same_as(&Address::zero()));
    assert!(Address::new(b).same_as(&Address::new(b)));
}
