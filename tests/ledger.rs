use daoent::assets;
use daoent::DispatchError;

const ALICE: u64 = 1;
const BOB: u64 = 2;
const DAO_ID: u64 = 1;

fn create_asset() -> assets::Pallet {
    let mut a = assets::Pallet::new(DAO_ID);
    a.deposit(ALICE, 10000).unwrap();
    a
}

#[test]
fn test_asset_trans() {
    let mut a = create_asset();
    a.transfer(ALICE, BOB, 1).unwrap();
    let alice_dao = a.get_balance(ALICE);
    let bob_dao = a.get_balance(BOB);
    assert_eq!(alice_dao, 9999);
    assert_eq!(bob_dao, 1);
}

#[test]
fn test_asset_burn() {
    let mut a = create_asset();
    a.burn(ALICE, 1).unwrap();
    let alice_dao = a.get_balance(ALICE);
    assert_eq!(alice_dao, 9999);
}

#[test]
fn transfer_errors() {
    let mut a = create_asset();
    assert!(matches!(a.transfer(BOB, ALICE, 1), Err(DispatchError::Assets(assets::Error::BalanceTooLow))));
    assert_eq!(a.total_issuance(), 10000);
    assert!(a.try_transfer(ALICE, ALICE, 10000).is_ok());
    assert_eq!(a.free_balance(ALICE), 10000);
}

#[test]
fn deposit_overflow() {
    let mut a = create_asset();
    assert!(matches!(a.deposit(BOB, u64::MAX), Err(DispatchError::Assets(assets::Error::Overflow))));
    assert_eq!(a.total_issuance(), 10000);
    assert_eq!(a.total_balance(BOB), 0);
}

#[test]
fn reserve_and_unreserve() {
    let mut a = create_asset();
    assert!(matches!(a.reserve(ALICE, 10001), Err(DispatchError::Assets(assets::Error::BalanceTooLow))));
    a.reserve(ALICE, 4000).unwrap();
    assert_eq!(a.free_balance(ALICE), 6000);
    assert_eq!(a.reserved_balance(ALICE), 4000);
    assert_eq!(a.total_balance(ALICE), 10000);
    assert_eq!(a.unreserve(ALICE, 1000), 0);
    assert_eq!(a.unreserve(ALICE, 5000), 2000);
    assert_eq!(a.free_balance(ALICE), 10000);
    assert_eq!(a.reserved_balance(ALICE), 0);
    assert_eq!(a.unreserve(BOB, 5), 5);
}

#[test]
fn withdraw_lowers_issuance() {
    let mut a = create_asset();
    a.withdraw(ALICE, 400).unwrap();
    assert_eq!(a.total_issuance(), 9600);
    assert!(a.withdraw(ALICE, 9601).is_err());
}

#[test]
fn transfer_of_nothing_or_to_oneself() {
    let mut a = create_asset();
    assert!(a.transfer(BOB, ALICE, 0).is_ok());
    assert!(a.transfer(BOB, BOB, 50).is_ok());
    assert_eq!(a.free_balance(BOB), 0);
    assert_eq!(a.free_balance(ALICE), 10000);
}
