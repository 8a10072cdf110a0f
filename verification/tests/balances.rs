use ledger::balances::{Config, Pallet};
use ledger::system;

struct TestConfig;

impl Config for TestConfig {
    type Balance = u128;
}

impl system::Config for TestConfig {
    type AccountId = String;
    type BlockNumber = u32;
    type Nonce = u32;
}

#[test]
fn init_balances() {
    let daniel = String::from("daniel");
    let vini = String::from("vini");

    let mut balances = Pallet::<TestConfig>::new();

    assert_eq!(balances.balance(&daniel), 0);
    balances.set_balance(&daniel, 10);

    assert_eq!(balances.balance(&daniel), 10);
    assert_eq!(balances.balance(&vini), 0);
}

#[test]
fn transfer_balance() {
    let daniel = String::from("daniel");
    let vini = String::from("vini");
    let mut balances = Pallet::<TestConfig>::new();

    assert_eq!(balances.balance(&vini), 0);
    assert_eq!(
        balances.transfer(daniel.clone(), vini.clone(), 10),
        Err("Insufficient balance")
    );

    balances.set_balance(&daniel, 10);
    assert_eq!(balances.transfer(daniel.clone(), vini.clone(), 3), Ok(()));

    assert_eq!(balances.balance(&daniel), 7);
    assert_eq!(balances.balance(&vini), 3);

    balances.set_balance(&vini, u128::MAX);
    assert_eq!(balances.transfer(daniel, vini, 3), Err("Overflow"))
}

#[test]
fn set_balance_overwrites() {
    let daniel = String::from("daniel");
    let mut balances = Pallet::<TestConfig>::new();

    balances.set_balance(&daniel, 10);
    balances.set_balance(&daniel, 99);
    assert_eq!(balances.balance(&daniel), 99);
}

#[test]
fn transfer_conserves_total() {
    let daniel = String::from("daniel");
    let vini = String::from("vini");
    let mut balances = Pallet::<TestConfig>::new();

    balances.set_balance(&daniel, 60);
    balances.set_balance(&vini, 40);
    let total_before = balances.balance(&daniel) + balances.balance(&vini);

    assert_eq!(balances.transfer(daniel.clone(), vini.clone(), 25), Ok(()));

    assert_eq!(balances.balance(&daniel), 35);
    assert_eq!(balances.balance(&vini), 65);
    assert_eq!(balances.balance(&daniel) + balances.balance(&vini), total_before);
}

#[test]
fn failed_transfer_changes_nothing() {
    let daniel = String::from("daniel");
    let vini = String::from("vini");
    let mut balances = Pallet::<TestConfig>::new();

    balances.set_balance(&daniel, 5);
    assert_eq!(
        balances.transfer(daniel.clone(), vini.clone(), 6),
        Err("Insufficient balance")
    );
    assert_eq!(balances.balance(&daniel), 5);
    assert_eq!(balances.balance(&vini), 0);

    balances.set_balance(&vini, u128::MAX - 2);
    assert_eq!(
        balances.transfer(daniel.clone(), vini.clone(), 3),
        Err("Overflow")
    );
    assert_eq!(balances.balance(&daniel), 5);
    assert_eq!(balances.balance(&vini), u128::MAX - 2);
}

#[test]
fn zero_amount_transfer_is_noop() {
    let daniel = String::from("daniel");
    let vini = String::from("vini");
    let mut balances = Pallet::<TestConfig>::new();

    balances.set_balance(&daniel, 12);
    assert_eq!(balances.transfer(daniel.clone(), vini.clone(), 0), Ok(()));
    assert_eq!(balances.balance(&daniel), 12);
    assert_eq!(balances.balance(&vini), 0);
}

#[test]
fn self_transfer_is_noop() {
    let daniel = String::from("daniel");
    let mut balances = Pallet::<TestConfig>::new();

    balances.set_balance(&daniel, 50);
    assert_eq!(balances.transfer(daniel.clone(), daniel.clone(), 10), Ok(()));
    assert_eq!(balances.balance(&daniel), 50);
}

#[test]
fn self_transfer_checks_captured_balances() {
    let daniel = String::from("daniel");
    let mut balances = Pallet::<TestConfig>::new();

    balances.set_balance(&daniel, u128::MAX);
    assert_eq!(
        balances.transfer(daniel.clone(), daniel.clone(), 1),
        Err("Overflow")
    );
    assert_eq!(balances.balance(&daniel), u128::MAX);
}
