use ledger::system::{Config, Pallet};

struct TestConfig;

impl Config for TestConfig {
    type AccountId = String;
    type BlockNumber = u32;
    type Nonce = u32;
}

#[test]
fn init_system() {
    let daniel = String::from("daniel");
    let mut system = Pallet::<TestConfig>::new();

    assert_eq!(system.block_number(), 0);
    assert_eq!(system.nonce(&daniel), 0);

    system.increment_block_number();
    assert_eq!(system.block_number(), 1);

    system.inc_nounce(&daniel);
    assert_eq!(system.nonce(&daniel), 1);
}

#[test]
fn increment_block_number() {
    let mut system = Pallet::<TestConfig>::new();
    assert_eq!(system.block_number(), 0);
    system.increment_block_number();
    assert_eq!(system.block_number(), 1);
}

#[test]
fn inc_nonce() {
    let mut system = Pallet::<TestConfig>::new();
    system.inc_nounce(&"daniel".to_string());
    assert_eq!(system.nonce(&"daniel".to_string()), 1);
    system.inc_nounce(&"daniel".to_string());
    assert_eq!(system.nonce(&"daniel".to_string()), 2);
}

#[test]
fn block_number_counts_increments() {
    let mut system = Pallet::<TestConfig>::new();
    for _ in 0..5 {
        system.increment_block_number();
    }
    assert_eq!(system.block_number(), 5);
}

#[test]
fn nonces_are_independent() {
    let daniel = String::from("daniel");
    let vini = String::from("vini");
    let mut system = Pallet::<TestConfig>::new();

    system.inc_nounce(&daniel);
    system.inc_nounce(&daniel);
    system.inc_nounce(&daniel);
    system.inc_nounce(&vini);

    assert_eq!(system.nonce(&daniel), 3);
    assert_eq!(system.nonce(&vini), 1);
    assert_eq!(system.nonce(&String::from("alice")), 0);
    assert_eq!(system.block_number(), 0);
}
