use ledger::Runtime;

#[test]
fn fresh_runtime_is_zeroed() {
    let runtime = Runtime::new();
    let alice = String::from("alice");

    assert_eq!(runtime.balances.balance(&alice), 0);
    assert_eq!(runtime.system.block_number(), 0);
    assert_eq!(runtime.system.nonce(&alice), 0);
}

#[test]
fn block_emulation_scenario() {
    let mut runtime = Runtime::new();
    let alice = String::from("alice");
    let bob = String::from("bob");
    let charlie = String::from("charlie");

    runtime.balances.set_balance(&alice, 100);

    runtime.system.increment_block_number();
    assert_eq!(runtime.system.block_number(), 1);

    runtime.system.inc_nounce(&alice);
    assert_eq!(
        runtime.balances.transfer(alice.clone(), bob.clone(), 30),
        Ok(())
    );
    assert_eq!(runtime.balances.balance(&alice), 70);
    assert_eq!(runtime.balances.balance(&bob), 30);

    runtime.system.inc_nounce(&alice);
    assert_eq!(
        runtime.balances.transfer(alice.clone(), charlie.clone(), 20),
        Ok(())
    );
    assert_eq!(runtime.balances.balance(&alice), 50);
    assert_eq!(runtime.balances.balance(&charlie), 20);

    runtime.system.inc_nounce(&alice);
    assert_eq!(
        runtime.balances.transfer(alice.clone(), bob.clone(), 1000),
        Err("Insufficient balance")
    );
    assert_eq!(runtime.balances.balance(&alice), 50);
    assert_eq!(runtime.balances.balance(&bob), 30);

    assert_eq!(runtime.system.nonce(&alice), 3);
    assert_eq!(runtime.system.nonce(&bob), 0);
}
