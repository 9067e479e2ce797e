use minter::{
    AccountId, BatchOutcome, BatchState, MintError, Minter, PaymentOutcome, Snapshot,
    MINT_STORAGE_COST,
};
use near_contract_standards::non_fungible_token::metadata::TokenMetadata;

const PUBLIC: u64 = 300;

fn account(name: &str) -> AccountId {
    AccountId::new(name).unwrap()
}

fn sale(supply: u16) -> Minter {
    let mut contract = Minter::new(
        account("admin_near"),
        account("nft_pack9.minter_near"),
        100,
        account("usdc_near"),
        account("usdt_near"),
        100,
        200,
        supply,
    );
    contract.storage_deposit(&account("alice_near"), 6000 * MINT_STORAGE_COST, None).unwrap();
    contract
}

/// Pays for `quantity` items during the public sale and gives the identifier
/// of the batch that was dispatched.
fn dispatch(contract: &mut Minter, quantity: u16) -> u64 {
    let outcome = contract
        .ft_on_transfer(
            &account("usdc_near"),
            &account("alice_near"),
            100 * quantity as u128,
            &format!("{{\"mint_amount\": {quantity}}}"),
            TokenMetadata::default(),
            &account("minter_near"),
            PUBLIC,
        )
        .unwrap();
    match outcome {
        PaymentOutcome::Dispatched { batch } => {
            assert_eq!(batch.reduce_from_supply, quantity);
            batch.batch_id
        }
        other => panic!("not dispatched: {other:?}"),
    }
}

#[test]
fn batches_are_numbered_in_order_and_start_reserved() {
    let mut contract = sale(100);
    assert_eq!(contract.get_batch(0), None);
    assert_eq!(dispatch(&mut contract, 4), 0);
    assert_eq!(dispatch(&mut contract, 1), 1);
    assert_eq!(dispatch(&mut contract, 7), 2);
    assert_eq!(contract.get_batch(0), Some(BatchState::Reserved { quantity: 4 }));
    assert_eq!(contract.get_batch(1), Some(BatchState::Reserved { quantity: 1 }));
    assert_eq!(contract.get_batch(2), Some(BatchState::Reserved { quantity: 7 }));
    assert_eq!(contract.get_batch(3), None);
    assert_eq!(contract.get_batch(u64::MAX), None);
    assert_eq!(contract.get_supply(), 100);
}

#[test]
fn refused_payments_get_no_identifier() {
    let mut contract = sale(3);
    let refused = contract.ft_on_transfer(
        &account("usdc_near"),
        &account("alice_near"),
        400,
        "{\"mint_amount\": 4}",
        TokenMetadata::default(),
        &account("minter_near"),
        PUBLIC,
    );
    assert_eq!(refused, Err(MintError::SupplyExhausted));
    assert_eq!(contract.get_batch(0), None);
    assert_eq!(dispatch(&mut contract, 2), 0);
}

#[test]
fn settlement_takes_the_quantity_of_the_batch_from_the_inventory() {
    let mut contract = sale(5000);
    let first = dispatch(&mut contract, 4);
    let second = dispatch(&mut contract, 4996);
    assert_eq!(contract.get_supply(), 5000);
    assert_eq!(contract.mint_result(first, BatchOutcome::Successful), Ok(4));
    assert_eq!(contract.get_supply(), 4996);
    assert_eq!(contract.get_batch(first), Some(BatchState::Settled));
    assert_eq!(contract.get_batch(second), Some(BatchState::Reserved { quantity: 4996 }));
    assert_eq!(contract.mint_result(second, BatchOutcome::Successful), Ok(4996));
    assert_eq!(contract.get_supply(), 0);
    assert_eq!(contract.get_batch(second), Some(BatchState::Settled));
}

#[test]
fn settlement_below_zero_is_an_underflow() {
    let mut contract = sale(5);
    let first = dispatch(&mut contract, 4);
    let second = dispatch(&mut contract, 3);
    assert_eq!(contract.mint_result(first, BatchOutcome::Successful), Ok(4));
    assert_eq!(contract.get_supply(), 1);
    assert_eq!(contract.mint_result(second, BatchOutcome::Successful), Err(MintError::Underflow));
    assert_eq!(contract.get_supply(), 1);
    assert_eq!(contract.get_batch(second), Some(BatchState::Reserved { quantity: 3 }));
}

#[test]
fn settlement_of_a_failed_batch_fails_and_changes_nothing() {
    let mut contract = sale(3);
    let batch = dispatch(&mut contract, 2);
    let before = contract.snapshot();
    assert_eq!(
        contract.mint_result(batch, BatchOutcome::Failed),
        Err(MintError::RemoteBatchFailed)
    );
    assert_eq!(
        contract.mint_result(batch, BatchOutcome::Failed),
        Err(MintError::RemoteBatchFailed)
    );
    assert_eq!(contract.snapshot(), before);
    assert_eq!(contract.get_supply(), 3);
    assert_eq!(contract.get_batch(batch), Some(BatchState::Reserved { quantity: 2 }));
}

#[test]
fn settlement_of_an_unknown_batch_is_not_found() {
    let mut contract = sale(10);
    assert_eq!(contract.mint_result(0, BatchOutcome::Successful), Err(MintError::NotFound));
    assert_eq!(contract.mint_result(0, BatchOutcome::Failed), Err(MintError::NotFound));
    let batch = dispatch(&mut contract, 4);
    let before = contract.snapshot();
    assert_eq!(contract.mint_result(batch + 1, BatchOutcome::Successful), Err(MintError::NotFound));
    assert_eq!(contract.mint_result(u64::MAX, BatchOutcome::Successful), Err(MintError::NotFound));
    assert_eq!(contract.snapshot(), before);
    assert_eq!(contract.get_supply(), 10);
}

#[test]
fn repeated_settlement_is_refused_and_takes_nothing_more() {
    let mut contract = sale(10);
    let batch = dispatch(&mut contract, 4);
    assert_eq!(contract.mint_result(batch, BatchOutcome::Successful), Ok(4));
    assert_eq!(contract.get_supply(), 6);
    let settled = contract.snapshot();
    assert_eq!(contract.mint_result(batch, BatchOutcome::Successful), Err(MintError::NotFound));
    assert_eq!(contract.get_supply(), 6);
    assert_eq!(contract.mint_result(batch, BatchOutcome::Failed), Err(MintError::NotFound));
    assert_eq!(contract.snapshot(), settled);
    assert_eq!(contract.get_supply(), 6);
}

#[test]
fn repeated_settlement_is_refused_after_other_steps_too() {
    let mut contract = sale(10);
    let first = dispatch(&mut contract, 4);
    assert_eq!(contract.mint_result(first, BatchOutcome::Successful), Ok(4));
    let second = dispatch(&mut contract, 4);
    contract.storage_deposit(&account("bob_near"), 5, None).unwrap();
    contract.add_whitelist(&account("admin_near"), account("bob_near"), 1, 2, 3).unwrap();
    assert_eq!(contract.mint_result(first, BatchOutcome::Successful), Err(MintError::NotFound));
    assert_eq!(contract.get_supply(), 6);
    // another batch of the same size is a batch of its own
    assert_eq!(contract.mint_result(second, BatchOutcome::Successful), Ok(4));
    assert_eq!(contract.get_supply(), 2);
    assert_eq!(contract.mint_result(second, BatchOutcome::Successful), Err(MintError::NotFound));
    assert_eq!(contract.mint_result(first, BatchOutcome::Successful), Err(MintError::NotFound));
    assert_eq!(contract.get_supply(), 2);
}

#[test]
fn a_batch_that_failed_once_can_still_be_settled_once() {
    let mut contract = sale(10);
    let batch = dispatch(&mut contract, 4);
    assert_eq!(
        contract.mint_result(batch, BatchOutcome::Failed),
        Err(MintError::RemoteBatchFailed)
    );
    assert_eq!(contract.mint_result(batch, BatchOutcome::Successful), Ok(4));
    assert_eq!(contract.mint_result(batch, BatchOutcome::Successful), Err(MintError::NotFound));
    assert_eq!(contract.get_supply(), 6);
}

#[test]
fn batches_are_kept_in_the_stored_state() {
    let mut contract = sale(10);
    let first = dispatch(&mut contract, 4);
    let _second = dispatch(&mut contract, 2);
    contract.mint_result(first, BatchOutcome::Successful).unwrap();
    let stored: Snapshot = contract.snapshot();
    assert_eq!(stored.batches, vec![BatchState::Settled, BatchState::Reserved { quantity: 2 }]);
    let mut again = Minter::restore(stored).unwrap();
    assert_eq!(again.mint_result(first, BatchOutcome::Successful), Err(MintError::NotFound));
    assert_eq!(again.mint_result(1, BatchOutcome::Successful), Ok(2));
    assert_eq!(again.get_supply(), 4);
    assert_eq!(dispatch(&mut again, 1), 2);
}

#[test]
fn inventory_never_rises() {
    let mut contract = sale(20);
    let admin = account("admin_near");
    let alice = account("alice_near");
    let mut last = contract.get_supply();
    let mut check = |contract: &Minter| {
        assert!(contract.get_supply() <= last);
        last = contract.get_supply();
    };
    contract.add_whitelist(&admin, alice.clone(), 1, 2, 3).unwrap();
    check(&contract);
    contract.storage_deposit(&alice, MINT_STORAGE_COST * 3, None).unwrap();
    check(&contract);
    let first = dispatch(&mut contract, 2);
    check(&contract);
    let second = dispatch(&mut contract, 1);
    check(&contract);
    contract.mint_result(first, BatchOutcome::Successful).unwrap();
    check(&contract);
    let _ = contract.mint_result(second, BatchOutcome::Failed);
    check(&contract);
    let _ = contract.mint_result(first, BatchOutcome::Successful);
    check(&contract);
    contract.storage_withdraw_all(&alice).unwrap();
    check(&contract);
    contract.delete_whitelist(&admin, &alice).unwrap();
    check(&contract);
    assert_eq!(contract.get_supply(), 18);
}
