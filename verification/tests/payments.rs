use minter::{
    AccountId, BatchOutcome, Decision, MintError, Minter, PaymentOutcome, Phase,
    TokenReceiverMessage, MINT_STORAGE_COST,
};
use near_contract_standards::non_fungible_token::metadata::TokenMetadata;

const PRIVATE_START: u64 = 100;
const PUBLIC_START: u64 = 200;
const NOT_STARTED: u64 = 100;
const PRIVATE: u64 = 150;
const PUBLIC: u64 = 201;

fn account(name: &str) -> AccountId {
    AccountId::new(name).unwrap()
}

fn sale(supply: u16) -> Minter {
    Minter::new(
        account("admin_near"),
        account("nft_pack9.minter_near"),
        100,
        account("usdc_near"),
        account("usdt_near"),
        PRIVATE_START,
        PUBLIC_START,
        supply,
    )
}

fn pay(
    contract: &mut Minter,
    sender: &str,
    amount: u128,
    msg: &str,
    now: u64,
) -> Result<PaymentOutcome, MintError> {
    contract.ft_on_transfer(
        &account("usdc_near"),
        &account(sender),
        amount,
        msg,
        TokenMetadata::default(),
        &account("minter_near"),
        now,
    )
}

fn mint(
    contract: &mut Minter,
    sender: &str,
    amount: u128,
    quantity: u16,
    now: u64,
) -> Result<PaymentOutcome, MintError> {
    pay(contract, sender, amount, &format!("{{\"mint_amount\": {quantity}}}"), now)
}

fn whitelist(contract: &mut Minter, name: &str, price: u128, cap: u8) {
    contract.add_whitelist(&account("admin_near"), account(name), 100, price, cap).unwrap();
}

fn prepay(contract: &mut Minter, name: &str, items: u128) {
    contract.storage_deposit(&account(name), items * MINT_STORAGE_COST, None).unwrap();
}

#[test]
fn phase_follows_the_two_starting_times() {
    let contract = sale(10);
    assert_eq!(contract.phase_at(0), Phase::NotStarted);
    assert_eq!(contract.phase_at(100), Phase::NotStarted);
    assert_eq!(contract.phase_at(101), Phase::Private);
    assert_eq!(contract.phase_at(200), Phase::Private);
    assert_eq!(contract.phase_at(201), Phase::Public);
    assert_eq!(contract.phase_at(u64::MAX), Phase::Public);
}

#[test]
fn unit_price_is_the_override_only_in_the_private_sale() {
    let mut contract = sale(10);
    whitelist(&mut contract, "alice_near", 60, 5);
    let alice = account("alice_near");
    let bob = account("bob_near");
    assert_eq!(contract.unit_price(&alice, NOT_STARTED), 100);
    assert_eq!(contract.unit_price(&alice, PRIVATE), 60);
    assert_eq!(contract.unit_price(&alice, PUBLIC), 100);
    assert_eq!(contract.unit_price(&bob, PRIVATE), 100);
    assert_eq!(contract.unit_price(&bob, PUBLIC), 100);
}

#[test]
fn payment_before_the_sale_goes_back_whole() {
    let mut contract = sale(10);
    whitelist(&mut contract, "alice_near", 60, 5);
    prepay(&mut contract, "alice_near", 5);
    let outcome = mint(&mut contract, "alice_near", 300, 3, NOT_STARTED);
    assert_eq!(outcome, Ok(PaymentOutcome::Refund { amount: 300 }));
    assert_eq!(contract.get_supply(), 10);
    assert_eq!(contract.get_minting_of(&account("alice_near")), 0);
    assert_eq!(contract.get_storage_balance_of(&account("alice_near")), 5 * MINT_STORAGE_COST);
    assert_eq!(contract.get_whitelist(0, 10).len(), 1);
}

#[test]
fn private_sale_up_to_the_cap_is_approved() {
    let mut contract = sale(10);
    whitelist(&mut contract, "alice_near", 60, 5);
    prepay(&mut contract, "alice_near", 5);
    let outcome = mint(&mut contract, "alice_near", 300, 5, PRIVATE).unwrap();
    match outcome {
        PaymentOutcome::Dispatched { batch } => {
            assert_eq!(batch.requests.len(), 5);
            assert_eq!(batch.reduce_from_supply, 5);
            assert_eq!(batch.batch_id, 0);
            assert_eq!(batch.storage_mint, 5 * MINT_STORAGE_COST);
            assert_eq!(batch.nft_pack_contract, account("nft_pack9.minter_near"));
            assert_eq!(batch.callback_account, account("minter_near"));
            assert_eq!(batch.token_metadata, TokenMetadata::default());
            let ids: Vec<u16> = batch.requests.iter().map(|r| r.token_id).collect();
            assert_eq!(ids, vec![9, 8, 7, 6, 5]);
            assert!(batch.requests.iter().all(|r| r.receiver_id == account("alice_near")));
            assert!(batch.requests.iter().all(|r| r.deposit == MINT_STORAGE_COST));
            assert_eq!(batch.requests[4].refund_id, Some(account("alice_near")));
            assert!(batch.requests[..4].iter().all(|r| r.refund_id.is_none()));
        }
        other => panic!("not dispatched: {other:?}"),
    }
    assert_eq!(contract.get_minting_of(&account("alice_near")), 5);
    assert_eq!(contract.get_storage_balance_of(&account("alice_near")), 0);
    // the inventory waits for the settlement
    assert_eq!(contract.get_supply(), 10);
}

#[test]
fn private_sale_past_the_cap_is_refused() {
    let mut contract = sale(10);
    whitelist(&mut contract, "alice_near", 60, 5);
    prepay(&mut contract, "alice_near", 10);
    mint(&mut contract, "alice_near", 180, 3, PRIVATE).unwrap();
    assert_eq!(contract.get_minting_of(&account("alice_near")), 3);
    let outcome = mint(&mut contract, "alice_near", 180, 3, PRIVATE);
    assert_eq!(outcome, Err(MintError::QuotaExceeded));
    assert_eq!(contract.get_minting_of(&account("alice_near")), 3);
    assert_eq!(contract.get_storage_balance_of(&account("alice_near")), 7 * MINT_STORAGE_COST);
    assert_eq!(contract.get_supply(), 10);
    // two more still fit
    assert!(mint(&mut contract, "alice_near", 120, 2, PRIVATE).is_ok());
    assert_eq!(contract.get_minting_of(&account("alice_near")), 5);
}

#[test]
fn public_sale_beyond_the_inventory_is_refused() {
    let mut contract = sale(1);
    prepay(&mut contract, "alice_near", 2);
    let outcome = mint(&mut contract, "alice_near", 200, 2, PUBLIC);
    assert_eq!(outcome, Err(MintError::SupplyExhausted));
    assert_eq!(contract.get_supply(), 1);
    assert_eq!(contract.get_minting_of(&account("alice_near")), 0);
    assert_eq!(contract.get_storage_balance_of(&account("alice_near")), 2 * MINT_STORAGE_COST);
}

#[test]
fn failed_batch_leaves_the_inventory_and_keeps_the_counter() {
    let mut contract = sale(10);
    prepay(&mut contract, "alice_near", 4);
    let outcome = mint(&mut contract, "alice_near", 400, 4, PUBLIC).unwrap();
    assert!(matches!(outcome, PaymentOutcome::Dispatched { .. }));
    assert_eq!(contract.get_minting_of(&account("alice_near")), 4);
    let batch_id = match outcome {
        PaymentOutcome::Dispatched { batch } => batch.batch_id,
        other => panic!("not dispatched: {other:?}"),
    };
    assert_eq!(
        contract.mint_result(batch_id, BatchOutcome::Failed),
        Err(MintError::RemoteBatchFailed)
    );
    assert_eq!(contract.get_supply(), 10);
    assert_eq!(contract.get_minting_of(&account("alice_near")), 4);
    assert_eq!(contract.get_storage_balance_of(&account("alice_near")), 0);
}

#[test]
fn successful_batch_is_taken_from_the_inventory() {
    let mut contract = sale(10);
    prepay(&mut contract, "alice_near", 4);
    mint(&mut contract, "alice_near", 400, 4, PUBLIC).unwrap();
    assert_eq!(contract.mint_result(0, BatchOutcome::Successful), Ok(4));
    assert_eq!(contract.get_supply(), 6);
    let outcome = mint(&mut contract, "alice_near", 0, 1, PUBLIC);
    assert_eq!(outcome, Err(MintError::PaymentMismatch));
}

#[test]
fn payment_from_an_unknown_source_is_not_authorized() {
    let mut contract = sale(10);
    prepay(&mut contract, "alice_near", 4);
    for msg in ["", "{\"mint_amount\": 1}", "nonsense"] {
        let outcome = contract.ft_on_transfer(
            &account("dai_near"),
            &account("alice_near"),
            100,
            msg,
            TokenMetadata::default(),
            &account("minter_near"),
            PUBLIC,
        );
        assert_eq!(outcome, Err(MintError::NotAuthorized));
    }
    assert_eq!(contract.get_minting_of(&account("alice_near")), 0);
}

#[test]
fn both_token_contracts_are_accepted() {
    let mut contract = sale(10);
    prepay(&mut contract, "alice_near", 4);
    assert!(contract.accepts_source(&account("usdc_near")));
    assert!(contract.accepts_source(&account("usdt_near")));
    assert!(!contract.accepts_source(&account("admin_near")));
    let outcome = contract.ft_on_transfer(
        &account("usdt_near"),
        &account("alice_near"),
        100,
        "{\"mint_amount\": 1}",
        TokenMetadata::default(),
        &account("minter_near"),
        PUBLIC,
    );
    assert!(matches!(outcome, Ok(PaymentOutcome::Dispatched { .. })));
}

#[test]
fn payment_without_a_message_goes_back() {
    let mut contract = sale(10);
    assert_eq!(
        pay(&mut contract, "alice_near", 777, "", PUBLIC),
        Ok(PaymentOutcome::Refund { amount: 777 }),
    );
    assert_eq!(
        pay(&mut contract, "alice_near", 0, "", NOT_STARTED),
        Ok(PaymentOutcome::Refund { amount: 0 }),
    );
}

#[test]
fn payment_with_a_malformed_message_is_refused() {
    let mut contract = sale(10);
    prepay(&mut contract, "alice_near", 4);
    for msg in ["mint", "{\"amount\": 1}", "{\"mint_amount\": 1, \"x\": 2}", "[1]"] {
        assert_eq!(
            pay(&mut contract, "alice_near", 100, msg, PUBLIC),
            Err(MintError::MalformedInstruction),
        );
    }
    assert_eq!(contract.get_minting_of(&account("alice_near")), 0);
}

#[test]
fn payment_for_zero_items_is_refused() {
    let mut contract = sale(10);
    prepay(&mut contract, "alice_near", 4);
    assert_eq!(mint(&mut contract, "alice_near", 0, 0, PUBLIC), Err(MintError::ZeroQuantity));
    assert_eq!(mint(&mut contract, "alice_near", 100, 0, PUBLIC), Err(MintError::ZeroQuantity));
}

#[test]
fn payment_of_the_wrong_amount_is_refused_before_anything_changes() {
    let mut contract = sale(10);
    whitelist(&mut contract, "alice_near", 60, 5);
    prepay(&mut contract, "alice_near", 4);
    // base price during the private sale, for a whitelisted account
    assert_eq!(mint(&mut contract, "alice_near", 200, 2, PRIVATE), Err(MintError::PaymentMismatch));
    // override price during the public sale
    assert_eq!(mint(&mut contract, "alice_near", 120, 2, PUBLIC), Err(MintError::PaymentMismatch));
    assert_eq!(mint(&mut contract, "alice_near", 199, 2, PUBLIC), Err(MintError::PaymentMismatch));
    assert_eq!(
        mint(&mut contract, "alice_near", 201, 2, NOT_STARTED),
        Err(MintError::PaymentMismatch),
    );
    assert_eq!(contract.get_minting_of(&account("alice_near")), 0);
    assert_eq!(contract.get_storage_balance_of(&account("alice_near")), 4 * MINT_STORAGE_COST);
    assert_eq!(contract.get_supply(), 10);
    assert!(mint(&mut contract, "alice_near", 120, 2, PRIVATE).is_ok());
    assert!(mint(&mut contract, "alice_near", 200, 2, PUBLIC).is_ok());
}

#[test]
fn price_times_quantity_beyond_128_bits_matches_no_payment() {
    let mut contract = Minter::new(
        account("admin_near"),
        account("nft_pack9.minter_near"),
        u128::MAX,
        account("usdc_near"),
        account("usdt_near"),
        PRIVATE_START,
        PUBLIC_START,
        10,
    );
    prepay(&mut contract, "alice_near", 4);
    assert_eq!(
        mint(&mut contract, "alice_near", u128::MAX - 1, 2, PUBLIC),
        Err(MintError::PaymentMismatch)
    );
    assert!(mint(&mut contract, "alice_near", u128::MAX, 1, PUBLIC).is_ok());
}

#[test]
fn payment_without_a_prepaid_record_is_refused() {
    let mut contract = sale(10);
    assert_eq!(mint(&mut contract, "alice_near", 100, 1, PUBLIC), Err(MintError::NoEscrow));
    assert_eq!(mint(&mut contract, "alice_near", 100, 1, NOT_STARTED), Err(MintError::NoEscrow));
}

#[test]
fn payment_with_too_small_a_prepaid_balance_is_refused() {
    let mut contract = sale(10);
    prepay(&mut contract, "alice_near", 1);
    assert_eq!(
        mint(&mut contract, "alice_near", 200, 2, PUBLIC),
        Err(MintError::InsufficientEscrow),
    );
    assert_eq!(contract.get_minting_of(&account("alice_near")), 0);
    assert_eq!(contract.get_storage_balance_of(&account("alice_near")), MINT_STORAGE_COST);
    assert!(mint(&mut contract, "alice_near", 100, 1, PUBLIC).is_ok());
    assert_eq!(contract.get_storage_balance_of(&account("alice_near")), 0);
    // an emptied record is still a record: the balance is what falls short now
    assert_eq!(
        mint(&mut contract, "alice_near", 100, 1, PUBLIC),
        Err(MintError::InsufficientEscrow),
    );
}

#[test]
fn private_sale_is_for_whitelisted_accounts() {
    let mut contract = sale(10);
    prepay(&mut contract, "bob_near", 1);
    assert_eq!(mint(&mut contract, "bob_near", 100, 1, PRIVATE), Err(MintError::NotWhitelisted));
    assert_eq!(
        mint(&mut contract, "bob_near", 100, 1, PUBLIC_START),
        Err(MintError::NotWhitelisted),
    );
    assert!(mint(&mut contract, "bob_near", 100, 1, PUBLIC).is_ok());
}

#[test]
fn public_sale_has_no_cap_but_the_inventory() {
    let mut contract = sale(10);
    whitelist(&mut contract, "alice_near", 60, 2);
    prepay(&mut contract, "alice_near", 10);
    assert!(mint(&mut contract, "alice_near", 1000, 10, PUBLIC).is_ok());
    assert_eq!(contract.get_minting_of(&account("alice_near")), 10);
}

#[test]
fn counter_that_cannot_hold_the_total_refuses_the_payment() {
    let mut contract = sale(65535);
    prepay(&mut contract, "alice_near", 65536);
    assert!(mint(&mut contract, "alice_near", 6_553_500, 65535, PUBLIC).is_ok());
    assert_eq!(contract.get_minting_of(&account("alice_near")), 65535);
    assert_eq!(mint(&mut contract, "alice_near", 100, 1, PUBLIC), Err(MintError::Overflow));
    assert_eq!(contract.get_minting_of(&account("alice_near")), 65535);
    assert_eq!(contract.get_storage_balance_of(&account("alice_near")), MINT_STORAGE_COST);
}

#[test]
fn authorize_reads_and_changes_nothing() {
    let mut contract = sale(10);
    whitelist(&mut contract, "alice_near", 60, 5);
    prepay(&mut contract, "alice_near", 5);
    let alice = account("alice_near");
    assert_eq!(contract.authorize(&alice, 5, 300, PRIVATE), Ok(Decision::Approved));
    assert_eq!(contract.authorize(&alice, 6, 360, PRIVATE), Err(MintError::QuotaExceeded));
    assert_eq!(contract.authorize(&alice, 5, 500, NOT_STARTED), Ok(Decision::Declined));
    assert_eq!(contract.authorize(&alice, 11, 1100, PUBLIC), Err(MintError::SupplyExhausted));
    assert_eq!(contract.authorize(&alice, 10, 1000, PUBLIC), Ok(Decision::Approved));
    assert_eq!(contract.authorize(&alice, 10, 999, PUBLIC), Err(MintError::PaymentMismatch));
    assert_eq!(contract.authorize(&account("bob_near"), 1, 100, PUBLIC), Err(MintError::NoEscrow));
    assert_eq!(contract.get_minting_of(&alice), 0);
}

#[test]
fn on_payment_takes_the_instruction_already_read() {
    let mut contract = sale(10);
    prepay(&mut contract, "alice_near", 2);
    let usdc = account("usdc_near");
    let alice = account("alice_near");
    let me = account("minter_near");
    assert_eq!(
        contract.on_payment(&usdc, &alice, 5, None, TokenMetadata::default(), &me, PUBLIC),
        Ok(PaymentOutcome::Refund { amount: 5 })
    );
    let outcome = contract.on_payment(
        &usdc,
        &alice,
        200,
        Some(TokenReceiverMessage::Mint { mint_amount: 2 }),
        TokenMetadata::default(),
        &me,
        PUBLIC,
    );
    assert!(matches!(outcome, Ok(PaymentOutcome::Dispatched { .. })));
    assert_eq!(contract.get_minting_of(&alice), 2);
}

#[test]
fn counters_of_other_accounts_are_left_alone() {
    let mut contract = sale(10);
    prepay(&mut contract, "alice_near", 3);
    prepay(&mut contract, "bob_near", 3);
    mint(&mut contract, "alice_near", 200, 2, PUBLIC).unwrap();
    mint(&mut contract, "bob_near", 100, 1, PUBLIC).unwrap();
    mint(&mut contract, "alice_near", 100, 1, PUBLIC).unwrap();
    assert_eq!(contract.get_minting_of(&account("alice_near")), 3);
    assert_eq!(contract.get_minting_of(&account("bob_near")), 1);
    assert_eq!(contract.get_storage_balance_of(&account("alice_near")), 0);
    assert_eq!(contract.get_storage_balance_of(&account("bob_near")), 2 * MINT_STORAGE_COST);
}

#[test]
fn private_sale_never_takes_an_account_past_its_cap() {
    for cap in [0u8, 1, 3, 5] {
        let mut contract = sale(100);
        whitelist(&mut contract, "alice_near", 7, cap);
        prepay(&mut contract, "alice_near", 100);
        for round in 0..4 {
            for quantity in 1u16..=6 {
                let msg = format!("{{\"mint_amount\": {quantity}}}");
                let before = contract.get_minting_of(&account("alice_near"));
                let paid = 7 * quantity as u128;
                let outcome = pay(&mut contract, "alice_near", paid, &msg, PRIVATE + round);
                let after = contract.get_minting_of(&account("alice_near"));
                assert!(after <= cap as u16);
                if before + quantity <= cap as u16 {
                    assert!(matches!(outcome, Ok(PaymentOutcome::Dispatched { .. })));
                    assert_eq!(after, before + quantity);
                } else {
                    assert_eq!(outcome, Err(MintError::QuotaExceeded));
                    assert_eq!(after, before);
                }
            }
        }
        assert_eq!(contract.get_minting_of(&account("alice_near")), cap as u16);
    }
}

#[test]
fn approved_payments_are_exact() {
    let mut contract = sale(50);
    whitelist(&mut contract, "alice_near", 7, 50);
    prepay(&mut contract, "alice_near", 50);
    for (now, price) in [(PRIVATE, 7u128), (PUBLIC, 100u128)] {
        for quantity in 1u16..=3 {
            let msg = format!("{{\"mint_amount\": {quantity}}}");
            let due = price * quantity as u128;
            for amount in [0, due - 1, due + 1, due * 2] {
                let before = contract.snapshot();
                assert_eq!(
                    pay(&mut contract, "alice_near", amount, &msg, now),
                    Err(MintError::PaymentMismatch)
                );
                assert_eq!(contract.snapshot(), before);
            }
            assert!(matches!(
                pay(&mut contract, "alice_near", due, &msg, now),
                Ok(PaymentOutcome::Dispatched { .. })
            ));
        }
    }
}
