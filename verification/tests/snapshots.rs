use minter::{AccountId, BatchState, Minter, Snapshot, WhitelistState, MINT_STORAGE_COST};
use near_contract_standards::non_fungible_token::metadata::TokenMetadata;

fn account(name: &str) -> AccountId {
    AccountId::new(name).unwrap()
}

fn entry(minting_start: u64, minting_price: u128, minting_limit: u8) -> WhitelistState {
    WhitelistState { minting_start, minting_price, minting_limit }
}

fn plain() -> Snapshot {
    Snapshot {
        whitelist: vec![
            (account("alice_near"), entry(1, 60, 5)),
            (account("bob_near"), entry(2, 70, 6)),
        ],
        minting_price: 100,
        admin: account("admin_near"),
        usdc_account_id: account("usdc_near"),
        usdt_account_id: account("usdt_near"),
        private_sale_start: 100,
        public_sale_start: 200,
        minted: vec![(account("bob_near"), 3)],
        storage_deposits: vec![(account("alice_near"), 7), (account("carol_near"), 9)],
        nft_pack_contract: account("nft_pack9.minter_near"),
        nft_pack_supply: 42,
        batches: vec![BatchState::Settled, BatchState::Reserved { quantity: 3 }],
    }
}

#[test]
fn restore_then_snapshot_gives_the_state_back() {
    let service = Minter::restore(plain()).unwrap();
    assert_eq!(service.snapshot(), plain());
    assert_eq!(service.get_supply(), 42);
    assert_eq!(service.get_batch(0), Some(BatchState::Settled));
    assert_eq!(service.get_batch(1), Some(BatchState::Reserved { quantity: 3 }));
    assert_eq!(service.get_minting_of(&account("bob_near")), 3);
    assert_eq!(service.get_minting_of(&account("alice_near")), 0);
    assert_eq!(service.get_storage_balance_of(&account("carol_near")), 9);
    assert_eq!(service.get_whitelist(1, 1)[0].0, account("bob_near"));
}

#[test]
fn snapshot_follows_the_operations() {
    let mut service = Minter::new(
        account("admin_near"),
        account("nft_pack9.minter_near"),
        100,
        account("usdc_near"),
        account("usdt_near"),
        100,
        200,
        5000,
    );
    service.add_whitelist(&account("admin_near"), account("alice_near"), 100, 1000, 5).unwrap();
    service.storage_deposit(&account("alice_near"), 2 * MINT_STORAGE_COST, None).unwrap();
    service
        .ft_on_transfer(
            &account("usdc_near"),
            &account("alice_near"),
            100,
            "{\"mint_amount\": 1}",
            TokenMetadata::default(),
            &account("minter_near"),
            500,
        )
        .unwrap();
    let stored = service.snapshot();
    assert_eq!(stored.minted, vec![(account("alice_near"), 1)]);
    assert_eq!(stored.storage_deposits, vec![(account("alice_near"), MINT_STORAGE_COST)]);
    assert_eq!(stored.whitelist.len(), 1);
    assert_eq!(stored.nft_pack_supply, 5000);
    assert_eq!(stored.batches, vec![BatchState::Reserved { quantity: 1 }]);
    assert_eq!(stored.minting_price, 100);
    assert_eq!(stored.admin, account("admin_near"));
    let again = Minter::restore(stored).unwrap();
    assert_eq!(again.snapshot(), service.snapshot());
}

#[test]
fn restore_refuses_an_account_filed_twice() {
    let mut twice = plain();
    twice.minted.push((account("bob_near"), 4));
    assert!(Minter::restore(twice).is_none());
    let mut twice = plain();
    twice.whitelist.push((account("alice_near"), entry(0, 0, 0)));
    assert!(Minter::restore(twice).is_none());
    let mut twice = plain();
    twice.storage_deposits.insert(0, (account("carol_near"), 1));
    assert!(Minter::restore(twice).is_none());
}

#[test]
fn restore_refuses_a_public_sale_that_does_not_start_later() {
    let mut stored = plain();
    stored.public_sale_start = 100;
    assert!(Minter::restore(stored).is_none());
    let mut stored = plain();
    stored.public_sale_start = 99;
    assert!(Minter::restore(stored).is_none());
    let mut stored = plain();
    stored.public_sale_start = 101;
    assert!(Minter::restore(stored).is_some());
}
