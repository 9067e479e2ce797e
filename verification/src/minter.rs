//! The minting service itself: its state and the operations on it.

use crate::account::AccountId;
use crate::batch::{lemma_reserved_cost_fits, promise_mint_pack, MintBatch};
use crate::error::MintError;
use crate::message::{decoded_fields, instruction_of, TokenReceiverMessage};
use crate::model::{
    BatchOutcome, BatchState, CollectRequestView, Decision, MinterView, PaymentOutcomeView, Phase,
    WhitelistState,
};
use crate::store::{entries_view, AccountMap};
use near_contract_standards::non_fungible_token::metadata::TokenMetadata;
use vstd::prelude::*;

verus! {

/// What became of a payment that was not refused.
#[derive(Debug, PartialEq)]
pub enum PaymentOutcome {
    /// Nothing was sold; `amount` goes back to the payer.
    Refund { amount: u128 },
    /// The whole payment was taken and `batch` is to be sent.
    Dispatched { batch: MintBatch },
}

impl View for PaymentOutcome {
    type V = PaymentOutcomeView;

    open spec fn view(&self) -> PaymentOutcomeView {
        match self {
            PaymentOutcome::Refund { amount } => PaymentOutcomeView::Refund { amount: *amount },
            PaymentOutcome::Dispatched { batch } => PaymentOutcomeView::Dispatched {
                batch: batch@,
            },
        }
    }
}

/// A transfer of tokens, out of the funds collected, that the administrator
/// asked for: `token_contract` is to move `amount` to `receiver_id`.
#[derive(Debug, PartialEq)]
pub struct CollectRequest {
    /// The token contract that holds the funds.
    pub token_contract: AccountId,
    /// Who gets them.
    pub receiver_id: AccountId,
    /// How much.
    pub amount: u128,
}

impl View for CollectRequest {
    type V = CollectRequestView;

    open spec fn view(&self) -> CollectRequestView {
        CollectRequestView {
            token_contract: self.token_contract@,
            receiver_id: self.receiver_id@,
            amount: self.amount,
        }
    }
}

/// The whole state of a minting service as plain data, as it is stored
/// between two calls.
#[derive(Debug, PartialEq)]
pub struct Snapshot {
    /// Whitelist entries, oldest first.
    pub whitelist: Vec<(AccountId, WhitelistState)>,
    /// The base price of one item.
    pub minting_price: u128,
    /// The administrator.
    pub admin: AccountId,
    /// The first token contract from which payments are accepted.
    pub usdc_account_id: AccountId,
    /// The second token contract from which payments are accepted.
    pub usdt_account_id: AccountId,
    /// The private sale runs after this time.
    pub private_sale_start: u64,
    /// The public sale runs after this time.
    pub public_sale_start: u64,
    /// How many items each account has been approved for so far.
    pub minted: Vec<(AccountId, u16)>,
    /// What each account has prepaid for storage and not yet used.
    pub storage_deposits: Vec<(AccountId, u128)>,
    /// The issuing contract.
    pub nft_pack_contract: AccountId,
    /// The items that are left.
    pub nft_pack_supply: u16,
    /// Every batch dispatched so far, at the place that its identifier
    /// gives.
    pub batches: Vec<BatchState>,
}

impl View for Snapshot {
    type V = MinterView;

    open spec fn view(&self) -> MinterView {
        MinterView {
            whitelist: entries_view(self.whitelist@),
            minting_price: self.minting_price,
            admin: self.admin@,
            usdc_account_id: self.usdc_account_id@,
            usdt_account_id: self.usdt_account_id@,
            private_sale_start: self.private_sale_start,
            public_sale_start: self.public_sale_start,
            minted: entries_view(self.minted@),
            storage_deposits: entries_view(self.storage_deposits@),
            nft_pack_contract: self.nft_pack_contract@,
            nft_pack_supply: self.nft_pack_supply,
            batches: self.batches@,
        }
    }
}

/// What is set when a sale is opened and never changes afterwards.
struct SaleConfiguration {
    minting_price: u128,
    admin: AccountId,
    usdc_account_id: AccountId,
    usdt_account_id: AccountId,
    private_sale_start: u64,
    public_sale_start: u64,
    nft_pack_contract: AccountId,
}

impl SaleConfiguration {
    /// The private sale starts before the public one.
    #[verifier::type_invariant]
    spec fn wf(&self) -> bool {
        self.private_sale_start < self.public_sale_start
    }
}

/// The minting service: sale configuration, whitelist, counters of what each
/// account has minted, prepaid storage balances, the record of dispatched
/// batches, and the inventory.
///
/// The state of every `Minter` is well formed, as `MinterView::wf` says.
pub struct Minter {
    configuration: SaleConfiguration,
    whitelist: AccountMap<WhitelistState>,
    minted: AccountMap<u16>,
    storage_deposits: AccountMap<u128>,
    nft_pack_supply: u16,
    batches: Vec<BatchState>,
}

impl View for Minter {
    type V = MinterView;

    closed spec fn view(&self) -> MinterView {
        MinterView {
            whitelist: self.whitelist@,
            minting_price: self.configuration.minting_price,
            admin: self.configuration.admin@,
            usdc_account_id: self.configuration.usdc_account_id@,
            usdt_account_id: self.configuration.usdt_account_id@,
            private_sale_start: self.configuration.private_sale_start,
            public_sale_start: self.configuration.public_sale_start,
            minted: self.minted@,
            storage_deposits: self.storage_deposits@,
            nft_pack_contract: self.configuration.nft_pack_contract@,
            nft_pack_supply: self.nft_pack_supply,
            batches: self.batches@,
        }
    }
}

impl Minter {
    /// Does nothing when run. To the verifier it brings what the parts of the
    /// state guarantee by their types: the state is well formed.
    #[inline(always)]
    fn is_wf(&self)
        ensures
            self@.wf(),
    {
        proof {
            use_type_invariant(&self.configuration);
            use_type_invariant(&self.whitelist);
            use_type_invariant(&self.minted);
            use_type_invariant(&self.storage_deposits);
            assert(self.batches@.len() == self.batches.len() <= u64::MAX);
        }
    }

    /// Opens a sale of `nft_pack_supply` items at `minting_price` each, run by
    /// `admin`, with nobody whitelisted and nothing prepaid or minted.
    pub fn new(
        admin: AccountId,
        nft_pack_contract: AccountId,
        minting_price: u128,
        usdc_account_id: AccountId,
        usdt_account_id: AccountId,
        private_sale_start: u64,
        public_sale_start: u64,
        nft_pack_supply: u16,
    ) -> (minter: Minter)
        requires
            private_sale_start < public_sale_start,
        ensures
            minter@.wf(),
            minter@ == MinterView::initial(
                admin@,
                nft_pack_contract@,
                minting_price,
                usdc_account_id@,
                usdt_account_id@,
                private_sale_start,
                public_sale_start,
                nft_pack_supply,
            ),
    {
        Minter {
            configuration: SaleConfiguration {
                minting_price,
                admin,
                usdc_account_id,
                usdt_account_id,
                private_sale_start,
                public_sale_start,
                nft_pack_contract,
            },
            whitelist: AccountMap::new(),
            minted: AccountMap::new(),
            storage_deposits: AccountMap::new(),
            nft_pack_supply,
            batches: Vec::new(),
        }
    }

    /// The state as plain data.
    pub fn snapshot(&self) -> (stored: Snapshot)
        ensures
            stored@ == self@,
            self@.wf(),
    {
        self.is_wf();
        Snapshot {
            whitelist: self.whitelist.to_entries(),
            minting_price: self.configuration.minting_price,
            admin: self.configuration.admin.clone(),
            usdc_account_id: self.configuration.usdc_account_id.clone(),
            usdt_account_id: self.configuration.usdt_account_id.clone(),
            private_sale_start: self.configuration.private_sale_start,
            public_sale_start: self.configuration.public_sale_start,
            minted: self.minted.to_entries(),
            storage_deposits: self.storage_deposits.to_entries(),
            nft_pack_contract: self.configuration.nft_pack_contract.clone(),
            nft_pack_supply: self.nft_pack_supply,
            batches: self.batches.clone(),
        }
    }

    /// The service in the state that `stored` describes, if that state is
    /// well formed: no table may hold an account twice, and the private sale
    /// must start before the public one.
    pub fn restore(stored: Snapshot) -> (minter: Option<Minter>)
        ensures
            minter is Some <==> stored@.wf(),
            minter matches Some(m) ==> m@ == stored@,
    {
        assert(stored.batches@.len() == stored.batches.len() <= u64::MAX);
        if stored.private_sale_start >= stored.public_sale_start {
            return None;
        }
        let whitelist = match AccountMap::from_entries(stored.whitelist) {
            Some(table) => table,
            None => {
                return None;
            },
        };
        let minted = match AccountMap::from_entries(stored.minted) {
            Some(table) => table,
            None => {
                return None;
            },
        };
        let storage_deposits = match AccountMap::from_entries(stored.storage_deposits) {
            Some(table) => table,
            None => {
                return None;
            },
        };
        Some(
            Minter {
                configuration: SaleConfiguration {
                    minting_price: stored.minting_price,
                    admin: stored.admin,
                    usdc_account_id: stored.usdc_account_id,
                    usdt_account_id: stored.usdt_account_id,
                    private_sale_start: stored.private_sale_start,
                    public_sale_start: stored.public_sale_start,
                    nft_pack_contract: stored.nft_pack_contract,
                },
                whitelist,
                minted,
                storage_deposits,
                nft_pack_supply: stored.nft_pack_supply,
                batches: stored.batches,
            },
        )
    }

    /// The items that are left.
    pub fn get_supply(&self) -> (supply: u16)
        ensures
            supply == self@.nft_pack_supply,
            self@.wf(),
    {
        self.is_wf();
        self.nft_pack_supply
    }

    /// The phase of the sale at time `now`.
    pub fn phase_at(&self, now: u64) -> (phase: Phase)
        ensures
            phase == self@.phase_at(now),
    {
        if now > self.configuration.public_sale_start {
            Phase::Public
        } else if now > self.configuration.private_sale_start {
            Phase::Private
        } else {
            Phase::NotStarted
        }
    }

    /// What `caller` pays for one item at time `now`.
    pub fn unit_price(&self, caller: &AccountId, now: u64) -> (price: u128)
        ensures
            price == self@.unit_price(caller@, now),
    {
        match self.whitelist.get(caller) {
            Some(entry) => match self.phase_at(now) {
                Phase::Private => entry.minting_price,
                _ => self.configuration.minting_price,
            },
            None => self.configuration.minting_price,
        }
    }

    /// The admission check for a request of `quantity` items by `caller`, who
    /// paid `paid`, at time `now`. It reads the state and changes nothing.
    pub fn authorize(&self, caller: &AccountId, quantity: u16, paid: u128, now: u64) -> (decision:
        Result<Decision, MintError>)
        ensures
            decision == self@.authorize(caller@, quantity, paid, now),
    {
        let price = self.unit_price(caller, now);
        let exact = match price.checked_mul(quantity as u128) {
            Some(due) => paid == due,
            None => false,
        };
        if !exact {
            return Err(MintError::PaymentMismatch);
        }
        if quantity > self.nft_pack_supply {
            return Err(MintError::SupplyExhausted);
        }
        if !self.storage_deposits.contains_key(caller) {
            return Err(MintError::NoEscrow);
        }
        match self.phase_at(now) {
            Phase::Public => Ok(Decision::Approved),
            Phase::Private => match self.whitelist.get(caller) {
                None => Err(MintError::NotWhitelisted),
                Some(entry) => {
                    let so_far = self.get_minting_of(caller);
                    if so_far as u32 + quantity as u32 > entry.minting_limit as u32 {
                        Err(MintError::QuotaExceeded)
                    } else {
                        Ok(Decision::Approved)
                    }
                },
            },
            Phase::NotStarted => Ok(Decision::Declined),
        }
    }

    /// Adds a whitelist entry for `account_id`, as the last entry.
    ///
    /// Fails with `NotAuthorized` unless `signer` is the administrator, and
    /// with `DuplicateEntry` where the account already has an entry.
    pub fn add_whitelist(
        &mut self,
        signer: &AccountId,
        account_id: AccountId,
        minting_start: u64,
        minting_price: u128,
        minting_limit: u8,
    ) -> (added: Result<(), MintError>)
        ensures
            final(self)@.wf(),
            added == old(self)@.add_whitelist_result(signer@, account_id@),
            final(self)@ == old(self)@.after_add_whitelist(
                signer@,
                account_id@,
                (WhitelistState { minting_start, minting_price, minting_limit }),
            ),
    {
        self.is_wf();
        if *signer != self.configuration.admin {
            return Err(MintError::NotAuthorized);
        }
        if self.whitelist.contains_key(&account_id) {
            return Err(MintError::DuplicateEntry);
        }
        self.whitelist.set(
            account_id,
            WhitelistState { minting_start, minting_price, minting_limit },
        );
        Ok(())
    }

    /// Deletes the whitelist entry of `account_id`; the other entries keep
    /// their order.
    ///
    /// Fails with `NotAuthorized` unless `signer` is the administrator, and
    /// with `NotFound` where the account has no entry.
    pub fn delete_whitelist(&mut self, signer: &AccountId, account_id: &AccountId) -> (deleted:
        Result<(), MintError>)
        ensures
            final(self)@.wf(),
            deleted == old(self)@.delete_whitelist_result(signer@, account_id@),
            final(self)@ == old(self)@.after_delete_whitelist(signer@, account_id@),
    {
        self.is_wf();
        if *signer != self.configuration.admin {
            return Err(MintError::NotAuthorized);
        }
        if !self.whitelist.contains_key(account_id) {
            return Err(MintError::NotFound);
        }
        self.whitelist.remove(account_id);
        Ok(())
    }

    /// Credits `attached_deposit` to the prepaid balance of `account`, or of
    /// `signer` where no account is named. The record is made if there is
    /// none.
    ///
    /// Fails with `Overflow`, and credits nothing, where the balance cannot
    /// hold the sum.
    pub fn storage_deposit(
        &mut self,
        signer: &AccountId,
        attached_deposit: u128,
        account: Option<AccountId>,
    ) -> (credited: Result<(), MintError>)
        ensures
            final(self)@.wf(),
            credited == old(self)@.storage_deposit_result(
                signer@,
                attached_deposit,
                account_name(account),
            ),
            final(self)@ == old(self)@.after_storage_deposit(
                signer@,
                attached_deposit,
                account_name(account),
            ),
    {
        self.is_wf();
        let account_id = match account {
            Some(named) => named,
            None => signer.clone(),
        };
        let balance = self.get_storage_balance_of(&account_id);
        match balance.checked_add(attached_deposit) {
            Some(sum) => {
                self.storage_deposits.set(account_id, sum);
                Ok(())
            },
            None => Err(MintError::Overflow),
        }
    }

    /// Pays out the whole prepaid balance of `signer` and drops the record.
    /// The result is the amount to transfer back to `signer`.
    ///
    /// Fails with `EmptyBalance` where there is nothing to pay out.
    pub fn storage_withdraw_all(&mut self, signer: &AccountId) -> (paid_out: Result<
        u128,
        MintError,
    >)
        ensures
            final(self)@.wf(),
            paid_out == old(self)@.storage_withdraw_all_result(signer@),
            final(self)@ == old(self)@.after_storage_withdraw_all(signer@),
    {
        self.is_wf();
        let balance = self.get_storage_balance_of(signer);
        if balance == 0 {
            return Err(MintError::EmptyBalance);
        }
        self.storage_deposits.remove(signer);
        Ok(balance)
    }

    /// The transfer by which the administrator collects `amount` out of the
    /// funds that the token contract `from` holds for the service.
    ///
    /// Fails with `NotAuthorized` unless `signer` is the administrator.
    pub fn admin_collect(&self, signer: &AccountId, from: AccountId, amount: u128) -> (request:
        Result<CollectRequest, MintError>)
        ensures
            match request {
                Ok(r) => self@.admin_collect_result(signer@, from@, amount) == Ok::<
                    CollectRequestView,
                    MintError,
                >(r@),
                Err(e) => self@.admin_collect_result(signer@, from@, amount) == Err::<
                    CollectRequestView,
                    MintError,
                >(e),
            },
    {
        if *signer != self.configuration.admin {
            return Err(MintError::NotAuthorized);
        }
        Ok(CollectRequest { token_contract: from, receiver_id: signer.clone(), amount })
    }

    /// The prepaid balance of `account`; 0 where it has none.
    pub fn get_storage_balance_of(&self, account: &AccountId) -> (balance: u128)
        ensures
            balance == self@.balance_of(account@),
    {
        match self.storage_deposits.get(account) {
            Some(balance) => balance,
            None => 0,
        }
    }

    /// The whitelist entries from place `from_index` on, at most `limit` of
    /// them, oldest first.
    pub fn get_whitelist(&self, from_index: u64, limit: u64) -> (page: Vec<
        (AccountId, WhitelistState),
    >)
        ensures
            entries_view(page@) == self@.whitelist_page(from_index, limit),
    {
        let len = self.whitelist.len();
        let mut page: Vec<(AccountId, WhitelistState)> = Vec::new();
        if from_index >= len as u64 {
            return page;
        }
        let lo: usize = from_index as usize;
        let hi: usize = if limit >= (len - lo) as u64 {
            len
        } else {
            lo + limit as usize
        };
        let mut i: usize = lo;
        while i < hi
            invariant
                lo <= i <= hi <= len,
                len == self.whitelist@.len(),
                page@.len() == i - lo,
                forall|k: int|
                    0 <= k < page@.len() ==> (#[trigger] page@[k]).0@ == self.whitelist@[lo + k].0
                        && page@[k].1 == self.whitelist@[lo + k].1,
            decreases hi - i,
        {
            page.push(self.whitelist.entry(i));
            i += 1;
        }
        page
    }

    /// How many items `account` has been approved for so far; 0 where it
    /// has never minted.
    pub fn get_minting_of(&self, account: &AccountId) -> (count: u16)
        ensures
            count == self@.minted_of(account@),
    {
        match self.minted.get(account) {
            Some(count) => count,
            None => 0,
        }
    }

    /// Where the batch `batch_id` stands; `None` where no batch was
    /// dispatched under that identifier.
    pub fn get_batch(&self, batch_id: u64) -> (state: Option<BatchState>)
        ensures
            state == self@.batch_state(batch_id),
    {
        if batch_id < self.batches.len() as u64 {
            Some(self.batches[batch_id as usize])
        } else {
            None
        }
    }

    /// Settles the batch `batch_id` once the issuing contract has reported
    /// `outcome`: a batch that went through is taken from the inventory and
    /// marked as settled, and the result is the quantity taken.
    ///
    /// A batch is settled at most once. Fails with `NotFound` where no batch
    /// is on record as reserved under `batch_id`, be it unknown or settled
    /// before; with `RemoteBatchFailed` where the batch failed; and with
    /// `Underflow` where the inventory is smaller than the batch. What the
    /// payment already changed, the sender's counter and prepaid balance,
    /// stays as it is in every case.
    pub fn mint_result(&mut self, batch_id: u64, outcome: BatchOutcome) -> (settled: Result<
        u16,
        MintError,
    >)
        ensures
            final(self)@.wf(),
            settled == old(self)@.settlement_result(batch_id, outcome),
            final(self)@ == old(self)@.after_settlement(batch_id, outcome),
            settled is Ok ==> old(self)@.batch_state(batch_id) == Some(
                BatchState::Reserved { quantity: settled->Ok_0 },
            ) && final(self)@.batch_state(batch_id) == Some(BatchState::Settled)
                && final(self)@.nft_pack_supply == old(self)@.nft_pack_supply - settled->Ok_0,
            !(old(self)@.batch_state(batch_id) matches Some(BatchState::Reserved { .. }))
                ==> settled == Err::<u16, MintError>(MintError::NotFound),
            settled is Err ==> final(self)@ == old(self)@,
    {
        self.is_wf();
        let quantity = match self.get_batch(batch_id) {
            Some(BatchState::Reserved { quantity }) => quantity,
            _ => {
                return Err(MintError::NotFound);
            },
        };
        assert(batch_id < self.batches@.len() == self.batches.len());
        match outcome {
            BatchOutcome::Failed => Err(MintError::RemoteBatchFailed),
            BatchOutcome::Successful => match self.nft_pack_supply.checked_sub(quantity) {
                Some(left) => {
                    self.nft_pack_supply = left;
                    self.batches.set(batch_id as usize, BatchState::Settled);
                    Ok(quantity)
                },
                None => Err(MintError::Underflow),
            },
        }
    }

    /// Whether payments that arrive through `source` are accepted.
    pub fn accepts_source(&self, source: &AccountId) -> (accepted: bool)
        ensures
            accepted == self@.accepts_source(source@),
    {
        *source == self.configuration.usdc_account_id || *source
            == self.configuration.usdt_account_id
    }

    /// Handles a payment of `amount` by `sender_id` that arrived through the
    /// token contract `predecessor` at time `now`, with the instruction already
    /// read from its text. Items are created with `token_metadata`.
    ///
    /// Where the payment is approved, the sender's counter grows by the
    /// quantity, the storage cost of the batch leaves their prepaid balance,
    /// the batch is put on record as reserved under the next identifier, and
    /// it is handed back for sending; the inventory is not touched before the
    /// settlement. In every other case the state stays as it was.
    pub fn on_payment(
        &mut self,
        predecessor: &AccountId,
        sender_id: &AccountId,
        amount: u128,
        message: Option<TokenReceiverMessage>,
        token_metadata: TokenMetadata,
        current_account: &AccountId,
        now: u64,
    ) -> (outcome: Result<PaymentOutcome, MintError>)
        ensures
            final(self)@.wf(),
            match outcome {
                Ok(o) => old(self)@.payment_result(
                    predecessor@,
                    sender_id@,
                    amount,
                    message,
                    token_metadata,
                    current_account@,
                    now,
                ) == Ok::<PaymentOutcomeView, MintError>(o@),
                Err(e) => old(self)@.payment_result(
                    predecessor@,
                    sender_id@,
                    amount,
                    message,
                    token_metadata,
                    current_account@,
                    now,
                ) == Err::<PaymentOutcomeView, MintError>(e),
            },
            final(self)@ == old(self)@.after_payment(
                predecessor@,
                sender_id@,
                amount,
                message,
                token_metadata,
                current_account@,
                now,
            ),
    {
        self.is_wf();
        if !self.accepts_source(predecessor) {
            return Err(MintError::NotAuthorized);
        }
        let mint_amount = match message {
            None => {
                return Ok(PaymentOutcome::Refund { amount });
            },
            Some(TokenReceiverMessage::Mint { mint_amount }) => mint_amount,
        };
        if mint_amount == 0 {
            return Err(MintError::ZeroQuantity);
        }
        match self.authorize(sender_id, mint_amount, amount, now) {
            Err(e) => {
                return Err(e);
            },
            Ok(Decision::Declined) => {
                return Ok(PaymentOutcome::Refund { amount });
            },
            Ok(Decision::Approved) => {},
        }
        let total = match self.get_minting_of(sender_id).checked_add(mint_amount) {
            Some(total) => total,
            None => {
                return Err(MintError::Overflow);
            },
        };
        let batch_id = self.batches.len() as u64;
        if batch_id == u64::MAX {
            return Err(MintError::Overflow);
        }
        let balance = self.get_storage_balance_of(sender_id);
        let batch = match promise_mint_pack(
            self.configuration.nft_pack_contract.clone(),
            self.nft_pack_supply,
            sender_id.clone(),
            token_metadata,
            mint_amount,
            current_account.clone(),
            balance,
            batch_id,
        ) {
            Ok(batch) => batch,
            Err(e) => {
                return Err(e);
            },
        };
        proof {
            lemma_reserved_cost_fits(mint_amount);
        }
        self.minted.set(sender_id.clone(), total);
        self.storage_deposits.set(sender_id.clone(), balance - batch.storage_mint);
        self.batches.push(BatchState::Reserved { quantity: mint_amount });
        Ok(PaymentOutcome::Dispatched { batch })
    }

    /// Handles the notification that `sender_id` paid `amount` through the
    /// token contract `predecessor`, with the text `msg`: reads the
    /// instruction from `msg` and goes on as `on_payment` does. A text that is
    /// neither empty nor a mint instruction is refused as malformed, unless
    /// the source is refused first.
    pub fn ft_on_transfer(
        &mut self,
        predecessor: &AccountId,
        sender_id: &AccountId,
        amount: u128,
        msg: &str,
        token_metadata: TokenMetadata,
        current_account: &AccountId,
        now: u64,
    ) -> (outcome: Result<PaymentOutcome, MintError>)
        ensures
            final(self)@.wf(),
            match outcome {
                Ok(o) => old(self)@.transfer_result(
                    predecessor@,
                    sender_id@,
                    amount,
                    instruction_of(msg@, decoded_fields(msg@)),
                    token_metadata,
                    current_account@,
                    now,
                ) == Ok::<PaymentOutcomeView, MintError>(o@),
                Err(e) => old(self)@.transfer_result(
                    predecessor@,
                    sender_id@,
                    amount,
                    instruction_of(msg@, decoded_fields(msg@)),
                    token_metadata,
                    current_account@,
                    now,
                ) == Err::<PaymentOutcomeView, MintError>(e),
            },
            final(self)@ == old(self)@.after_transfer(
                predecessor@,
                sender_id@,
                amount,
                instruction_of(msg@, decoded_fields(msg@)),
                token_metadata,
                current_account@,
                now,
            ),
    {
        self.is_wf();
        if !self.accepts_source(predecessor) {
            return Err(MintError::NotAuthorized);
        }
        match TokenReceiverMessage::parse(msg) {
            Ok(message) => self.on_payment(
                predecessor,
                sender_id,
                amount,
                message,
                token_metadata,
                current_account,
                now,
            ),
            Err(e) => Err(e),
        }
    }
}

/// The name of the account that a deposit names, if it names one.
pub open spec fn account_name(account: Option<AccountId>) -> Option<Seq<char>> {
    match account {
        Some(named) => Some(named@),
        None => None,
    }
}

} // verus!
