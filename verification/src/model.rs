//! The mathematical model of the service: its state as sequences and
//! numbers, and every operation as a function from state to result and next
//! state.

use crate::batch::{planned_batch, reserved_cost, MintBatchView};
use crate::error::MintError;
use crate::message::TokenReceiverMessage;
use crate::store::{distinct_keys, has_key, lookup, put, without};
use near_contract_standards::non_fungible_token::metadata::TokenMetadata;
use vstd::prelude::*;

verus! {

/// The entitlement of a whitelisted account.
#[derive(Clone, Copy, Debug, PartialEq, Eq, Structural)]
pub struct WhitelistState {
    /// When the account's entitlement starts.
    pub minting_start: u64,
    /// What the account pays for one item during the private sale.
    pub minting_price: u128,
    /// How many items the account may mint during the private sale.
    pub minting_limit: u8,
}

/// Where the sale stands at a given time.
#[derive(Clone, Copy, Debug, PartialEq, Eq, Structural)]
pub enum Phase {
    /// Nothing is sold yet.
    NotStarted,
    /// Whitelisted accounts may mint, up to their cap.
    Private,
    /// Anyone may mint, as long as the inventory lasts.
    Public,
}

/// What the admission check makes of a request that it does not refuse.
#[derive(Clone, Copy, Debug, PartialEq, Eq, Structural)]
pub enum Decision {
    /// The sale has not started: the payment goes back whole.
    Declined,
    /// The request may be dispatched.
    Approved,
}

/// Where a dispatched batch stands.
#[derive(Clone, Copy, Debug, PartialEq, Eq, Structural)]
pub enum BatchState {
    /// The batch was sent and awaits its settlement; `quantity` items are
    /// to be taken from the inventory if it went through.
    Reserved { quantity: u16 },
    /// The batch was settled, and cannot be settled again.
    Settled,
}

/// What the issuing contract reported of a whole batch.
#[derive(Clone, Copy, Debug, PartialEq, Eq, Structural)]
pub enum BatchOutcome {
    /// Every request of the batch went through.
    Successful,
    /// The batch failed.
    Failed,
}

/// What became of a payment that was not refused.
pub enum PaymentOutcomeView {
    /// Nothing was sold; `amount` goes back to the payer.
    Refund { amount: u128 },
    /// The whole payment was taken and `batch` is to be sent.
    Dispatched { batch: MintBatchView },
}

/// A transfer of tokens, out of the funds collected, that the administrator
/// asked for.
pub struct CollectRequestView {
    /// The token contract that holds the funds.
    pub token_contract: Seq<char>,
    /// Who gets them.
    pub receiver_id: Seq<char>,
    /// How much.
    pub amount: u128,
}

/// The state of the minting service: the sale configuration, which never
/// changes, the three tables keyed by account, the record of dispatched
/// batches, and the inventory.
pub struct MinterView {
    /// Whitelist entries, oldest first.
    pub whitelist: Seq<(Seq<char>, WhitelistState)>,
    /// The base price of one item.
    pub minting_price: u128,
    /// The administrator.
    pub admin: Seq<char>,
    /// The first token contract from which payments are accepted.
    pub usdc_account_id: Seq<char>,
    /// The second token contract from which payments are accepted.
    pub usdt_account_id: Seq<char>,
    /// The private sale runs after this time.
    pub private_sale_start: u64,
    /// The public sale runs after this time.
    pub public_sale_start: u64,
    /// How many items each account has been approved for so far.
    pub minted: Seq<(Seq<char>, u16)>,
    /// What each account has prepaid for storage and not yet used.
    pub storage_deposits: Seq<(Seq<char>, u128)>,
    /// The issuing contract.
    pub nft_pack_contract: Seq<char>,
    /// The items that are left.
    pub nft_pack_supply: u16,
    /// Every batch dispatched so far, at the place that its identifier
    /// gives: identifiers are issued in order, from 0.
    pub batches: Seq<BatchState>,
}

/// One step of the service, with everything that it is given.
pub enum Operation {
    /// `signer` adds a whitelist entry for `account_id`.
    AddWhitelist { signer: Seq<char>, account_id: Seq<char>, state: WhitelistState },
    /// `signer` deletes the whitelist entry of `account_id`.
    DeleteWhitelist { signer: Seq<char>, account_id: Seq<char> },
    /// `signer` prepays for the storage of `account`, or for their own.
    StorageDeposit { signer: Seq<char>, attached_deposit: u128, account: Option<Seq<char>> },
    /// `signer` takes back what is left of what they prepaid.
    StorageWithdrawAll { signer: Seq<char> },
    /// `sender_id` pays `amount` through the token contract `predecessor`.
    Payment {
        predecessor: Seq<char>,
        sender_id: Seq<char>,
        amount: u128,
        message: Option<TokenReceiverMessage>,
        token_metadata: TokenMetadata,
        current_account: Seq<char>,
        now: u64,
    },
    /// The batch `batch_id` is settled.
    MintResult { batch_id: u64, outcome: BatchOutcome },
}

impl MinterView {
    /// No table holds an account twice, the private sale starts before the
    /// public one, and every batch has an identifier of 64 bits.
    pub open spec fn wf(self) -> bool {
        &&& distinct_keys(self.whitelist)
        &&& distinct_keys(self.minted)
        &&& distinct_keys(self.storage_deposits)
        &&& self.private_sale_start < self.public_sale_start
        &&& self.batches.len() <= u64::MAX
    }

    /// The state right after construction.
    pub open spec fn initial(
        admin: Seq<char>,
        nft_pack_contract: Seq<char>,
        minting_price: u128,
        usdc_account_id: Seq<char>,
        usdt_account_id: Seq<char>,
        private_sale_start: u64,
        public_sale_start: u64,
        nft_pack_supply: u16,
    ) -> MinterView {
        MinterView {
            whitelist: Seq::empty(),
            minting_price,
            admin,
            usdc_account_id,
            usdt_account_id,
            private_sale_start,
            public_sale_start,
            minted: Seq::empty(),
            storage_deposits: Seq::empty(),
            nft_pack_contract,
            nft_pack_supply,
            batches: Seq::empty(),
        }
    }

    /// Where the batch `batch_id` stands; `None` where no batch was
    /// dispatched under that identifier.
    pub open spec fn batch_state(self, batch_id: u64) -> Option<BatchState> {
        if batch_id < self.batches.len() {
            Some(self.batches[batch_id as int])
        } else {
            None
        }
    }

    /// The phase at time `now`: public after the public start, else private
    /// after the private start, else not started.
    pub open spec fn phase_at(self, now: u64) -> Phase {
        if now > self.public_sale_start {
            Phase::Public
        } else if now > self.private_sale_start {
            Phase::Private
        } else {
            Phase::NotStarted
        }
    }

    /// How many items `account` has been approved for so far.
    pub open spec fn minted_of(self, account: Seq<char>) -> int {
        match lookup(self.minted, account) {
            Some(count) => count as int,
            None => 0,
        }
    }

    /// The prepaid balance of `account`; 0 where it has none.
    pub open spec fn balance_of(self, account: Seq<char>) -> int {
        match lookup(self.storage_deposits, account) {
            Some(balance) => balance as int,
            None => 0,
        }
    }

    /// What `caller` pays for one item at time `now`: the price of their
    /// whitelist entry during the private sale, the base price otherwise.
    pub open spec fn unit_price(self, caller: Seq<char>, now: u64) -> u128 {
        match lookup(self.whitelist, caller) {
            Some(entry) => if self.phase_at(now) == Phase::Private {
                entry.minting_price
            } else {
                self.minting_price
            },
            None => self.minting_price,
        }
    }

    /// Whether payments that arrive through `source` are accepted.
    pub open spec fn accepts_source(self, source: Seq<char>) -> bool {
        source == self.usdc_account_id || source == self.usdt_account_id
    }

    /// The admission check: the payment must be exact, the inventory must
    /// cover the quantity, the caller must have prepaid, and during the private
    /// sale the caller must be whitelisted and stay within their cap. Before
    /// the sale a request that passes the first three checks is declined.
    pub open spec fn authorize(
        self,
        caller: Seq<char>,
        quantity: u16,
        paid: u128,
        now: u64,
    ) -> Result<Decision, MintError> {
        if paid != self.unit_price(caller, now) * quantity {
            Err(MintError::PaymentMismatch)
        } else if quantity > self.nft_pack_supply {
            Err(MintError::SupplyExhausted)
        } else if lookup(self.storage_deposits, caller) is None {
            Err(MintError::NoEscrow)
        } else {
            match self.phase_at(now) {
                Phase::Public => Ok(Decision::Approved),
                Phase::Private => match lookup(self.whitelist, caller) {
                    None => Err(MintError::NotWhitelisted),
                    Some(entry) => if self.minted_of(caller) + quantity > entry.minting_limit {
                        Err(MintError::QuotaExceeded)
                    } else {
                        Ok(Decision::Approved)
                    },
                },
                Phase::NotStarted => Ok(Decision::Declined),
            }
        }
    }

    /// What a payment leads to. An unknown source is refused. Without an
    /// instruction the payment goes back. A mint instruction must ask for at
    /// least one item and pass the admission check; once approved, the
    /// caller's counter must be able to hold the new total, an identifier
    /// must be left for the batch, and the prepaid balance must cover the
    /// storage cost of the batch. The batch gets the next identifier.
    pub open spec fn payment_result(
        self,
        predecessor: Seq<char>,
        sender_id: Seq<char>,
        amount: u128,
        message: Option<TokenReceiverMessage>,
        token_metadata: TokenMetadata,
        current_account: Seq<char>,
        now: u64,
    ) -> Result<PaymentOutcomeView, MintError> {
        if !self.accepts_source(predecessor) {
            Err(MintError::NotAuthorized)
        } else {
            match message {
                None => Ok(PaymentOutcomeView::Refund { amount }),
                Some(TokenReceiverMessage::Mint { mint_amount }) => if mint_amount == 0 {
                    Err(MintError::ZeroQuantity)
                } else {
                    match self.authorize(sender_id, mint_amount, amount, now) {
                        Err(e) => Err(e),
                        Ok(Decision::Declined) => Ok(PaymentOutcomeView::Refund { amount }),
                        Ok(Decision::Approved) => if self.minted_of(sender_id) + mint_amount
                            > u16::MAX || self.batches.len() >= u64::MAX {
                            Err(MintError::Overflow)
                        } else if self.balance_of(sender_id) < reserved_cost(mint_amount) {
                            Err(MintError::InsufficientEscrow)
                        } else {
                            Ok(
                                PaymentOutcomeView::Dispatched {
                                    batch: planned_batch(
                                        self.nft_pack_contract,
                                        self.nft_pack_supply,
                                        sender_id,
                                        token_metadata,
                                        mint_amount,
                                        current_account,
                                        self.batches.len() as u64,
                                    ),
                                },
                            )
                        },
                    }
                },
            }
        }
    }

    /// The state after a payment: where a batch was dispatched, the sender's
    /// counter has grown by the quantity, their balance has shrunk by the cost
    /// of the batch, and the batch is on record as reserved; in every other
    /// case nothing has changed.
    pub open spec fn after_payment(
        self,
        predecessor: Seq<char>,
        sender_id: Seq<char>,
        amount: u128,
        message: Option<TokenReceiverMessage>,
        token_metadata: TokenMetadata,
        current_account: Seq<char>,
        now: u64,
    ) -> MinterView {
        match self.payment_result(
            predecessor,
            sender_id,
            amount,
            message,
            token_metadata,
            current_account,
            now,
        ) {
            Ok(PaymentOutcomeView::Dispatched { batch }) => MinterView {
                minted: put(
                    self.minted,
                    sender_id,
                    (self.minted_of(sender_id) + batch.reduce_from_supply) as u16,
                ),
                storage_deposits: put(
                    self.storage_deposits,
                    sender_id,
                    (self.balance_of(sender_id) - batch.storage_mint) as u128,
                ),
                batches: self.batches.push(
                    BatchState::Reserved { quantity: batch.reduce_from_supply },
                ),
                ..self
            },
            _ => self,
        }
    }

    /// What a payment notification leads to, given what its text was read
    /// as: an unknown source is refused first, then a text that could not be
    /// read, and a text that could be read is handled as `payment_result` says.
    pub open spec fn transfer_result(
        self,
        predecessor: Seq<char>,
        sender_id: Seq<char>,
        amount: u128,
        instruction: Result<Option<TokenReceiverMessage>, MintError>,
        token_metadata: TokenMetadata,
        current_account: Seq<char>,
        now: u64,
    ) -> Result<PaymentOutcomeView, MintError> {
        if !self.accepts_source(predecessor) {
            Err(MintError::NotAuthorized)
        } else {
            match instruction {
                Ok(message) => self.payment_result(
                    predecessor,
                    sender_id,
                    amount,
                    message,
                    token_metadata,
                    current_account,
                    now,
                ),
                Err(e) => Err(e),
            }
        }
    }

    /// The state after a payment notification, given what its text was read
    /// as.
    pub open spec fn after_transfer(
        self,
        predecessor: Seq<char>,
        sender_id: Seq<char>,
        amount: u128,
        instruction: Result<Option<TokenReceiverMessage>, MintError>,
        token_metadata: TokenMetadata,
        current_account: Seq<char>,
        now: u64,
    ) -> MinterView {
        match instruction {
            Ok(message) => self.after_payment(
                predecessor,
                sender_id,
                amount,
                message,
                token_metadata,
                current_account,
                now,
            ),
            Err(_) => self,
        }
    }

    /// Only the administrator adds entries, and only for accounts that have
    /// none.
    pub open spec fn add_whitelist_result(self, signer: Seq<char>, account_id: Seq<char>) -> Result<
        (),
        MintError,
    > {
        if signer != self.admin {
            Err(MintError::NotAuthorized)
        } else if has_key(self.whitelist, account_id) {
            Err(MintError::DuplicateEntry)
        } else {
            Ok(())
        }
    }

    /// The state after `add_whitelist`: the new entry is the last one.
    pub open spec fn after_add_whitelist(
        self,
        signer: Seq<char>,
        account_id: Seq<char>,
        state: WhitelistState,
    ) -> MinterView {
        if self.add_whitelist_result(signer, account_id) is Ok {
            MinterView { whitelist: self.whitelist.push((account_id, state)), ..self }
        } else {
            self
        }
    }

    /// Only the administrator deletes entries, and only those that exist.
    pub open spec fn delete_whitelist_result(
        self,
        signer: Seq<char>,
        account_id: Seq<char>,
    ) -> Result<(), MintError> {
        if signer != self.admin {
            Err(MintError::NotAuthorized)
        } else if !has_key(self.whitelist, account_id) {
            Err(MintError::NotFound)
        } else {
            Ok(())
        }
    }

    /// The state after `delete_whitelist`: the entry is gone, the others keep
    /// their order.
    pub open spec fn after_delete_whitelist(
        self,
        signer: Seq<char>,
        account_id: Seq<char>,
    ) -> MinterView {
        if self.delete_whitelist_result(signer, account_id) is Ok {
            MinterView { whitelist: without(self.whitelist, account_id), ..self }
        } else {
            self
        }
    }

    /// The account that a deposit is credited to: the one named, else the
    /// signer.
    pub open spec fn depositor(signer: Seq<char>, account: Option<Seq<char>>) -> Seq<char> {
        match account {
            Some(named) => named,
            None => signer,
        }
    }

    /// A deposit is refused only where the balance cannot hold the sum.
    pub open spec fn storage_deposit_result(
        self,
        signer: Seq<char>,
        attached_deposit: u128,
        account: Option<Seq<char>>,
    ) -> Result<(), MintError> {
        if self.balance_of(Self::depositor(signer, account)) + attached_deposit > u128::MAX {
            Err(MintError::Overflow)
        } else {
            Ok(())
        }
    }

    /// The state after `storage_deposit`: the balance has grown by the
    /// deposit.
    pub open spec fn after_storage_deposit(
        self,
        signer: Seq<char>,
        attached_deposit: u128,
        account: Option<Seq<char>>,
    ) -> MinterView {
        if self.storage_deposit_result(signer, attached_deposit, account) is Ok {
            MinterView {
                storage_deposits: put(
                    self.storage_deposits,
                    Self::depositor(signer, account),
                    (self.balance_of(Self::depositor(signer, account)) + attached_deposit) as u128,
                ),
                ..self
            }
        } else {
            self
        }
    }

    /// A withdrawal pays out the whole balance, and is refused where there is
    /// none.
    pub open spec fn storage_withdraw_all_result(self, signer: Seq<char>) -> Result<
        u128,
        MintError,
    > {
        if self.balance_of(signer) == 0 {
            Err(MintError::EmptyBalance)
        } else {
            Ok(self.balance_of(signer) as u128)
        }
    }

    /// The state after `storage_withdraw_all`: the signer's record is gone.
    pub open spec fn after_storage_withdraw_all(self, signer: Seq<char>) -> MinterView {
        if self.storage_withdraw_all_result(signer) is Ok {
            MinterView { storage_deposits: without(self.storage_deposits, signer), ..self }
        } else {
            self
        }
    }

    /// What the settlement of the batch `batch_id` comes to. Only a batch
    /// that is on record as reserved can be settled: any other identifier is
    /// refused as not found. A batch that failed is refused, and so is one
    /// that the inventory does not cover. A settlement that succeeds gives
    /// the quantity that it takes from the inventory.
    pub open spec fn settlement_result(self, batch_id: u64, outcome: BatchOutcome) -> Result<
        u16,
        MintError,
    > {
        match self.batch_state(batch_id) {
            Some(BatchState::Reserved { quantity }) => match outcome {
                BatchOutcome::Failed => Err(MintError::RemoteBatchFailed),
                BatchOutcome::Successful => if quantity > self.nft_pack_supply {
                    Err(MintError::Underflow)
                } else {
                    Ok(quantity)
                },
            },
            _ => Err(MintError::NotFound),
        }
    }

    /// The state after a settlement: one that succeeds takes the quantity
    /// of the batch from the inventory and marks the batch as settled, and
    /// touches nothing else; one that is refused changes nothing.
    pub open spec fn after_settlement(self, batch_id: u64, outcome: BatchOutcome) -> MinterView {
        match self.settlement_result(batch_id, outcome) {
            Ok(quantity) => MinterView {
                nft_pack_supply: (self.nft_pack_supply - quantity) as u16,
                batches: self.batches.update(batch_id as int, BatchState::Settled),
                ..self
            },
            Err(_) => self,
        }
    }

    /// Only the administrator collects funds; what is collected goes to the
    /// administrator.
    pub open spec fn admin_collect_result(
        self,
        signer: Seq<char>,
        from: Seq<char>,
        amount: u128,
    ) -> Result<CollectRequestView, MintError> {
        if signer != self.admin {
            Err(MintError::NotAuthorized)
        } else {
            Ok(CollectRequestView { token_contract: from, receiver_id: signer, amount })
        }
    }

    /// The page of whitelist entries that starts at `from_index` and holds at
    /// most `limit` entries, oldest first.
    pub open spec fn whitelist_page(self, from_index: u64, limit: u64) -> Seq<
        (Seq<char>, WhitelistState),
    > {
        let len = self.whitelist.len() as int;
        let lo = if from_index <= len {
            from_index as int
        } else {
            len
        };
        let hi = if from_index + limit <= len {
            from_index + limit
        } else {
            len
        };
        self.whitelist.subrange(lo, hi)
    }

    /// The state after one step.
    pub open spec fn apply(self, op: Operation) -> MinterView {
        match op {
            Operation::AddWhitelist { signer, account_id, state } => self.after_add_whitelist(
                signer,
                account_id,
                state,
            ),
            Operation::DeleteWhitelist { signer, account_id } => self.after_delete_whitelist(
                signer,
                account_id,
            ),
            Operation::StorageDeposit {
                signer,
                attached_deposit,
                account,
            } => self.after_storage_deposit(signer, attached_deposit, account),
            Operation::StorageWithdrawAll { signer } => self.after_storage_withdraw_all(signer),
            Operation::Payment {
                predecessor,
                sender_id,
                amount,
                message,
                token_metadata,
                current_account,
                now,
            } => self.after_payment(
                predecessor,
                sender_id,
                amount,
                message,
                token_metadata,
                current_account,
                now,
            ),
            Operation::MintResult { batch_id, outcome } => self.after_settlement(
                batch_id,
                outcome,
            ),
        }
    }

    /// The state after a run of steps, taken in order.
    pub open spec fn run(self, ops: Seq<Operation>) -> MinterView
        decreases ops.len(),
    {
        if ops.len() == 0 {
            self
        } else {
            self.run(ops.drop_last()).apply(ops.last())
        }
    }
}

} // verus!
