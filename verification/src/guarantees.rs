//! What holds of the service in every state and over every run of steps,
//! proved over the mathematical model of its state.

use crate::batch::{lemma_reserved_cost_fits, reserved_cost};
use crate::error::MintError;
use crate::message::TokenReceiverMessage;
use crate::model::{
    BatchOutcome, BatchState, MinterView, Operation, PaymentOutcomeView, Phase,
};
use crate::store::{lemma_put, lemma_without, lookup};
use near_contract_standards::non_fungible_token::metadata::TokenMetadata;
use vstd::prelude::*;

verus! {

/// Every whitelisted account has been approved for no more than its cap.
pub open spec fn within_caps(state: MinterView) -> bool {
    forall|account: Seq<char>|
        (#[trigger] lookup(state.whitelist, account)) matches Some(entry) ==> state.minted_of(
            account,
        ) <= entry.minting_limit
}

/// The steps that cannot take a whitelisted account past its cap: every step
/// but a payment made during the public sale, which no cap binds, and the
/// addition of an entry with a cap that its account has already passed.
pub open spec fn minds_caps(state: MinterView, op: Operation) -> bool {
    match op {
        Operation::Payment { now, .. } => state.phase_at(now) != Phase::Public,
        Operation::AddWhitelist {
            signer,
            account_id,
            state: entry,
        } => state.add_whitelist_result(signer, account_id) is Ok ==> state.minted_of(account_id)
            <= entry.minting_limit,
        _ => true,
    }
}

/// A sale starts well formed, with its whole inventory, and with every
/// account within its cap, since nobody is whitelisted yet.
pub proof fn lemma_initial_state(
    admin: Seq<char>,
    nft_pack_contract: Seq<char>,
    minting_price: u128,
    usdc_account_id: Seq<char>,
    usdt_account_id: Seq<char>,
    private_sale_start: u64,
    public_sale_start: u64,
    nft_pack_supply: u16,
)
    requires
        private_sale_start < public_sale_start,
    ensures
        ({
            let state = MinterView::initial(
                admin,
                nft_pack_contract,
                minting_price,
                usdc_account_id,
                usdt_account_id,
                private_sale_start,
                public_sale_start,
                nft_pack_supply,
            );
            &&& state.wf()
            &&& within_caps(state)
            &&& state.nft_pack_supply == nft_pack_supply
            &&& forall|account: Seq<char>|
                state.minted_of(account) == 0 && state.balance_of(account) == 0
        }),
{
}

/// A step that is refused changes nothing.
pub proof fn lemma_refusal_changes_nothing(state: MinterView, op: Operation)
    ensures
        match op {
            Operation::AddWhitelist { signer, account_id, .. } => state.add_whitelist_result(
                signer,
                account_id,
            ) is Err ==> state.apply(op) == state,
            Operation::DeleteWhitelist { signer, account_id } => state.delete_whitelist_result(
                signer,
                account_id,
            ) is Err ==> state.apply(op) == state,
            Operation::StorageDeposit {
                signer,
                attached_deposit,
                account,
            } => state.storage_deposit_result(signer, attached_deposit, account) is Err
                ==> state.apply(op) == state,
            Operation::StorageWithdrawAll { signer } => state.storage_withdraw_all_result(signer)
                is Err ==> state.apply(op) == state,
            Operation::Payment {
                predecessor,
                sender_id,
                amount,
                message,
                token_metadata,
                current_account,
                now,
            } => state.payment_result(
                predecessor,
                sender_id,
                amount,
                message,
                token_metadata,
                current_account,
                now,
            ) is Err ==> state.apply(op) == state,
            Operation::MintResult { batch_id, outcome } => state.settlement_result(
                batch_id,
                outcome,
            ) is Err ==> state.apply(op) == state,
        },
{
}

/// A step keeps the state well formed.
pub proof fn lemma_step_keeps_wf(state: MinterView, op: Operation)
    requires
        state.wf(),
    ensures
        state.apply(op).wf(),
{
    match op {
        Operation::AddWhitelist { signer, account_id, state: entry } => {
            if state.add_whitelist_result(signer, account_id) is Ok {
                lemma_put(state.whitelist, account_id, entry, account_id);
            }
        },
        Operation::DeleteWhitelist { signer, account_id } => {
            lemma_without(state.whitelist, account_id, account_id);
        },
        Operation::StorageDeposit { signer, attached_deposit, account } => {
            let who = MinterView::depositor(signer, account);
            lemma_put(
                state.storage_deposits,
                who,
                (state.balance_of(who) + attached_deposit) as u128,
                who,
            );
        },
        Operation::StorageWithdrawAll { signer } => {
            lemma_without(state.storage_deposits, signer, signer);
        },
        Operation::Payment {
            predecessor,
            sender_id,
            amount,
            message,
            token_metadata,
            current_account,
            now,
        } => {
            match state.payment_result(
                predecessor,
                sender_id,
                amount,
                message,
                token_metadata,
                current_account,
                now,
            ) {
                Ok(PaymentOutcomeView::Dispatched { batch }) => {
                    lemma_put(
                        state.minted,
                        sender_id,
                        (state.minted_of(sender_id) + batch.reduce_from_supply) as u16,
                        sender_id,
                    );
                    lemma_put(
                        state.storage_deposits,
                        sender_id,
                        (state.balance_of(sender_id) - batch.storage_mint) as u128,
                        sender_id,
                    );
                },
                _ => {},
            }
        },
        Operation::MintResult { .. } => {},
    }
}

/// The sale configuration is set once: no step changes the prices, the
/// administrator, the accepted token contracts, the two starting times or the
/// issuing contract.
pub proof fn lemma_configuration_is_fixed(state: MinterView, op: Operation)
    ensures
        state.apply(op).minting_price == state.minting_price,
        state.apply(op).admin == state.admin,
        state.apply(op).usdc_account_id == state.usdc_account_id,
        state.apply(op).usdt_account_id == state.usdt_account_id,
        state.apply(op).private_sale_start == state.private_sale_start,
        state.apply(op).public_sale_start == state.public_sale_start,
        state.apply(op).nft_pack_contract == state.nft_pack_contract,
{
}

/// A payment is approved only if the amount paid is exactly the caller's
/// unit price times the quantity. Any other amount is refused, with
/// `PaymentMismatch` where the source is accepted and the quantity is not
/// zero, and the state stays as it was.
pub proof fn lemma_approved_payment_is_exact(
    state: MinterView,
    predecessor: Seq<char>,
    sender_id: Seq<char>,
    amount: u128,
    mint_amount: u16,
    token_metadata: TokenMetadata,
    current_account: Seq<char>,
    now: u64,
)
    ensures
        ({
            let message = Some(TokenReceiverMessage::Mint { mint_amount });
            let result = state.payment_result(
                predecessor,
                sender_id,
                amount,
                message,
                token_metadata,
                current_account,
                now,
            );
            let after = state.after_payment(
                predecessor,
                sender_id,
                amount,
                message,
                token_metadata,
                current_account,
                now,
            );
            let due = state.unit_price(sender_id, now) * mint_amount;
            &&& result is Ok ==> amount == due
            &&& amount != due ==> result is Err && after == state
            &&& amount != due && state.accepts_source(predecessor) && mint_amount > 0 ==> result
                == Err::<PaymentOutcomeView, MintError>(MintError::PaymentMismatch)
        }),
{
}

/// No step raises the inventory.
pub proof fn lemma_step_never_raises_supply(state: MinterView, op: Operation)
    ensures
        0 <= state.apply(op).nft_pack_supply <= state.nft_pack_supply,
{
}

/// Only a settlement that succeeds lowers the inventory, and it lowers it by
/// exactly the quantity for which the batch was reserved.
pub proof fn lemma_only_settlement_lowers_supply(state: MinterView, op: Operation)
    ensures
        match op {
            Operation::MintResult { batch_id, outcome } => match state.settlement_result(
                batch_id,
                outcome,
            ) {
                Ok(quantity) => state.batch_state(batch_id) == Some(
                    BatchState::Reserved { quantity },
                ) && state.apply(op).nft_pack_supply == state.nft_pack_supply - quantity,
                Err(_) => state.apply(op).nft_pack_supply == state.nft_pack_supply,
            },
            _ => state.apply(op).nft_pack_supply == state.nft_pack_supply,
        },
{
}

/// Over any run of steps the inventory never rises and never falls below
/// zero.
pub proof fn lemma_run_never_raises_supply(state: MinterView, ops: Seq<Operation>)
    ensures
        0 <= state.run(ops).nft_pack_supply <= state.nft_pack_supply,
    decreases ops.len(),
{
    if ops.len() > 0 {
        lemma_run_never_raises_supply(state, ops.drop_last());
        lemma_step_never_raises_supply(state.run(ops.drop_last()), ops.last());
    }
}

/// Any run of steps keeps the state well formed.
pub proof fn lemma_run_keeps_wf(state: MinterView, ops: Seq<Operation>)
    requires
        state.wf(),
    ensures
        state.run(ops).wf(),
    decreases ops.len(),
{
    if ops.len() > 0 {
        lemma_run_keeps_wf(state, ops.drop_last());
        lemma_step_keeps_wf(state.run(ops.drop_last()), ops.last());
    }
}

/// A payment approved during the private sale leaves the sender within the
/// cap of their whitelist entry.
pub proof fn lemma_private_payment_stays_within_cap(
    state: MinterView,
    predecessor: Seq<char>,
    sender_id: Seq<char>,
    amount: u128,
    message: Option<TokenReceiverMessage>,
    token_metadata: TokenMetadata,
    current_account: Seq<char>,
    now: u64,
)
    requires
        state.wf(),
        state.phase_at(now) == Phase::Private,
        state.payment_result(
            predecessor,
            sender_id,
            amount,
            message,
            token_metadata,
            current_account,
            now,
        ) matches Ok(
            PaymentOutcomeView::Dispatched { .. },
        ),
    ensures
        ({
            let after = state.after_payment(
                predecessor,
                sender_id,
                amount,
                message,
                token_metadata,
                current_account,
                now,
            );
            &&& after.whitelist == state.whitelist
            &&& lookup(state.whitelist, sender_id) matches Some(entry) && after.minted_of(sender_id)
                <= entry.minting_limit
        }),
{
    let batch = state.payment_result(
        predecessor,
        sender_id,
        amount,
        message,
        token_metadata,
        current_account,
        now,
    )->Ok_0->batch;
    lemma_put(
        state.minted,
        sender_id,
        (state.minted_of(sender_id) + batch.reduce_from_supply) as u16,
        sender_id,
    );
}

/// A step that minds the caps keeps every whitelisted account within its
/// cap.
pub proof fn lemma_step_keeps_caps(state: MinterView, op: Operation)
    requires
        state.wf(),
        within_caps(state),
        minds_caps(state, op),
    ensures
        within_caps(state.apply(op)),
{
    let after = state.apply(op);
    assert forall|account: Seq<char>| (#[trigger] lookup(after.whitelist, account)) is Some implies after.minted_of(
        account,
    ) <= lookup(after.whitelist, account)->Some_0.minting_limit by {
        match op {
            Operation::AddWhitelist { signer, account_id, state: entry } => {
                if state.add_whitelist_result(signer, account_id) is Ok {
                    lemma_put(state.whitelist, account_id, entry, account);
                }
            },
            Operation::DeleteWhitelist { signer, account_id } => {
                lemma_without(state.whitelist, account_id, account);
            },
            Operation::Payment {
                predecessor,
                sender_id,
                amount,
                message,
                token_metadata,
                current_account,
                now,
            } => {
                match state.payment_result(
                    predecessor,
                    sender_id,
                    amount,
                    message,
                    token_metadata,
                    current_account,
                    now,
                ) {
                    Ok(PaymentOutcomeView::Dispatched { batch }) => {
                        lemma_put(
                            state.minted,
                            sender_id,
                            (state.minted_of(sender_id) + batch.reduce_from_supply) as u16,
                            account,
                        );
                    },
                    _ => {},
                }
            },
            _ => {},
        }
    }
}

/// Whether each step of `ops`, taken from `state` in order, minds the caps
/// in the state that it starts from.
pub open spec fn run_minds_caps(state: MinterView, ops: Seq<Operation>) -> bool
    decreases ops.len(),
{
    if ops.len() == 0 {
        true
    } else {
        run_minds_caps(state, ops.drop_last()) && minds_caps(
            state.run(ops.drop_last()),
            ops.last(),
        )
    }
}

/// As long as no payment is made during the public sale and no entry is
/// added below what its account has already minted, no whitelisted account is
/// ever past its cap.
pub proof fn lemma_run_keeps_caps(state: MinterView, ops: Seq<Operation>)
    requires
        state.wf(),
        within_caps(state),
        run_minds_caps(state, ops),
    ensures
        within_caps(state.run(ops)),
    decreases ops.len(),
{
    if ops.len() > 0 {
        lemma_run_keeps_caps(state, ops.drop_last());
        lemma_run_keeps_wf(state, ops.drop_last());
        lemma_step_keeps_caps(state.run(ops.drop_last()), ops.last());
    }
}

/// A prepaid balance is never negative, and a payment takes from it exactly
/// the storage cost of the batch, which the balance covers.
pub proof fn lemma_payment_debits_the_reserved_cost(
    state: MinterView,
    predecessor: Seq<char>,
    sender_id: Seq<char>,
    amount: u128,
    mint_amount: u16,
    token_metadata: TokenMetadata,
    current_account: Seq<char>,
    now: u64,
    other: Seq<char>,
)
    requires
        state.wf(),
        state.payment_result(
            predecessor,
            sender_id,
            amount,
            Some(TokenReceiverMessage::Mint { mint_amount }),
            token_metadata,
            current_account,
            now,
        ) is Ok,
    ensures
        ({
            let message = Some(TokenReceiverMessage::Mint { mint_amount });
            let result = state.payment_result(
                predecessor,
                sender_id,
                amount,
                message,
                token_metadata,
                current_account,
                now,
            );
            let after = state.after_payment(
                predecessor,
                sender_id,
                amount,
                message,
                token_metadata,
                current_account,
                now,
            );
            &&& 0 <= state.balance_of(other)
            &&& result is Ok
            &&& result->Ok_0 is Dispatched ==> {
                &&& reserved_cost(mint_amount) <= state.balance_of(sender_id)
                &&& after.balance_of(sender_id) == state.balance_of(sender_id) - reserved_cost(
                    mint_amount,
                )
                &&& after.minted_of(sender_id) == state.minted_of(sender_id) + mint_amount
                &&& other != sender_id ==> after.balance_of(other) == state.balance_of(other)
                    && after.minted_of(other) == state.minted_of(other)
            }
            &&& result->Ok_0 is Refund ==> after == state
        }),
{
    let message = Some(TokenReceiverMessage::Mint { mint_amount });
    let result = state.payment_result(
        predecessor,
        sender_id,
        amount,
        message,
        token_metadata,
        current_account,
        now,
    );
    lemma_reserved_cost_fits(mint_amount);
    if result->Ok_0 is Dispatched {
        lemma_put(
            state.minted,
            sender_id,
            (state.minted_of(sender_id) + mint_amount) as u16,
            other,
        );
        lemma_put(
            state.storage_deposits,
            sender_id,
            (state.balance_of(sender_id) - reserved_cost(mint_amount)) as u128,
            other,
        );
    }
}

/// After a withdrawal the balance is 0, whether the withdrawal paid out or
/// found nothing to pay; what it pays out is the whole balance.
pub proof fn lemma_withdrawal_leaves_nothing(state: MinterView, signer: Seq<char>)
    requires
        state.wf(),
    ensures
        state.after_storage_withdraw_all(signer).balance_of(signer) == 0,
        state.storage_withdraw_all_result(signer) matches Ok(paid_out) ==> paid_out
            == state.balance_of(signer),
{
    lemma_without(state.storage_deposits, signer, signer);
}

/// Two deposits in a row raise the balance by their sum, as long as the
/// balance can hold it.
pub proof fn lemma_deposits_add_up(
    state: MinterView,
    signer: Seq<char>,
    first: u128,
    second: u128,
    account: Option<Seq<char>>,
)
    requires
        state.wf(),
        state.balance_of(MinterView::depositor(signer, account)) + first + second <= u128::MAX,
    ensures
        ({
            let who = MinterView::depositor(signer, account);
            let once = state.after_storage_deposit(signer, first, account);
            let twice = once.after_storage_deposit(signer, second, account);
            &&& state.storage_deposit_result(signer, first, account) is Ok
            &&& once.storage_deposit_result(signer, second, account) is Ok
            &&& once.balance_of(who) == state.balance_of(who) + first
            &&& twice.balance_of(who) == state.balance_of(who) + first + second
        }),
{
    let who = MinterView::depositor(signer, account);
    lemma_put(state.storage_deposits, who, (state.balance_of(who) + first) as u128, who);
    let once = state.after_storage_deposit(signer, first, account);
    lemma_put(once.storage_deposits, who, (once.balance_of(who) + second) as u128, who);
}

/// A payment that is dispatched puts its batch on record: the batch gets
/// the first identifier not yet in use, it is reserved for the quantity paid
/// for, and every batch dispatched before stands as it stood.
pub proof fn lemma_payment_reserves_its_batch(
    state: MinterView,
    predecessor: Seq<char>,
    sender_id: Seq<char>,
    amount: u128,
    mint_amount: u16,
    token_metadata: TokenMetadata,
    current_account: Seq<char>,
    now: u64,
    other: u64,
)
    requires
        state.wf(),
        state.payment_result(
            predecessor,
            sender_id,
            amount,
            Some(TokenReceiverMessage::Mint { mint_amount }),
            token_metadata,
            current_account,
            now,
        ) matches Ok(PaymentOutcomeView::Dispatched { .. }),
    ensures
        ({
            let message = Some(TokenReceiverMessage::Mint { mint_amount });
            let batch = state.payment_result(
                predecessor,
                sender_id,
                amount,
                message,
                token_metadata,
                current_account,
                now,
            )->Ok_0->batch;
            let after = state.after_payment(
                predecessor,
                sender_id,
                amount,
                message,
                token_metadata,
                current_account,
                now,
            );
            &&& batch.batch_id == state.batches.len()
            &&& batch.reduce_from_supply == mint_amount
            &&& state.batch_state(batch.batch_id) is None
            &&& after.batch_state(batch.batch_id) == Some(
                BatchState::Reserved { quantity: mint_amount },
            )
            &&& other != batch.batch_id ==> after.batch_state(other) == state.batch_state(other)
        }),
{
}

/// A settlement that succeeds settles its batch for good: the batch is
/// marked as settled, and a second settlement of it, whatever outcome it is
/// given, is refused as not found and changes nothing.
pub proof fn lemma_settlement_is_final(
    state: MinterView,
    batch_id: u64,
    first: BatchOutcome,
    second: BatchOutcome,
)
    requires
        state.settlement_result(batch_id, first) is Ok,
    ensures
        ({
            let once = state.after_settlement(batch_id, first);
            &&& once.batch_state(batch_id) == Some(BatchState::Settled)
            &&& once.settlement_result(batch_id, second) == Err::<u16, MintError>(
                MintError::NotFound,
            )
            &&& once.after_settlement(batch_id, second) == once
        }),
{
}

/// No step brings a settled batch back: once settled, a batch stays
/// settled.
pub proof fn lemma_settled_stays_settled(state: MinterView, op: Operation, batch_id: u64)
    requires
        state.batch_state(batch_id) == Some(BatchState::Settled),
    ensures
        state.apply(op).batch_state(batch_id) == Some(BatchState::Settled),
{
}

/// Over any run of steps a settled batch stays settled.
pub proof fn lemma_settled_stays_settled_over_run(
    state: MinterView,
    ops: Seq<Operation>,
    batch_id: u64,
)
    requires
        state.batch_state(batch_id) == Some(BatchState::Settled),
    ensures
        state.run(ops).batch_state(batch_id) == Some(BatchState::Settled),
    decreases ops.len(),
{
    if ops.len() > 0 {
        lemma_settled_stays_settled_over_run(state, ops.drop_last(), batch_id);
        lemma_settled_stays_settled(state.run(ops.drop_last()), ops.last(), batch_id);
    }
}

/// A batch lowers the inventory at most once. After a settlement of a batch
/// has succeeded, and whatever steps were taken since, another settlement of
/// the same batch is refused as not found and changes neither the inventory
/// nor anything else.
pub proof fn lemma_second_settlement_changes_nothing(
    state: MinterView,
    batch_id: u64,
    first: BatchOutcome,
    between: Seq<Operation>,
    second: BatchOutcome,
)
    requires
        state.settlement_result(batch_id, first) is Ok,
    ensures
        ({
            let later = state.after_settlement(batch_id, first).run(between);
            &&& later.settlement_result(batch_id, second) == Err::<u16, MintError>(
                MintError::NotFound,
            )
            &&& later.after_settlement(batch_id, second) == later
            &&& later.after_settlement(batch_id, second).nft_pack_supply == later.nft_pack_supply
        }),
{
    lemma_settlement_is_final(state, batch_id, first, second);
    lemma_settled_stays_settled_over_run(
        state.after_settlement(batch_id, first),
        between,
        batch_id,
    );
}

/// A settlement under an identifier that no batch was dispatched under is
/// refused as not found and changes nothing.
pub proof fn lemma_unknown_batch_is_not_settled(
    state: MinterView,
    batch_id: u64,
    outcome: BatchOutcome,
)
    requires
        state.batch_state(batch_id) is None,
    ensures
        state.settlement_result(batch_id, outcome) == Err::<u16, MintError>(MintError::NotFound),
        state.after_settlement(batch_id, outcome) == state,
{
}

/// A settlement changes nothing but the inventory and the record of its
/// batch: whatever the outcome, the counters and the prepaid balances stay as
/// the payment left them, and a batch that failed changes nothing at all.
pub proof fn lemma_settlement_keeps_ledgers(
    state: MinterView,
    batch_id: u64,
    outcome: BatchOutcome,
)
    ensures
        ({
            let after = state.after_settlement(batch_id, outcome);
            &&& after.minted == state.minted
            &&& after.storage_deposits == state.storage_deposits
            &&& after.whitelist == state.whitelist
            &&& outcome == BatchOutcome::Failed ==> after == state
        }),
{
}

/// A payment notification with a mint instruction for at least one item, from
/// an accepted source, is refused with `PaymentMismatch` whenever the amount
/// is not the sender's unit price times the quantity, and then changes
/// nothing; from any other source it is refused with `NotAuthorized` and
/// changes nothing. So every notification that leads to a batch paid the
/// exact amount.
pub proof fn lemma_wrong_amount_is_refused(
    state: MinterView,
    predecessor: Seq<char>,
    sender_id: Seq<char>,
    amount: u128,
    mint_amount: u16,
    token_metadata: TokenMetadata,
    current_account: Seq<char>,
    now: u64,
)
    requires
        mint_amount > 0,
    ensures
        ({
            let instruction = Ok::<Option<TokenReceiverMessage>, MintError>(
                Some(TokenReceiverMessage::Mint { mint_amount }),
            );
            let result = state.transfer_result(
                predecessor,
                sender_id,
                amount,
                instruction,
                token_metadata,
                current_account,
                now,
            );
            let after = state.after_transfer(
                predecessor,
                sender_id,
                amount,
                instruction,
                token_metadata,
                current_account,
                now,
            );
            let due = state.unit_price(sender_id, now) * mint_amount;
            &&& !state.accepts_source(predecessor) ==> result == Err::<
                PaymentOutcomeView,
                MintError,
            >(MintError::NotAuthorized) && after == state
            &&& state.accepts_source(predecessor) && amount != due ==> result == Err::<
                PaymentOutcomeView,
                MintError,
            >(MintError::PaymentMismatch) && after == state
            &&& result matches Ok(PaymentOutcomeView::Dispatched { .. }) ==> amount == due
        }),
{
}

} // verus!
