//! Batches of issuance requests: what is sent to the issuing contract for
//! one approved payment.

use crate::account::AccountId;
use crate::error::MintError;
use near_contract_standards::non_fungible_token::metadata::TokenMetadata;
use vstd::prelude::*;

verus! {

/// What the issuing contract charges for the storage of one item, in yoctoNEAR.
pub const MINT_STORAGE_COST: u128 = 5870000000000000000000;

/// `TokenMetadata` of `near_contract_standards`: the description that an item
/// is created with. The service hands it on as it got it and never looks
/// inside.
#[verifier::external_type_specification]
#[verifier::external_body]
pub struct ExTokenMetadata(near_contract_standards::non_fungible_token::metadata::TokenMetadata);

/// One request to the issuing contract: create the item `token_id` for
/// `receiver_id`.
#[derive(Debug, PartialEq)]
pub struct MintRequest {
    /// The sequence identifier of the item.
    pub token_id: u16,
    /// Who gets the item.
    pub receiver_id: AccountId,
    /// Set on the last request of a batch only: who gets back what the
    /// issuing contract did not use.
    pub refund_id: Option<AccountId>,
    /// The value that travels with the request.
    pub deposit: u128,
}

/// The issuance requests of one approved payment, and the settlement that
/// follows them.
#[derive(Debug, PartialEq)]
pub struct MintBatch {
    /// The identifier under which the batch is settled.
    pub batch_id: u64,
    /// The issuing contract, to which every request goes.
    pub nft_pack_contract: AccountId,
    /// The description that every item of the batch is created with.
    pub token_metadata: TokenMetadata,
    /// The requests, in the order in which they are sent.
    pub requests: Vec<MintRequest>,
    /// The account on which the settlement runs once the whole batch has an
    /// outcome.
    pub callback_account: AccountId,
    /// The quantity that the settlement takes from the inventory.
    pub reduce_from_supply: u16,
    /// The storage cost reserved for the batch.
    pub storage_mint: u128,
}

/// A request, with each account taken as its name. The fields are those of
/// `MintRequest`.
pub struct MintRequestView {
    pub token_id: u16,
    pub receiver_id: Seq<char>,
    pub refund_id: Option<Seq<char>>,
    pub deposit: u128,
}

/// A batch, with each account taken as its name. The fields are those of
/// `MintBatch`.
pub struct MintBatchView {
    pub batch_id: u64,
    pub nft_pack_contract: Seq<char>,
    pub token_metadata: TokenMetadata,
    pub requests: Seq<MintRequestView>,
    pub callback_account: Seq<char>,
    pub reduce_from_supply: u16,
    pub storage_mint: u128,
}

impl View for MintRequest {
    type V = MintRequestView;

    open spec fn view(&self) -> MintRequestView {
        MintRequestView {
            token_id: self.token_id,
            receiver_id: self.receiver_id@,
            refund_id: match self.refund_id {
                Some(account) => Some(account@),
                None => None,
            },
            deposit: self.deposit,
        }
    }
}

impl View for MintBatch {
    type V = MintBatchView;

    open spec fn view(&self) -> MintBatchView {
        MintBatchView {
            batch_id: self.batch_id,
            nft_pack_contract: self.nft_pack_contract@,
            token_metadata: self.token_metadata,
            requests: Seq::new(self.requests@.len(), |n: int| self.requests@[n]@),
            callback_account: self.callback_account@,
            reduce_from_supply: self.reduce_from_supply,
            storage_mint: self.storage_mint,
        }
    }
}

/// The storage cost of `quantity` items.
pub open spec fn reserved_cost(quantity: u16) -> int {
    quantity * MINT_STORAGE_COST
}

/// The request at place `n` of a batch of `mint_limit` items that starts from
/// an inventory of `supply`: identifiers count down from `supply - 1`, every
/// request carries the cost of one item, and the last one names the receiver
/// for what is left over.
pub open spec fn planned_request(
    supply: u16,
    receiver_id: Seq<char>,
    mint_limit: u16,
    n: int,
) -> MintRequestView {
    MintRequestView {
        token_id: (supply - 1 - n) as u16,
        receiver_id,
        refund_id: if n == mint_limit - 1 {
            Some(receiver_id)
        } else {
            None
        },
        deposit: MINT_STORAGE_COST,
    }
}

/// The batch for `mint_limit` items out of an inventory of `supply`, to be
/// settled under `batch_id`.
pub open spec fn planned_batch(
    nft_pack_contract: Seq<char>,
    supply: u16,
    receiver_id: Seq<char>,
    token_metadata: TokenMetadata,
    mint_limit: u16,
    current_account: Seq<char>,
    batch_id: u64,
) -> MintBatchView {
    MintBatchView {
        batch_id,
        nft_pack_contract,
        token_metadata,
        requests: Seq::new(
            mint_limit as nat,
            |n: int| planned_request(supply, receiver_id, mint_limit, n),
        ),
        callback_account: current_account,
        reduce_from_supply: mint_limit,
        storage_mint: reserved_cost(mint_limit) as u128,
    }
}

/// What planning a batch comes to: a deposit that does not cover the storage
/// cost is refused first, then a quantity above the inventory, and anything
/// else is planned.
pub open spec fn planning_result(
    nft_pack_contract: Seq<char>,
    supply: u16,
    receiver_id: Seq<char>,
    token_metadata: TokenMetadata,
    mint_limit: u16,
    current_account: Seq<char>,
    storage_deposit: u128,
    batch_id: u64,
) -> Result<MintBatchView, MintError> {
    if storage_deposit < reserved_cost(mint_limit) {
        Err(MintError::InsufficientEscrow)
    } else if mint_limit > supply {
        Err(MintError::SupplyExhausted)
    } else {
        Ok(
            planned_batch(
                nft_pack_contract,
                supply,
                receiver_id,
                token_metadata,
                mint_limit,
                current_account,
                batch_id,
            ),
        )
    }
}

/// The storage cost of any quantity fits 128 bits.
pub proof fn lemma_reserved_cost_fits(quantity: u16)
    ensures
        0 <= reserved_cost(quantity) <= 65535 * MINT_STORAGE_COST,
        65535 * MINT_STORAGE_COST <= u128::MAX,
{
    assert(0 <= quantity * MINT_STORAGE_COST <= 65535 * MINT_STORAGE_COST) by (nonlinear_arith)
        requires
            0 <= quantity <= 65535,
            MINT_STORAGE_COST > 0,
    ;
}

/// The items of a batch are numbered apart, below the inventory from which
/// the batch was taken, and the values that travel with the requests add up to
/// the cost reserved for the batch.
pub proof fn lemma_planned_batch(
    nft_pack_contract: Seq<char>,
    supply: u16,
    receiver_id: Seq<char>,
    token_metadata: TokenMetadata,
    mint_limit: u16,
    current_account: Seq<char>,
    batch_id: u64,
)
    requires
        mint_limit <= supply,
    ensures
        ({
            let batch = planned_batch(
                nft_pack_contract,
                supply,
                receiver_id,
                token_metadata,
                mint_limit,
                current_account,
                batch_id,
            );
            &&& batch.requests.len() == mint_limit
            &&& forall|i: int|
                0 <= i < mint_limit ==> supply - mint_limit <= (
                #[trigger] batch.requests[i]).token_id < supply
            &&& forall|i: int, j: int|
                0 <= i < j < mint_limit ==> (#[trigger] batch.requests[i]).token_id != (
                #[trigger] batch.requests[j]).token_id
            &&& forall|i: int|
                0 <= i < mint_limit ==> ((#[trigger] batch.requests[i]).refund_id is Some <==> i
                    == mint_limit - 1)
            &&& batch.storage_mint == mint_limit * MINT_STORAGE_COST
        }),
{
    lemma_reserved_cost_fits(mint_limit);
}

/// A batch is planned only out of a deposit that covers its storage cost:
/// whatever the inventory, a shorter deposit is refused with
/// `InsufficientEscrow`, and the cost of a planned batch never exceeds the
/// deposit, so that the deposit less the cost is never negative.
pub proof fn lemma_planning_stays_within_the_deposit(
    nft_pack_contract: Seq<char>,
    supply: u16,
    receiver_id: Seq<char>,
    token_metadata: TokenMetadata,
    mint_limit: u16,
    current_account: Seq<char>,
    storage_deposit: u128,
    batch_id: u64,
)
    ensures
        ({
            let planned = planning_result(
                nft_pack_contract,
                supply,
                receiver_id,
                token_metadata,
                mint_limit,
                current_account,
                storage_deposit,
                batch_id,
            );
            &&& storage_deposit < mint_limit * MINT_STORAGE_COST ==> planned == Err::<
                MintBatchView,
                MintError,
            >(MintError::InsufficientEscrow)
            &&& planned matches Ok(batch) ==> batch.storage_mint == mint_limit * MINT_STORAGE_COST
                && batch.storage_mint <= storage_deposit && batch.requests.len() == mint_limit
        }),
{
    lemma_reserved_cost_fits(mint_limit);
}

/// Plans the batch for `mint_limit` items that are created with
/// `token_metadata`, to be settled under `batch_id`: reserves their storage
/// cost out of `storage_deposit`, numbers the items down from
/// `nft_pack_supply - 1`, and closes with the settlement on `current_account`.
///
/// Fails with `InsufficientEscrow` when `storage_deposit` does not cover the
/// cost, and else with `SupplyExhausted` when the inventory does not cover the
/// quantity. A plan that fails holds no request.
pub fn promise_mint_pack(
    nft_pack_contract: AccountId,
    nft_pack_supply: u16,
    receiver_id: AccountId,
    token_metadata: TokenMetadata,
    mint_limit: u16,
    current_account: AccountId,
    storage_deposit: u128,
    batch_id: u64,
) -> (planned: Result<MintBatch, MintError>)
    ensures
        match planned {
            Ok(batch) => planning_result(
                nft_pack_contract@,
                nft_pack_supply,
                receiver_id@,
                token_metadata,
                mint_limit,
                current_account@,
                storage_deposit,
                batch_id,
            ) == Ok::<MintBatchView, MintError>(batch@),
            Err(e) => planning_result(
                nft_pack_contract@,
                nft_pack_supply,
                receiver_id@,
                token_metadata,
                mint_limit,
                current_account@,
                storage_deposit,
                batch_id,
            ) == Err::<MintBatchView, MintError>(e),
        },
        planned matches Ok(batch) ==> batch.storage_mint <= storage_deposit,
{
    proof {
        lemma_reserved_cost_fits(mint_limit);
    }
    let storage_mint: u128 = (mint_limit as u128) * MINT_STORAGE_COST;
    if storage_deposit < storage_mint {
        return Err(MintError::InsufficientEscrow);
    }
    if mint_limit > nft_pack_supply {
        return Err(MintError::SupplyExhausted);
    }
    let mut requests: Vec<MintRequest> = Vec::new();
    let mut n: u16 = 0;
    while n < mint_limit
        invariant
            n <= mint_limit <= nft_pack_supply,
            requests@.len() == n,
            forall|i: int|
                0 <= i < n ==> (#[trigger] requests@[i])@ == planned_request(
                    nft_pack_supply,
                    receiver_id@,
                    mint_limit,
                    i,
                ),
        decreases mint_limit - n,
    {
        let refund_id = if mint_limit - n == 1 {
            Some(receiver_id.clone())
        } else {
            None
        };
        requests.push(
            MintRequest {
                token_id: nft_pack_supply - (n + 1),
                receiver_id: receiver_id.clone(),
                refund_id,
                deposit: MINT_STORAGE_COST,
            },
        );
        n += 1;
    }
    let batch = MintBatch {
        batch_id,
        nft_pack_contract,
        token_metadata,
        requests,
        callback_account: current_account,
        reduce_from_supply: mint_limit,
        storage_mint,
    };
    assert(batch@.requests =~= planned_batch(
        nft_pack_contract@,
        nft_pack_supply,
        receiver_id@,
        token_metadata,
        mint_limit,
        current_account@,
        batch_id,
    ).requests);
    Ok(batch)
}

} // verus!
