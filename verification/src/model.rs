//! The ledger as a mathematical value, and what each operation makes of it.
//!
//! Every operation of the library is described here as a function from the
//! ledger before the call to the ledger after it, or to the reason for which
//! the call is refused. The executable code is proved to compute exactly
//! these functions.

use vstd::prelude::*;
use crate::classify::{donation_type_fault, reward_for_channel};
use crate::error::PayoutError;
use crate::types::{AirdropRecordView, DonationTypeView, DonorView, RewardTypeView};

verus! {

/// View of the whole ledger.
pub struct LedgerView {
    /// The donors, in the order in which they were first recorded.
    pub donors: Seq<DonorView>,
    /// The reward events, in the order in which they were logged.
    pub records: Seq<AirdropRecordView>,
    pub total_distributed: u128,
    pub admin: Seq<char>,
    pub nft_contract: Seq<char>,
    pub token_contract: Seq<char>,
}

/// Whether `i` is the first position at which `mask` holds.
pub open spec fn is_first_true(mask: Seq<bool>, i: int) -> bool {
    &&& 0 <= i < mask.len()
    &&& mask[i]
    &&& forall|j: int| 0 <= j < i ==> !mask[j]
}

/// The first position at which `mask` holds, if there is one.
pub open spec fn first_true(mask: Seq<bool>) -> Option<int> {
    if exists|i: int| is_first_true(mask, i) {
        Some(choose|i: int| is_first_true(mask, i))
    } else {
        None
    }
}

/// The first position at which a mask holds is the only one of its kind.
pub proof fn lemma_first_true_is(mask: Seq<bool>, i: int)
    requires
        is_first_true(mask, i),
    ensures
        first_true(mask) == Some(i),
{
    let c = choose|c: int| is_first_true(mask, c);
    assert(is_first_true(mask, c));
    if c < i {
        assert(!mask[c]);
    } else if i < c {
        assert(!mask[i]);
    }
}

/// A mask that holds nowhere has no first position.
pub proof fn lemma_first_true_none(mask: Seq<bool>)
    requires
        forall|j: int| 0 <= j < mask.len() ==> !mask[j],
    ensures
        first_true(mask) is None,
{
}

/// What is known of a first position.
pub proof fn lemma_first_true_facts(mask: Seq<bool>)
    ensures
        match first_true(mask) {
            Some(i) => is_first_true(mask, i),
            None => forall|j: int| 0 <= j < mask.len() ==> !mask[j],
        },
{
    if first_true(mask) is None {
        assert forall|j: int| 0 <= j < mask.len() implies !mask[j] by {
            if mask[j] {
                lemma_some_is_first(mask, j);
            }
        }
    }
}

/// Below a position at which a mask holds there is a first one.
proof fn lemma_some_is_first(mask: Seq<bool>, j: int)
    requires
        0 <= j < mask.len(),
        mask[j],
    ensures
        exists|i: int| is_first_true(mask, i) && i <= j,
    decreases j,
{
    if exists|k: int| 0 <= k < j && mask[k] {
        let k = choose|k: int| 0 <= k < j && mask[k];
        lemma_some_is_first(mask, k);
    } else {
        assert(is_first_true(mask, j));
    }
}

/// Where in `donors` each entry carries the identifier `id`.
pub open spec fn id_mask(donors: Seq<DonorView>, id: Seq<char>) -> Seq<bool> {
    Seq::new(donors.len(), |i: int| donors[i].wallet_id == id)
}

/// The position of the donor `id`, if the ledger knows one.
pub open spec fn donor_index(donors: Seq<DonorView>, id: Seq<char>) -> Option<int> {
    first_true(id_mask(donors, id))
}

/// An unpaid collectible reward of `id`.
pub open spec fn awaits_nft(record: AirdropRecordView, id: Seq<char>) -> bool {
    record.recipient == id && record.reward_type is NFT && !record.paid
}

/// An unpaid token reward of `id` over exactly `amount`.
pub open spec fn awaits_token(record: AirdropRecordView, id: Seq<char>, amount: u128) -> bool {
    record.recipient == id && record.amount == amount && record.reward_type is Token
        && !record.paid
}

/// An unpaid reward of `id`, of any kind.
pub open spec fn awaits_payout(record: AirdropRecordView, id: Seq<char>) -> bool {
    record.recipient == id && !record.paid
}

/// Where in `records` an unpaid collectible reward of `id` stands.
pub open spec fn nft_mask(records: Seq<AirdropRecordView>, id: Seq<char>) -> Seq<bool> {
    Seq::new(records.len(), |k: int| awaits_nft(records[k], id))
}

/// Where in `records` an unpaid token reward of `id` over `amount` stands.
pub open spec fn token_mask(records: Seq<AirdropRecordView>, id: Seq<char>, amount: u128) -> Seq<
    bool,
> {
    Seq::new(records.len(), |k: int| awaits_token(records[k], id, amount))
}

/// Where in `records` an unpaid reward of `id` stands.
pub open spec fn payout_mask(records: Seq<AirdropRecordView>, id: Seq<char>) -> Seq<bool> {
    Seq::new(records.len(), |k: int| awaits_payout(records[k], id))
}

/// Where among `rewards` a collectible stands.
pub open spec fn collectible_mask(rewards: Seq<RewardTypeView>) -> Seq<bool> {
    Seq::new(rewards.len(), |k: int| rewards[k] is NFT)
}

/// The oldest unpaid collectible reward of `id`.
pub open spec fn first_awaiting_nft(records: Seq<AirdropRecordView>, id: Seq<char>) -> Option<
    int,
> {
    first_true(nft_mask(records, id))
}

/// The oldest unpaid token reward of `id` over exactly `amount`.
pub open spec fn first_awaiting_token(
    records: Seq<AirdropRecordView>,
    id: Seq<char>,
    amount: u128,
) -> Option<int> {
    first_true(token_mask(records, id, amount))
}

/// The oldest unpaid reward of `id`.
pub open spec fn first_awaiting_payout(records: Seq<AirdropRecordView>, id: Seq<char>) -> Option<
    int,
> {
    first_true(payout_mask(records, id))
}

/// The position of the first collectible among `rewards`.
pub open spec fn first_nft(rewards: Seq<RewardTypeView>) -> Option<int> {
    first_true(collectible_mask(rewards))
}

/// `list` with `item` appended unless it already occurs.
pub open spec fn with_unique<T>(list: Seq<T>, item: T) -> Seq<T> {
    if list.contains(item) {
        list
    } else {
        list.push(item)
    }
}

/// The sum of the amounts of the reward events of `id`.
pub open spec fn accrued(records: Seq<AirdropRecordView>, id: Seq<char>) -> nat
    decreases records.len(),
{
    if records.len() == 0 {
        0
    } else if records.last().recipient == id {
        accrued(records.drop_last(), id) + records.last().amount as nat
    } else {
        accrued(records.drop_last(), id)
    }
}

/// The sum of the amounts of all reward events.
pub open spec fn total_amount(records: Seq<AirdropRecordView>) -> nat
    decreases records.len(),
{
    if records.len() == 0 {
        0
    } else {
        total_amount(records.drop_last()) + records.last().amount as nat
    }
}

/// No two donors carry the same identifier.
pub open spec fn distinct_ids(donors: Seq<DonorView>) -> bool {
    forall|i: int, j: int|
        0 <= i < j < donors.len() ==> (#[trigger] donors[i]).wallet_id != (
        #[trigger] donors[j]).wallet_id
}

/// Each donor has been credited the sum of the reward events logged for it.
pub open spec fn conserved(ledger: LedgerView) -> bool {
    forall|i: int|
        0 <= i < ledger.donors.len() ==> (#[trigger] ledger.donors[i]).airdrop_amount == accrued(
            ledger.records,
            ledger.donors[i].wallet_id,
        )
}

/// Each reward event names a donor of the ledger.
pub open spec fn recipients_known(ledger: LedgerView) -> bool {
    forall|k: int|
        0 <= k < ledger.records.len() ==> donor_index(
            ledger.donors,
            (#[trigger] ledger.records[k]).recipient,
        ) is Some
}

/// The consistency that every operation keeps: donors are told apart by
/// their identifier, each has been credited exactly what was logged for it,
/// no reward event is without its donor, and the running total is the sum of
/// all reward events.
pub open spec fn ledger_wf(ledger: LedgerView) -> bool {
    &&& distinct_ids(ledger.donors)
    &&& conserved(ledger)
    &&& recipients_known(ledger)
    &&& ledger.total_distributed == total_amount(ledger.records)
}

/// What may have become of ledger `before` once it reads `after`: nothing
/// was removed, no reward event changed its recipient or amount, no donor
/// changed its identifier, and nothing that was paid is unpaid.
pub open spec fn only_forward(before: LedgerView, after: LedgerView) -> bool {
    &&& before.donors.len() <= after.donors.len()
    &&& forall|i: int|
        0 <= i < before.donors.len() ==> {
            &&& (#[trigger] after.donors[i]).wallet_id == before.donors[i].wallet_id
            &&& before.donors[i].paid ==> after.donors[i].paid
        }
    &&& before.records.len() <= after.records.len()
    &&& forall|k: int|
        0 <= k < before.records.len() ==> {
            &&& (#[trigger] after.records[k]).recipient == before.records[k].recipient
            &&& after.records[k].amount == before.records[k].amount
            &&& before.records[k].paid ==> after.records[k].paid
        }
}

/// The account that holds collectibles where none is named.
pub open spec fn default_nft_contract() -> Seq<char> {
    "potlock-nfts.testnet"@
}

/// The account that holds the token where none is named.
pub open spec fn default_token_contract() -> Seq<char> {
    "token.testnet"@
}

/// The ledger as it is created: empty, with `admin` as its administrator.
pub open spec fn new_ledger(
    admin: Seq<char>,
    nft_contract: Option<Seq<char>>,
    token_contract: Option<Seq<char>>,
) -> LedgerView {
    LedgerView {
        donors: Seq::empty(),
        records: Seq::empty(),
        total_distributed: 0,
        admin,
        nft_contract: match nft_contract {
            Some(id) => id,
            None => default_nft_contract(),
        },
        token_contract: match token_contract {
            Some(id) => id,
            None => default_token_contract(),
        },
    }
}

/// A donor of whom nothing has been recorded yet.
pub open spec fn fresh_donor(id: Seq<char>) -> DonorView {
    DonorView {
        wallet_id: id,
        donation_amount: 0,
        airdrop_amount: 0,
        paid: false,
        reward_types: Seq::empty(),
        donation_types: Seq::empty(),
    }
}

/// The donor `id` as the ledger has it, or a fresh one.
pub open spec fn donor_or_fresh(donors: Seq<DonorView>, id: Seq<char>) -> DonorView {
    match donor_index(donors, id) {
        Some(i) => donors[i],
        None => fresh_donor(id),
    }
}

/// `donors` with `donor` in the place of the entry of the same identifier,
/// or at the end where there is none.
pub open spec fn with_donor(donors: Seq<DonorView>, donor: DonorView) -> Seq<DonorView> {
    match donor_index(donors, donor.wallet_id) {
        Some(i) => donors.update(i, donor),
        None => donors.push(donor),
    }
}

/// Logging a reward of `amount` for `recipient`, by `caller`, with
/// `attached` yoctoNEAR, at `timestamp`.
pub open spec fn log_airdrop_spec(
    ledger: LedgerView,
    caller: Seq<char>,
    attached: u128,
    timestamp: u64,
    recipient: Seq<char>,
    channel_id: Seq<char>,
    donation_type: DonationTypeView,
    amount: u128,
) -> Result<LedgerView, PayoutError> {
    let donor = donor_or_fresh(ledger.donors, recipient);
    if caller != ledger.admin {
        Err(PayoutError::NotAdmin)
    } else if let Some(e) = donation_type_fault(donation_type) {
        Err(e)
    } else if donor.airdrop_amount + amount > u128::MAX || donor.donation_amount + attached
        > u128::MAX || ledger.total_distributed + amount > u128::MAX {
        Err(PayoutError::AmountOverflow)
    } else {
        let reward_type = reward_for_channel(channel_id);
        let record = AirdropRecordView {
            recipient,
            amount,
            timestamp,
            paid: false,
            reward_type,
            donation_type,
        };
        let credited = DonorView {
            airdrop_amount: (donor.airdrop_amount + amount) as u128,
            donation_amount: (donor.donation_amount + attached) as u128,
            donation_types: with_unique(donor.donation_types, donation_type),
            reward_types: with_unique(donor.reward_types, reward_type),
            ..donor
        };
        Ok(
            LedgerView {
                donors: with_donor(ledger.donors, credited),
                records: ledger.records.push(record),
                total_distributed: (ledger.total_distributed + amount) as u128,
                ..ledger
            },
        )
    }
}

/// Recording a donation of `attached` yoctoNEAR by `signer`.
pub open spec fn record_donation_spec(
    ledger: LedgerView,
    signer: Seq<char>,
    attached: u128,
    donation_type: DonationTypeView,
) -> Result<LedgerView, PayoutError> {
    let donor = donor_or_fresh(ledger.donors, signer);
    if attached == 0 {
        Err(PayoutError::ZeroDeposit)
    } else if let Some(e) = donation_type_fault(donation_type) {
        Err(e)
    } else if donor.donation_amount + attached > u128::MAX {
        Err(PayoutError::AmountOverflow)
    } else {
        let credited = DonorView {
            donation_amount: (donor.donation_amount + attached) as u128,
            donation_types: with_unique(donor.donation_types, donation_type),
            ..donor
        };
        Ok(LedgerView { donors: with_donor(ledger.donors, credited), ..ledger })
    }
}

/// Adding a collectible of `channel_id` to what `signer` is entitled to.
pub open spec fn select_nft_reward_spec(
    ledger: LedgerView,
    signer: Seq<char>,
    channel_id: Seq<char>,
    donation_type: DonationTypeView,
) -> Result<LedgerView, PayoutError> {
    match donor_index(ledger.donors, signer) {
        None => Err(PayoutError::DonorNotFound),
        Some(i) => {
            let donor = ledger.donors[i];
            if !donor.reward_types.contains(RewardTypeView::Token) {
                Err(PayoutError::NoTokenReward)
            } else if donor.paid {
                Err(PayoutError::AlreadyPaid)
            } else if let Some(e) = donation_type_fault(donation_type) {
                Err(e)
            } else {
                let entitled = DonorView {
                    donation_types: with_unique(donor.donation_types, donation_type),
                    reward_types: with_unique(
                        donor.reward_types,
                        RewardTypeView::NFT { channel_id, token_id: Seq::empty() },
                    ),
                    ..donor
                };
                Ok(LedgerView { donors: ledger.donors.update(i, entitled), ..ledger })
            }
        },
    }
}

/// `records` with the event at `k` marked as paid.
pub open spec fn with_paid(records: Seq<AirdropRecordView>, k: int) -> Seq<AirdropRecordView> {
    records.update(k, AirdropRecordView { paid: true, ..records[k] })
}

/// `donors` with the donor at `i` marked as paid.
pub open spec fn with_paid_donor(donors: Seq<DonorView>, i: int) -> Seq<DonorView> {
    donors.update(i, DonorView { paid: true, ..donors[i] })
}

/// The administrator marking `donor_id` as paid, and with it the oldest
/// unpaid reward event of that donor.
pub open spec fn mark_payout_complete_spec(
    ledger: LedgerView,
    caller: Seq<char>,
    donor_id: Seq<char>,
) -> Result<LedgerView, PayoutError> {
    if caller != ledger.admin {
        Err(PayoutError::NotAdmin)
    } else {
        match donor_index(ledger.donors, donor_id) {
            None => Err(PayoutError::DonorNotFound),
            Some(i) => if ledger.donors[i].paid {
                Err(PayoutError::AlreadyPaid)
            } else {
                Ok(
                    LedgerView {
                        donors: with_paid_donor(ledger.donors, i),
                        records: match first_awaiting_payout(ledger.records, donor_id) {
                            Some(k) => with_paid(ledger.records, k),
                            None => ledger.records,
                        },
                        ..ledger
                    },
                )
            },
        }
    }
}

/// A collectible once the item `token_id` has been issued for it: the same
/// channel, with that item. A token is left as it is.
pub open spec fn with_item(reward: RewardTypeView, token_id: Seq<char>) -> RewardTypeView {
    match reward {
        RewardTypeView::NFT { channel_id, .. } => RewardTypeView::NFT { channel_id, token_id },
        RewardTypeView::Token => RewardTypeView::Token,
    }
}

/// The ledger once the item `token_id` has been issued to the donor at `i`,
/// in settlement of the reward event at `k`: the event is paid and carries
/// the item, the donor's entitlement at `slot` carries the item, and the
/// donor is paid. The event and the entitlement each keep their own channel,
/// and nothing else of them changes.
pub open spec fn nft_settled(ledger: LedgerView, i: int, k: int, slot: int, token_id: Seq<char>)
    -> LedgerView {
    let donor = ledger.donors[i];
    let record = ledger.records[k];
    LedgerView {
        donors: ledger.donors.update(
            i,
            DonorView {
                paid: true,
                reward_types: donor.reward_types.update(
                    slot,
                    with_item(donor.reward_types[slot], token_id),
                ),
                ..donor
            },
        ),
        records: ledger.records.update(
            k,
            AirdropRecordView {
                paid: true,
                reward_type: with_item(record.reward_type, token_id),
                ..record
            },
        ),
        ..ledger
    }
}

/// What a successful issuance of `token_id` to `donor_id` makes of the
/// ledger: the oldest unpaid collectible reward of the donor is paid and
/// carries the item, as does the donor's first collectible entitlement, and
/// the donor is paid. Each of the two keeps the channel it had, whether or
/// not the two channels agree. The position of the settled event comes with
/// it; where the donor has no unpaid collectible reward, nothing changes.
pub open spec fn complete_issuance_spec(
    ledger: LedgerView,
    donor_id: Seq<char>,
    token_id: Seq<char>,
) -> Result<(LedgerView, Option<int>), PayoutError> {
    match donor_index(ledger.donors, donor_id) {
        None => Err(PayoutError::DonorNotFound),
        Some(i) => match first_nft(ledger.donors[i].reward_types) {
            None => Err(PayoutError::NoNftReward),
            Some(slot) => match first_awaiting_nft(ledger.records, donor_id) {
                None => Ok((ledger, None)),
                Some(k) => Ok((nft_settled(ledger, i, k, slot, token_id), Some(k))),
            },
        },
    }
}

/// What a successful transfer of `amount` to `donor_id` makes of the
/// ledger: the oldest unpaid token reward of the donor over that amount is
/// paid, and so is the donor. The position of the settled event comes with
/// it; where there is no such reward, nothing changes.
pub open spec fn complete_transfer_spec(
    ledger: LedgerView,
    donor_id: Seq<char>,
    amount: u128,
) -> Result<(LedgerView, Option<int>), PayoutError> {
    match donor_index(ledger.donors, donor_id) {
        None => Err(PayoutError::DonorNotFound),
        Some(i) => match first_awaiting_token(ledger.records, donor_id, amount) {
            None => Ok((ledger, None)),
            Some(k) => Ok(
                (
                    LedgerView {
                        donors: with_paid_donor(ledger.donors, i),
                        records: with_paid(ledger.records, k),
                        ..ledger
                    },
                    Some(k),
                ),
            ),
        },
    }
}

} // verus!
