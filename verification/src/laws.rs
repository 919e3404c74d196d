//! The laws of the ledger: what holds of every operation, whatever its
//! arguments.
//!
//! Each law is stated over the functions of [`crate::model`], which the
//! executable operations are proved to compute.

use vstd::prelude::*;
use crate::classify::reward_for_channel;
use crate::consistency::{
    lemma_credit_keeps_consistency, lemma_credit_moves_forward, lemma_rewrite_keeps_consistency,
};
use crate::error::{ErrorKind, PayoutError};
use crate::flow::{
    item_text, on_nft_mint_spec, on_token_transfer_spec, send_nft_reward_spec,
    send_token_reward_spec, GatewayCallView, OutcomeView,
};
use crate::lemmas::{lemma_donor_index_facts, lemma_donor_index_same_ids};
use crate::model::{
    awaits_nft, awaits_token, collectible_mask, complete_issuance_spec, complete_transfer_spec,
    conserved, donor_index, donor_or_fresh, first_awaiting_nft, first_awaiting_token, first_nft,
    ledger_wf, lemma_first_true_facts, log_airdrop_spec, mark_payout_complete_spec, new_ledger,
    nft_mask, only_forward, payout_mask, record_donation_spec, select_nft_reward_spec, token_mask,
    with_unique, LedgerView,
};
use crate::types::{AirdropRecordView, DonationTypeView, DonorView, RewardTypeView};

verus! {

/// A ledger is consistent when it is created: it has no donor and no reward
/// event, and its total is zero.
pub proof fn lemma_new_ledger_is_consistent(
    admin: Seq<char>,
    nft_contract: Option<Seq<char>>,
    token_contract: Option<Seq<char>>,
)
    ensures
        ledger_wf(new_ledger(admin, nft_contract, token_contract)),
{
}

/// In a consistent ledger every donor has been credited exactly the sum of
/// the reward events logged for it.
pub proof fn lemma_consistent_ledger_conserves(ledger: LedgerView)
    requires
        ledger_wf(ledger),
    ensures
        conserved(ledger),
{
}

/// Logging a reward takes nothing back, and keeps a consistent ledger
/// consistent.
pub proof fn lemma_log_airdrop_keeps(
    ledger: LedgerView,
    caller: Seq<char>,
    attached: u128,
    timestamp: u64,
    recipient: Seq<char>,
    channel_id: Seq<char>,
    donation_type: DonationTypeView,
    amount: u128,
)
    ensures
        match log_airdrop_spec(
            ledger,
            caller,
            attached,
            timestamp,
            recipient,
            channel_id,
            donation_type,
            amount,
        ) {
            Ok(after) => only_forward(ledger, after) && (ledger_wf(ledger) ==> ledger_wf(after)),
            Err(_) => true,
        },
{
    let outcome = log_airdrop_spec(
        ledger,
        caller,
        attached,
        timestamp,
        recipient,
        channel_id,
        donation_type,
        amount,
    );
    if let Ok(after) = outcome {
        let donor = donor_or_fresh(ledger.donors, recipient);
        lemma_donor_index_facts(ledger.donors, recipient);
        let reward_type = reward_for_channel(channel_id);
        let record = AirdropRecordView {
            recipient,
            amount,
            timestamp,
            paid: false,
            reward_type,
            donation_type,
        };
        let credited = DonorView {
            airdrop_amount: (donor.airdrop_amount + amount) as u128,
            donation_amount: (donor.donation_amount + attached) as u128,
            donation_types: with_unique(donor.donation_types, donation_type),
            reward_types: with_unique(donor.reward_types, reward_type),
            ..donor
        };
        lemma_credit_moves_forward(ledger, after, credited, Some(record));
        if ledger_wf(ledger) {
            lemma_credit_keeps_consistency(ledger, after, credited, Some(record));
        }
    }
}

/// Recording a donation takes nothing back, and keeps a consistent ledger
/// consistent.
pub proof fn lemma_record_donation_keeps(
    ledger: LedgerView,
    signer: Seq<char>,
    attached: u128,
    donation_type: DonationTypeView,
)
    ensures
        match record_donation_spec(ledger, signer, attached, donation_type) {
            Ok(after) => only_forward(ledger, after) && (ledger_wf(ledger) ==> ledger_wf(after)),
            Err(_) => true,
        },
{
    if let Ok(after) = record_donation_spec(ledger, signer, attached, donation_type) {
        let donor = donor_or_fresh(ledger.donors, signer);
        lemma_donor_index_facts(ledger.donors, signer);
        let credited = DonorView {
            donation_amount: (donor.donation_amount + attached) as u128,
            donation_types: with_unique(donor.donation_types, donation_type),
            ..donor
        };
        lemma_credit_moves_forward(ledger, after, credited, None);
        if ledger_wf(ledger) {
            lemma_credit_keeps_consistency(ledger, after, credited, None);
        }
    }
}

/// Selecting a collectible takes nothing back, and keeps a consistent ledger
/// consistent.
pub proof fn lemma_select_nft_reward_keeps(
    ledger: LedgerView,
    signer: Seq<char>,
    channel_id: Seq<char>,
    donation_type: DonationTypeView,
)
    ensures
        match select_nft_reward_spec(ledger, signer, channel_id, donation_type) {
            Ok(after) => only_forward(ledger, after) && (ledger_wf(ledger) ==> ledger_wf(after)),
            Err(_) => true,
        },
{
    if let Ok(after) = select_nft_reward_spec(ledger, signer, channel_id, donation_type) {
        lemma_donor_index_facts(ledger.donors, signer);
        if ledger_wf(ledger) {
            lemma_rewrite_keeps_consistency(ledger, after);
        }
    }
}

/// Marking a payout as complete takes nothing back, and keeps a consistent
/// ledger consistent.
pub proof fn lemma_mark_payout_complete_keeps(
    ledger: LedgerView,
    caller: Seq<char>,
    donor_id: Seq<char>,
)
    ensures
        match mark_payout_complete_spec(ledger, caller, donor_id) {
            Ok(after) => only_forward(ledger, after) && (ledger_wf(ledger) ==> ledger_wf(after)),
            Err(_) => true,
        },
{
    if let Ok(after) = mark_payout_complete_spec(ledger, caller, donor_id) {
        lemma_donor_index_facts(ledger.donors, donor_id);
        lemma_first_true_facts(payout_mask(ledger.records, donor_id));
        if ledger_wf(ledger) {
            lemma_rewrite_keeps_consistency(ledger, after);
        }
    }
}

/// Settling an issuance takes nothing back, and keeps a consistent ledger
/// consistent.
pub proof fn lemma_complete_issuance_keeps(
    ledger: LedgerView,
    donor_id: Seq<char>,
    token_id: Seq<char>,
)
    ensures
        match complete_issuance_spec(ledger, donor_id, token_id) {
            Ok((after, _)) => only_forward(ledger, after) && (ledger_wf(ledger) ==> ledger_wf(
                after,
            )),
            Err(_) => true,
        },
{
    if let Ok((after, _)) = complete_issuance_spec(ledger, donor_id, token_id) {
        lemma_donor_index_facts(ledger.donors, donor_id);
        let i = donor_index(ledger.donors, donor_id)->Some_0;
        lemma_first_true_facts(collectible_mask(ledger.donors[i].reward_types));
        lemma_first_true_facts(nft_mask(ledger.records, donor_id));
        if ledger_wf(ledger) {
            lemma_rewrite_keeps_consistency(ledger, after);
        }
    }
}

/// Settling a transfer takes nothing back, and keeps a consistent ledger
/// consistent.
pub proof fn lemma_complete_transfer_keeps(ledger: LedgerView, donor_id: Seq<char>, amount: u128)
    ensures
        match complete_transfer_spec(ledger, donor_id, amount) {
            Ok((after, _)) => only_forward(ledger, after) && (ledger_wf(ledger) ==> ledger_wf(
                after,
            )),
            Err(_) => true,
        },
{
    if let Ok((after, _)) = complete_transfer_spec(ledger, donor_id, amount) {
        lemma_donor_index_facts(ledger.donors, donor_id);
        lemma_first_true_facts(token_mask(ledger.records, donor_id, amount));
        if ledger_wf(ledger) {
            lemma_rewrite_keeps_consistency(ledger, after);
        }
    }
}

/// A donor who has been paid cannot begin a payout flow: both entry points
/// refuse, for a reason of the state-precondition class, and so name no
/// call. As an entry point leaves the ledger as it is, this holds however
/// often it is invoked.
pub proof fn lemma_paid_donor_cannot_begin(ledger: LedgerView, signer: Seq<char>, attached: u128)
    requires
        donor_index(ledger.donors, signer) matches Some(i) && ledger.donors[i].paid,
    ensures
        send_nft_reward_spec(ledger, signer, attached) == Err::<GatewayCallView, PayoutError>(
            PayoutError::AlreadyPaid,
        ),
        send_token_reward_spec(ledger, signer, attached) == Err::<GatewayCallView, PayoutError>(
            PayoutError::AlreadyPaid,
        ),
        PayoutError::AlreadyPaid.spec_kind() == ErrorKind::StatePrecondition,
{
}

/// A settlement marks the donor as paid, so that no flow can begin for the
/// donor afterwards.
pub proof fn lemma_settled_donor_is_paid(
    ledger: LedgerView,
    donor_id: Seq<char>,
    token_id: Seq<char>,
    amount: u128,
)
    ensures
        complete_issuance_spec(ledger, donor_id, token_id) matches Ok((after, Some(_)))
            ==> donor_index(after.donors, donor_id) matches Some(i) && after.donors[i].paid,
        complete_transfer_spec(ledger, donor_id, amount) matches Ok((after, Some(_)))
            ==> donor_index(after.donors, donor_id) matches Some(i) && after.donors[i].paid,
{
    lemma_donor_index_facts(ledger.donors, donor_id);
    if let Ok((after, Some(_))) = complete_issuance_spec(ledger, donor_id, token_id) {
        lemma_donor_index_same_ids(ledger.donors, after.donors, donor_id);
    }
    if let Ok((after, Some(_))) = complete_transfer_spec(ledger, donor_id, amount) {
        lemma_donor_index_same_ids(ledger.donors, after.donors, donor_id);
    }
}

/// Oldest first, for transfers: where a donor has two unpaid token rewards
/// over the same amount, logged in the order `a` then `b`, a successful
/// transfer of that amount settles an event no younger than `a` and leaves
/// `b` unpaid; it settles `a` itself exactly if no older event qualifies.
pub proof fn lemma_transfer_settles_oldest(
    ledger: LedgerView,
    donor_id: Seq<char>,
    amount: u128,
    a: int,
    b: int,
)
    requires
        donor_index(ledger.donors, donor_id) is Some,
        0 <= a < b < ledger.records.len(),
        awaits_token(ledger.records[a], donor_id, amount),
        awaits_token(ledger.records[b], donor_id, amount),
    ensures
        complete_transfer_spec(ledger, donor_id, amount) matches Ok((after, Some(k))) && {
            &&& 0 <= k <= a
            &&& after.records[k].paid
            &&& awaits_token(after.records[b], donor_id, amount)
            &&& k == a <==> forall|j: int|
                0 <= j < a ==> !awaits_token(#[trigger] ledger.records[j], donor_id, amount)
        },
{
    let mask = token_mask(ledger.records, donor_id, amount);
    lemma_first_true_facts(mask);
    assert(mask[a]);
    let k = first_awaiting_token(ledger.records, donor_id, amount)->Some_0;
    if k == a {
        assert forall|j: int| 0 <= j < a implies !awaits_token(
            #[trigger] ledger.records[j],
            donor_id,
            amount,
        ) by {
            assert(!mask[j]);
        }
    } else {
        assert(mask[k]);
    }
}

/// A successful issuance changes of the settled reward event nothing but
/// its item and its payment: the event keeps its recipient, amount, time,
/// category and channel. No other reward event changes.
pub proof fn lemma_issuance_touches_item_and_payment_only(
    ledger: LedgerView,
    donor_id: Seq<char>,
    token_id: Seq<char>,
)
    ensures
        complete_issuance_spec(ledger, donor_id, token_id) matches Ok((after, Some(k))) ==> {
            &&& 0 <= k < ledger.records.len()
            &&& ledger.records[k].reward_type is NFT
            &&& after.records == ledger.records.update(
                k,
                AirdropRecordView {
                    paid: true,
                    reward_type: RewardTypeView::NFT {
                        channel_id: ledger.records[k].reward_type->channel_id,
                        token_id,
                    },
                    ..ledger.records[k]
                },
            )
        },
{
    lemma_first_true_facts(nft_mask(ledger.records, donor_id));
}

/// Oldest first, for issuances: where a donor has two unpaid collectible
/// rewards, logged in the order `a` then `b`, a successful issuance settles
/// an event no younger than `a` and leaves `b` unpaid; it settles `a` itself
/// exactly if no older event qualifies.
pub proof fn lemma_issuance_settles_oldest(
    ledger: LedgerView,
    donor_id: Seq<char>,
    token_id: Seq<char>,
    a: int,
    b: int,
)
    requires
        donor_index(ledger.donors, donor_id) matches Some(i) && first_nft(
            ledger.donors[i].reward_types,
        ) is Some,
        0 <= a < b < ledger.records.len(),
        awaits_nft(ledger.records[a], donor_id),
        awaits_nft(ledger.records[b], donor_id),
    ensures
        complete_issuance_spec(ledger, donor_id, token_id) matches Ok((after, Some(k))) && {
            &&& 0 <= k <= a
            &&& after.records[k].paid
            &&& after.records[k].reward_type matches RewardTypeView::NFT { token_id: t, .. }
                && t == token_id
            &&& awaits_nft(after.records[b], donor_id)
            &&& k == a <==> forall|j: int|
                0 <= j < a ==> !awaits_nft(#[trigger] ledger.records[j], donor_id)
        },
{
    let mask = nft_mask(ledger.records, donor_id);
    lemma_first_true_facts(mask);
    assert(mask[a]);
    let k = first_awaiting_nft(ledger.records, donor_id)->Some_0;
    if k == a {
        assert forall|j: int| 0 <= j < a implies !awaits_nft(
            #[trigger] ledger.records[j],
            donor_id,
        ) by {
            assert(!mask[j]);
        }
    } else {
        assert(mask[k]);
    }
}

/// One call of an operation that can change the ledger, with its arguments.
pub enum Step {
    LogAirdrop {
        caller: Seq<char>,
        attached: u128,
        timestamp: u64,
        recipient: Seq<char>,
        channel_id: Seq<char>,
        donation_type: DonationTypeView,
        amount: u128,
    },
    RecordDonation { signer: Seq<char>, attached: u128, donation_type: DonationTypeView },
    SelectNftReward { signer: Seq<char>, channel_id: Seq<char>, donation_type: DonationTypeView },
    MarkPayoutComplete { caller: Seq<char>, donor_id: Seq<char> },
    NftMintResolved { donor_id: Seq<char>, results_count: u64, outcome: OutcomeView },
    TokenTransferResolved {
        donor_id: Seq<char>,
        amount: u128,
        results_count: u64,
        outcome: OutcomeView,
    },
    IssuanceCompleted { donor_id: Seq<char>, token_id: Seq<char> },
    TransferCompleted { donor_id: Seq<char>, amount: u128 },
}

/// The ledger after one call: what the operation makes of it, or the ledger
/// as it was where the call is refused.
pub open spec fn after_step(ledger: LedgerView, step: Step) -> LedgerView {
    match step {
        Step::LogAirdrop {
            caller,
            attached,
            timestamp,
            recipient,
            channel_id,
            donation_type,
            amount,
        } => match log_airdrop_spec(
            ledger,
            caller,
            attached,
            timestamp,
            recipient,
            channel_id,
            donation_type,
            amount,
        ) {
            Ok(after) => after,
            Err(_) => ledger,
        },
        Step::RecordDonation { signer, attached, donation_type } => match record_donation_spec(
            ledger,
            signer,
            attached,
            donation_type,
        ) {
            Ok(after) => after,
            Err(_) => ledger,
        },
        Step::SelectNftReward {
            signer,
            channel_id,
            donation_type,
        } => match select_nft_reward_spec(ledger, signer, channel_id, donation_type) {
            Ok(after) => after,
            Err(_) => ledger,
        },
        Step::MarkPayoutComplete { caller, donor_id } => match mark_payout_complete_spec(
            ledger,
            caller,
            donor_id,
        ) {
            Ok(after) => after,
            Err(_) => ledger,
        },
        Step::NftMintResolved { donor_id, results_count, outcome } => match on_nft_mint_spec(
            ledger,
            donor_id,
            results_count,
            outcome,
        ) {
            Ok((after, _)) => after,
            Err(_) => ledger,
        },
        Step::TokenTransferResolved {
            donor_id,
            amount,
            results_count,
            outcome,
        } => match on_token_transfer_spec(ledger, donor_id, amount, results_count, outcome) {
            Ok((after, _)) => after,
            Err(_) => ledger,
        },
        Step::IssuanceCompleted { donor_id, token_id } => match complete_issuance_spec(
            ledger,
            donor_id,
            token_id,
        ) {
            Ok((after, _)) => after,
            Err(_) => ledger,
        },
        Step::TransferCompleted { donor_id, amount } => match complete_transfer_spec(
            ledger,
            donor_id,
            amount,
        ) {
            Ok((after, _)) => after,
            Err(_) => ledger,
        },
    }
}

/// The ledger after a run of calls, one after the other.
pub open spec fn after_steps(ledger: LedgerView, steps: Seq<Step>) -> LedgerView
    decreases steps.len(),
{
    if steps.len() == 0 {
        ledger
    } else {
        after_step(after_steps(ledger, steps.drop_last()), steps.last())
    }
}

/// Whatever the call, accepted or refused: nothing that was paid is unpaid
/// afterwards, nothing is removed, and a consistent ledger stays consistent,
/// so that every donor's credit still equals the sum of its reward events.
pub proof fn lemma_step_keeps(ledger: LedgerView, step: Step)
    ensures
        only_forward(ledger, after_step(ledger, step)),
        ledger_wf(ledger) ==> ledger_wf(after_step(ledger, step)),
{
    match step {
        Step::LogAirdrop {
            caller,
            attached,
            timestamp,
            recipient,
            channel_id,
            donation_type,
            amount,
        } => {
            lemma_log_airdrop_keeps(
                ledger,
                caller,
                attached,
                timestamp,
                recipient,
                channel_id,
                donation_type,
                amount,
            );
        },
        Step::RecordDonation { signer, attached, donation_type } => {
            lemma_record_donation_keeps(ledger, signer, attached, donation_type);
        },
        Step::SelectNftReward { signer, channel_id, donation_type } => {
            lemma_select_nft_reward_keeps(ledger, signer, channel_id, donation_type);
        },
        Step::MarkPayoutComplete { caller, donor_id } => {
            lemma_mark_payout_complete_keeps(ledger, caller, donor_id);
        },
        Step::NftMintResolved { donor_id, results_count, outcome } => {
            if let OutcomeView::Success(bytes) = outcome {
                lemma_complete_issuance_keeps(ledger, donor_id, item_text(bytes));
            }
        },
        Step::TokenTransferResolved { donor_id, amount, results_count, outcome } => {
            lemma_complete_transfer_keeps(ledger, donor_id, amount);
        },
        Step::IssuanceCompleted { donor_id, token_id } => {
            lemma_complete_issuance_keeps(ledger, donor_id, token_id);
        },
        Step::TransferCompleted { donor_id, amount } => {
            lemma_complete_transfer_keeps(ledger, donor_id, amount);
        },
    }
}

/// After any number of calls, nothing that was paid is unpaid, and a ledger
/// that was consistent is consistent.
pub proof fn lemma_steps_keep(ledger: LedgerView, steps: Seq<Step>)
    ensures
        only_forward(ledger, after_steps(ledger, steps)),
        ledger_wf(ledger) ==> ledger_wf(after_steps(ledger, steps)),
    decreases steps.len(),
{
    if steps.len() > 0 {
        let previous = after_steps(ledger, steps.drop_last());
        lemma_steps_keep(ledger, steps.drop_last());
        lemma_step_keeps(previous, steps.last());
        lemma_only_forward_composes(ledger, previous, after_steps(ledger, steps));
    }
}

/// Every ledger that the operations can reach from a new one is consistent:
/// before and after any number of calls, each donor has been credited
/// exactly the sum of the reward events logged for it.
pub proof fn lemma_reachable_ledger_conserves(
    admin: Seq<char>,
    nft_contract: Option<Seq<char>>,
    token_contract: Option<Seq<char>>,
    steps: Seq<Step>,
)
    ensures
        ledger_wf(after_steps(new_ledger(admin, nft_contract, token_contract), steps)),
        conserved(after_steps(new_ledger(admin, nft_contract, token_contract), steps)),
{
    lemma_steps_keep(new_ledger(admin, nft_contract, token_contract), steps);
}

/// What moves only forward twice in a row has moved only forward.
pub proof fn lemma_only_forward_composes(first: LedgerView, second: LedgerView, third: LedgerView)
    requires
        only_forward(first, second),
        only_forward(second, third),
    ensures
        only_forward(first, third),
{
    assert forall|i: int| 0 <= i < first.donors.len() implies {
        &&& (#[trigger] third.donors[i]).wallet_id == first.donors[i].wallet_id
        &&& first.donors[i].paid ==> third.donors[i].paid
    } by {
        assert(second.donors[i].wallet_id == first.donors[i].wallet_id);
    }
    assert forall|k: int| 0 <= k < first.records.len() implies {
        &&& (#[trigger] third.records[k]).recipient == first.records[k].recipient
        &&& third.records[k].amount == first.records[k].amount
        &&& first.records[k].paid ==> third.records[k].paid
    } by {
        assert(second.records[k].recipient == first.records[k].recipient);
    }
}

} // verus!
