//! The two payout flows as decisions: which call to make next, and what a
//! resolved call makes of the ledger.
//!
//! A flow never waits. An entry point names the call to submit; the caller
//! submits it and, once it has resolved, hands the outcome to the
//! continuation that the call names, together with the arguments that the
//! call carries.

use vstd::prelude::*;
use crate::error::PayoutError;
use crate::host::{json_null_reading, utf8_lossy};
use crate::model::{
    complete_issuance_spec, complete_transfer_spec, donor_index, first_nft, LedgerView,
};
use crate::types::RewardTypeView;

verus! {

/// The deposit, in yoctoNEAR, that registers an account with the token
/// contract: 1250 milliNEAR.
pub const REGISTRATION_COST: u128 = 1_250_000_000_000_000_000_000_000;

/// A call to one of the two contracts that pay rewards out.
///
/// The call that a flow has returned last tells where the flow stands: it
/// awaits the outcome of that call. A flow has completed once its last
/// continuation has returned a [`Settlement`], and has failed once an entry
/// point or a continuation has refused.
#[derive(Debug)]
pub enum GatewayCall {
    /// Issue a collectible of `channel_id` to `recipient`, with `deposit`
    /// attached. The flow awaits the issuance, and resumes in
    /// `on_nft_mint_callback` with `recipient`.
    IssueItem { contract: String, recipient: String, channel_id: String, deposit: u128 },
    /// Ask whether `recipient` is registered to hold the token. The flow
    /// awaits the registration check, and resumes in
    /// `on_storage_check_callback` with `recipient`, `amount` and
    /// `attached_deposit`.
    CheckRegistration { contract: String, recipient: String, amount: u128, attached_deposit: u128 },
    /// Register `recipient` with the token contract, with `deposit`
    /// attached. The flow awaits the registration, and resumes in
    /// `on_storage_deposit_callback` with `recipient` and `amount`.
    Register { contract: String, recipient: String, amount: u128, deposit: u128 },
    /// Transfer `amount` of the token to `recipient`. The flow awaits the
    /// transfer, whether or not a registration came before it, and resumes in
    /// `on_token_transfer_callback` with `recipient` and `amount`.
    TransferBalance { contract: String, recipient: String, amount: u128 },
}

/// View of a [`GatewayCall`].
pub enum GatewayCallView {
    IssueItem { contract: Seq<char>, recipient: Seq<char>, channel_id: Seq<char>, deposit: u128 },
    CheckRegistration {
        contract: Seq<char>,
        recipient: Seq<char>,
        amount: u128,
        attached_deposit: u128,
    },
    Register { contract: Seq<char>, recipient: Seq<char>, amount: u128, deposit: u128 },
    TransferBalance { contract: Seq<char>, recipient: Seq<char>, amount: u128 },
}

impl View for GatewayCall {
    type V = GatewayCallView;

    open spec fn view(&self) -> GatewayCallView {
        match *self {
            GatewayCall::IssueItem {
                contract,
                recipient,
                channel_id,
                deposit,
            } => GatewayCallView::IssueItem {
                contract: contract@,
                recipient: recipient@,
                channel_id: channel_id@,
                deposit,
            },
            GatewayCall::CheckRegistration {
                contract,
                recipient,
                amount,
                attached_deposit,
            } => GatewayCallView::CheckRegistration {
                contract: contract@,
                recipient: recipient@,
                amount,
                attached_deposit,
            },
            GatewayCall::Register {
                contract,
                recipient,
                amount,
                deposit,
            } => GatewayCallView::Register {
                contract: contract@,
                recipient: recipient@,
                amount,
                deposit,
            },
            GatewayCall::TransferBalance {
                contract,
                recipient,
                amount,
            } => GatewayCallView::TransferBalance {
                contract: contract@,
                recipient: recipient@,
                amount,
            },
        }
    }
}

impl PartialEq for GatewayCall {
    fn eq(&self, other: &Self) -> (r: bool) {
        match self {
            GatewayCall::IssueItem { contract, recipient, channel_id, deposit } => match other {
                GatewayCall::IssueItem {
                    contract: other_contract,
                    recipient: other_recipient,
                    channel_id: other_channel,
                    deposit: other_deposit,
                } => *contract == *other_contract && *recipient == *other_recipient && *channel_id
                    == *other_channel && *deposit == *other_deposit,
                _ => false,
            },
            GatewayCall::CheckRegistration {
                contract,
                recipient,
                amount,
                attached_deposit,
            } => match other {
                GatewayCall::CheckRegistration {
                    contract: other_contract,
                    recipient: other_recipient,
                    amount: other_amount,
                    attached_deposit: other_deposit,
                } => *contract == *other_contract && *recipient == *other_recipient && *amount
                    == *other_amount && *attached_deposit == *other_deposit,
                _ => false,
            },
            GatewayCall::Register { contract, recipient, amount, deposit } => match other {
                GatewayCall::Register {
                    contract: other_contract,
                    recipient: other_recipient,
                    amount: other_amount,
                    deposit: other_deposit,
                } => *contract == *other_contract && *recipient == *other_recipient && *amount
                    == *other_amount && *deposit == *other_deposit,
                _ => false,
            },
            GatewayCall::TransferBalance { contract, recipient, amount } => match other {
                GatewayCall::TransferBalance {
                    contract: other_contract,
                    recipient: other_recipient,
                    amount: other_amount,
                } => *contract == *other_contract && *recipient == *other_recipient && *amount
                    == *other_amount,
                _ => false,
            },
        }
    }
}

impl vstd::std_specs::cmp::PartialEqSpecImpl for GatewayCall {
    open spec fn obeys_eq_spec() -> bool {
        true
    }

    open spec fn eq_spec(&self, other: &Self) -> bool {
        self@ == other@
    }
}

/// How a submitted call resolved: with the bytes that the contract
/// returned, or in failure.
#[derive(Debug)]
pub enum Outcome {
    Success(Vec<u8>),
    Failure,
}

/// View of an [`Outcome`].
pub enum OutcomeView {
    Success(Seq<u8>),
    Failure,
}

impl View for Outcome {
    type V = OutcomeView;

    open spec fn view(&self) -> OutcomeView {
        match *self {
            Outcome::Success(bytes) => OutcomeView::Success(bytes@),
            Outcome::Failure => OutcomeView::Failure,
        }
    }
}

/// How a flow ended whose last call succeeded.
#[derive(Clone, Copy, Debug, PartialEq, Eq, Structural)]
pub enum Settlement {
    /// The reward event at `record_index` and the donor are now paid.
    Settled { record_index: usize },
    /// The donor had no unpaid reward event for the call to settle; the
    /// ledger is as it was.
    NoMatch,
}

/// The settlement that goes with the position of the settled event.
pub open spec fn settlement_of(settled: Option<int>) -> Settlement {
    match settled {
        Some(k) => Settlement::Settled { record_index: k as usize },
        None => Settlement::NoMatch,
    }
}

/// The call that transfers `amount` of the token to `recipient`.
pub open spec fn transfer_call(ledger: LedgerView, recipient: Seq<char>, amount: u128)
    -> GatewayCallView {
    GatewayCallView::TransferBalance { contract: ledger.token_contract, recipient, amount }
}

/// Beginning the issuance flow for `signer`: the signer must be a donor who
/// has not been paid and who holds a collectible entitlement; the
/// collectible is issued through the channel of the first such entitlement.
pub open spec fn send_nft_reward_spec(ledger: LedgerView, signer: Seq<char>, attached: u128)
    -> Result<GatewayCallView, PayoutError> {
    match donor_index(ledger.donors, signer) {
        None => Err(PayoutError::DonorNotFound),
        Some(i) => {
            let donor = ledger.donors[i];
            if donor.paid {
                Err(PayoutError::AlreadyPaid)
            } else {
                match first_nft(donor.reward_types) {
                    None => Err(PayoutError::NoNftReward),
                    Some(slot) => Ok(
                        GatewayCallView::IssueItem {
                            contract: ledger.nft_contract,
                            recipient: signer,
                            channel_id: donor.reward_types[slot]->channel_id,
                            deposit: attached,
                        },
                    ),
                }
            }
        },
    }
}

/// Beginning the transfer flow for `signer`: the signer must be a donor who
/// has not been paid, who holds a token entitlement and who has accrued a
/// reward; the flow starts by asking whether the signer is registered.
pub open spec fn send_token_reward_spec(ledger: LedgerView, signer: Seq<char>, attached: u128)
    -> Result<GatewayCallView, PayoutError> {
    match donor_index(ledger.donors, signer) {
        None => Err(PayoutError::DonorNotFound),
        Some(i) => {
            let donor = ledger.donors[i];
            if donor.paid {
                Err(PayoutError::AlreadyPaid)
            } else if !donor.reward_types.contains(RewardTypeView::Token) {
                Err(PayoutError::NoTokenReward)
            } else if donor.airdrop_amount == 0 {
                Err(PayoutError::NothingToPayout)
            } else {
                Ok(
                    GatewayCallView::CheckRegistration {
                        contract: ledger.token_contract,
                        recipient: signer,
                        amount: donor.airdrop_amount,
                        attached_deposit: attached,
                    },
                )
            }
        },
    }
}

/// What follows the answer to the registration check, read as JSON: a
/// document other than `null` means registered, and the transfer follows;
/// `null` means not registered, and the registration follows if the attached
/// deposit covers it.
pub open spec fn storage_check_spec(
    ledger: LedgerView,
    signer: Seq<char>,
    amount: u128,
    attached: u128,
    reading: Option<bool>,
) -> Result<GatewayCallView, PayoutError> {
    match reading {
        None => Err(PayoutError::MalformedStorageBalance),
        Some(false) => Ok(transfer_call(ledger, signer, amount)),
        Some(true) => if attached >= REGISTRATION_COST {
            Ok(
                GatewayCallView::Register {
                    contract: ledger.token_contract,
                    recipient: signer,
                    amount,
                    deposit: REGISTRATION_COST,
                },
            )
        } else {
            Err(PayoutError::InsufficientDeposit)
        },
    }
}

/// Resuming after the registration check.
pub open spec fn on_storage_check_spec(
    ledger: LedgerView,
    signer: Seq<char>,
    amount: u128,
    attached: u128,
    results_count: u64,
    outcome: OutcomeView,
) -> Result<GatewayCallView, PayoutError> {
    if results_count != 1 {
        Err(PayoutError::UnexpectedResultCount)
    } else {
        match outcome {
            OutcomeView::Failure => Err(PayoutError::StorageCheckFailed),
            OutcomeView::Success(bytes) => storage_check_spec(
                ledger,
                signer,
                amount,
                attached,
                json_null_reading(bytes),
            ),
        }
    }
}

/// Resuming after the registration.
pub open spec fn on_storage_deposit_spec(
    ledger: LedgerView,
    signer: Seq<char>,
    amount: u128,
    results_count: u64,
    outcome: OutcomeView,
) -> Result<GatewayCallView, PayoutError> {
    if results_count != 1 {
        Err(PayoutError::UnexpectedResultCount)
    } else {
        match outcome {
            OutcomeView::Failure => Err(PayoutError::StorageDepositFailed),
            OutcomeView::Success(_) => Ok(transfer_call(ledger, signer, amount)),
        }
    }
}

/// The text that names an issued item, given the bytes that the contract
/// returned: what they encode where they are valid UTF-8, else their lenient
/// reading.
pub open spec fn item_text(bytes: Seq<u8>) -> Seq<char> {
    if vstd::utf8::valid_utf8(bytes) {
        vstd::utf8::decode_utf8(bytes)
    } else {
        utf8_lossy(bytes)
    }
}

/// Resuming after the issuance: the donor must still be known and hold a
/// collectible entitlement; the issued item is named by the bytes that the
/// contract returned, read as text.
pub open spec fn on_nft_mint_spec(
    ledger: LedgerView,
    donor_id: Seq<char>,
    results_count: u64,
    outcome: OutcomeView,
) -> Result<(LedgerView, Option<int>), PayoutError> {
    if results_count != 1 {
        Err(PayoutError::UnexpectedResultCount)
    } else {
        match donor_index(ledger.donors, donor_id) {
            None => Err(PayoutError::DonorNotFound),
            Some(i) => if first_nft(ledger.donors[i].reward_types) is None {
                Err(PayoutError::NoNftReward)
            } else {
                match outcome {
                    OutcomeView::Failure => Err(PayoutError::MintFailed),
                    OutcomeView::Success(bytes) => complete_issuance_spec(
                        ledger,
                        donor_id,
                        item_text(bytes),
                    ),
                }
            },
        }
    }
}

/// Resuming after the transfer.
pub open spec fn on_token_transfer_spec(
    ledger: LedgerView,
    donor_id: Seq<char>,
    amount: u128,
    results_count: u64,
    outcome: OutcomeView,
) -> Result<(LedgerView, Option<int>), PayoutError> {
    if results_count != 1 {
        Err(PayoutError::UnexpectedResultCount)
    } else {
        match outcome {
            OutcomeView::Failure => Err(PayoutError::TransferFailed),
            OutcomeView::Success(_) => complete_transfer_spec(ledger, donor_id, amount),
        }
    }
}

} // verus!
