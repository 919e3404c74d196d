//! Validation of contribution categories, and the reward kind that a
//! contribution entitles to.

use vstd::prelude::*;
use crate::error::PayoutError;
use crate::host::{is_valid_account_id, well_formed_account_id};
use crate::types::{DonationType, DonationTypeView, RewardType, RewardTypeView};

verus! {

/// The longest campaign identifier, in bytes.
pub const MAX_CAMPAIGN_ID_LEN: usize = 64;

/// The number of bytes of `text` in UTF-8.
pub open spec fn byte_len(text: Seq<char>) -> nat {
    vstd::utf8::encode_utf8(text).len()
}

/// Why a contribution category is refused, if it is.
pub open spec fn donation_type_fault(donation_type: DonationTypeView) -> Option<PayoutError> {
    match donation_type {
        DonationTypeView::Campaign { campaign_id } => if byte_len(campaign_id) > 64 {
            Some(PayoutError::CampaignIdTooLong)
        } else {
            None
        },
        DonationTypeView::Project { project_id } => if project_id.len() == 0 {
            Some(PayoutError::EmptyProjectId)
        } else {
            None
        },
        DonationTypeView::Pot { pot_id } => if well_formed_account_id(
            vstd::utf8::encode_utf8(pot_id),
        ) {
            None
        } else {
            Some(PayoutError::InvalidPotId)
        },
        DonationTypeView::Direct => None,
    }
}

/// Checks a contribution category: a campaign identifier has at most 64
/// bytes, a project identifier is not empty, a pot identifier is a
/// well-formed account identifier.
pub fn validate_donation_type(donation_type: &DonationType) -> (r: Result<(), PayoutError>)
    ensures
        r == match donation_type_fault(donation_type@) {
            Some(e) => Err::<(), PayoutError>(e),
            None => Ok(()),
        },
{
    match donation_type {
        DonationType::Campaign { campaign_id } => {
            if campaign_id.as_str().as_bytes().len() > MAX_CAMPAIGN_ID_LEN {
                Err(PayoutError::CampaignIdTooLong)
            } else {
                Ok(())
            }
        },
        DonationType::Project { project_id } => {
            if project_id.as_str().is_empty() {
                Err(PayoutError::EmptyProjectId)
            } else {
                Ok(())
            }
        },
        DonationType::Pot { pot_id } => {
            if is_valid_account_id(pot_id.as_str().as_bytes()) {
                Ok(())
            } else {
                Err(PayoutError::InvalidPotId)
            }
        },
        DonationType::Direct => Ok(()),
    }
}

/// The reward kind that a channel identifier selects: a token where it is
/// empty, else a collectible of that channel that has not been issued yet.
pub open spec fn reward_for_channel(channel_id: Seq<char>) -> RewardTypeView {
    if channel_id.len() == 0 {
        RewardTypeView::Token
    } else {
        RewardTypeView::NFT { channel_id, token_id: Seq::empty() }
    }
}

/// Derives the reward kind from the channel identifier that a caller gave.
pub fn derive_reward_type(channel_id: String) -> (r: RewardType)
    ensures
        r@ == reward_for_channel(channel_id@),
{
    if channel_id.as_str().is_empty() {
        RewardType::Token
    } else {
        RewardType::NFT { channel_id, token_id: String::new() }
    }
}

} // verus!
