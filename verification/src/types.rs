//! The records that the ledger keeps, and their mathematical views.
//!
//! Account identifiers, channel identifiers and item identifiers are plain
//! strings here; a view replaces each string by its sequence of characters, so
//! that two values have the same view exactly when they are equal field by
//! field.

use vstd::prelude::*;

verus! {

/// The kind of reward a contribution entitles to.
#[derive(Debug)]
pub enum RewardType {
    /// A fungible token balance.
    Token,
    /// A collectible issued through a channel. `token_id` is empty until the
    /// item has been issued.
    NFT { channel_id: String, token_id: String },
}

/// View of a [`RewardType`].
pub enum RewardTypeView {
    Token,
    NFT { channel_id: Seq<char>, token_id: Seq<char> },
}

impl View for RewardType {
    type V = RewardTypeView;

    open spec fn view(&self) -> RewardTypeView {
        match *self {
            RewardType::Token => RewardTypeView::Token,
            RewardType::NFT { channel_id, token_id } => RewardTypeView::NFT {
                channel_id: channel_id@,
                token_id: token_id@,
            },
        }
    }
}

impl Clone for RewardType {
    fn clone(&self) -> (r: Self)
        ensures
            r@ == self@,
    {
        match self {
            RewardType::Token => RewardType::Token,
            RewardType::NFT { channel_id, token_id } => RewardType::NFT {
                channel_id: channel_id.clone(),
                token_id: token_id.clone(),
            },
        }
    }
}

impl PartialEq for RewardType {
    fn eq(&self, other: &Self) -> (r: bool) {
        match self {
            RewardType::Token => match other {
                RewardType::Token => true,
                RewardType::NFT { .. } => false,
            },
            RewardType::NFT { channel_id, token_id } => match other {
                RewardType::Token => false,
                RewardType::NFT { channel_id: other_channel, token_id: other_token } => {
                    *channel_id == *other_channel && *token_id == *other_token
                },
            },
        }
    }
}

impl vstd::std_specs::cmp::PartialEqSpecImpl for RewardType {
    open spec fn obeys_eq_spec() -> bool {
        true
    }

    open spec fn eq_spec(&self, other: &Self) -> bool {
        self@ == other@
    }
}

/// The category under which a contribution was made.
#[derive(Debug)]
pub enum DonationType {
    /// Funded through a pot; `pot_id` must be a well-formed account identifier.
    Pot { pot_id: String },
    /// Tagged with a campaign; `campaign_id` is at most 64 bytes long.
    Campaign { campaign_id: String },
    /// Given directly.
    Direct,
    /// Tagged with a project; `project_id` is not empty.
    Project { project_id: String },
}

/// View of a [`DonationType`].
pub enum DonationTypeView {
    Pot { pot_id: Seq<char> },
    Campaign { campaign_id: Seq<char> },
    Direct,
    Project { project_id: Seq<char> },
}

impl View for DonationType {
    type V = DonationTypeView;

    open spec fn view(&self) -> DonationTypeView {
        match *self {
            DonationType::Pot { pot_id } => DonationTypeView::Pot { pot_id: pot_id@ },
            DonationType::Campaign { campaign_id } => DonationTypeView::Campaign {
                campaign_id: campaign_id@,
            },
            DonationType::Direct => DonationTypeView::Direct,
            DonationType::Project { project_id } => DonationTypeView::Project {
                project_id: project_id@,
            },
        }
    }
}

impl Clone for DonationType {
    fn clone(&self) -> (r: Self)
        ensures
            r@ == self@,
    {
        match self {
            DonationType::Pot { pot_id } => DonationType::Pot { pot_id: pot_id.clone() },
            DonationType::Campaign { campaign_id } => DonationType::Campaign {
                campaign_id: campaign_id.clone(),
            },
            DonationType::Direct => DonationType::Direct,
            DonationType::Project { project_id } => DonationType::Project {
                project_id: project_id.clone(),
            },
        }
    }
}

impl PartialEq for DonationType {
    fn eq(&self, other: &Self) -> (r: bool) {
        match self {
            DonationType::Pot { pot_id } => match other {
                DonationType::Pot { pot_id: other_id } => *pot_id == *other_id,
                _ => false,
            },
            DonationType::Campaign { campaign_id } => match other {
                DonationType::Campaign { campaign_id: other_id } => *campaign_id == *other_id,
                _ => false,
            },
            DonationType::Direct => match other {
                DonationType::Direct => true,
                _ => false,
            },
            DonationType::Project { project_id } => match other {
                DonationType::Project { project_id: other_id } => *project_id == *other_id,
                _ => false,
            },
        }
    }
}

impl vstd::std_specs::cmp::PartialEqSpecImpl for DonationType {
    open spec fn obeys_eq_spec() -> bool {
        true
    }

    open spec fn eq_spec(&self, other: &Self) -> bool {
        self@ == other@
    }
}

/// One reward event: what a recipient was credited at one moment, and whether
/// it has been paid out.
pub struct AirdropRecord {
    pub recipient: String,
    pub amount: u128,
    pub timestamp: u64,
    pub paid: bool,
    pub reward_type: RewardType,
    pub donation_type: DonationType,
}

/// View of an [`AirdropRecord`].
pub struct AirdropRecordView {
    pub recipient: Seq<char>,
    pub amount: u128,
    pub timestamp: u64,
    pub paid: bool,
    pub reward_type: RewardTypeView,
    pub donation_type: DonationTypeView,
}

impl View for AirdropRecord {
    type V = AirdropRecordView;

    open spec fn view(&self) -> AirdropRecordView {
        AirdropRecordView {
            recipient: self.recipient@,
            amount: self.amount,
            timestamp: self.timestamp,
            paid: self.paid,
            reward_type: self.reward_type@,
            donation_type: self.donation_type@,
        }
    }
}

impl Clone for AirdropRecord {
    fn clone(&self) -> (r: Self)
        ensures
            r@ == self@,
    {
        AirdropRecord {
            recipient: self.recipient.clone(),
            amount: self.amount,
            timestamp: self.timestamp,
            paid: self.paid,
            reward_type: self.reward_type.clone(),
            donation_type: self.donation_type.clone(),
        }
    }
}

/// The aggregate kept for one donor.
pub struct Donor {
    pub wallet_id: String,
    /// Everything the donor has contributed, in yoctoNEAR.
    pub donation_amount: u128,
    /// Everything the donor has been credited as reward.
    pub airdrop_amount: u128,
    /// Set once a payout flow has completed for the donor.
    pub paid: bool,
    pub reward_types: Vec<RewardType>,
    pub donation_types: Vec<DonationType>,
}

/// View of a [`Donor`].
pub struct DonorView {
    pub wallet_id: Seq<char>,
    pub donation_amount: u128,
    pub airdrop_amount: u128,
    pub paid: bool,
    pub reward_types: Seq<RewardTypeView>,
    pub donation_types: Seq<DonationTypeView>,
}

impl View for Donor {
    type V = DonorView;

    open spec fn view(&self) -> DonorView {
        DonorView {
            wallet_id: self.wallet_id@,
            donation_amount: self.donation_amount,
            airdrop_amount: self.airdrop_amount,
            paid: self.paid,
            reward_types: reward_views(self.reward_types@),
            donation_types: donation_views(self.donation_types@),
        }
    }
}

impl Clone for Donor {
    fn clone(&self) -> (r: Self)
        ensures
            r@ == self@,
    {
        Donor {
            wallet_id: self.wallet_id.clone(),
            donation_amount: self.donation_amount,
            airdrop_amount: self.airdrop_amount,
            paid: self.paid,
            reward_types: clone_rewards(&self.reward_types),
            donation_types: clone_donations(&self.donation_types),
        }
    }
}

/// One page of reward events.
pub struct PaginatedAirdropRecords {
    pub records: Vec<AirdropRecord>,
    /// Whether qualifying records follow the page.
    pub has_more: bool,
}

/// One page of donors.
pub struct PaginatedDonors {
    pub donors: Vec<Donor>,
    /// Whether qualifying donors follow the page.
    pub has_more: bool,
}

/// The views of a sequence of reward events, element by element.
pub open spec fn record_views(s: Seq<AirdropRecord>) -> Seq<AirdropRecordView> {
    Seq::new(s.len(), |i: int| s[i]@)
}

/// The views of a sequence of donors, element by element.
pub open spec fn donor_views(s: Seq<Donor>) -> Seq<DonorView> {
    Seq::new(s.len(), |i: int| s[i]@)
}

/// The views of a sequence of reward kinds, element by element.
pub open spec fn reward_views(s: Seq<RewardType>) -> Seq<RewardTypeView> {
    Seq::new(s.len(), |i: int| s[i]@)
}

/// The views of a sequence of contribution categories, element by element.
pub open spec fn donation_views(s: Seq<DonationType>) -> Seq<DonationTypeView> {
    Seq::new(s.len(), |i: int| s[i]@)
}

/// Whether `wanted` occurs among `list`.
pub fn contains_reward(list: &Vec<RewardType>, wanted: &RewardType) -> (r: bool)
    ensures
        r == reward_views(list@).contains(wanted@),
{
    let mut i: usize = 0;
    while i < list.len()
        invariant
            i <= list.len(),
            forall|j: int| 0 <= j < i ==> reward_views(list@)[j] != wanted@,
        decreases list.len() - i,
    {
        if list[i] == *wanted {
            assert(reward_views(list@)[i as int] == wanted@);
            return true;
        }
        i += 1;
    }
    false
}

/// Whether `wanted` occurs among `list`.
pub fn contains_donation(list: &Vec<DonationType>, wanted: &DonationType) -> (r: bool)
    ensures
        r == donation_views(list@).contains(wanted@),
{
    let mut i: usize = 0;
    while i < list.len()
        invariant
            i <= list.len(),
            forall|j: int| 0 <= j < i ==> donation_views(list@)[j] != wanted@,
        decreases list.len() - i,
    {
        if list[i] == *wanted {
            assert(donation_views(list@)[i as int] == wanted@);
            return true;
        }
        i += 1;
    }
    false
}

/// A copy of a list of reward kinds.
pub fn clone_rewards(list: &Vec<RewardType>) -> (r: Vec<RewardType>)
    ensures
        reward_views(r@) == reward_views(list@),
{
    let mut out: Vec<RewardType> = Vec::new();
    let mut i: usize = 0;
    while i < list.len()
        invariant
            i <= list.len(),
            out.len() == i,
            forall|j: int| 0 <= j < i ==> out@[j]@ == list@[j]@,
        decreases list.len() - i,
    {
        out.push(list[i].clone());
        i += 1;
    }
    assert(reward_views(out@) =~= reward_views(list@));
    out
}

/// A copy of a list of contribution categories.
pub fn clone_donations(list: &Vec<DonationType>) -> (r: Vec<DonationType>)
    ensures
        donation_views(r@) == donation_views(list@),
{
    let mut out: Vec<DonationType> = Vec::new();
    let mut i: usize = 0;
    while i < list.len()
        invariant
            i <= list.len(),
            out.len() == i,
            forall|j: int| 0 <= j < i ==> out@[j]@ == list@[j]@,
        decreases list.len() - i,
    {
        out.push(list[i].clone());
        i += 1;
    }
    assert(donation_views(out@) =~= donation_views(list@));
    out
}

} // verus!
