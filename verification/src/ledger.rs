//! The ledger of donors and reward events, and the operations that record
//! contributions in it.

use vstd::prelude::*;
use crate::classify::{derive_reward_type, validate_donation_type};
use crate::error::PayoutError;
use crate::laws::{
    lemma_log_airdrop_keeps, lemma_mark_payout_complete_keeps, lemma_record_donation_keeps,
    lemma_select_nft_reward_keeps,
};
use crate::lemmas::lemma_donor_index_facts;
use crate::model::{
    donor_index, donor_or_fresh, first_awaiting_payout, id_mask, ledger_wf, lemma_first_true_is,
    lemma_first_true_none, log_airdrop_spec, mark_payout_complete_spec, new_ledger, only_forward,
    payout_mask, record_donation_spec, select_nft_reward_spec, with_donor, with_paid,
    with_paid_donor, with_unique, LedgerView,
};
use crate::types::{
    contains_donation, contains_reward, donation_views, donor_views, record_views, reward_views,
    AirdropRecord, DonationType, Donor, RewardType,
};

verus! {

/// The ledger: every donor, every reward event, and the accounts of the
/// administrator and of the two contracts that pay rewards out.
pub struct DonorPayouts {
    /// The donors, in the order in which they were first recorded. The
    /// operations never record an identifier twice.
    pub donors: Vec<Donor>,
    /// The reward events, oldest first. Events are appended and marked as
    /// paid, never removed.
    pub airdrop_records: Vec<AirdropRecord>,
    /// The sum of the amounts of all reward events.
    pub total_distributed: u128,
    pub admin: String,
    pub potlock_nfts_contract: String,
    pub token_contract: String,
}

impl View for DonorPayouts {
    type V = LedgerView;

    open spec fn view(&self) -> LedgerView {
        LedgerView {
            donors: donor_views(self.donors@),
            records: record_views(self.airdrop_records@),
            total_distributed: self.total_distributed,
            admin: self.admin@,
            nft_contract: self.potlock_nfts_contract@,
            token_contract: self.token_contract@,
        }
    }
}

/// The text of an optional string.
pub open spec fn option_text(text: Option<String>) -> Option<Seq<char>> {
    match text {
        Some(s) => Some(s@),
        None => None,
    }
}

/// Appends `item` to `list` unless it already occurs there.
pub fn add_donation_type(list: &mut Vec<DonationType>, item: DonationType)
    ensures
        donation_views(final(list)@) == with_unique(donation_views(old(list)@), item@),
{
    if !contains_donation(list, &item) {
        list.push(item);
        assert(donation_views(list@) =~= donation_views(old(list)@).push(item@));
    }
}

/// Appends `item` to `list` unless it already occurs there.
pub fn add_reward_type(list: &mut Vec<RewardType>, item: RewardType)
    ensures
        reward_views(final(list)@) == with_unique(reward_views(old(list)@), item@),
{
    if !contains_reward(list, &item) {
        list.push(item);
        assert(reward_views(list@) =~= reward_views(old(list)@).push(item@));
    }
}

impl DonorPayouts {
    /// An empty ledger administered by `admin`. Where no contract is named,
    /// collectibles come from `potlock-nfts.testnet` and tokens from
    /// `token.testnet`.
    pub fn new(
        admin: String,
        potlock_nfts_contract: Option<String>,
        token_contract: Option<String>,
    ) -> (ledger: Self)
        ensures
            ledger@ == new_ledger(
                admin@,
                option_text(potlock_nfts_contract),
                option_text(token_contract),
            ),
            ledger_wf(ledger@),
    {
        let nft = match potlock_nfts_contract {
            Some(id) => id,
            None => "potlock-nfts.testnet".to_owned(),
        };
        let token = match token_contract {
            Some(id) => id,
            None => "token.testnet".to_owned(),
        };
        let ledger = DonorPayouts {
            donors: Vec::new(),
            airdrop_records: Vec::new(),
            total_distributed: 0,
            admin,
            potlock_nfts_contract: nft,
            token_contract: token,
        };
        assert(ledger@.donors =~= Seq::empty());
        assert(ledger@.records =~= Seq::empty());
        ledger
    }

    /// The position of the donor `id`.
    pub fn find_donor(&self, id: &String) -> (found: Option<usize>)
        ensures
            match found {
                Some(i) => i < self.donors.len() && donor_index(self@.donors, id@) == Some(
                    i as int,
                ),
                None => donor_index(self@.donors, id@) is None,
            },
    {
        let mut i: usize = 0;
        while i < self.donors.len()
            invariant
                i <= self.donors.len(),
                forall|j: int| 0 <= j < i ==> !id_mask(self@.donors, id@)[j],
            decreases self.donors.len() - i,
        {
            if self.donors[i].wallet_id == *id {
                proof {
                    lemma_first_true_is(id_mask(self@.donors, id@), i as int);
                }
                return Some(i);
            }
            i += 1;
        }
        proof {
            lemma_first_true_none(id_mask(self@.donors, id@));
        }
        None
    }

    /// A copy of the donor `id` as the ledger has it, or a donor of that
    /// identifier of whom nothing is recorded.
    pub fn donor_or_new(&self, id: &String) -> (donor: Donor)
        ensures
            donor@ == donor_or_fresh(self@.donors, id@),
    {
        match self.find_donor(id) {
            Some(i) => self.donors[i].clone(),
            None => {
                let donor = Donor {
                    wallet_id: id.clone(),
                    donation_amount: 0,
                    airdrop_amount: 0,
                    paid: false,
                    reward_types: Vec::new(),
                    donation_types: Vec::new(),
                };
                assert(donor@.reward_types =~= Seq::empty());
                assert(donor@.donation_types =~= Seq::empty());
                donor
            },
        }
    }

    /// Puts `donor` in the place of the donor of the same identifier, or at
    /// the end where the ledger has none.
    pub fn put_donor(&mut self, donor: Donor)
        ensures
            final(self)@ == (LedgerView {
                donors: with_donor(old(self)@.donors, donor@),
                ..old(self)@
            }),
    {
        let ghost before = self@.donors;
        match self.find_donor(&donor.wallet_id) {
            Some(i) => {
                self.donors.set(i, donor);
                assert(self@.donors =~= before.update(i as int, donor@));
            },
            None => {
                self.donors.push(donor);
                assert(self@.donors =~= before.push(donor@));
            },
        }
    }

    /// Logs a reward of `amount` for `recipient`, together with the
    /// `attached_deposit` that came with the call, at `timestamp`.
    ///
    /// Only the administrator may log. The contribution category must be
    /// valid. The reward is a token where `channel_id` is empty, else a
    /// collectible of that channel. The call appends one unpaid reward event,
    /// credits the recipient, whom it records as a donor if need be, and adds
    /// the amount to the total.
    pub fn log_airdrop(
        &mut self,
        caller: &String,
        attached_deposit: u128,
        timestamp: u64,
        recipient: String,
        channel_id: String,
        donation_type: DonationType,
        amount: u128,
    ) -> (r: Result<(), PayoutError>)
        ensures
            match log_airdrop_spec(
                old(self)@,
                caller@,
                attached_deposit,
                timestamp,
                recipient@,
                channel_id@,
                donation_type@,
                amount,
            ) {
                Ok(after) => r is Ok && final(self)@ == after,
                Err(e) => r == Err::<(), PayoutError>(e) && final(self)@ == old(self)@,
            },
            only_forward(old(self)@, final(self)@),
            ledger_wf(old(self)@) ==> ledger_wf(final(self)@),
    {
        proof {
            lemma_log_airdrop_keeps(
                self@,
                caller@,
                attached_deposit,
                timestamp,
                recipient@,
                channel_id@,
                donation_type@,
                amount,
            );
        }
        if *caller != self.admin {
            return Err(PayoutError::NotAdmin);
        }
        if let Err(e) = validate_donation_type(&donation_type) {
            return Err(e);
        }
        let mut donor = self.donor_or_new(&recipient);
        let credited = match donor.airdrop_amount.checked_add(amount) {
            Some(sum) => sum,
            None => {
                return Err(PayoutError::AmountOverflow);
            },
        };
        let donated = match donor.donation_amount.checked_add(attached_deposit) {
            Some(sum) => sum,
            None => {
                return Err(PayoutError::AmountOverflow);
            },
        };
        let total = match self.total_distributed.checked_add(amount) {
            Some(sum) => sum,
            None => {
                return Err(PayoutError::AmountOverflow);
            },
        };
        let reward_type = derive_reward_type(channel_id);
        let record = AirdropRecord {
            recipient,
            amount,
            timestamp,
            paid: false,
            reward_type: reward_type.clone(),
            donation_type: donation_type.clone(),
        };
        let ghost logged = record@;
        self.airdrop_records.push(record);
        assert(self@.records =~= old(self)@.records.push(logged));
        donor.airdrop_amount = credited;
        donor.donation_amount = donated;
        add_donation_type(&mut donor.donation_types, donation_type);
        add_reward_type(&mut donor.reward_types, reward_type);
        self.put_donor(donor);
        self.total_distributed = total;
        Ok(())
    }

    /// Records a donation of `attached_deposit` yoctoNEAR by `signer` under a
    /// contribution category.
    ///
    /// The deposit must not be zero and the category must be valid. The call
    /// adds the deposit to what the signer has donated, and records the
    /// signer as a donor if need be.
    pub fn record_donation(
        &mut self,
        signer: &String,
        attached_deposit: u128,
        donation_type: DonationType,
    ) -> (r: Result<(), PayoutError>)
        ensures
            match record_donation_spec(old(self)@, signer@, attached_deposit, donation_type@) {
                Ok(after) => r is Ok && final(self)@ == after,
                Err(e) => r == Err::<(), PayoutError>(e) && final(self)@ == old(self)@,
            },
            only_forward(old(self)@, final(self)@),
            ledger_wf(old(self)@) ==> ledger_wf(final(self)@),
    {
        proof {
            lemma_record_donation_keeps(self@, signer@, attached_deposit, donation_type@);
        }
        if attached_deposit == 0 {
            return Err(PayoutError::ZeroDeposit);
        }
        if let Err(e) = validate_donation_type(&donation_type) {
            return Err(e);
        }
        let mut donor = self.donor_or_new(signer);
        let donated = match donor.donation_amount.checked_add(attached_deposit) {
            Some(sum) => sum,
            None => {
                return Err(PayoutError::AmountOverflow);
            },
        };
        donor.donation_amount = donated;
        add_donation_type(&mut donor.donation_types, donation_type);
        self.put_donor(donor);
        Ok(())
    }

    /// Adds a collectible of `channel_id` to what `signer` is entitled to,
    /// under a contribution category.
    ///
    /// The signer must be a donor who holds a token entitlement and has not
    /// been paid, and the category must be valid.
    pub fn select_nft_reward(
        &mut self,
        signer: &String,
        channel_id: String,
        donation_type: DonationType,
    ) -> (r: Result<(), PayoutError>)
        ensures
            match select_nft_reward_spec(old(self)@, signer@, channel_id@, donation_type@) {
                Ok(after) => r is Ok && final(self)@ == after,
                Err(e) => r == Err::<(), PayoutError>(e) && final(self)@ == old(self)@,
            },
            only_forward(old(self)@, final(self)@),
            ledger_wf(old(self)@) ==> ledger_wf(final(self)@),
    {
        proof {
            lemma_select_nft_reward_keeps(self@, signer@, channel_id@, donation_type@);
            lemma_donor_index_facts(self@.donors, signer@);
        }
        let i = match self.find_donor(signer) {
            Some(i) => i,
            None => {
                return Err(PayoutError::DonorNotFound);
            },
        };
        if !contains_reward(&self.donors[i].reward_types, &RewardType::Token) {
            return Err(PayoutError::NoTokenReward);
        }
        if self.donors[i].paid {
            return Err(PayoutError::AlreadyPaid);
        }
        if let Err(e) = validate_donation_type(&donation_type) {
            return Err(e);
        }
        let mut donor = self.donors[i].clone();
        add_donation_type(&mut donor.donation_types, donation_type);
        add_reward_type(
            &mut donor.reward_types,
            RewardType::NFT { channel_id, token_id: String::new() },
        );
        self.put_donor(donor);
        Ok(())
    }

    /// The position of the oldest unpaid reward event of `id`.
    pub fn find_unpaid(&self, id: &String) -> (found: Option<usize>)
        ensures
            match found {
                Some(k) => k < self.airdrop_records.len() && first_awaiting_payout(
                    self@.records,
                    id@,
                ) == Some(k as int),
                None => first_awaiting_payout(self@.records, id@) is None,
            },
    {
        let mut k: usize = 0;
        while k < self.airdrop_records.len()
            invariant
                k <= self.airdrop_records.len(),
                forall|j: int| 0 <= j < k ==> !payout_mask(self@.records, id@)[j],
            decreases self.airdrop_records.len() - k,
        {
            if self.airdrop_records[k].recipient == *id && !self.airdrop_records[k].paid {
                proof {
                    lemma_first_true_is(payout_mask(self@.records, id@), k as int);
                }
                return Some(k);
            }
            k += 1;
        }
        proof {
            lemma_first_true_none(payout_mask(self@.records, id@));
        }
        None
    }

    /// Marks the donor `donor_id` as paid, and with it the oldest unpaid
    /// reward event of that donor, without any call to a contract.
    ///
    /// Only the administrator may do so, and only for a donor who has not
    /// been paid.
    pub fn mark_payout_complete(&mut self, caller: &String, donor_id: &String) -> (r: Result<
        (),
        PayoutError,
    >)
        ensures
            match mark_payout_complete_spec(old(self)@, caller@, donor_id@) {
                Ok(after) => r is Ok && final(self)@ == after,
                Err(e) => r == Err::<(), PayoutError>(e) && final(self)@ == old(self)@,
            },
            only_forward(old(self)@, final(self)@),
            ledger_wf(old(self)@) ==> ledger_wf(final(self)@),
    {
        proof {
            lemma_mark_payout_complete_keeps(self@, caller@, donor_id@);
        }
        if *caller != self.admin {
            return Err(PayoutError::NotAdmin);
        }
        let i = match self.find_donor(donor_id) {
            Some(i) => i,
            None => {
                return Err(PayoutError::DonorNotFound);
            },
        };
        if self.donors[i].paid {
            return Err(PayoutError::AlreadyPaid);
        }
        let unpaid = self.find_unpaid(donor_id);
        self.set_donor_paid(i);
        if let Some(k) = unpaid {
            self.set_record_paid(k);
        }
        Ok(())
    }

    /// Marks the donor at `i` as paid.
    pub(crate) fn set_donor_paid(&mut self, i: usize)
        requires
            i < old(self).donors.len(),
        ensures
            final(self)@ == (LedgerView {
                donors: with_paid_donor(old(self)@.donors, i as int),
                ..old(self)@
            }),
    {
        let ghost before = self@.donors;
        let mut donor = self.donors[i].clone();
        donor.paid = true;
        self.donors.set(i, donor);
        assert(self@.donors =~= with_paid_donor(before, i as int));
    }

    /// Marks the reward event at `k` as paid.
    pub(crate) fn set_record_paid(&mut self, k: usize)
        requires
            k < old(self).airdrop_records.len(),
        ensures
            final(self)@ == (LedgerView {
                records: with_paid(old(self)@.records, k as int),
                ..old(self)@
            }),
    {
        let ghost before = self@.records;
        let mut record = self.airdrop_records[k].clone();
        record.paid = true;
        self.airdrop_records.set(k, record);
        assert(self@.records =~= with_paid(before, k as int));
    }
}

} // verus!
