//! The entry points and continuations of the two payout flows.
//!
//! None of these functions calls a contract. An entry point or a
//! continuation that is followed by a call returns that call; the last
//! continuation of a flow settles the ledger.

use vstd::prelude::*;
use crate::error::PayoutError;
use crate::flow::{
    on_nft_mint_spec, on_storage_check_spec, on_storage_deposit_spec, on_token_transfer_spec,
    send_nft_reward_spec, send_token_reward_spec, settlement_of, storage_check_spec,
    transfer_call, GatewayCall, Outcome, Settlement, REGISTRATION_COST,
};
use crate::host::{millinear_as_yocto, read_json_null, string_from_utf8_lossy};
use crate::laws::{lemma_complete_issuance_keeps, lemma_complete_transfer_keeps};
use crate::ledger::DonorPayouts;
use crate::model::{
    collectible_mask, complete_issuance_spec, complete_transfer_spec, first_awaiting_nft,
    first_awaiting_token, first_nft, ledger_wf, lemma_first_true_is, lemma_first_true_none,
    nft_mask, nft_settled, only_forward, token_mask, with_item,
};
use crate::types::{contains_reward, reward_views, RewardType, RewardTypeView};

verus! {

/// The deposit that registers an account with the token contract, in
/// yoctoNEAR.
pub fn registration_cost() -> (cost: u128)
    ensures
        cost == REGISTRATION_COST,
{
    millinear_as_yocto(1250)
}

/// The position of the first collectible among `rewards`.
pub fn find_first_nft(rewards: &Vec<RewardType>) -> (found: Option<usize>)
    ensures
        match found {
            Some(slot) => slot < rewards.len() && first_nft(reward_views(rewards@)) == Some(
                slot as int,
            ) && rewards@[slot as int] is NFT,
            None => first_nft(reward_views(rewards@)) is None,
        },
{
    let mut slot: usize = 0;
    while slot < rewards.len()
        invariant
            slot <= rewards.len(),
            forall|j: int| 0 <= j < slot ==> !collectible_mask(reward_views(rewards@))[j],
        decreases rewards.len() - slot,
    {
        if let RewardType::NFT { .. } = rewards[slot] {
            proof {
                lemma_first_true_is(collectible_mask(reward_views(rewards@)), slot as int);
            }
            return Some(slot);
        }
        slot += 1;
    }
    proof {
        lemma_first_true_none(collectible_mask(reward_views(rewards@)));
    }
    None
}

/// The channel of a reward kind; empty for a token.
pub fn channel_of(reward: &RewardType) -> (channel_id: String)
    ensures
        reward@ matches RewardTypeView::NFT { channel_id: c, .. } ==> channel_id@ == c,
        reward@ is Token ==> channel_id@ == Seq::<char>::empty(),
{
    match reward {
        RewardType::NFT { channel_id, .. } => channel_id.clone(),
        RewardType::Token => String::new(),
    }
}

/// A collectible with the item `token_id` issued for it: the same channel,
/// with that item. A token is copied as it is.
pub fn issue(reward: &RewardType, token_id: &String) -> (issued: RewardType)
    ensures
        issued@ == with_item(reward@, token_id@),
{
    match reward {
        RewardType::NFT { channel_id, .. } => RewardType::NFT {
            channel_id: channel_id.clone(),
            token_id: token_id.clone(),
        },
        RewardType::Token => RewardType::Token,
    }
}

impl DonorPayouts {
    /// Begins the issuance flow for `signer`, with `attached_deposit`
    /// yoctoNEAR attached: returns the call that issues the collectible.
    ///
    /// The signer must be a donor who has not been paid and who holds a
    /// collectible entitlement. The ledger does not change.
    pub fn send_nft_reward(&self, signer: String, attached_deposit: u128) -> (r: Result<
        GatewayCall,
        PayoutError,
    >)
        ensures
            match send_nft_reward_spec(self@, signer@, attached_deposit) {
                Ok(call) => r is Ok && r->Ok_0@ == call,
                Err(e) => r is Err && r->Err_0 == e,
            },
    {
        let i = match self.find_donor(&signer) {
            Some(i) => i,
            None => {
                return Err(PayoutError::DonorNotFound);
            },
        };
        if self.donors[i].paid {
            return Err(PayoutError::AlreadyPaid);
        }
        let slot = match find_first_nft(&self.donors[i].reward_types) {
            Some(slot) => slot,
            None => {
                return Err(PayoutError::NoNftReward);
            },
        };
        Ok(
            GatewayCall::IssueItem {
                contract: self.potlock_nfts_contract.clone(),
                recipient: signer,
                channel_id: channel_of(&self.donors[i].reward_types[slot]),
                deposit: attached_deposit,
            },
        )
    }

    /// Begins the transfer flow for `signer`, with `attached_deposit`
    /// yoctoNEAR attached: returns the call that asks whether the signer is
    /// registered to hold the token.
    ///
    /// The signer must be a donor who has not been paid, who holds a token
    /// entitlement and who has accrued a reward. The ledger does not change.
    pub fn send_token_reward(&self, signer: String, attached_deposit: u128) -> (r: Result<
        GatewayCall,
        PayoutError,
    >)
        ensures
            match send_token_reward_spec(self@, signer@, attached_deposit) {
                Ok(call) => r is Ok && r->Ok_0@ == call,
                Err(e) => r is Err && r->Err_0 == e,
            },
    {
        let i = match self.find_donor(&signer) {
            Some(i) => i,
            None => {
                return Err(PayoutError::DonorNotFound);
            },
        };
        if self.donors[i].paid {
            return Err(PayoutError::AlreadyPaid);
        }
        if !contains_reward(&self.donors[i].reward_types, &RewardType::Token) {
            return Err(PayoutError::NoTokenReward);
        }
        if self.donors[i].airdrop_amount == 0 {
            return Err(PayoutError::NothingToPayout);
        }
        Ok(
            GatewayCall::CheckRegistration {
                contract: self.token_contract.clone(),
                recipient: signer,
                amount: self.donors[i].airdrop_amount,
                attached_deposit,
            },
        )
    }

    /// The call that transfers `amount` of the token to `receiver_id`.
    pub fn perform_ft_transfer(&self, receiver_id: String, amount: u128) -> (call: GatewayCall)
        ensures
            call@ == transfer_call(self@, receiver_id@, amount),
    {
        GatewayCall::TransferBalance {
            contract: self.token_contract.clone(),
            recipient: receiver_id,
            amount,
        }
    }

    /// Decides what follows the registration check, given what the answer
    /// reads as: `None` where it is not JSON, `Some(true)` where it is
    /// `null`, `Some(false)` where it is any other document.
    pub fn after_storage_check(
        &self,
        signer: String,
        amount: u128,
        attached_deposit: u128,
        reading: Option<bool>,
    ) -> (r: Result<GatewayCall, PayoutError>)
        ensures
            match storage_check_spec(self@, signer@, amount, attached_deposit, reading) {
                Ok(call) => r is Ok && r->Ok_0@ == call,
                Err(e) => r is Err && r->Err_0 == e,
            },
    {
        match reading {
            None => Err(PayoutError::MalformedStorageBalance),
            Some(false) => Ok(self.perform_ft_transfer(signer, amount)),
            Some(true) => {
                let cost = registration_cost();
                if attached_deposit >= cost {
                    Ok(
                        GatewayCall::Register {
                            contract: self.token_contract.clone(),
                            recipient: signer,
                            amount,
                            deposit: cost,
                        },
                    )
                } else {
                    Err(PayoutError::InsufficientDeposit)
                }
            },
        }
    }

    /// Resumes the transfer flow after the registration check.
    ///
    /// Exactly one result must have arrived. A failed check ends the flow. A
    /// registered signer is sent the transfer next; one who is not is
    /// registered first, if `attached_deposit` covers it. The ledger does not
    /// change.
    pub fn on_storage_check_callback(
        &self,
        signer: String,
        amount: u128,
        attached_deposit: u128,
        results_count: u64,
        outcome: Outcome,
    ) -> (r: Result<GatewayCall, PayoutError>)
        ensures
            match on_storage_check_spec(
                self@,
                signer@,
                amount,
                attached_deposit,
                results_count,
                outcome@,
            ) {
                Ok(call) => r is Ok && r->Ok_0@ == call,
                Err(e) => r is Err && r->Err_0 == e,
            },
    {
        if results_count != 1 {
            return Err(PayoutError::UnexpectedResultCount);
        }
        match outcome {
            Outcome::Failure => Err(PayoutError::StorageCheckFailed),
            Outcome::Success(bytes) => {
                let reading = read_json_null(bytes.as_slice());
                self.after_storage_check(signer, amount, attached_deposit, reading)
            },
        }
    }

    /// Resumes the transfer flow after the registration.
    ///
    /// Exactly one result must have arrived. A failed registration ends the
    /// flow; after a successful one the transfer follows. The ledger does not
    /// change.
    pub fn on_storage_deposit_callback(
        &self,
        signer: String,
        amount: u128,
        results_count: u64,
        outcome: Outcome,
    ) -> (r: Result<GatewayCall, PayoutError>)
        ensures
            match on_storage_deposit_spec(self@, signer@, amount, results_count, outcome@) {
                Ok(call) => r is Ok && r->Ok_0@ == call,
                Err(e) => r is Err && r->Err_0 == e,
            },
    {
        if results_count != 1 {
            return Err(PayoutError::UnexpectedResultCount);
        }
        match outcome {
            Outcome::Failure => Err(PayoutError::StorageDepositFailed),
            Outcome::Success(_) => Ok(self.perform_ft_transfer(signer, amount)),
        }
    }

    /// The position of the oldest unpaid collectible reward of `id`.
    pub fn find_unpaid_nft(&self, id: &String) -> (found: Option<usize>)
        ensures
            match found {
                Some(k) => k < self.airdrop_records.len() && first_awaiting_nft(
                    self@.records,
                    id@,
                ) == Some(k as int),
                None => first_awaiting_nft(self@.records, id@) is None,
            },
    {
        let mut k: usize = 0;
        while k < self.airdrop_records.len()
            invariant
                k <= self.airdrop_records.len(),
                forall|j: int| 0 <= j < k ==> !nft_mask(self@.records, id@)[j],
            decreases self.airdrop_records.len() - k,
        {
            let record = &self.airdrop_records[k];
            if record.recipient == *id && !record.paid {
                if let RewardType::NFT { .. } = record.reward_type {
                    proof {
                        lemma_first_true_is(nft_mask(self@.records, id@), k as int);
                    }
                    return Some(k);
                }
            }
            k += 1;
        }
        proof {
            lemma_first_true_none(nft_mask(self@.records, id@));
        }
        None
    }

    /// The position of the oldest unpaid token reward of `id` over exactly
    /// `amount`.
    pub fn find_unpaid_token(&self, id: &String, amount: u128) -> (found: Option<usize>)
        ensures
            match found {
                Some(k) => k < self.airdrop_records.len() && first_awaiting_token(
                    self@.records,
                    id@,
                    amount,
                ) == Some(k as int),
                None => first_awaiting_token(self@.records, id@, amount) is None,
            },
    {
        let mut k: usize = 0;
        while k < self.airdrop_records.len()
            invariant
                k <= self.airdrop_records.len(),
                forall|j: int| 0 <= j < k ==> !token_mask(self@.records, id@, amount)[j],
            decreases self.airdrop_records.len() - k,
        {
            let record = &self.airdrop_records[k];
            if record.recipient == *id && record.amount == amount && !record.paid {
                if let RewardType::Token = record.reward_type {
                    proof {
                        lemma_first_true_is(token_mask(self@.records, id@, amount), k as int);
                    }
                    return Some(k);
                }
            }
            k += 1;
        }
        proof {
            lemma_first_true_none(token_mask(self@.records, id@, amount));
        }
        None
    }

    /// Settles an issuance: the collectible `token_id` has been issued to
    /// `donor_id`.
    ///
    /// The oldest unpaid collectible reward of the donor is marked as paid
    /// and given the item, the donor's first collectible entitlement is given
    /// the item too, and the donor is marked as paid. The reward event keeps
    /// the channel it was logged with and the entitlement keeps its own, also
    /// where the two differ; of the event nothing changes but the item and
    /// the payment. Where the donor has no unpaid collectible reward, nothing
    /// changes.
    pub fn complete_issuance(&mut self, donor_id: &String, token_id: String) -> (r: Result<
        Settlement,
        PayoutError,
    >)
        ensures
            match complete_issuance_spec(old(self)@, donor_id@, token_id@) {
                Ok((after, settled)) => r == Ok::<Settlement, PayoutError>(settlement_of(settled))
                    && final(self)@ == after,
                Err(e) => r == Err::<Settlement, PayoutError>(e) && final(self)@ == old(self)@,
            },
            only_forward(old(self)@, final(self)@),
            ledger_wf(old(self)@) ==> ledger_wf(final(self)@),
    {
        proof {
            lemma_complete_issuance_keeps(self@, donor_id@, token_id@);
        }
        let i = match self.find_donor(donor_id) {
            Some(i) => i,
            None => {
                return Err(PayoutError::DonorNotFound);
            },
        };
        let slot = match find_first_nft(&self.donors[i].reward_types) {
            Some(slot) => slot,
            None => {
                return Err(PayoutError::NoNftReward);
            },
        };
        let k = match self.find_unpaid_nft(donor_id) {
            Some(k) => k,
            None => {
                return Ok(Settlement::NoMatch);
            },
        };
        let ghost before = self@;

        let mut record = self.airdrop_records[k].clone();
        record.reward_type = issue(&record.reward_type, &token_id);
        record.paid = true;
        self.airdrop_records.set(k, record);

        let mut donor = self.donors[i].clone();
        let entitlement = issue(&donor.reward_types[slot], &token_id);
        donor.reward_types.set(slot, entitlement);
        donor.paid = true;
        assert(donor@.reward_types =~= before.donors[i as int].reward_types.update(
            slot as int,
            with_item(before.donors[i as int].reward_types[slot as int], token_id@),
        ));
        self.donors.set(i, donor);

        proof {
            let after = nft_settled(before, i as int, k as int, slot as int, token_id@);
            assert(self@.records =~= after.records);
            assert(self@.donors =~= after.donors);
        }
        Ok(Settlement::Settled { record_index: k })
    }

    /// Resumes the issuance flow after the collectible was, or was not,
    /// issued to `donor_id`.
    ///
    /// Exactly one result must have arrived, and the donor must be known and
    /// hold a collectible entitlement. A failed issuance ends the flow and
    /// leaves the ledger as it was. After a successful one the returned
    /// bytes, read as text, name the item, and the ledger is settled as
    /// [`DonorPayouts::complete_issuance`] says.
    pub fn on_nft_mint_callback(&mut self, donor_id: String, results_count: u64, outcome: Outcome)
        -> (r: Result<Settlement, PayoutError>)
        ensures
            match on_nft_mint_spec(old(self)@, donor_id@, results_count, outcome@) {
                Ok((after, settled)) => r == Ok::<Settlement, PayoutError>(settlement_of(settled))
                    && final(self)@ == after,
                Err(e) => r == Err::<Settlement, PayoutError>(e) && final(self)@ == old(self)@,
            },
            only_forward(old(self)@, final(self)@),
            ledger_wf(old(self)@) ==> ledger_wf(final(self)@),
    {
        if results_count != 1 {
            return Err(PayoutError::UnexpectedResultCount);
        }
        let i = match self.find_donor(&donor_id) {
            Some(i) => i,
            None => {
                return Err(PayoutError::DonorNotFound);
            },
        };
        if find_first_nft(&self.donors[i].reward_types).is_none() {
            return Err(PayoutError::NoNftReward);
        }
        match outcome {
            Outcome::Failure => Err(PayoutError::MintFailed),
            Outcome::Success(bytes) => {
                let token_id = string_from_utf8_lossy(bytes.as_slice());
                self.complete_issuance(&donor_id, token_id)
            },
        }
    }

    /// Settles a transfer: `amount` of the token has been transferred to
    /// `donor_id`.
    ///
    /// The oldest unpaid token reward of the donor over exactly that amount
    /// is marked as paid, and so is the donor. Where there is no such reward,
    /// nothing changes.
    pub fn complete_transfer(&mut self, donor_id: &String, amount: u128) -> (r: Result<
        Settlement,
        PayoutError,
    >)
        ensures
            match complete_transfer_spec(old(self)@, donor_id@, amount) {
                Ok((after, settled)) => r == Ok::<Settlement, PayoutError>(settlement_of(settled))
                    && final(self)@ == after,
                Err(e) => r == Err::<Settlement, PayoutError>(e) && final(self)@ == old(self)@,
            },
            only_forward(old(self)@, final(self)@),
            ledger_wf(old(self)@) ==> ledger_wf(final(self)@),
    {
        proof {
            lemma_complete_transfer_keeps(self@, donor_id@, amount);
        }
        let i = match self.find_donor(donor_id) {
            Some(i) => i,
            None => {
                return Err(PayoutError::DonorNotFound);
            },
        };
        let k = match self.find_unpaid_token(donor_id, amount) {
            Some(k) => k,
            None => {
                return Ok(Settlement::NoMatch);
            },
        };
        self.set_record_paid(k);
        self.set_donor_paid(i);
        Ok(Settlement::Settled { record_index: k })
    }

    /// Resumes the transfer flow after `amount` of the token was, or was
    /// not, transferred to `donor_id`.
    ///
    /// Exactly one result must have arrived. A failed transfer ends the flow
    /// and leaves the ledger as it was. After a successful one the ledger is
    /// settled as [`DonorPayouts::complete_transfer`] says.
    pub fn on_token_transfer_callback(
        &mut self,
        donor_id: String,
        amount: u128,
        results_count: u64,
        outcome: Outcome,
    ) -> (r: Result<Settlement, PayoutError>)
        ensures
            match on_token_transfer_spec(old(self)@, donor_id@, amount, results_count, outcome@) {
                Ok((after, settled)) => r == Ok::<Settlement, PayoutError>(settlement_of(settled))
                    && final(self)@ == after,
                Err(e) => r == Err::<Settlement, PayoutError>(e) && final(self)@ == old(self)@,
            },
            only_forward(old(self)@, final(self)@),
            ledger_wf(old(self)@) ==> ledger_wf(final(self)@),
    {
        if results_count != 1 {
            return Err(PayoutError::UnexpectedResultCount);
        }
        match outcome {
            Outcome::Failure => Err(PayoutError::TransferFailed),
            Outcome::Success(_) => self.complete_transfer(&donor_id, amount),
        }
    }
}

} // verus!
