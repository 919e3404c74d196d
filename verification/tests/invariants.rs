use donor_payouts::{DonationType, DonorPayouts, Outcome, PayoutError, RewardType, Settlement};

fn id(index: u64) -> String {
    format!("acct{index}.near")
}

/// What the reward events of the ledger add up to for `wallet`.
fn accrued(ledger: &DonorPayouts, wallet: &str) -> u128 {
    ledger.airdrop_records.iter().filter(|r| r.recipient == wallet).map(|r| r.amount).sum()
}

fn assert_consistent(ledger: &DonorPayouts) {
    for (i, donor) in ledger.donors.iter().enumerate() {
        assert_eq!(donor.airdrop_amount, accrued(ledger, &donor.wallet_id), "{}", donor.wallet_id);
        for other in &ledger.donors[..i] {
            assert_ne!(other.wallet_id, donor.wallet_id);
        }
    }
    for record in &ledger.airdrop_records {
        assert!(ledger.donors.iter().any(|d| d.wallet_id == record.recipient));
    }
    let total: u128 = ledger.airdrop_records.iter().map(|r| r.amount).sum();
    assert_eq!(ledger.get_total_distributed(), total);
}

/// The identifiers and payment flags of donors and reward events.
fn snapshot(ledger: &DonorPayouts) -> (Vec<(String, bool)>, Vec<(String, u128, bool)>) {
    (
        ledger.donors.iter().map(|d| (d.wallet_id.clone(), d.paid)).collect(),
        ledger.airdrop_records.iter().map(|r| (r.recipient.clone(), r.amount, r.paid)).collect(),
    )
}

fn assert_only_forward(
    before: &(Vec<(String, bool)>, Vec<(String, u128, bool)>),
    ledger: &DonorPayouts,
) {
    let after = snapshot(ledger);
    assert!(before.0.len() <= after.0.len());
    assert!(before.1.len() <= after.1.len());
    for (b, a) in before.0.iter().zip(after.0.iter()) {
        assert_eq!(b.0, a.0);
        assert!(!b.1 || a.1);
    }
    for (b, a) in before.1.iter().zip(after.1.iter()) {
        assert_eq!((&b.0, b.1), (&a.0, a.1));
        assert!(!b.2 || a.2);
    }
}

/// Runs a fixed mix of operations, accepted and refused, and checks the
/// ledger after each of them.
#[test]
fn every_operation_keeps_the_ledger_consistent_and_moving_forward() {
    let admin = "admin.near".to_string();
    let mut ledger = DonorPayouts::new(admin.clone(), None, None);
    assert_consistent(&ledger);

    let mut seed: u64 = 0x9e37_79b9_7f4a_7c15;
    for step in 0..400u64 {
        seed = seed.wrapping_mul(6364136223846793005).wrapping_add(1442695040888963407);
        let pick = (seed >> 33) % 9;
        let who = id((seed >> 20) % 5);
        let amount = ((seed >> 8) % 4) as u128;
        let channel = if (seed >> 5) % 2 == 0 { String::new() } else { format!("ch{}", seed % 3) };
        let before = snapshot(&ledger);
        match pick {
            0 | 1 => {
                let caller = if seed % 7 == 0 { who.clone() } else { admin.clone() };
                let _ = ledger.log_airdrop(
                    &caller,
                    amount,
                    step,
                    who,
                    channel,
                    DonationType::Direct,
                    amount,
                );
            }
            2 => {
                let _ = ledger.record_donation(&who, amount, DonationType::Direct);
            }
            3 => {
                let _ = ledger.select_nft_reward(&who, channel, DonationType::Direct);
            }
            4 => {
                let _ = ledger.mark_payout_complete(&admin, &who);
            }
            5 => {
                let outcome = if seed % 3 == 0 {
                    Outcome::Failure
                } else {
                    Outcome::Success(format!("token-{step}").into_bytes())
                };
                let _ = ledger.on_nft_mint_callback(who, 1 + (seed % 5 == 0) as u64, outcome);
            }
            6 => {
                let outcome =
                    if seed % 3 == 0 { Outcome::Failure } else { Outcome::Success(Vec::new()) };
                let _ = ledger.on_token_transfer_callback(who, amount, 1, outcome);
            }
            7 => {
                let unchanged = snapshot(&ledger);
                let _ = ledger.send_nft_reward(who.clone(), amount);
                let _ = ledger.send_token_reward(who, amount);
                assert_eq!(unchanged, snapshot(&ledger));
            }
            _ => {
                let _ = ledger.complete_transfer(&who, amount);
            }
        }
        assert_consistent(&ledger);
        assert_only_forward(&before, &ledger);
    }
    assert!(ledger.airdrop_records.len() > 20);
    assert!(ledger.donors.iter().any(|d| d.paid));
    assert!(ledger.airdrop_records.iter().any(|r| r.paid));
}

#[test]
fn credit_equals_the_sum_of_logged_rewards() {
    let admin = "admin.near".to_string();
    let mut ledger = DonorPayouts::new(admin.clone(), None, None);
    for (who, amount) in [(1, 5u128), (2, 7), (1, 11), (3, 0), (1, 13)] {
        ledger
            .log_airdrop(&admin, 1, 0, id(who), "".to_string(), DonationType::Direct, amount)
            .unwrap();
    }
    assert_eq!(ledger.get_donor(&id(1)).unwrap().airdrop_amount, 29);
    assert_eq!(ledger.get_donor(&id(2)).unwrap().airdrop_amount, 7);
    assert_eq!(ledger.get_donor(&id(3)).unwrap().airdrop_amount, 0);
    assert_eq!(ledger.get_total_distributed(), 36);
    ledger.complete_transfer(&id(1), 11).unwrap();
    ledger.mark_payout_complete(&admin, &id(2)).unwrap();
    assert_eq!(ledger.get_donor(&id(1)).unwrap().airdrop_amount, 29);
    assert_eq!(ledger.get_donor(&id(2)).unwrap().airdrop_amount, 7);
    assert_eq!(ledger.get_total_distributed(), 36);
    assert_consistent(&ledger);
}

#[test]
fn refused_operations_change_nothing() {
    let admin = "admin.near".to_string();
    let mut ledger = DonorPayouts::new(admin.clone(), None, None);
    ledger.log_airdrop(&admin, 1, 0, id(1), "".to_string(), DonationType::Direct, 5).unwrap();
    ledger.log_airdrop(&admin, 1, 0, id(1), "ch".to_string(), DonationType::Direct, 5).unwrap();
    let before = snapshot(&ledger);
    let rewards = ledger.donors[0].reward_types.clone();

    assert!(ledger
        .log_airdrop(&id(1), 1, 0, id(1), "".to_string(), DonationType::Direct, 5)
        .is_err());
    assert!(ledger.record_donation(&id(1), 0, DonationType::Direct).is_err());
    assert!(ledger
        .select_nft_reward(
            &id(1),
            "x".to_string(),
            DonationType::Project { project_id: String::new() }
        )
        .is_err());
    assert!(ledger.mark_payout_complete(&id(1), &id(1)).is_err());
    assert!(ledger.on_nft_mint_callback(id(1), 0, Outcome::Success(b"t".to_vec())).is_err());
    assert!(ledger.on_nft_mint_callback(id(1), 1, Outcome::Failure).is_err());
    assert!(ledger.on_token_transfer_callback(id(1), 5, 1, Outcome::Failure).is_err());
    assert!(ledger.on_token_transfer_callback(id(2), 5, 1, Outcome::Success(vec![])).is_err());

    assert_eq!(before, snapshot(&ledger));
    assert_eq!(rewards, ledger.donors[0].reward_types);
    assert_eq!(ledger.donors[0].donation_amount, 2);
    assert_eq!(ledger.get_total_distributed(), 10);
}

#[test]
fn older_of_two_equal_token_rewards_is_settled_first() {
    let admin = "admin.near".to_string();
    let mut ledger = DonorPayouts::new(admin.clone(), None, None);
    // A at position 0, B at position 1
    ledger.log_airdrop(&admin, 0, 10, id(1), "".to_string(), DonationType::Direct, 8).unwrap();
    ledger.log_airdrop(&admin, 0, 20, id(1), "".to_string(), DonationType::Direct, 8).unwrap();

    assert_eq!(
        ledger.on_token_transfer_callback(id(1), 8, 1, Outcome::Success(Vec::new())),
        Ok(Settlement::Settled { record_index: 0 })
    );
    assert!(ledger.airdrop_records[0].paid);
    assert_eq!(ledger.airdrop_records[0].timestamp, 10);
    assert!(!ledger.airdrop_records[1].paid);

    assert_eq!(
        ledger.on_token_transfer_callback(id(1), 8, 1, Outcome::Success(Vec::new())),
        Ok(Settlement::Settled { record_index: 1 })
    );
    assert!(ledger.airdrop_records[1].paid);
}

#[test]
fn older_of_two_collectible_rewards_is_settled_first() {
    let admin = "admin.near".to_string();
    let mut ledger = DonorPayouts::new(admin.clone(), None, None);
    ledger.log_airdrop(&admin, 0, 10, id(1), "ch".to_string(), DonationType::Direct, 1).unwrap();
    ledger.log_airdrop(&admin, 0, 20, id(1), "ch".to_string(), DonationType::Direct, 1).unwrap();

    assert_eq!(
        ledger.complete_issuance(&id(1), "first".to_string()),
        Ok(Settlement::Settled { record_index: 0 })
    );
    assert_eq!(
        ledger.complete_issuance(&id(1), "second".to_string()),
        Ok(Settlement::Settled { record_index: 1 })
    );
    assert_eq!(
        ledger.airdrop_records[0].reward_type,
        RewardType::NFT { channel_id: "ch".to_string(), token_id: "first".to_string() }
    );
    assert_eq!(
        ledger.airdrop_records[1].reward_type,
        RewardType::NFT { channel_id: "ch".to_string(), token_id: "second".to_string() }
    );
    assert_eq!(
        ledger.donors[0].reward_types,
        vec![RewardType::NFT { channel_id: "ch".to_string(), token_id: "second".to_string() }]
    );
    assert_eq!(ledger.complete_issuance(&id(9), "t".to_string()), Err(PayoutError::DonorNotFound));
}
