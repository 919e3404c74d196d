use donor_payouts::{DonationType, DonorPayouts, PayoutError, RewardType};

fn account(index: usize) -> String {
    near_sdk::test_utils::accounts(index).to_string()
}

fn campaign(id: &str) -> DonationType {
    DonationType::Campaign { campaign_id: id.to_string() }
}

fn project(id: &str) -> DonationType {
    DonationType::Project { project_id: id.to_string() }
}

fn has_unissued_nft(rewards: &[RewardType], channel: &str) -> bool {
    rewards.iter().any(|r| {
        matches!(r, RewardType::NFT { channel_id, token_id } if channel_id == channel && token_id == "")
    })
}

#[test]
fn test_log_airdrop_multiple_donation_and_reward_types() {
    let admin = account(0);
    let mut contract = DonorPayouts::new(admin.clone(), None, None);

    contract
        .log_airdrop(&admin, 1000, 0, account(1), "".to_string(), campaign("campaign1"), 1)
        .unwrap();
    contract
        .log_airdrop(
            &admin,
            2000,
            0,
            account(1),
            "channel123".to_string(),
            DonationType::Pot { pot_id: account(2) },
            2,
        )
        .unwrap();

    let donor = contract.get_donor(&account(1)).unwrap();

    assert_eq!(donor.wallet_id, account(1));
    assert_eq!(donor.airdrop_amount, 3);
    assert_eq!(donor.donation_amount, 3000);
    assert_eq!(donor.paid, false);

    assert_eq!(donor.donation_types.len(), 2);
    assert!(donor.donation_types.contains(&campaign("campaign1")));
    assert!(donor.donation_types.contains(&DonationType::Pot { pot_id: account(2) }));

    assert_eq!(donor.reward_types.len(), 2);
    assert!(donor.reward_types.contains(&RewardType::Token));
    assert!(has_unissued_nft(&donor.reward_types, "channel123"));

    assert_eq!(contract.get_total_distributed(), 3);

    let records = contract.get_airdrop_records(0, 2).unwrap().records;
    assert_eq!(records.len(), 2);
    assert_eq!(records[0].recipient, account(1));
    assert_eq!(records[0].amount, 1);
    assert_eq!(records[1].recipient, account(1));
    assert_eq!(records[1].amount, 2);
}

#[test]
fn test_record_donation_multiple_types() {
    let signer = account(1);
    let mut contract = DonorPayouts::new(signer.clone(), None, None);

    contract.record_donation(&signer, 1000, DonationType::Direct).unwrap();
    contract.record_donation(&signer, 2000, project("project1")).unwrap();

    let donor = contract.get_donor(&account(1)).unwrap();

    assert_eq!(donor.donation_amount, 3000);
    assert_eq!(donor.donation_types.len(), 2);
    assert!(donor.donation_types.contains(&DonationType::Direct));
    assert!(donor.donation_types.contains(&project("project1")));
}

#[test]
fn test_select_nft_reward_adds_types() {
    let admin = account(0);
    let mut contract = DonorPayouts::new(admin.clone(), None, None);

    contract
        .log_airdrop(&admin, 1000, 0, account(1), "".to_string(), campaign("campaign1"), 1)
        .unwrap();

    contract
        .select_nft_reward(&account(1), "channel123".to_string(), DonationType::Direct)
        .unwrap();

    let donor = contract.get_donor(&account(1)).unwrap();

    assert_eq!(donor.donation_types.len(), 2);
    assert!(donor.donation_types.contains(&campaign("campaign1")));
    assert!(donor.donation_types.contains(&DonationType::Direct));

    assert_eq!(donor.reward_types.len(), 2);
    assert!(donor.reward_types.contains(&RewardType::Token));
    assert!(has_unissued_nft(&donor.reward_types, "channel123"));
}

#[test]
fn test_get_donors_by_donation_type() {
    let admin = account(0);
    let mut contract = DonorPayouts::new(admin.clone(), None, None);

    contract
        .log_airdrop(&admin, 1000, 0, account(1), "".to_string(), campaign("campaign1"), 1)
        .unwrap();
    contract
        .log_airdrop(&admin, 2000, 0, account(1), "channel123".to_string(), project("project1"), 1)
        .unwrap();
    contract
        .log_airdrop(&admin, 2000, 0, account(2), "".to_string(), project("project1"), 1)
        .unwrap();

    let result = contract.get_donors_by_donation_type(&campaign("campaign1"), 0, 1).unwrap();
    assert_eq!(result.donors.len(), 1);
    assert_eq!(result.donors[0].wallet_id, account(1));
    assert_eq!(result.donors[0].donation_amount, 3000);
    assert!(!result.has_more);

    let result = contract.get_donors_by_donation_type(&project("project1"), 0, 2).unwrap();
    assert_eq!(result.donors.len(), 2);
    assert_eq!(result.donors[0].wallet_id, account(1));
    assert_eq!(result.donors[1].wallet_id, account(2));
    assert!(!result.has_more);
}

#[test]
fn test_get_airdrop_records() {
    let admin = account(0);
    let mut contract = DonorPayouts::new(admin.clone(), None, None);

    contract
        .log_airdrop(&admin, 1000, 0, account(1), "".to_string(), DonationType::Direct, 1)
        .unwrap();
    contract
        .log_airdrop(
            &admin,
            1000,
            0,
            account(2),
            "channel123".to_string(),
            DonationType::Pot { pot_id: account(3) },
            1,
        )
        .unwrap();

    let result = contract.get_airdrop_records(0, 1).unwrap();
    assert_eq!(result.records.len(), 1);
    assert_eq!(result.records[0].recipient, account(1));
    assert!(result.has_more);

    let result = contract.get_airdrop_records(1, 1).unwrap();
    assert_eq!(result.records.len(), 1);
    assert!(!result.has_more);
}

#[test]
fn test_get_project_rewards() {
    let admin = account(0);
    let mut contract = DonorPayouts::new(admin.clone(), None, None);

    contract
        .log_airdrop(&admin, 1000, 0, account(1), "".to_string(), project("project1"), 1)
        .unwrap();
    contract
        .log_airdrop(&admin, 2000, 0, account(2), "".to_string(), project("project1"), 1)
        .unwrap();

    let (total_donations, total_airdropped) =
        contract.get_project_rewards("project1".to_string()).unwrap();
    assert_eq!(total_donations, 3000);
    assert_eq!(total_airdropped, 2);
}

#[test]
#[should_panic(expected = "Campaign ID must be 64 characters or less")]
fn test_log_airdrop_invalid_campaign_id() {
    let admin = account(0);
    let mut contract = DonorPayouts::new(admin.clone(), None, None);

    let long_campaign_id = "a".repeat(65);
    let refused = contract.log_airdrop(
        &admin,
        1000,
        0,
        account(1),
        "".to_string(),
        DonationType::Campaign { campaign_id: long_campaign_id },
        1,
    );
    assert!(contract.donors.is_empty());
    assert!(contract.airdrop_records.is_empty());
    if refused == Err(PayoutError::CampaignIdTooLong) {
        panic!("Campaign ID must be 64 characters or less");
    }
}

#[test]
#[should_panic(expected = "Donor not found")]
fn test_select_nft_reward_no_donor() {
    let mut contract = DonorPayouts::new(account(1), None, None);

    let refused =
        contract.select_nft_reward(&account(1), "channel123".to_string(), DonationType::Direct);
    if refused == Err(PayoutError::DonorNotFound) {
        panic!("Donor not found");
    }
}

#[test]
fn new_ledger_is_empty_and_names_the_default_contracts() {
    let contract = DonorPayouts::new(account(0), None, None);
    assert_eq!(contract.admin, account(0));
    assert_eq!(contract.potlock_nfts_contract, "potlock-nfts.testnet");
    assert_eq!(contract.token_contract, "token.testnet");
    assert_eq!(contract.get_donor_count(), 0);
    assert_eq!(contract.get_total_distributed(), 0);
    assert!(contract.get_donor(&account(1)).is_none());

    let named = DonorPayouts::new(
        account(0),
        Some("nfts.near".to_string()),
        Some("ft.near".to_string()),
    );
    assert_eq!(named.potlock_nfts_contract, "nfts.near");
    assert_eq!(named.token_contract, "ft.near");
}

#[test]
fn contribution_with_empty_channel_entitles_to_a_token() {
    let admin = account(0);
    let mut contract = DonorPayouts::new(admin.clone(), None, None);
    contract.log_airdrop(&admin, 1000, 5, account(1), "".to_string(), campaign("c1"), 1).unwrap();

    let donor = contract.get_donor(&account(1)).unwrap();
    assert_eq!(donor.reward_types, vec![RewardType::Token]);
    assert_eq!(donor.donation_types, vec![campaign("c1")]);
    assert_eq!(donor.donation_amount, 1000);
    assert_eq!(donor.airdrop_amount, 1);
    assert!(!donor.paid);

    assert_eq!(contract.airdrop_records.len(), 1);
    let record = &contract.airdrop_records[0];
    assert_eq!(record.recipient, account(1));
    assert_eq!(record.amount, 1);
    assert_eq!(record.timestamp, 5);
    assert!(!record.paid);
    assert_eq!(record.reward_type, RewardType::Token);
    assert_eq!(record.donation_type, campaign("c1"));
    assert_eq!(contract.get_donor_count(), 1);
}

#[test]
fn contribution_with_channel_adds_a_collectible_to_the_token() {
    let admin = account(0);
    let mut contract = DonorPayouts::new(admin.clone(), None, None);
    contract.log_airdrop(&admin, 1000, 0, account(1), "".to_string(), campaign("c1"), 1).unwrap();
    contract
        .log_airdrop(&admin, 1000, 0, account(1), "ch1".to_string(), campaign("c1"), 1)
        .unwrap();

    let donor = contract.get_donor(&account(1)).unwrap();
    assert_eq!(
        donor.reward_types,
        vec![
            RewardType::Token,
            RewardType::NFT { channel_id: "ch1".to_string(), token_id: "".to_string() },
        ]
    );
    assert_eq!(donor.donation_types, vec![campaign("c1")]);
    assert_eq!(donor.airdrop_amount, 2);
    assert_eq!(donor.donation_amount, 2000);
    assert_eq!(
        contract.airdrop_records[1].reward_type,
        RewardType::NFT { channel_id: "ch1".to_string(), token_id: "".to_string() }
    );
}

#[test]
fn contribution_with_channel_alone_entitles_to_the_collectible_only() {
    let admin = account(0);
    let mut contract = DonorPayouts::new(admin.clone(), None, None);
    contract
        .log_airdrop(&admin, 0, 0, account(1), "ch1".to_string(), DonationType::Direct, 4)
        .unwrap();
    let donor = contract.get_donor(&account(1)).unwrap();
    assert_eq!(
        donor.reward_types,
        vec![RewardType::NFT { channel_id: "ch1".to_string(), token_id: "".to_string() }]
    );
}

#[test]
fn only_the_administrator_logs_and_marks() {
    let admin = account(0);
    let mut contract = DonorPayouts::new(admin.clone(), None, None);
    assert_eq!(
        contract.log_airdrop(
            &account(1),
            1000,
            0,
            account(1),
            "".to_string(),
            DonationType::Direct,
            1
        ),
        Err(PayoutError::NotAdmin)
    );
    assert!(contract.donors.is_empty());
    assert!(contract.airdrop_records.is_empty());
    assert_eq!(contract.get_total_distributed(), 0);

    contract
        .log_airdrop(&admin, 1000, 0, account(1), "".to_string(), DonationType::Direct, 1)
        .unwrap();
    assert_eq!(
        contract.mark_payout_complete(&account(1), &account(1)),
        Err(PayoutError::NotAdmin)
    );
    assert!(!contract.donors[0].paid);
}

#[test]
fn categories_are_validated_before_anything_changes() {
    let admin = account(0);
    let mut contract = DonorPayouts::new(admin.clone(), None, None);

    let at_limit = "a".repeat(64);
    assert_eq!(
        contract.log_airdrop(&admin, 1, 0, account(1), "".to_string(), campaign(&at_limit), 1),
        Ok(())
    );
    let too_long = "a".repeat(65);
    assert_eq!(
        contract.log_airdrop(&admin, 1, 0, account(1), "".to_string(), campaign(&too_long), 1),
        Err(PayoutError::CampaignIdTooLong)
    );
    // Sixty-four bytes are counted, not sixty-four characters.
    let wide = "é".repeat(33);
    assert_eq!(
        contract.record_donation(&account(2), 1, campaign(&wide)),
        Err(PayoutError::CampaignIdTooLong)
    );
    assert_eq!(
        contract.record_donation(&account(2), 1, project("")),
        Err(PayoutError::EmptyProjectId)
    );
    assert_eq!(
        contract.select_nft_reward(&account(1), "ch".to_string(), project("")),
        Err(PayoutError::EmptyProjectId)
    );
    assert_eq!(contract.get_donor_count(), 1);
    assert_eq!(contract.airdrop_records.len(), 1);
    assert_eq!(contract.donors[0].donation_types.len(), 1);
}

#[test]
fn pot_identifiers_must_be_well_formed_accounts() {
    let mut contract = DonorPayouts::new(account(0), None, None);
    for good in ["aa", "a-a", "pot.near", "100", "a_b.c-d", &"a".repeat(64)] {
        assert_eq!(
            contract.record_donation(
                &account(1),
                1,
                DonationType::Pot { pot_id: good.to_string() }
            ),
            Ok(()),
            "{good}"
        );
    }
    for bad in ["", "a", "A.near", "a..b", ".ab", "ab.", "a b", "a-_b", "ü.near", &"a".repeat(65)]
    {
        assert_eq!(
            contract.record_donation(
                &account(1),
                1,
                DonationType::Pot { pot_id: bad.to_string() }
            ),
            Err(PayoutError::InvalidPotId),
            "{bad}"
        );
    }
    assert_eq!(contract.donors[0].donation_amount, 6);
    assert_eq!(contract.donors[0].donation_types.len(), 6);
}

#[test]
fn a_donation_needs_a_deposit() {
    let mut contract = DonorPayouts::new(account(0), None, None);
    assert_eq!(
        contract.record_donation(&account(1), 0, DonationType::Direct),
        Err(PayoutError::ZeroDeposit)
    );
    assert_eq!(contract.get_donor_count(), 0);
}

#[test]
fn a_donation_records_no_reward() {
    let mut contract = DonorPayouts::new(account(0), None, None);
    contract.record_donation(&account(1), 7, DonationType::Direct).unwrap();
    contract.record_donation(&account(1), 8, DonationType::Direct).unwrap();
    let donor = contract.get_donor(&account(1)).unwrap();
    assert_eq!(donor.donation_amount, 15);
    assert_eq!(donor.airdrop_amount, 0);
    assert!(donor.reward_types.is_empty());
    assert_eq!(donor.donation_types, vec![DonationType::Direct]);
    assert!(contract.airdrop_records.is_empty());
    assert_eq!(contract.get_total_distributed(), 0);
}

#[test]
fn sums_that_do_not_fit_are_refused() {
    let admin = account(0);
    let mut contract = DonorPayouts::new(admin.clone(), None, None);
    contract
        .log_airdrop(&admin, u128::MAX, 0, account(1), "".to_string(), DonationType::Direct, 5)
        .unwrap();
    // the donor's donations would overflow
    assert_eq!(
        contract.log_airdrop(&admin, 1, 0, account(1), "".to_string(), DonationType::Direct, 1),
        Err(PayoutError::AmountOverflow)
    );
    assert_eq!(
        contract.record_donation(&account(1), 1, DonationType::Direct),
        Err(PayoutError::AmountOverflow)
    );
    // the total would overflow, for another donor
    assert_eq!(
        contract.log_airdrop(
            &admin,
            0,
            0,
            account(2),
            "".to_string(),
            DonationType::Direct,
            u128::MAX - 4
        ),
        Err(PayoutError::AmountOverflow)
    );
    assert_eq!(contract.get_donor_count(), 1);
    assert_eq!(contract.airdrop_records.len(), 1);
    assert_eq!(contract.get_total_distributed(), 5);
    assert_eq!(contract.donors[0].donation_amount, u128::MAX);

    assert_eq!(
        contract.log_airdrop(
            &admin,
            0,
            0,
            account(2),
            "".to_string(),
            DonationType::Direct,
            u128::MAX - 5
        ),
        Ok(())
    );
    assert_eq!(contract.get_total_distributed(), u128::MAX);
}

#[test]
fn selecting_a_collectible_needs_an_unpaid_token_holder() {
    let admin = account(0);
    let mut contract = DonorPayouts::new(admin.clone(), None, None);
    contract
        .log_airdrop(&admin, 0, 0, account(1), "ch1".to_string(), DonationType::Direct, 1)
        .unwrap();
    assert_eq!(
        contract.select_nft_reward(&account(1), "ch2".to_string(), DonationType::Direct),
        Err(PayoutError::NoTokenReward)
    );
    contract
        .log_airdrop(&admin, 0, 0, account(1), "".to_string(), DonationType::Direct, 1)
        .unwrap();
    // selecting what is already held changes nothing
    contract.select_nft_reward(&account(1), "ch1".to_string(), DonationType::Direct).unwrap();
    assert_eq!(contract.donors[0].reward_types.len(), 2);
    assert_eq!(contract.donors[0].donation_types.len(), 1);

    contract.mark_payout_complete(&admin, &account(1)).unwrap();
    assert_eq!(
        contract.select_nft_reward(&account(1), "ch2".to_string(), DonationType::Direct),
        Err(PayoutError::AlreadyPaid)
    );
    assert_eq!(contract.donors[0].reward_types.len(), 2);
}

#[test]
fn marking_complete_pays_the_donor_and_the_oldest_unpaid_event() {
    let admin = account(0);
    let mut contract = DonorPayouts::new(admin.clone(), None, None);
    contract
        .log_airdrop(&admin, 0, 0, account(2), "".to_string(), DonationType::Direct, 9)
        .unwrap();
    contract
        .log_airdrop(&admin, 0, 0, account(1), "ch".to_string(), DonationType::Direct, 1)
        .unwrap();
    contract
        .log_airdrop(&admin, 0, 0, account(1), "".to_string(), DonationType::Direct, 2)
        .unwrap();

    assert_eq!(
        contract.mark_payout_complete(&admin, &account(3)),
        Err(PayoutError::DonorNotFound)
    );
    assert_eq!(contract.mark_payout_complete(&admin, &account(1)), Ok(()));

    assert!(!contract.donors[0].paid);
    assert!(contract.donors[1].paid);
    let paid: Vec<bool> = contract.airdrop_records.iter().map(|r| r.paid).collect();
    assert_eq!(paid, vec![false, true, false]);
    assert_eq!(
        contract.airdrop_records[1].reward_type,
        RewardType::NFT { channel_id: "ch".to_string(), token_id: "".to_string() }
    );
}

#[test]
fn marking_complete_twice_is_refused() {
    let admin = account(0);
    let mut contract = DonorPayouts::new(admin.clone(), None, None);
    contract
        .log_airdrop(&admin, 0, 0, account(1), "".to_string(), DonationType::Direct, 1)
        .unwrap();
    contract
        .log_airdrop(&admin, 0, 0, account(1), "".to_string(), DonationType::Direct, 1)
        .unwrap();
    assert_eq!(contract.mark_payout_complete(&admin, &account(1)), Ok(()));
    assert_eq!(
        contract.mark_payout_complete(&admin, &account(1)),
        Err(PayoutError::AlreadyPaid)
    );
    assert_eq!(PayoutError::AlreadyPaid.kind(), donor_payouts::ErrorKind::StatePrecondition);
    let paid: Vec<bool> = contract.airdrop_records.iter().map(|r| r.paid).collect();
    assert_eq!(paid, vec![true, false]);
}

#[test]
fn marking_complete_without_events_pays_the_donor_alone() {
    let admin = account(0);
    let mut contract = DonorPayouts::new(admin.clone(), None, None);
    contract.record_donation(&account(1), 3, DonationType::Direct).unwrap();
    assert_eq!(contract.mark_payout_complete(&admin, &account(1)), Ok(()));
    assert!(contract.donors[0].paid);
    assert!(contract.airdrop_records.is_empty());
}
