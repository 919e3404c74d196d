use donor_payouts::{DonationType, DonorPayouts, Outcome, PayoutError};

fn name(index: usize) -> String {
    format!("donor{index}.near")
}

fn tagged(id: &str) -> DonationType {
    DonationType::Project { project_id: id.to_string() }
}

/// A ledger with `count` donors, each with one reward of its index as
/// amount; every third donor under project "p", the others given directly.
fn populated(count: usize) -> DonorPayouts {
    let admin = "admin.near".to_string();
    let mut ledger = DonorPayouts::new(admin.clone(), None, None);
    for i in 0..count {
        let donation_type = if i % 3 == 0 { tagged("p") } else { DonationType::Direct };
        ledger
            .log_airdrop(&admin, 10, i as u64, name(i), "".to_string(), donation_type, i as u128)
            .unwrap();
    }
    ledger
}

fn expected_len(count: u64, start: u64, limit: u64) -> usize {
    limit.min(count.saturating_sub(start)) as usize
}

#[test]
fn page_limit_must_lie_between_1_and_100() {
    let ledger = populated(3);
    for limit in [0, 101, u64::MAX] {
        assert_eq!(ledger.get_donors(0, limit).err(), Some(PayoutError::LimitOutOfRange));
        assert_eq!(ledger.get_airdrop_records(0, limit).err(), Some(PayoutError::LimitOutOfRange));
        assert_eq!(
            ledger.get_donors_by_donation_type(&DonationType::Direct, 0, limit).err(),
            Some(PayoutError::LimitOutOfRange)
        );
        assert_eq!(
            ledger.get_airdrop_records_by_donation_type(&DonationType::Direct, 0, limit).err(),
            Some(PayoutError::LimitOutOfRange)
        );
    }
    for limit in [1, 100] {
        assert!(ledger.get_donors(0, limit).is_ok());
        assert!(ledger.get_airdrop_records(0, limit).is_ok());
    }
}

#[test]
fn pages_of_donors_hold_what_the_offsets_say() {
    let ledger = populated(7);
    for start in [0u64, 1, 3, 6, 7, 8, u64::MAX] {
        for limit in [1u64, 2, 6, 7, 100] {
            let page = ledger.get_donors(start, limit).unwrap();
            assert_eq!(page.donors.len(), expected_len(7, start, limit));
            assert_eq!(page.has_more, (7u128) > start as u128 + limit as u128);
            for (offset, donor) in page.donors.iter().enumerate() {
                assert_eq!(donor.wallet_id, name(start as usize + offset));
            }
        }
    }
    let page = ledger.get_donors(2, 3).unwrap();
    assert_eq!(page.donors.len(), 3);
    assert!(page.has_more);
    assert_eq!(page.donors[0].airdrop_amount, 2);
    let page = ledger.get_donors(4, 3).unwrap();
    assert_eq!(page.donors.len(), 3);
    assert!(!page.has_more);
    let page = ledger.get_donors(5, 3).unwrap();
    assert_eq!(page.donors.len(), 2);
    assert!(!page.has_more);
}

#[test]
fn pages_of_records_hold_what_the_offsets_say() {
    let ledger = populated(5);
    for start in [0u64, 2, 4, 5, 9, u64::MAX - 1] {
        for limit in [1u64, 3, 5, 100] {
            let page = ledger.get_airdrop_records(start, limit).unwrap();
            assert_eq!(page.records.len(), expected_len(5, start, limit));
            assert_eq!(page.has_more, (5u128) > start as u128 + limit as u128);
            for (offset, record) in page.records.iter().enumerate() {
                assert_eq!(record.amount, start as u128 + offset as u128);
                assert_eq!(record.timestamp, start + offset as u64);
            }
        }
    }
}

#[test]
fn empty_ledger_has_empty_pages() {
    let ledger = populated(0);
    let page = ledger.get_donors(0, 100).unwrap();
    assert!(page.donors.is_empty());
    assert!(!page.has_more);
    let page = ledger.get_airdrop_records_by_donation_type(&DonationType::Direct, 0, 1).unwrap();
    assert!(page.records.is_empty());
    assert!(!page.has_more);
}

#[test]
fn filtered_pages_count_qualifying_items_only() {
    // donors 0, 3, 6, 9 contributed under the project
    let ledger = populated(10);
    let project = tagged("p");
    let qualifying = [0usize, 3, 6, 9];
    for start in [0u64, 1, 3, 4, 5] {
        for limit in [1u64, 2, 4, 100] {
            let donors = ledger.get_donors_by_donation_type(&project, start, limit).unwrap();
            let records =
                ledger.get_airdrop_records_by_donation_type(&project, start, limit).unwrap();
            let len = expected_len(4, start, limit);
            assert_eq!(donors.donors.len(), len);
            assert_eq!(records.records.len(), len);
            assert_eq!(donors.has_more, 4 > start + limit);
            assert_eq!(records.has_more, 4 > start + limit);
            for offset in 0..len {
                let index = qualifying[start as usize + offset];
                assert_eq!(donors.donors[offset].wallet_id, name(index));
                assert_eq!(records.records[offset].recipient, name(index));
                assert_eq!(records.records[offset].amount, index as u128);
            }
        }
    }
    let none = ledger.get_donors_by_donation_type(&tagged("q"), 0, 10).unwrap();
    assert!(none.donors.is_empty());
    assert!(!none.has_more);
}

#[test]
fn donor_qualifies_once_under_each_of_its_categories() {
    let admin = "admin.near".to_string();
    let mut ledger = populated(2);
    ledger.log_airdrop(&admin, 0, 0, name(1), "".to_string(), tagged("p"), 1).unwrap();
    ledger.log_airdrop(&admin, 0, 0, name(1), "".to_string(), tagged("p"), 1).unwrap();

    let donors = ledger.get_donors_by_donation_type(&tagged("p"), 0, 100).unwrap();
    assert_eq!(donors.donors.len(), 2);
    let direct = ledger.get_donors_by_donation_type(&DonationType::Direct, 0, 100).unwrap();
    assert_eq!(direct.donors.len(), 1);
    assert_eq!(direct.donors[0].wallet_id, name(1));

    let records = ledger.get_airdrop_records_by_donation_type(&tagged("p"), 1, 1).unwrap();
    assert_eq!(records.records.len(), 1);
    assert_eq!(records.records[0].recipient, name(1));
    assert!(records.has_more);
}

#[test]
fn project_totals_sum_donations_and_rewards() {
    let admin = "admin.near".to_string();
    let mut ledger = populated(7);
    // donors 0, 3, 6 are under "p" with 10 donated and rewards 0, 3, 6
    assert_eq!(ledger.get_project_rewards("p".to_string()), Ok((30, 9)));
    assert_eq!(ledger.get_project_rewards("q".to_string()), Ok((0, 0)));

    // a donor's whole donation counts, whatever it was donated under
    ledger.record_donation(&name(3), 5, DonationType::Direct).unwrap();
    // a reward counts under the category it was logged with
    ledger.log_airdrop(&admin, 1, 0, name(3), "".to_string(), DonationType::Direct, 100).unwrap();
    ledger.log_airdrop(&admin, 0, 0, name(1), "ch".to_string(), tagged("p"), 2).unwrap();
    assert_eq!(ledger.get_project_rewards("p".to_string()), Ok((30 + 5 + 1 + 10, 11)));
}

#[test]
fn project_totals_that_do_not_fit_are_refused() {
    let mut ledger = populated(0);
    ledger.record_donation(&name(1), u128::MAX, tagged("p")).unwrap();
    assert_eq!(ledger.get_project_rewards("p".to_string()), Ok((u128::MAX, 0)));
    ledger.record_donation(&name(2), 1, tagged("p")).unwrap();
    assert_eq!(ledger.get_project_rewards("p".to_string()), Err(PayoutError::AmountOverflow));
    assert_eq!(ledger.get_project_rewards("q".to_string()), Ok((0, 0)));
}

#[test]
fn single_donor_lookup_returns_a_copy() {
    let mut ledger = populated(3);
    let mut copy = ledger.get_donor(&name(2)).unwrap();
    assert_eq!(copy.wallet_id, name(2));
    assert_eq!(copy.airdrop_amount, 2);
    copy.paid = true;
    assert!(!ledger.get_donor(&name(2)).unwrap().paid);
    assert!(ledger.get_donor(&name(3)).is_none());
    assert_eq!(ledger.get_donor_count(), 3);
    assert_eq!(ledger.get_total_distributed(), 3);

    ledger.on_token_transfer_callback(name(2), 2, 1, Outcome::Success(Vec::new())).unwrap();
    assert!(ledger.get_donor(&name(2)).unwrap().paid);
    assert!(ledger.get_airdrop_records(2, 1).unwrap().records[0].paid);
}
