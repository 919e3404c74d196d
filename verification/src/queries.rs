//! Reading the ledger: one donor, pages of donors and of reward events, and
//! totals.

use vstd::prelude::*;
use crate::error::PayoutError;
use crate::ledger::DonorPayouts;
use crate::model::donor_index;
use crate::types::{
    contains_donation, donor_views, record_views, AirdropRecord, AirdropRecordView, DonationType,
    DonationTypeView, Donor, DonorView, PaginatedAirdropRecords, PaginatedDonors,
};

verus! {

/// The largest number of items on a page.
pub const MAX_PAGE_LIMIT: u64 = 100;

/// The page of at most `limit` items that starts at offset `start`.
pub open spec fn page<T>(items: Seq<T>, start: int, limit: int) -> Seq<T> {
    if 0 <= start < items.len() && limit > 0 {
        items.subrange(
            start,
            if start + limit < items.len() {
                start + limit
            } else {
                items.len() as int
            },
        )
    } else {
        Seq::empty()
    }
}

/// The number of items on a page of a list of `count` items.
pub open spec fn page_len(count: int, start: int, limit: int) -> int {
    let rest = if count - start > 0 {
        count - start
    } else {
        0
    };
    if limit < rest {
        limit
    } else {
        rest
    }
}

/// A page of `limit` items from offset `start` holds `min(limit, max(0, n -
/// start))` of the `n` items.
pub proof fn lemma_page_len<T>(items: Seq<T>, start: int, limit: int)
    requires
        0 <= start,
        0 < limit,
    ensures
        page(items, start, limit).len() == page_len(items.len() as int, start, limit),
{
}

/// What a new last item does to a page: it joins the page if it falls on
/// it, and changes nothing else.
pub proof fn lemma_page_push<T>(items: Seq<T>, item: T, start: int, limit: int)
    requires
        0 <= start,
        0 < limit,
    ensures
        page(items.push(item), start, limit) == if start <= items.len() < start + limit {
            page(items, start, limit).push(item)
        } else {
            page(items, start, limit)
        },
{
    if start <= items.len() < start + limit {
        assert(page(items.push(item), start, limit) =~= page(items, start, limit).push(item));
    } else {
        assert(page(items.push(item), start, limit) =~= page(items, start, limit));
    }
}

/// The donors that have contributed under `donation_type`, in ledger order.
pub open spec fn donors_with(donors: Seq<DonorView>, donation_type: DonationTypeView) -> Seq<
    DonorView,
>
    decreases donors.len(),
{
    if donors.len() == 0 {
        Seq::empty()
    } else if donors.last().donation_types.contains(donation_type) {
        donors_with(donors.drop_last(), donation_type).push(donors.last())
    } else {
        donors_with(donors.drop_last(), donation_type)
    }
}

/// The reward events logged under `donation_type`, in ledger order.
pub open spec fn records_with(records: Seq<AirdropRecordView>, donation_type: DonationTypeView)
    -> Seq<AirdropRecordView>
    decreases records.len(),
{
    if records.len() == 0 {
        Seq::empty()
    } else if records.last().donation_type == donation_type {
        records_with(records.drop_last(), donation_type).push(records.last())
    } else {
        records_with(records.drop_last(), donation_type)
    }
}

/// The sum of what the donors have donated who contributed to the project
/// `project_id`.
pub open spec fn project_donations(donors: Seq<DonorView>, project_id: Seq<char>) -> nat
    decreases donors.len(),
{
    if donors.len() == 0 {
        0
    } else if donors.last().donation_types.contains(DonationTypeView::Project { project_id }) {
        project_donations(donors.drop_last(), project_id) + donors.last().donation_amount as nat
    } else {
        project_donations(donors.drop_last(), project_id)
    }
}

/// The sum of the rewards logged for the project `project_id`.
pub open spec fn project_rewards(records: Seq<AirdropRecordView>, project_id: Seq<char>) -> nat
    decreases records.len(),
{
    if records.len() == 0 {
        0
    } else if records.last().donation_type == (DonationTypeView::Project { project_id }) {
        project_rewards(records.drop_last(), project_id) + records.last().amount as nat
    } else {
        project_rewards(records.drop_last(), project_id)
    }
}

/// The donations to a project among the first donors are no more than those
/// among all.
pub proof fn lemma_project_donations_grow(donors: Seq<DonorView>, project_id: Seq<char>, n: int)
    requires
        0 <= n <= donors.len(),
    ensures
        project_donations(donors.take(n), project_id) <= project_donations(donors, project_id),
    decreases donors.len(),
{
    if n == donors.len() {
        assert(donors.take(n) =~= donors);
    } else {
        assert(donors.take(n) =~= donors.drop_last().take(n));
        lemma_project_donations_grow(donors.drop_last(), project_id, n);
    }
}

/// The rewards of a project among the first reward events are no more than
/// those among all.
pub proof fn lemma_project_rewards_grow(
    records: Seq<AirdropRecordView>,
    project_id: Seq<char>,
    n: int,
)
    requires
        0 <= n <= records.len(),
    ensures
        project_rewards(records.take(n), project_id) <= project_rewards(records, project_id),
    decreases records.len(),
{
    if n == records.len() {
        assert(records.take(n) =~= records);
    } else {
        assert(records.take(n) =~= records.drop_last().take(n));
        lemma_project_rewards_grow(records.drop_last(), project_id, n);
    }
}

/// View of a [`PaginatedDonors`].
pub struct PaginatedDonorsView {
    pub donors: Seq<DonorView>,
    pub has_more: bool,
}

impl View for PaginatedDonors {
    type V = PaginatedDonorsView;

    open spec fn view(&self) -> PaginatedDonorsView {
        PaginatedDonorsView { donors: donor_views(self.donors@), has_more: self.has_more }
    }
}

/// View of a [`PaginatedAirdropRecords`].
pub struct PaginatedAirdropRecordsView {
    pub records: Seq<AirdropRecordView>,
    pub has_more: bool,
}

impl View for PaginatedAirdropRecords {
    type V = PaginatedAirdropRecordsView;

    open spec fn view(&self) -> PaginatedAirdropRecordsView {
        PaginatedAirdropRecordsView {
            records: record_views(self.records@),
            has_more: self.has_more,
        }
    }
}

/// The page of donors that a list of qualifying donors gives.
pub open spec fn donors_page(qualifying: Seq<DonorView>, start: u64, limit: u64) -> Result<
    PaginatedDonorsView,
    PayoutError,
> {
    if limit == 0 || limit > 100 {
        Err(PayoutError::LimitOutOfRange)
    } else {
        Ok(
            PaginatedDonorsView {
                donors: page(qualifying, start as int, limit as int),
                has_more: qualifying.len() > start + limit,
            },
        )
    }
}

/// The page of reward events that a list of qualifying events gives.
pub open spec fn records_page(qualifying: Seq<AirdropRecordView>, start: u64, limit: u64)
    -> Result<PaginatedAirdropRecordsView, PayoutError> {
    if limit == 0 || limit > 100 {
        Err(PayoutError::LimitOutOfRange)
    } else {
        Ok(
            PaginatedAirdropRecordsView {
                records: page(qualifying, start as int, limit as int),
                has_more: qualifying.len() > start + limit,
            },
        )
    }
}

/// Whether the item that comes after `seen` qualifying items falls on the
/// page of `limit` items from offset `start`.
fn on_page(seen: u64, start: u64, limit: u64) -> (r: bool)
    ensures
        r == (start <= seen < start + limit),
{
    seen >= start && seen - start < limit
}

/// Whether more than `start + limit` items qualify, of `count` that do.
fn more_after(count: u64, start: u64, limit: u64) -> (r: bool)
    ensures
        r == (count > start + limit),
{
    count > start && count - start > limit
}

impl DonorPayouts {
    /// A copy of the donor `wallet_id`, if the ledger has one.
    pub fn get_donor(&self, wallet_id: &String) -> (r: Option<Donor>)
        ensures
            match donor_index(self@.donors, wallet_id@) {
                Some(i) => r is Some && r->Some_0@ == self@.donors[i],
                None => r is None,
            },
    {
        match self.find_donor(wallet_id) {
            Some(i) => Some(self.donors[i].clone()),
            None => None,
        }
    }

    /// The page of at most `limit` donors from offset `start`, in ledger
    /// order, and whether donors follow it. `limit` must lie in `1..=100`.
    pub fn get_donors(&self, start: u64, limit: u64) -> (r: Result<PaginatedDonors, PayoutError>)
        ensures
            match donors_page(self@.donors, start, limit) {
                Ok(page) => r is Ok && r->Ok_0@ == page,
                Err(e) => r is Err && r->Err_0 == e,
            },
            r is Ok ==> r->Ok_0.donors@.len() == page_len(
                self@.donors.len() as int,
                start as int,
                limit as int,
            ),
    {
        if limit == 0 || limit > MAX_PAGE_LIMIT {
            return Err(PayoutError::LimitOutOfRange);
        }
        let n = self.donors.len();
        let mut donors: Vec<Donor> = Vec::new();
        let mut i: usize = 0;
        while i < n
            invariant
                i <= n,
                n == self.donors.len(),
                0 < limit <= 100,
                donor_views(donors@) == page(self@.donors.take(i as int), start as int, limit as int),
            decreases n - i,
        {
            proof {
                assert(self@.donors.take(i + 1) =~= self@.donors.take(i as int).push(
                    self@.donors[i as int],
                ));
                lemma_page_push(
                    self@.donors.take(i as int),
                    self@.donors[i as int],
                    start as int,
                    limit as int,
                );
            }
            if on_page(i as u64, start, limit) {
                let ghost before = donor_views(donors@);
                donors.push(self.donors[i].clone());
                assert(donor_views(donors@) =~= before.push(self@.donors[i as int]));
            }
            i += 1;
        }
        proof {
            assert(self@.donors.take(n as int) =~= self@.donors);
            lemma_page_len(self@.donors, start as int, limit as int);
        }
        Ok(PaginatedDonors { donors, has_more: more_after(n as u64, start, limit) })
    }

    /// The page of at most `limit` donors from offset `start` among those
    /// that have contributed under `donation_type`, in ledger order, and
    /// whether such donors follow it. `limit` must lie in `1..=100`.
    pub fn get_donors_by_donation_type(
        &self,
        donation_type: &DonationType,
        start: u64,
        limit: u64,
    ) -> (r: Result<PaginatedDonors, PayoutError>)
        ensures
            match donors_page(donors_with(self@.donors, donation_type@), start, limit) {
                Ok(page) => r is Ok && r->Ok_0@ == page,
                Err(e) => r is Err && r->Err_0 == e,
            },
            r is Ok ==> r->Ok_0.donors@.len() == page_len(
                donors_with(self@.donors, donation_type@).len() as int,
                start as int,
                limit as int,
            ),
    {
        if limit == 0 || limit > MAX_PAGE_LIMIT {
            return Err(PayoutError::LimitOutOfRange);
        }
        let n = self.donors.len();
        let mut donors: Vec<Donor> = Vec::new();
        let mut seen: u64 = 0;
        let mut i: usize = 0;
        while i < n
            invariant
                i <= n,
                n == self.donors.len(),
                0 < limit <= 100,
                seen <= i,
                seen == donors_with(self@.donors.take(i as int), donation_type@).len(),
                donor_views(donors@) == page(
                    donors_with(self@.donors.take(i as int), donation_type@),
                    start as int,
                    limit as int,
                ),
            decreases n - i,
        {
            proof {
                assert(self@.donors.take(i + 1).drop_last() =~= self@.donors.take(i as int));
                lemma_page_push(
                    donors_with(self@.donors.take(i as int), donation_type@),
                    self@.donors[i as int],
                    start as int,
                    limit as int,
                );
            }
            if contains_donation(&self.donors[i].donation_types, donation_type) {
                if on_page(seen, start, limit) {
                    let ghost before = donor_views(donors@);
                    donors.push(self.donors[i].clone());
                    assert(donor_views(donors@) =~= before.push(self@.donors[i as int]));
                }
                seen += 1;
            }
            i += 1;
        }
        proof {
            assert(self@.donors.take(n as int) =~= self@.donors);
            lemma_page_len(
                donors_with(self@.donors, donation_type@),
                start as int,
                limit as int,
            );
        }
        Ok(PaginatedDonors { donors, has_more: more_after(seen, start, limit) })
    }

    /// The page of at most `limit` reward events from offset `start`, oldest
    /// first, and whether events follow it. `limit` must lie in `1..=100`.
    pub fn get_airdrop_records(&self, start: u64, limit: u64) -> (r: Result<
        PaginatedAirdropRecords,
        PayoutError,
    >)
        ensures
            match records_page(self@.records, start, limit) {
                Ok(page) => r is Ok && r->Ok_0@ == page,
                Err(e) => r is Err && r->Err_0 == e,
            },
            r is Ok ==> r->Ok_0.records@.len() == page_len(
                self@.records.len() as int,
                start as int,
                limit as int,
            ),
    {
        if limit == 0 || limit > MAX_PAGE_LIMIT {
            return Err(PayoutError::LimitOutOfRange);
        }
        let n = self.airdrop_records.len();
        let mut records: Vec<AirdropRecord> = Vec::new();
        let mut i: usize = 0;
        while i < n
            invariant
                i <= n,
                n == self.airdrop_records.len(),
                0 < limit <= 100,
                record_views(records@) == page(
                    self@.records.take(i as int),
                    start as int,
                    limit as int,
                ),
            decreases n - i,
        {
            proof {
                assert(self@.records.take(i + 1) =~= self@.records.take(i as int).push(
                    self@.records[i as int],
                ));
                lemma_page_push(
                    self@.records.take(i as int),
                    self@.records[i as int],
                    start as int,
                    limit as int,
                );
            }
            if on_page(i as u64, start, limit) {
                let ghost before = record_views(records@);
                records.push(self.airdrop_records[i].clone());
                assert(record_views(records@) =~= before.push(self@.records[i as int]));
            }
            i += 1;
        }
        proof {
            assert(self@.records.take(n as int) =~= self@.records);
            lemma_page_len(self@.records, start as int, limit as int);
        }
        Ok(PaginatedAirdropRecords { records, has_more: more_after(n as u64, start, limit) })
    }

    /// The page of at most `limit` reward events from offset `start` among
    /// those logged under `donation_type`, oldest first, and whether such
    /// events follow it. `limit` must lie in `1..=100`.
    pub fn get_airdrop_records_by_donation_type(
        &self,
        donation_type: &DonationType,
        start: u64,
        limit: u64,
    ) -> (r: Result<PaginatedAirdropRecords, PayoutError>)
        ensures
            match records_page(records_with(self@.records, donation_type@), start, limit) {
                Ok(page) => r is Ok && r->Ok_0@ == page,
                Err(e) => r is Err && r->Err_0 == e,
            },
            r is Ok ==> r->Ok_0.records@.len() == page_len(
                records_with(self@.records, donation_type@).len() as int,
                start as int,
                limit as int,
            ),
    {
        if limit == 0 || limit > MAX_PAGE_LIMIT {
            return Err(PayoutError::LimitOutOfRange);
        }
        let n = self.airdrop_records.len();
        let mut records: Vec<AirdropRecord> = Vec::new();
        let mut seen: u64 = 0;
        let mut i: usize = 0;
        while i < n
            invariant
                i <= n,
                n == self.airdrop_records.len(),
                0 < limit <= 100,
                seen <= i,
                seen == records_with(self@.records.take(i as int), donation_type@).len(),
                record_views(records@) == page(
                    records_with(self@.records.take(i as int), donation_type@),
                    start as int,
                    limit as int,
                ),
            decreases n - i,
        {
            proof {
                assert(self@.records.take(i + 1).drop_last() =~= self@.records.take(i as int));
                lemma_page_push(
                    records_with(self@.records.take(i as int), donation_type@),
                    self@.records[i as int],
                    start as int,
                    limit as int,
                );
            }
            if self.airdrop_records[i].donation_type == *donation_type {
                if on_page(seen, start, limit) {
                    let ghost before = record_views(records@);
                    records.push(self.airdrop_records[i].clone());
                    assert(record_views(records@) =~= before.push(self@.records[i as int]));
                }
                seen += 1;
            }
            i += 1;
        }
        proof {
            assert(self@.records.take(n as int) =~= self@.records);
            lemma_page_len(
                records_with(self@.records, donation_type@),
                start as int,
                limit as int,
            );
        }
        Ok(PaginatedAirdropRecords { records, has_more: more_after(seen, start, limit) })
    }

    /// What the donors of the project `project_id` have donated in all, and
    /// what has been logged as reward for the project in all. The call is
    /// refused where one of the two sums does not fit in 128 bits.
    pub fn get_project_rewards(&self, project_id: String) -> (r: Result<(u128, u128), PayoutError>)
        ensures
            r == if project_donations(self@.donors, project_id@) <= u128::MAX && project_rewards(
                self@.records,
                project_id@,
            ) <= u128::MAX {
                Ok::<(u128, u128), PayoutError>(
                    (
                        project_donations(self@.donors, project_id@) as u128,
                        project_rewards(self@.records, project_id@) as u128,
                    ),
                )
            } else {
                Err::<(u128, u128), PayoutError>(PayoutError::AmountOverflow)
            },
    {
        let ghost id = project_id@;
        let project = DonationType::Project { project_id: project_id.clone() };
        let mut donated: u128 = 0;
        let mut i: usize = 0;
        while i < self.donors.len()
            invariant
                i <= self.donors.len(),
                id == project_id@,
                project@ == (DonationTypeView::Project { project_id: id }),
                donated == project_donations(self@.donors.take(i as int), id),
            decreases self.donors.len() - i,
        {
            proof {
                let upto = self@.donors.take(i + 1);
                assert(upto.drop_last() =~= self@.donors.take(i as int));
                assert(upto.last() == self@.donors[i as int]);
                assert(project_donations(upto, id) == donated + if upto.last().donation_types.contains(
                    project@,
                ) {
                    upto.last().donation_amount as nat
                } else {
                    0
                });
                lemma_project_donations_grow(self@.donors, id, i + 1);
            }
            if contains_donation(&self.donors[i].donation_types, &project) {
                donated = match donated.checked_add(self.donors[i].donation_amount) {
                    Some(sum) => sum,
                    None => {
                        return Err(PayoutError::AmountOverflow);
                    },
                };
            }
            i += 1;
        }
        let mut rewarded: u128 = 0;
        let mut k: usize = 0;
        while k < self.airdrop_records.len()
            invariant
                k <= self.airdrop_records.len(),
                id == project_id@,
                project@ == (DonationTypeView::Project { project_id: id }),
                rewarded == project_rewards(self@.records.take(k as int), id),
            decreases self.airdrop_records.len() - k,
        {
            proof {
                let upto = self@.records.take(k + 1);
                assert(upto.drop_last() =~= self@.records.take(k as int));
                assert(upto.last() == self@.records[k as int]);
                assert(project_rewards(upto, id) == rewarded + if upto.last().donation_type
                    == project@ {
                    upto.last().amount as nat
                } else {
                    0
                });
                lemma_project_rewards_grow(self@.records, id, k + 1);
            }
            if self.airdrop_records[k].donation_type == project {
                rewarded = match rewarded.checked_add(self.airdrop_records[k].amount) {
                    Some(sum) => sum,
                    None => {
                        return Err(PayoutError::AmountOverflow);
                    },
                };
            }
            k += 1;
        }
        proof {
            assert(self@.donors.take(self.donors.len() as int) =~= self@.donors);
            assert(self@.records.take(self.airdrop_records.len() as int) =~= self@.records);
        }
        Ok((donated, rewarded))
    }

    /// The sum of the amounts of all reward events.
    pub fn get_total_distributed(&self) -> (total: u128)
        ensures
            total == self@.total_distributed,
    {
        self.total_distributed
    }

    /// The number of donors.
    pub fn get_donor_count(&self) -> (count: u64)
        ensures
            count == self@.donors.len(),
    {
        self.donors.len() as u64
    }
}

} // verus!
