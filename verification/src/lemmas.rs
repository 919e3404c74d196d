//! Facts about sums of reward events and about the positions of donors, on
//! which the laws of the ledger rest.

use vstd::prelude::*;
use crate::model::{
    accrued, donor_index, id_mask, is_first_true, lemma_first_true_facts, lemma_first_true_is,
    lemma_first_true_none, total_amount, with_donor,
};
use crate::types::{AirdropRecordView, DonorView};

verus! {

/// A new reward event adds its amount to the total, and to what its
/// recipient has accrued.
pub proof fn lemma_sums_after_push(
    records: Seq<AirdropRecordView>,
    record: AirdropRecordView,
    id: Seq<char>,
)
    ensures
        accrued(records.push(record), id) == accrued(records, id) + (if record.recipient == id {
            record.amount as nat
        } else {
            0
        }),
        total_amount(records.push(record)) == total_amount(records) + record.amount,
{
    assert(records.push(record).drop_last() =~= records);
}

/// Reward events that agree in recipient and amount, position by position,
/// have the same sums.
pub proof fn lemma_sums_agree(
    before: Seq<AirdropRecordView>,
    after: Seq<AirdropRecordView>,
    id: Seq<char>,
)
    requires
        before.len() == after.len(),
        forall|k: int|
            0 <= k < before.len() ==> {
                &&& (#[trigger] after[k]).recipient == before[k].recipient
                &&& after[k].amount == before[k].amount
            },
    ensures
        accrued(after, id) == accrued(before, id),
        total_amount(after) == total_amount(before),
    decreases before.len(),
{
    if before.len() > 0 {
        let b = before.drop_last();
        let a = after.drop_last();
        assert forall|k: int| 0 <= k < b.len() implies {
            &&& (#[trigger] a[k]).recipient == b[k].recipient
            &&& a[k].amount == b[k].amount
        } by {
            assert(a[k] == after[k]);
        }
        lemma_sums_agree(b, a, id);
        assert(after.last() == after[after.len() - 1]);
    }
}

/// Who is named by no reward event has accrued nothing.
pub proof fn lemma_accrued_of_stranger(records: Seq<AirdropRecordView>, id: Seq<char>)
    requires
        forall|k: int| 0 <= k < records.len() ==> (#[trigger] records[k]).recipient != id,
    ensures
        accrued(records, id) == 0,
    decreases records.len(),
{
    if records.len() > 0 {
        let rest = records.drop_last();
        assert forall|k: int| 0 <= k < rest.len() implies (#[trigger] rest[k]).recipient != id by {
            assert(rest[k] == records[k]);
        }
        lemma_accrued_of_stranger(rest, id);
        assert(records.last() == records[records.len() - 1]);
    }
}

/// What is known of the position of a donor.
pub proof fn lemma_donor_index_facts(donors: Seq<DonorView>, id: Seq<char>)
    ensures
        match donor_index(donors, id) {
            Some(i) => {
                &&& 0 <= i < donors.len()
                &&& donors[i].wallet_id == id
                &&& forall|j: int| 0 <= j < i ==> (#[trigger] donors[j]).wallet_id != id
            },
            None => forall|j: int| 0 <= j < donors.len() ==> (#[trigger] donors[j]).wallet_id != id,
        },
{
    let mask = id_mask(donors, id);
    lemma_first_true_facts(mask);
    match donor_index(donors, id) {
        Some(i) => {
            assert forall|j: int| 0 <= j < i implies (#[trigger] donors[j]).wallet_id != id by {
                assert(!mask[j]);
            }
        },
        None => {
            assert forall|j: int| 0 <= j < donors.len() implies (#[trigger] donors[j]).wallet_id
                != id by {
                assert(!mask[j]);
            }
        },
    }
}

/// Donors that carry the same identifiers are found at the same positions.
pub proof fn lemma_donor_index_same_ids(
    before: Seq<DonorView>,
    after: Seq<DonorView>,
    id: Seq<char>,
)
    requires
        before.len() == after.len(),
        forall|j: int|
            0 <= j < before.len() ==> (#[trigger] after[j]).wallet_id == before[j].wallet_id,
    ensures
        donor_index(after, id) == donor_index(before, id),
{
    assert(id_mask(after, id) =~= id_mask(before, id));
}

/// A donor added at the end is found there if its identifier is new, and
/// moves no other.
pub proof fn lemma_donor_index_after_push(donors: Seq<DonorView>, donor: DonorView, id: Seq<char>)
    ensures
        donor_index(donors.push(donor), id) == match donor_index(donors, id) {
            Some(i) => Some(i),
            None => if donor.wallet_id == id {
                Some(donors.len() as int)
            } else {
                None
            },
        },
{
    let before = id_mask(donors, id);
    let after = id_mask(donors.push(donor), id);
    lemma_first_true_facts(before);
    assert(after.len() == before.len() + 1);
    assert forall|j: int| 0 <= j < before.len() implies after[j] == before[j] by {
        assert(donors.push(donor)[j] == donors[j]);
    }
    match donor_index(donors, id) {
        Some(i) => {
            assert(is_first_true(after, i)) by {
                assert forall|j: int| 0 <= j < i implies !after[j] by {
                    assert(!before[j]);
                }
            }
            lemma_first_true_is(after, i);
        },
        None => {
            let n = donors.len() as int;
            assert(donors.push(donor)[n] == donor);
            if donor.wallet_id == id {
                assert(is_first_true(after, n)) by {
                    assert forall|j: int| 0 <= j < n implies !after[j] by {
                        assert(!before[j]);
                    }
                }
                lemma_first_true_is(after, n);
            } else {
                assert forall|j: int| 0 <= j < after.len() implies !after[j] by {
                    if j < n {
                        assert(!before[j]);
                    }
                }
                lemma_first_true_none(after);
            }
        },
    }
}

/// Putting a donor into the ledger makes it found, and moves no other.
pub proof fn lemma_donor_index_after_with(donors: Seq<DonorView>, donor: DonorView, id: Seq<char>)
    ensures
        with_donor(donors, donor).len() >= donors.len(),
        donor_index(with_donor(donors, donor), id) == if id == donor.wallet_id {
            Some(
                match donor_index(donors, id) {
                    Some(i) => i,
                    None => donors.len() as int,
                },
            )
        } else {
            donor_index(donors, id)
        },
{
    lemma_donor_index_facts(donors, donor.wallet_id);
    match donor_index(donors, donor.wallet_id) {
        Some(i) => {
            lemma_donor_index_same_ids(donors, donors.update(i, donor), id);
        },
        None => {
            lemma_donor_index_after_push(donors, donor, id);
        },
    }
}

} // verus!
