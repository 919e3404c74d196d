//! Why rewriting or crediting a donor leaves a consistent ledger consistent:
//! the steps from which the laws of the ledger are proved.

use vstd::prelude::*;
use crate::lemmas::{
    lemma_accrued_of_stranger, lemma_donor_index_after_with, lemma_donor_index_facts,
    lemma_donor_index_same_ids, lemma_sums_after_push, lemma_sums_agree,
};
use crate::model::{
    accrued, conserved, distinct_ids, donor_index, donor_or_fresh, ledger_wf, only_forward,
    recipients_known, with_donor, LedgerView,
};
use crate::types::{AirdropRecordView, DonorView};

verus! {

/// In a consistent ledger, who is not a donor has accrued nothing.
pub proof fn lemma_unknown_has_accrued_nothing(ledger: LedgerView, id: Seq<char>)
    requires
        recipients_known(ledger),
        donor_index(ledger.donors, id) is None,
    ensures
        accrued(ledger.records, id) == 0,
{
    assert forall|k: int| 0 <= k < ledger.records.len() implies (
    #[trigger] ledger.records[k]).recipient != id by {
        assert(donor_index(ledger.donors, ledger.records[k].recipient) is Some);
    }
    lemma_accrued_of_stranger(ledger.records, id);
}

/// A ledger stays consistent when donors and reward events are rewritten in
/// place without touching an identifier, a recipient, an amount or a credit.
pub proof fn lemma_rewrite_keeps_consistency(before: LedgerView, after: LedgerView)
    requires
        ledger_wf(before),
        after.total_distributed == before.total_distributed,
        after.donors.len() == before.donors.len(),
        forall|i: int|
            0 <= i < before.donors.len() ==> {
                &&& (#[trigger] after.donors[i]).wallet_id == before.donors[i].wallet_id
                &&& after.donors[i].airdrop_amount == before.donors[i].airdrop_amount
            },
        after.records.len() == before.records.len(),
        forall|k: int|
            0 <= k < before.records.len() ==> {
                &&& (#[trigger] after.records[k]).recipient == before.records[k].recipient
                &&& after.records[k].amount == before.records[k].amount
            },
    ensures
        ledger_wf(after),
{
    assert(distinct_ids(after.donors)) by {
        assert forall|i: int, j: int| 0 <= i < j < after.donors.len() implies (
        #[trigger] after.donors[i]).wallet_id != (#[trigger] after.donors[j]).wallet_id by {
            assert(before.donors[i].wallet_id != before.donors[j].wallet_id);
        }
    }
    assert(conserved(after)) by {
        assert forall|i: int| 0 <= i < after.donors.len() implies (
        #[trigger] after.donors[i]).airdrop_amount == accrued(
            after.records,
            after.donors[i].wallet_id,
        ) by {
            lemma_sums_agree(before.records, after.records, after.donors[i].wallet_id);
            assert(before.donors[i].airdrop_amount == accrued(
                before.records,
                before.donors[i].wallet_id,
            ));
        }
    }
    assert(recipients_known(after)) by {
        assert forall|k: int| 0 <= k < after.records.len() implies donor_index(
            after.donors,
            (#[trigger] after.records[k]).recipient,
        ) is Some by {
            lemma_donor_index_same_ids(before.donors, after.donors, after.records[k].recipient);
            assert(donor_index(before.donors, before.records[k].recipient) is Some);
        }
    }
    lemma_sums_agree(before.records, after.records, Seq::empty());
}

/// Putting a donor into the ledger, with or without a new reward event,
/// moves the ledger only forward, provided that the donor keeps its payment.
pub proof fn lemma_credit_moves_forward(
    before: LedgerView,
    after: LedgerView,
    credited: DonorView,
    event: Option<AirdropRecordView>,
)
    requires
        after.donors == with_donor(before.donors, credited),
        donor_or_fresh(before.donors, credited.wallet_id).paid ==> credited.paid,
        after.records == match event {
            Some(record) => before.records.push(record),
            None => before.records,
        },
    ensures
        only_forward(before, after),
{
    let id = credited.wallet_id;
    lemma_donor_index_facts(before.donors, id);
    assert forall|i: int| 0 <= i < before.donors.len() implies {
        &&& (#[trigger] after.donors[i]).wallet_id == before.donors[i].wallet_id
        &&& before.donors[i].paid ==> after.donors[i].paid
    } by {
        if donor_index(before.donors, id) != Some(i) {
            assert(after.donors[i] == before.donors[i]);
        }
    }
}

/// Putting a credited donor into a consistent ledger, with or without the
/// reward event that credits it, leaves the ledger consistent.
pub proof fn lemma_credit_keeps_consistency(
    before: LedgerView,
    after: LedgerView,
    credited: DonorView,
    event: Option<AirdropRecordView>,
)
    requires
        ledger_wf(before),
        after.donors == with_donor(before.donors, credited),
        match event {
            Some(record) => {
                &&& record.recipient == credited.wallet_id
                &&& after.records == before.records.push(record)
                &&& after.total_distributed == before.total_distributed + record.amount
                &&& credited.airdrop_amount == donor_or_fresh(
                    before.donors,
                    credited.wallet_id,
                ).airdrop_amount + record.amount
            },
            None => {
                &&& after.records == before.records
                &&& after.total_distributed == before.total_distributed
                &&& credited.airdrop_amount == donor_or_fresh(
                    before.donors,
                    credited.wallet_id,
                ).airdrop_amount
            },
        },
    ensures
        ledger_wf(after),
{
    let id = credited.wallet_id;
    lemma_donor_index_facts(before.donors, id);
    let at = match donor_index(before.donors, id) {
        Some(i) => i,
        None => before.donors.len() as int,
    };
    assert(after.donors[at] == credited);
    assert forall|j: int| 0 <= j < before.donors.len() && j != at implies after.donors[j]
        == before.donors[j] by {}
    assert forall|j: int| 0 <= j < before.donors.len() && j != at implies (
    #[trigger] before.donors[j]).wallet_id != id by {
        if donor_index(before.donors, id) is Some {
            if j < at {
            } else {
                assert(before.donors[at].wallet_id != before.donors[j].wallet_id);
            }
        }
    }
    assert(distinct_ids(after.donors)) by {
        assert forall|i: int, j: int| 0 <= i < j < after.donors.len() implies (
        #[trigger] after.donors[i]).wallet_id != (#[trigger] after.donors[j]).wallet_id by {
            if i != at && j != at {
                assert(before.donors[i].wallet_id != before.donors[j].wallet_id);
            } else if i == at {
                assert(before.donors[j].wallet_id != id);
            } else {
                assert(before.donors[i].wallet_id != id);
            }
        }
    }
    if donor_index(before.donors, id) is None {
        lemma_unknown_has_accrued_nothing(before, id);
    } else {
        assert(before.donors[at].airdrop_amount == accrued(before.records, id));
    }
    assert(conserved(after)) by {
        assert forall|i: int| 0 <= i < after.donors.len() implies (
        #[trigger] after.donors[i]).airdrop_amount == accrued(
            after.records,
            after.donors[i].wallet_id,
        ) by {
            if let Some(record) = event {
                lemma_sums_after_push(before.records, record, after.donors[i].wallet_id);
            }
            if i != at {
                assert(before.donors[i].wallet_id != id);
                assert(before.donors[i].airdrop_amount == accrued(
                    before.records,
                    before.donors[i].wallet_id,
                ));
            }
        }
    }
    assert(recipients_known(after)) by {
        assert forall|k: int| 0 <= k < after.records.len() implies donor_index(
            after.donors,
            (#[trigger] after.records[k]).recipient,
        ) is Some by {
            lemma_donor_index_after_with(before.donors, credited, after.records[k].recipient);
            if k < before.records.len() {
                assert(after.records[k] == before.records[k]);
                assert(donor_index(before.donors, before.records[k].recipient) is Some);
            }
        }
    }
    if let Some(record) = event {
        lemma_sums_after_push(before.records, record, id);
    }
}

} // verus!
