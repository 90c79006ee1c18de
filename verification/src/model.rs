//! The table of payment records as a mathematical sequence of rows, in the
//! order in which they were created, and what each store operation means on
//! it.

use vstd::prelude::*;

use crate::payment::{NewPaymentRequestView, PaymentRecordView};
use crate::status::TransferStatus;

verus! {

/// No two rows share a transfer identifier.
pub open spec fn unique_ids(rows: Seq<PaymentRecordView>) -> bool {
    forall|i: int, j: int|
        0 <= i < j < rows.len() ==> (#[trigger] rows[i]).transfer_id != (#[trigger] rows[j]).transfer_id
}

/// Some row carries the transfer identifier `id`.
pub open spec fn contains_id(rows: Seq<PaymentRecordView>, id: Seq<char>) -> bool {
    exists|i: int| 0 <= i < rows.len() && (#[trigger] rows[i]).transfer_id == id
}

/// The row that carries the transfer identifier `id`, if there is one.
pub open spec fn lookup(rows: Seq<PaymentRecordView>, id: Seq<char>) -> Option<PaymentRecordView> {
    if contains_id(rows, id) {
        let i = choose|i: int| 0 <= i < rows.len() && (#[trigger] rows[i]).transfer_id == id;
        Some(rows[i])
    } else {
        None
    }
}

/// The row that a request creates: the request's fields as they are given,
/// and the initial status.
pub open spec fn new_row(request: NewPaymentRequestView) -> PaymentRecordView {
    PaymentRecordView {
        transfer_id: request.transfer_id,
        sender: request.sender,
        amount: request.amount,
        memo: request.memo,
        status: TransferStatus::initial_status(),
    }
}

/// The table after an attempt to create a row for `request`: unchanged
/// where the identifier is taken, with the new row appended where it is
/// free.
pub open spec fn with_created(rows: Seq<PaymentRecordView>, request: NewPaymentRequestView) -> Seq<
    PaymentRecordView,
> {
    if contains_id(rows, request.transfer_id) {
        rows
    } else {
        rows.push(new_row(request))
    }
}

/// The row `row` with its status replaced where it carries the identifier
/// `id`, and unchanged where it does not.
pub open spec fn row_with_status(row: PaymentRecordView, id: Seq<char>, status: TransferStatus) -> PaymentRecordView {
    if row.transfer_id == id {
        PaymentRecordView {
            transfer_id: row.transfer_id,
            sender: row.sender,
            amount: row.amount,
            memo: row.memo,
            status,
        }
    } else {
        row
    }
}

/// The table after the status of the row with identifier `id` was set.
pub open spec fn with_status(rows: Seq<PaymentRecordView>, id: Seq<char>, status: TransferStatus) -> Seq<
    PaymentRecordView,
> {
    Seq::new(rows.len(), |i: int| row_with_status(rows[i], id, status))
}

/// The rows whose sender is `sender`, in table order.
pub open spec fn by_sender(rows: Seq<PaymentRecordView>, sender: Seq<char>) -> Seq<PaymentRecordView> {
    rows.filter(|row: PaymentRecordView| row.sender == sender)
}

/// How many rows carry the transfer identifier `id`.
pub open spec fn count_id(rows: Seq<PaymentRecordView>, id: Seq<char>) -> nat {
    rows.filter(|row: PaymentRecordView| row.transfer_id == id).len()
}

/// In a table with unique identifiers, a row found at any index is the one
/// that `lookup` gives for its identifier.
pub proof fn lemma_lookup_at(rows: Seq<PaymentRecordView>, i: int)
    requires
        unique_ids(rows),
        0 <= i < rows.len(),
    ensures
        contains_id(rows, rows[i].transfer_id),
        lookup(rows, rows[i].transfer_id) == Some(rows[i]),
{
    let id = rows[i].transfer_id;
    assert(contains_id(rows, id));
    let j = choose|j: int| 0 <= j < rows.len() && (#[trigger] rows[j]).transfer_id == id;
    if i < j {
        assert(rows[i].transfer_id != rows[j].transfer_id);
    } else if j < i {
        assert(rows[j].transfer_id != rows[i].transfer_id);
    }
}

/// A new row whose identifier is not yet in the table keeps identifiers
/// unique.
pub proof fn lemma_push_keeps_unique(rows: Seq<PaymentRecordView>, row: PaymentRecordView)
    requires
        unique_ids(rows),
        !contains_id(rows, row.transfer_id),
    ensures
        unique_ids(rows.push(row)),
{
    let next = rows.push(row);
    assert forall|i: int, j: int| 0 <= i < j < next.len() implies (#[trigger] next[i]).transfer_id != (
    #[trigger] next[j]).transfer_id by {
        if j < rows.len() {
            assert(rows[i].transfer_id != rows[j].transfer_id);
        } else {
            assert(next[i] == rows[i]);
        }
    }
}

/// Setting a status changes no identifier: the identifiers stay unique and
/// the same identifiers are present.
pub proof fn lemma_with_status_keeps_ids(rows: Seq<PaymentRecordView>, id: Seq<char>, status: TransferStatus)
    ensures
        with_status(rows, id, status).len() == rows.len(),
        forall|i: int|
            0 <= i < rows.len() ==> (#[trigger] with_status(rows, id, status)[i]).transfer_id
                == rows[i].transfer_id,
        unique_ids(rows) ==> unique_ids(with_status(rows, id, status)),
        forall|other: Seq<char>|
            contains_id(with_status(rows, id, status), other) == contains_id(rows, other),
{
    let next = with_status(rows, id, status);
    if unique_ids(rows) {
        assert forall|i: int, j: int| 0 <= i < j < next.len() implies (#[trigger] next[i]).transfer_id != (
        #[trigger] next[j]).transfer_id by {
            assert(rows[i].transfer_id != rows[j].transfer_id);
        }
    }
    assert forall|other: Seq<char>| contains_id(next, other) == contains_id(rows, other) by {
        if contains_id(rows, other) {
            let i = choose|i: int| 0 <= i < rows.len() && (#[trigger] rows[i]).transfer_id == other;
            assert(next[i].transfer_id == other);
        }
        if contains_id(next, other) {
            let i = choose|i: int| 0 <= i < next.len() && (#[trigger] next[i]).transfer_id == other;
            assert(rows[i].transfer_id == other);
        }
    }
}

/// Setting the status of an identifier that no row carries leaves the table
/// as it was.
pub proof fn lemma_with_status_absent(rows: Seq<PaymentRecordView>, id: Seq<char>, status: TransferStatus)
    requires
        !contains_id(rows, id),
    ensures
        with_status(rows, id, status) == rows,
{
    let next = with_status(rows, id, status);
    assert forall|i: int| 0 <= i < rows.len() implies next[i] == rows[i] by {
        if rows[i].transfer_id == id {
            assert(contains_id(rows, id));
        }
    }
    assert(next =~= rows);
}

/// In a table with unique identifiers, an identifier is carried by one row
/// or by none.
pub proof fn lemma_count_id(rows: Seq<PaymentRecordView>, id: Seq<char>)
    requires
        unique_ids(rows),
    ensures
        count_id(rows, id) == (if contains_id(rows, id) { 1nat } else { 0nat }),
    decreases rows.len(),
{
    reveal(Seq::filter);
    if rows.len() > 0 {
        let front = rows.drop_last();
        let last = rows.last();
        assert forall|i: int, j: int| 0 <= i < j < front.len() implies (#[trigger] front[i]).transfer_id != (
        #[trigger] front[j]).transfer_id by {
            assert(rows[i].transfer_id != rows[j].transfer_id);
        }
        lemma_count_id(front, id);
        if contains_id(front, id) {
            let i = choose|i: int| 0 <= i < front.len() && (#[trigger] front[i]).transfer_id == id;
            assert(rows[i].transfer_id == id);
            assert(rows[i].transfer_id != rows[rows.len() - 1].transfer_id);
        } else if last.transfer_id == id {
            assert(rows[rows.len() - 1].transfer_id == id);
        } else if contains_id(rows, id) {
            let i = choose|i: int| 0 <= i < rows.len() && (#[trigger] rows[i]).transfer_id == id;
            assert(front[i].transfer_id == id);
        }
    }
}

/// The rows of a lookup by sender are the rows of the table with that
/// sender.
pub proof fn lemma_by_sender_members(rows: Seq<PaymentRecordView>, sender: Seq<char>)
    ensures
        forall|row: PaymentRecordView|
            #![trigger by_sender(rows, sender).contains(row)]
            #![trigger rows.contains(row)]
            by_sender(rows, sender).contains(row) <==> rows.contains(row) && row.sender == sender,
    decreases rows.len(),
{
    reveal(Seq::filter);
    if rows.len() > 0 {
        let front = rows.drop_last();
        lemma_by_sender_members(front, sender);
        assert forall|row: PaymentRecordView|
            #![trigger by_sender(rows, sender).contains(row)]
            #![trigger rows.contains(row)]
            by_sender(rows, sender).contains(row) <==> rows.contains(row) && row.sender == sender by {
            let answer = by_sender(rows, sender);
            let part = by_sender(front, sender);
            if answer.contains(row) {
                let k = choose|k: int| 0 <= k < answer.len() && answer[k] == row;
                if k < part.len() {
                    assert(part[k] == row);
                    assert(part.contains(row));
                    let j = choose|j: int| 0 <= j < front.len() && front[j] == row;
                    assert(rows[j] == row);
                } else {
                    assert(rows[rows.len() - 1] == row);
                }
            }
            if rows.contains(row) && row.sender == sender {
                let j = choose|j: int| 0 <= j < rows.len() && rows[j] == row;
                if j < front.len() {
                    assert(front[j] == row);
                    assert(front.contains(row));
                    let k = choose|k: int| 0 <= k < part.len() && part[k] == row;
                    assert(answer[k] == row);
                } else {
                    assert(answer[answer.len() - 1] == row);
                }
            }
        }
    }
}

/// A lookup by sender in a table with unique identifiers has unique
/// identifiers too.
pub proof fn lemma_by_sender_unique(rows: Seq<PaymentRecordView>, sender: Seq<char>)
    requires
        unique_ids(rows),
    ensures
        unique_ids(by_sender(rows, sender)),
    decreases rows.len(),
{
    reveal(Seq::filter);
    if rows.len() > 0 {
        let front = rows.drop_last();
        assert forall|i: int, j: int| 0 <= i < j < front.len() implies (#[trigger] front[i]).transfer_id != (
        #[trigger] front[j]).transfer_id by {
            assert(rows[i].transfer_id != rows[j].transfer_id);
        }
        lemma_by_sender_unique(front, sender);
        lemma_by_sender_members(front, sender);
        let answer = by_sender(rows, sender);
        let part = by_sender(front, sender);
        assert forall|i: int, j: int| 0 <= i < j < answer.len() implies (#[trigger] answer[i]).transfer_id != (
        #[trigger] answer[j]).transfer_id by {
            if j < part.len() {
                assert(part[i].transfer_id != part[j].transfer_id);
            } else {
                assert(part[i] == answer[i]);
                assert(part.contains(part[i]));
                let k = choose|k: int| 0 <= k < front.len() && front[k] == part[i];
                assert(rows[k].transfer_id != rows[rows.len() - 1].transfer_id);
            }
        }
    }
}

} // verus!
