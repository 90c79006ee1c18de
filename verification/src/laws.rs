//! What holds of the ledger operations on every table with unique
//! transfer identifiers, stated over the model of the table.

use vstd::prelude::*;

use crate::address::canonical_sender;
use crate::error::LedgerErrorView;
use crate::model::{
    by_sender, contains_id, count_id, lemma_by_sender_members, lemma_by_sender_unique, lemma_count_id,
    lemma_lookup_at, lemma_push_keeps_unique, lemma_with_status_absent, lemma_with_status_keeps_ids, lookup, new_row,
    unique_ids, with_status,
};
use crate::payment::{NewPaymentRequestView, PaymentRecordView};
use crate::status::TransferStatus;
use crate::transfers::{canonical_request, insert_outcome, rows_after_insert};

verus! {

/// Idempotency. After an insert of a transfer identifier, a second insert
/// of it, with whatever other fields, is turned down with
/// `PaymentAlreadyExists` for that identifier and leaves the table as it
/// was, and one row carries the identifier. Where the first insert
/// succeeded, that row is the one it created, with the first request's
/// amount, canonical sender and memo.
pub proof fn law_insert_is_idempotent(
    rows: Seq<PaymentRecordView>,
    first: NewPaymentRequestView,
    second: NewPaymentRequestView,
)
    requires
        unique_ids(rows),
        second.transfer_id == first.transfer_id,
    ensures
        insert_outcome(rows_after_insert(rows, first), second) == Err::<Seq<char>, LedgerErrorView>(
            LedgerErrorView::PaymentAlreadyExists(first.transfer_id),
        ),
        rows_after_insert(rows_after_insert(rows, first), second) == rows_after_insert(rows, first),
        unique_ids(rows_after_insert(rows, first)),
        count_id(rows_after_insert(rows, first), first.transfer_id) == 1,
        insert_outcome(rows, first).is_ok() ==> {
            &&& insert_outcome(rows, first) == Ok::<Seq<char>, LedgerErrorView>(first.transfer_id)
            &&& lookup(rows_after_insert(rows_after_insert(rows, first), second), first.transfer_id) == Some(
                PaymentRecordView {
                    transfer_id: first.transfer_id,
                    sender: canonical_sender(first.sender),
                    amount: first.amount,
                    memo: first.memo,
                    status: TransferStatus::Received,
                },
            )
        },
{
    let after = rows_after_insert(rows, first);
    if insert_outcome(rows, first).is_ok() {
        let created = new_row(canonical_request(first));
        lemma_push_keeps_unique(rows, created);
        assert(after[rows.len() as int] == created);
        lemma_lookup_at(after, rows.len() as int);
    } else {
        let i = choose|i: int| 0 <= i < rows.len() && (#[trigger] rows[i]).transfer_id == first.transfer_id;
        lemma_lookup_at(rows, i);
    }
    lemma_count_id(after, first.transfer_id);
}

/// Canonicalization. Two requests for one transfer identifier whose
/// senders are encodings of the same address collide: after the first the
/// second is turned down with `PaymentAlreadyExists`. The stored sender
/// does not depend on the encoding: requests that differ in nothing but
/// the encoding of the sender create the same record.
pub proof fn law_encodings_collide(
    rows: Seq<PaymentRecordView>,
    first: NewPaymentRequestView,
    second: NewPaymentRequestView,
)
    requires
        unique_ids(rows),
        first.transfer_id == second.transfer_id,
        canonical_sender(first.sender) == canonical_sender(second.sender),
    ensures
        insert_outcome(rows_after_insert(rows, first), second) == Err::<Seq<char>, LedgerErrorView>(
            LedgerErrorView::PaymentAlreadyExists(first.transfer_id),
        ),
        rows_after_insert(rows_after_insert(rows, first), second) == rows_after_insert(rows, first),
        first.amount == second.amount && first.memo == second.memo ==> rows_after_insert(rows, first)
            == rows_after_insert(rows, second),
{
    law_insert_is_idempotent(rows, first, second);
}

/// A status update is a plain write by key. For an identifier that no row
/// carries it creates no row and changes none: the table stays as it was.
/// For any identifier, the rows keep their number, identifiers, senders,
/// amounts and memos.
pub proof fn law_status_update_by_key(rows: Seq<PaymentRecordView>, id: Seq<char>, status: TransferStatus)
    ensures
        !contains_id(rows, id) ==> with_status(rows, id, status) == rows,
        with_status(rows, id, status).len() == rows.len(),
        forall|i: int|
            #![trigger with_status(rows, id, status)[i]]
            0 <= i < rows.len() ==> {
                let before = rows[i];
                let after = with_status(rows, id, status)[i];
                &&& after.transfer_id == before.transfer_id
                &&& after.sender == before.sender
                &&& after.amount == before.amount
                &&& after.memo == before.memo
                &&& after.status == (if before.transfer_id == id { status } else { before.status })
            },
{
    if !contains_id(rows, id) {
        lemma_with_status_absent(rows, id, status);
    }
}

/// Round trip. After a successful insert, a lookup of the request's
/// identifier finds a record with the request's identifier, amount and
/// memo, the request's sender in canonical form, and the initial status.
/// Where the request's sender is in canonical form already, that is the
/// request itself with the initial status.
pub proof fn law_insert_then_find(rows: Seq<PaymentRecordView>, request: NewPaymentRequestView)
    requires
        unique_ids(rows),
        insert_outcome(rows, request).is_ok(),
    ensures
        lookup(rows_after_insert(rows, request), request.transfer_id) == Some(
            PaymentRecordView {
                transfer_id: request.transfer_id,
                sender: canonical_sender(request.sender),
                amount: request.amount,
                memo: request.memo,
                status: TransferStatus::Received,
            },
        ),
        canonical_sender(request.sender) == request.sender ==> lookup(
            rows_after_insert(rows, request),
            request.transfer_id,
        ) == Some(new_row(request)),
{
    law_insert_is_idempotent(rows, request, request);
}

/// Sender scoping. A lookup by sender returns exactly the rows stored
/// under the canonical form of the address: every row of the answer is a
/// row of the table with that sender, every such row of the table is in
/// the answer, no row is in it twice, and no row of another sender is in
/// it.
pub proof fn law_sender_scoping(rows: Seq<PaymentRecordView>, address: Seq<char>, other: Seq<char>)
    requires
        unique_ids(rows),
    ensures
        forall|row: PaymentRecordView|
            #![trigger by_sender(rows, canonical_sender(address)).contains(row)]
            #![trigger rows.contains(row)]
            by_sender(rows, canonical_sender(address)).contains(row) <==> rows.contains(row) && row.sender
                == canonical_sender(address),
        unique_ids(by_sender(rows, canonical_sender(address))),
        canonical_sender(other) != canonical_sender(address) ==> forall|row: PaymentRecordView|
            #![trigger by_sender(rows, canonical_sender(address)).contains(row)]
            by_sender(rows, canonical_sender(address)).contains(row) ==> row.sender != canonical_sender(
                other,
            ),
{
    let sender = canonical_sender(address);
    lemma_by_sender_members(rows, sender);
    lemma_by_sender_unique(rows, sender);
}

/// Uniqueness. Whatever is inserted and whichever status is set, no two
/// rows ever share a transfer identifier.
pub proof fn law_ids_stay_unique(
    rows: Seq<PaymentRecordView>,
    request: NewPaymentRequestView,
    id: Seq<char>,
    status: TransferStatus,
)
    requires
        unique_ids(rows),
    ensures
        unique_ids(rows_after_insert(rows, request)),
        unique_ids(with_status(rows, id, status)),
{
    law_insert_is_idempotent(rows, request, request);
    lemma_with_status_keeps_ids(rows, id, status);
}

/// Records are created once and never overwritten or deleted: an insert
/// leaves every row that was there as it was and adds at most one, and a
/// status update keeps every row in its place.
pub proof fn law_rows_are_kept(
    rows: Seq<PaymentRecordView>,
    request: NewPaymentRequestView,
    id: Seq<char>,
    status: TransferStatus,
)
    ensures
        rows_after_insert(rows, request).len() == rows.len() + (if insert_outcome(rows, request).is_ok() {
            1nat
        } else {
            0nat
        }),
        rows_after_insert(rows, request).take(rows.len() as int) == rows,
        with_status(rows, id, status).len() == rows.len(),
{
    assert(rows_after_insert(rows, request).take(rows.len() as int) =~= rows);
}

} // verus!
