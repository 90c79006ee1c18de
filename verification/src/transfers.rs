//! The ledger operations: idempotent insert, status transition and the two
//! lookups, on a `PaymentStore`.
//!
//! `PaymentStore` is the reference table: it holds the records in memory,
//! and the laws of the ledger are proved on it. Its own methods are public
//! as well. A ledger that keeps its records in a SQLite database runs its
//! statements itself and shares with these operations what does not touch
//! the database: `canonicalize_request` and `canonicalize_sender` for the
//! sender, `LedgerError::from_insert_driver_error` and
//! `From<sqlx::Error>` for the driver's errors, `amount_column` and
//! `record_from_columns` for the column values, and the status texts.
//!
//! The reference table holds every `u64` amount. An amount above
//! `MAX_COLUMN_AMOUNT` is refused only where a record goes into the
//! columns of a database, by `amount_column`.
//!
//! A status transition reports success whether or not a record carried the
//! identifier; a caller that needs to know asks `fetch_payment`, or uses the
//! count that `PaymentStore::update_status` returns.

use vstd::prelude::*;

use crate::address::{canonical_sender, canonicalize_sender};
use crate::error::{insert_error, LedgerError, LedgerErrorView, StoreError};
use crate::model::{by_sender, contains_id, lookup, unique_ids, with_created, with_status};
use crate::payment::{NewPaymentRequest, NewPaymentRequestView, PaymentRecord, PaymentRecordView};
use crate::status::TransferStatus;
use crate::store::{record_views, PaymentStore};

verus! {

/// A request with its sender replaced.
pub open spec fn with_sender(request: NewPaymentRequestView, sender: Seq<char>) -> NewPaymentRequestView {
    NewPaymentRequestView {
        transfer_id: request.transfer_id,
        sender,
        amount: request.amount,
        memo: request.memo,
    }
}

/// A request with its sender in canonical form.
pub open spec fn canonical_request(request: NewPaymentRequestView) -> NewPaymentRequestView {
    with_sender(request, canonical_sender(request.sender))
}

/// What an attempt to create a row for `request` reports to the caller of
/// the ledger: the identifier where it was free, `PaymentAlreadyExists`
/// with the identifier where it was taken.
pub open spec fn create_outcome(rows: Seq<PaymentRecordView>, request: NewPaymentRequestView) -> Result<
    Seq<char>,
    LedgerErrorView,
> {
    if contains_id(rows, request.transfer_id) {
        Err(insert_error(request.transfer_id, StoreError::DuplicateKeyViolation))
    } else {
        Ok(request.transfer_id)
    }
}

/// The table after the insert of `request`.
pub open spec fn rows_after_insert(rows: Seq<PaymentRecordView>, request: NewPaymentRequestView) -> Seq<
    PaymentRecordView,
> {
    with_created(rows, canonical_request(request))
}

/// What the insert of `request` reports.
pub open spec fn insert_outcome(rows: Seq<PaymentRecordView>, request: NewPaymentRequestView) -> Result<
    Seq<char>,
    LedgerErrorView,
> {
    create_outcome(rows, canonical_request(request))
}

/// Whether an executable result stands for the given outcome.
pub open spec fn reports(result: Result<String, LedgerError>, outcome: Result<Seq<char>, LedgerErrorView>) -> bool {
    match result {
        Ok(id) => outcome == Ok::<Seq<char>, LedgerErrorView>(id@),
        Err(error) => outcome == Err::<Seq<char>, LedgerErrorView>(error@),
    }
}

/// Replaces the sender of a request and keeps its other fields.
pub fn replace_sender(request: NewPaymentRequest, sender: String) -> (replaced: NewPaymentRequest)
    ensures
        replaced@ == with_sender(request@, sender@),
{
    NewPaymentRequest {
        transfer_id: request.transfer_id,
        sender,
        amount: request.amount,
        memo: request.memo,
    }
}

/// Brings the sender of a request into canonical form: the hex form of the
/// address that it encodes. This is what an insert writes.
pub fn canonicalize_request(request: NewPaymentRequest) -> (canonical: NewPaymentRequest)
    ensures
        canonical@ == canonical_request(request@),
{
    let sender = canonicalize_sender(request.sender.as_str());
    replace_sender(request, sender)
}

/// Creates the row for a request whose sender is already in canonical
/// form, and reports in the ledger's terms: the identifier on success,
/// `PaymentAlreadyExists` where the identifier was taken, in which case the
/// store stays as it was.
pub fn insert_canonical(request: NewPaymentRequest, store: &mut PaymentStore) -> (result: Result<
    String,
    LedgerError,
>)
    ensures
        unique_ids(final(store)@),
        final(store)@ == with_created(old(store)@, request@),
        reports(result, create_outcome(old(store)@, request@)),
{
    let id = request.transfer_id.clone();
    match store.create(request) {
        Ok(created) => Ok(created),
        Err(cause) => Err(LedgerError::from_insert_failure(id, cause)),
    }
}

/// Records a transfer once. The sender is stored in canonical form and the
/// status starts at `Received`. A second insert of a transfer identifier
/// fails with `PaymentAlreadyExists` and changes nothing.
pub fn idempotent_insert(transfer: NewPaymentRequest, store: &mut PaymentStore) -> (result: Result<
    String,
    LedgerError,
>)
    ensures
        unique_ids(final(store)@),
        final(store)@ == rows_after_insert(old(store)@, transfer@),
        reports(result, insert_outcome(old(store)@, transfer@)),
{
    let request = canonicalize_request(transfer);
    insert_canonical(request, store)
}

/// Sets the status of the record with the identifier `transfer_id`,
/// whatever its status was. Succeeds also where no record carries the
/// identifier, and then changes nothing.
pub fn update_status(transfer_id: &str, status: TransferStatus, store: &mut PaymentStore) -> (result: Result<
    (),
    LedgerError,
>)
    ensures
        result.is_ok(),
        unique_ids(final(store)@),
        final(store)@ == with_status(old(store)@, transfer_id@, status),
{
    let _ = store.update_status(transfer_id, status);
    Ok(())
}

/// Looks a record up by its transfer identifier. An identifier that no
/// record carries gives `Ok(None)`, never an error.
pub fn fetch_payment(transfer_id: &str, store: &PaymentStore) -> (result: Result<Option<PaymentRecord>, LedgerError>)
    ensures
        unique_ids(store@),
        result matches Ok(found) && match found {
            Some(record) => lookup(store@, transfer_id@) == Some(record@),
            None => lookup(store@, transfer_id@).is_none(),
        },
{
    Ok(store.get(transfer_id))
}

/// Looks up the records of a sender, given in any encoding of the address.
/// The result holds exactly the records stored under the canonical form of
/// `address`, in the order of their creation; it is empty where there are
/// none.
pub fn fetch_payments_for_address(address: &str, store: &PaymentStore) -> (result: Result<
    Vec<PaymentRecord>,
    LedgerError,
>)
    ensures
        unique_ids(store@),
        result matches Ok(records) && record_views(records@) == by_sender(store@, canonical_sender(address@)),
{
    let sender = canonicalize_sender(address);
    Ok(store.get_by_sender(sender.as_str()))
}

} // verus!
