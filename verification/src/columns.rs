//! How a record lies in the columns of a relational table: the identifier,
//! the sender and the memo as text, the amount as a signed 64-bit integer
//! that is never negative, the status as its text.

use vstd::prelude::*;

use crate::error::{LedgerError, LedgerErrorView};
use crate::payment::{memo_view, PaymentRecord, PaymentRecordView};
use crate::status::{lemma_status_text_round_trip, TransferStatus};

verus! {

/// The largest amount that the amount column can hold.
pub const MAX_COLUMN_AMOUNT: u64 = 0x7fff_ffff_ffff_ffff;

/// The record that the given column values stand for, or `None` where
/// they stand for none: a negative amount, or a status text that names no
/// status.
pub open spec fn record_of_columns(
    transfer_id: Seq<char>,
    sender: Seq<char>,
    amount: i64,
    memo: Option<Seq<char>>,
    status: Seq<char>,
) -> Option<PaymentRecordView> {
    if amount < 0 {
        None
    } else {
        match TransferStatus::parse(status) {
            None => None,
            Some(parsed) => Some(
                PaymentRecordView { transfer_id, sender, amount: amount as u64, memo, status: parsed },
            ),
        }
    }
}

/// The value that the amount column gets for an amount. An amount beyond
/// what the column can hold cannot be stored: that is a storage failure.
pub fn amount_column(amount: u64) -> (column: Result<i64, LedgerError>)
    ensures
        match column {
            Ok(value) => amount <= MAX_COLUMN_AMOUNT && value == amount,
            Err(error) => amount > MAX_COLUMN_AMOUNT && error@ == LedgerErrorView::StorageFailure,
        },
{
    if amount <= MAX_COLUMN_AMOUNT {
        Ok(amount as i64)
    } else {
        Err(LedgerError::StorageFailure)
    }
}

/// Reads a record from the column values of a row. Values that stand for
/// no record are a storage failure.
pub fn record_from_columns(
    transfer_id: String,
    sender: String,
    amount: i64,
    memo: Option<String>,
    status: &str,
) -> (record: Result<PaymentRecord, LedgerError>)
    ensures
        match record {
            Ok(read) => record_of_columns(transfer_id@, sender@, amount, memo_view(memo), status@) == Some(read@),
            Err(error) => {
                &&& record_of_columns(transfer_id@, sender@, amount, memo_view(memo), status@).is_none()
                &&& error@ == LedgerErrorView::StorageFailure
            },
        },
{
    if amount < 0 {
        return Err(LedgerError::StorageFailure);
    }
    match TransferStatus::from_text(status) {
        None => Err(LedgerError::StorageFailure),
        Some(parsed) => Ok(PaymentRecord { transfer_id, sender, amount: amount as u64, memo, status: parsed }),
    }
}

/// A record that was written to the columns reads back as it was: the
/// amount column of a storable amount and the text of the status give the
/// record again.
pub proof fn lemma_columns_round_trip(record: PaymentRecordView)
    requires
        record.amount <= MAX_COLUMN_AMOUNT,
    ensures
        record_of_columns(
            record.transfer_id,
            record.sender,
            record.amount as i64,
            record.memo,
            record.status.text(),
        ) == Some(record),
{
    lemma_status_text_round_trip(record.status);
}

} // verus!
