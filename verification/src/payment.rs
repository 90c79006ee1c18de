//! PaymentRecord records and the requests that create them.

use vstd::prelude::*;

use crate::status::TransferStatus;

verus! {

/// What a payment record holds, as mathematical values.
pub struct PaymentRecordView {
    pub transfer_id: Seq<char>,
    pub sender: Seq<char>,
    pub amount: u64,
    pub memo: Option<Seq<char>>,
    pub status: TransferStatus,
}

/// What a request for a new payment holds, as mathematical values.
pub struct NewPaymentRequestView {
    pub transfer_id: Seq<char>,
    pub sender: Seq<char>,
    pub amount: u64,
    pub memo: Option<Seq<char>>,
}

/// The characters of an optional memo.
pub open spec fn memo_view(memo: Option<String>) -> Option<Seq<char>> {
    match memo {
        Some(text) => Some(text@),
        None => None,
    }
}

/// A request to record a transfer. `sender` is the sending address in any of
/// its textual encodings; the ledger stores it in canonical form.
#[derive(Debug, PartialEq, Eq)]
pub struct NewPaymentRequest {
    pub transfer_id: String,
    pub sender: String,
    pub amount: u64,
    pub memo: Option<String>,
}

/// A stored payment record. `sender` is in canonical form. Only `status`
/// changes after the record was created.
#[derive(Debug, PartialEq, Eq)]
pub struct PaymentRecord {
    pub transfer_id: String,
    pub sender: String,
    pub amount: u64,
    pub memo: Option<String>,
    pub status: TransferStatus,
}

impl View for NewPaymentRequest {
    type V = NewPaymentRequestView;

    open spec fn view(&self) -> NewPaymentRequestView {
        NewPaymentRequestView {
            transfer_id: self.transfer_id@,
            sender: self.sender@,
            amount: self.amount,
            memo: memo_view(self.memo),
        }
    }
}

impl View for PaymentRecord {
    type V = PaymentRecordView;

    open spec fn view(&self) -> PaymentRecordView {
        PaymentRecordView {
            transfer_id: self.transfer_id@,
            sender: self.sender@,
            amount: self.amount,
            memo: memo_view(self.memo),
            status: self.status,
        }
    }
}

/// Copies an optional text.
fn copy_memo(memo: &Option<String>) -> (copy: Option<String>)
    ensures
        memo_view(copy) == memo_view(*memo),
{
    match memo {
        Some(text) => Some(text.clone()),
        None => None,
    }
}

impl NewPaymentRequest {
    /// Builds a request from its four fields.
    pub fn new(transfer_id: String, sender: String, amount: u64, memo: Option<String>) -> (request: NewPaymentRequest)
        ensures
            request@ == (NewPaymentRequestView {
                transfer_id: transfer_id@,
                sender: sender@,
                amount,
                memo: memo_view(memo),
            }),
    {
        NewPaymentRequest { transfer_id, sender, amount, memo }
    }
}

impl Clone for NewPaymentRequest {
    fn clone(&self) -> (copy: NewPaymentRequest)
        ensures
            copy@ == self@,
    {
        NewPaymentRequest {
            transfer_id: self.transfer_id.clone(),
            sender: self.sender.clone(),
            amount: self.amount,
            memo: copy_memo(&self.memo),
        }
    }
}

impl Clone for PaymentRecord {
    fn clone(&self) -> (copy: PaymentRecord)
        ensures
            copy@ == self@,
    {
        PaymentRecord {
            transfer_id: self.transfer_id.clone(),
            sender: self.sender.clone(),
            amount: self.amount,
            memo: copy_memo(&self.memo),
            status: self.status,
        }
    }
}

} // verus!
