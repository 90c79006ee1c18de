//! The lifecycle status of a payment record and its stored text form.

use vstd::prelude::*;

verus! {

/// The closed set of lifecycle states a payment record can be in.
#[derive(Clone, Copy, Debug, PartialEq, Eq, Structural)]
pub enum TransferStatus {
    Received,
    Confirmed,
    Cancelled,
    Refunded,
}

impl TransferStatus {
    /// The text under which a status is stored.
    pub open spec fn text(self) -> Seq<char> {
        match self {
            TransferStatus::Received => "Received"@,
            TransferStatus::Confirmed => "Confirmed"@,
            TransferStatus::Cancelled => "Cancelled"@,
            TransferStatus::Refunded => "Refunded"@,
        }
    }

    /// The status that a stored text stands for, if any.
    pub open spec fn parse(text: Seq<char>) -> Option<TransferStatus> {
        if text == TransferStatus::Received.text() {
            Some(TransferStatus::Received)
        } else if text == TransferStatus::Confirmed.text() {
            Some(TransferStatus::Confirmed)
        } else if text == TransferStatus::Cancelled.text() {
            Some(TransferStatus::Cancelled)
        } else if text == TransferStatus::Refunded.text() {
            Some(TransferStatus::Refunded)
        } else {
            None
        }
    }

    /// The status every record starts in.
    pub open spec fn initial_status() -> TransferStatus {
        TransferStatus::Received
    }

    /// Returns the status every record starts in.
    pub fn initial() -> (status: TransferStatus)
        ensures
            status == TransferStatus::initial_status(),
    {
        TransferStatus::Received
    }

    /// Returns the text under which this status is stored.
    pub fn as_str(&self) -> (text: &'static str)
        ensures
            text@ == self.text(),
    {
        match self {
            TransferStatus::Received => "Received",
            TransferStatus::Confirmed => "Confirmed",
            TransferStatus::Cancelled => "Cancelled",
            TransferStatus::Refunded => "Refunded",
        }
    }

    /// Returns an owned copy of the text under which this status is stored.
    pub fn to_text(&self) -> (text: String)
        ensures
            text@ == self.text(),
    {
        self.as_str().to_owned()
    }

    /// Reads a status back from its stored text; any other text gives `None`.
    pub fn from_text(text: &str) -> (status: Option<TransferStatus>)
        ensures
            status == TransferStatus::parse(text@),
    {
        let owned = text.to_owned();
        if owned == TransferStatus::Received.to_text() {
            Some(TransferStatus::Received)
        } else if owned == TransferStatus::Confirmed.to_text() {
            Some(TransferStatus::Confirmed)
        } else if owned == TransferStatus::Cancelled.to_text() {
            Some(TransferStatus::Cancelled)
        } else if owned == TransferStatus::Refunded.to_text() {
            Some(TransferStatus::Refunded)
        } else {
            None
        }
    }
}

/// The four status texts are pairwise different, so the text of a status
/// always reads back as that status.
pub proof fn lemma_status_text_round_trip(status: TransferStatus)
    ensures
        TransferStatus::parse(status.text()) == Some(status),
{
    reveal_strlit("Received");
    reveal_strlit("Confirmed");
    reveal_strlit("Cancelled");
    reveal_strlit("Refunded");
    assert("Received"@.len() == 8);
    assert("Confirmed"@.len() == 9);
    assert("Cancelled"@.len() == 9);
    assert("Refunded"@.len() == 8);
    assert("Received"@[2] == 'c');
    assert("Refunded"@[2] == 'f');
    assert("Confirmed"@[1] == 'o');
    assert("Cancelled"@[1] == 'a');
}

} // verus!
