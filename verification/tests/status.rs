use payment_ledger::status::TransferStatus;

const ALL: [TransferStatus; 4] =
    [TransferStatus::Received, TransferStatus::Confirmed, TransferStatus::Cancelled, TransferStatus::Refunded];

#[test]
fn status_texts() {
    assert_eq!(TransferStatus::Received.as_str(), "Received");
    assert_eq!(TransferStatus::Confirmed.as_str(), "Confirmed");
    assert_eq!(TransferStatus::Cancelled.as_str(), "Cancelled");
    assert_eq!(TransferStatus::Refunded.as_str(), "Refunded");
    for status in ALL {
        assert_eq!(status.to_text(), status.as_str());
    }
}

#[test]
fn status_text_reads_back() {
    for status in ALL {
        assert_eq!(TransferStatus::from_text(&status.to_text()), Some(status));
    }
}

#[test]
fn unknown_status_text_is_rejected() {
    assert_eq!(TransferStatus::from_text(""), None);
    assert_eq!(TransferStatus::from_text("received"), None);
    assert_eq!(TransferStatus::from_text("Received "), None);
    assert_eq!(TransferStatus::from_text("Paid"), None);
}

#[test]
fn records_start_as_received() {
    assert_eq!(TransferStatus::initial(), TransferStatus::Received);
}
