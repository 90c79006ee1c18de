use payment_ledger::error::{LedgerError, StoreError};

#[test]
fn a_duplicate_key_becomes_payment_already_exists() {
    assert_eq!(
        LedgerError::from_insert_failure("tx1".to_string(), StoreError::DuplicateKeyViolation),
        LedgerError::PaymentAlreadyExists("tx1".to_string())
    );
}

#[test]
fn any_other_store_error_becomes_storage_failure() {
    assert_eq!(LedgerError::from_insert_failure("tx1".to_string(), StoreError::Other), LedgerError::StorageFailure);
}

#[test]
fn store_error_from_the_driver_answer() {
    assert_eq!(StoreError::from_driver_answer(Some(true)), StoreError::DuplicateKeyViolation);
    assert_eq!(StoreError::from_driver_answer(Some(false)), StoreError::Other);
    assert_eq!(StoreError::from_driver_answer(None), StoreError::Other);
}

#[test]
fn driver_errors_that_are_no_database_errors_are_storage_failures() {
    let errors = [
        sqlx::Error::RowNotFound,
        sqlx::Error::PoolTimedOut,
        sqlx::Error::WorkerCrashed,
        sqlx::Error::Protocol("broken".to_string()),
    ];
    for error in errors {
        assert_eq!(LedgerError::from_insert_driver_error("tx1".to_string(), &error), LedgerError::StorageFailure);
    }
}

#[test]
fn every_driver_error_converts_to_storage_failure() {
    assert_eq!(LedgerError::from(sqlx::Error::RowNotFound), LedgerError::StorageFailure);
    assert_eq!(LedgerError::from(sqlx::Error::PoolClosed), LedgerError::StorageFailure);
}
