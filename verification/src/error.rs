//! Failures of the store and of the ledger operations.

use vstd::prelude::*;

verus! {

/// The error type of the database driver, `sqlx::Error`. Its contents are
/// hidden from the verifier: values of it are only carried through.
#[verifier::external_type_specification]
#[verifier::external_body]
pub struct ExSqlxError(sqlx::Error);

/// Why a store turned a write down.
#[derive(Clone, Copy, Debug, PartialEq, Eq, Structural)]
pub enum StoreError {
    /// The uniqueness constraint on the transfer identifier rejected the row.
    DuplicateKeyViolation,
    /// Anything else: I/O, connectivity, a timeout, another constraint.
    Other,
}

/// What a ledger operation reports to its caller when it fails.
#[derive(Debug, PartialEq, Eq)]
pub enum LedgerError {
    /// A record with this transfer identifier is already stored. Callers
    /// treat this as "already recorded".
    PaymentAlreadyExists(String),
    /// The store failed for any other reason.
    StorageFailure,
}

/// A ledger error as mathematical values.
pub enum LedgerErrorView {
    PaymentAlreadyExists(Seq<char>),
    StorageFailure,
}

impl View for LedgerError {
    type V = LedgerErrorView;

    open spec fn view(&self) -> LedgerErrorView {
        match self {
            LedgerError::PaymentAlreadyExists(id) => LedgerErrorView::PaymentAlreadyExists(id@),
            LedgerError::StorageFailure => LedgerErrorView::StorageFailure,
        }
    }
}

/// The ledger error for a failed insert of the transfer `id`.
pub open spec fn insert_error(id: Seq<char>, cause: StoreError) -> LedgerErrorView {
    match cause {
        StoreError::DuplicateKeyViolation => LedgerErrorView::PaymentAlreadyExists(id),
        StoreError::Other => LedgerErrorView::StorageFailure,
    }
}

/// The store error that stands for a driver error, given what the driver
/// answered when asked for a uniqueness violation: `None` where the error
/// did not come from the database at all.
pub open spec fn store_error(unique_violation: Option<bool>) -> StoreError {
    if unique_violation == Some(true) {
        StoreError::DuplicateKeyViolation
    } else {
        StoreError::Other
    }
}

/// What the driver answers when a driver error is asked for a uniqueness
/// violation: `None` where the error did not come from the database,
/// otherwise whether the database reported a violated unique or
/// primary-key constraint.
pub uninterp spec fn driver_unique_violation(error: sqlx::Error) -> Option<bool>;

/// Asks a driver error for a uniqueness violation. Where the error is the
/// `Database` variant of `sqlx::Error`, the result holds what
/// `DatabaseError::is_unique_violation` answered for the database error in
/// it; for every other variant it is `None`. Nothing is proved of the
/// answer. The contract only gives it its name: it depends on the error
/// value alone.
#[verifier::external_body]
fn unique_violation_of(error: &sqlx::Error) -> (answer: Option<bool>)
    ensures
        answer == driver_unique_violation(*error),
{
    match error {
        sqlx::Error::Database(database_error) => Some(database_error.is_unique_violation()),
        _ => None,
    }
}

impl StoreError {
    /// Names the store error for a driver's answer. The payments table has
    /// one uniqueness constraint, on the transfer identifier, so a
    /// uniqueness violation is a duplicate key; everything else is `Other`.
    pub fn from_driver_answer(unique_violation: Option<bool>) -> (cause: StoreError)
        ensures
            cause == store_error(unique_violation),
    {
        match unique_violation {
            Some(true) => StoreError::DuplicateKeyViolation,
            _ => StoreError::Other,
        }
    }
}

impl LedgerError {
    /// Turns the failure of an insert into the ledger's own error: a
    /// duplicate key becomes `PaymentAlreadyExists` with the transfer
    /// identifier, everything else `StorageFailure`.
    pub fn from_insert_failure(transfer_id: String, cause: StoreError) -> (error: LedgerError)
        ensures
            error@ == insert_error(transfer_id@, cause),
    {
        match cause {
            StoreError::DuplicateKeyViolation => LedgerError::PaymentAlreadyExists(transfer_id),
            StoreError::Other => LedgerError::StorageFailure,
        }
    }

    /// Maps the driver error of a failed insert: `PaymentAlreadyExists`
    /// with the transfer identifier where the driver reports a uniqueness
    /// violation, `StorageFailure` for every other driver error.
    pub fn from_insert_driver_error(transfer_id: String, error: &sqlx::Error) -> (mapped: LedgerError)
        ensures
            mapped@ == insert_error(transfer_id@, store_error(driver_unique_violation(*error))),
    {
        let cause = StoreError::from_driver_answer(unique_violation_of(error));
        LedgerError::from_insert_failure(transfer_id, cause)
    }
}

impl From<sqlx::Error> for LedgerError {
    /// Outside an insert every driver error is a storage failure.
    fn from(error: sqlx::Error) -> (mapped: LedgerError) {
        LedgerError::StorageFailure
    }
}

impl vstd::std_specs::convert::FromSpecImpl<sqlx::Error> for LedgerError {
    open spec fn obeys_from_spec() -> bool {
        true
    }

    open spec fn from_spec(error: sqlx::Error) -> LedgerError {
        LedgerError::StorageFailure
    }
}

} // verus!
