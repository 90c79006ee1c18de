use payment_ledger::columns::{amount_column, record_from_columns};
use payment_ledger::error::LedgerError;
use payment_ledger::payment::PaymentRecord;
use payment_ledger::status::TransferStatus;
use payment_ledger::payment::NewPaymentRequest;
use payment_ledger::transfers::canonicalize_request;
use sqlx::{Connection, Row, SqliteConnection};

const SCHEMA: &str = "CREATE TABLE payments (\
    txid TEXT NOT NULL UNIQUE, \
    sender TEXT NOT NULL, \
    amount INTEGER NOT NULL CHECK (amount >= 0), \
    memo TEXT, \
    status TEXT NOT NULL DEFAULT 'Received')";

const INSERT: &str = "INSERT INTO payments (txid, sender, amount, memo) VALUES ($1, $2, $3, $4) RETURNING txid";

async fn open() -> SqliteConnection {
    let mut conn = SqliteConnection::connect("sqlite::memory:").await.unwrap();
    sqlx::query(SCHEMA).execute(&mut conn).await.unwrap();
    conn
}

async fn insert(request: NewPaymentRequest, amount: i64, conn: &mut SqliteConnection) -> Result<String, LedgerError> {
    let record = canonicalize_request(request);
    let outcome = sqlx::query(INSERT)
        .bind(record.transfer_id.clone())
        .bind(record.sender.clone())
        .bind(amount)
        .bind(record.memo.clone())
        .fetch_one(conn)
        .await;
    match outcome {
        Ok(row) => Ok(row.get::<String, _>("txid")),
        Err(error) => Err(LedgerError::from_insert_driver_error(record.transfer_id, &error)),
    }
}

fn run<F: std::future::Future>(future: F) -> F::Output {
    tokio::runtime::Builder::new_current_thread().enable_all().build().unwrap().block_on(future)
}

#[test]
fn sqlite_reports_the_second_insert_as_a_duplicate() {
    run(async {
        let mut conn = open().await;
        let request = NewPaymentRequest::new("tx1".to_string(), "addr_hex_1".to_string(), 1000, None);
        assert_eq!(insert(request.clone(), 1000, &mut conn).await, Ok("tx1".to_string()));
        assert_eq!(
            insert(request, 1000, &mut conn).await,
            Err(LedgerError::PaymentAlreadyExists("tx1".to_string()))
        );
    });
}

#[test]
fn sqlite_check_violation_is_a_storage_failure() {
    run(async {
        let mut conn = open().await;
        let request = NewPaymentRequest::new("tx1".to_string(), "addr_hex_1".to_string(), 0, None);
        assert_eq!(insert(request, -1, &mut conn).await, Err(LedgerError::StorageFailure));
    });
}

#[test]
fn sqlite_errors_other_than_a_unique_violation_are_storage_failures() {
    run(async {
        let mut conn = open().await;
        let null_sender = sqlx::query(INSERT)
            .bind("tx1")
            .bind(None::<String>)
            .bind(1i64)
            .bind("m")
            .fetch_one(&mut conn)
            .await;
        assert_eq!(
            LedgerError::from_insert_driver_error("tx1".to_string(), &null_sender.err().unwrap()),
            LedgerError::StorageFailure
        );
        let missing = sqlx::query("SELECT * FROM nowhere").fetch_one(&mut conn).await;
        assert_eq!(
            LedgerError::from_insert_driver_error("tx1".to_string(), &missing.err().unwrap()),
            LedgerError::StorageFailure
        );
    });
}

#[test]
fn sqlite_stores_the_canonical_sender() {
    run(async {
        let mut conn = open().await;
        let base58 = "1324yPceFvbksLKQ8JE6APDzVY2D6P3SpXwB5LLC3BH4F7oy";
        let request = NewPaymentRequest::new("tx1".to_string(), base58.to_string(), 7, Some("memo".to_string()));
        assert_eq!(insert(request, 7, &mut conn).await, Ok("tx1".to_string()));
        let row = sqlx::query("SELECT sender, amount, memo, status FROM payments WHERE txid = $1")
            .bind("tx1")
            .fetch_one(&mut conn)
            .await
            .unwrap();
        assert_eq!(
            row.get::<String, _>("sender"),
            "0002d09dfde45e45456b7a8935fecfc0ebea431548d105d2f098a488820526395a615c"
        );
        assert_eq!(row.get::<i64, _>("amount"), 7);
        assert_eq!(row.get::<Option<String>, _>("memo"), Some("memo".to_string()));
        assert_eq!(TransferStatus::from_text(&row.get::<String, _>("status")), Some(TransferStatus::Received));
    });
}

#[test]
fn sqlite_round_trip_with_status_update() {
    run(async {
        let mut conn = open().await;
        let request = NewPaymentRequest::new("tx1".to_string(), "addr_hex_1".to_string(), 1000, None);
        let amount = amount_column(request.amount).unwrap();
        assert_eq!(insert(request, amount, &mut conn).await, Ok("tx1".to_string()));
        let updated = sqlx::query("UPDATE payments SET status = $1 WHERE txid = $2")
            .bind(TransferStatus::Confirmed.as_str())
            .bind("tx1")
            .execute(&mut conn)
            .await
            .unwrap();
        assert_eq!(updated.rows_affected(), 1);
        let missed = sqlx::query("UPDATE payments SET status = $1 WHERE txid = $2")
            .bind(TransferStatus::Confirmed.as_str())
            .bind("tx2")
            .execute(&mut conn)
            .await
            .unwrap();
        assert_eq!(missed.rows_affected(), 0);
        let row = sqlx::query("SELECT * FROM payments WHERE txid = ?").bind("tx1").fetch_one(&mut conn).await.unwrap();
        let status: String = row.get("status");
        let read = record_from_columns(row.get("txid"), row.get("sender"), row.get("amount"), row.get("memo"), &status);
        assert_eq!(
            read,
            Ok(PaymentRecord {
                transfer_id: "tx1".to_string(),
                sender: "addr_hex_1".to_string(),
                amount: 1000,
                memo: None,
                status: TransferStatus::Confirmed,
            })
        );
    });
}
