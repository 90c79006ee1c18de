//! The payment record store: one table of records, keyed by a unique
//! transfer identifier.

use vstd::prelude::*;

use crate::error::StoreError;
use crate::model::{
    by_sender, contains_id, lemma_lookup_at, lemma_push_keeps_unique, lemma_with_status_absent,
    lemma_with_status_keeps_ids, lookup, row_with_status, unique_ids, with_created, with_status,
};
use crate::payment::{NewPaymentRequest, PaymentRecord, PaymentRecordView};
use crate::status::TransferStatus;

verus! {

/// The views of a vector of records, in order.
pub open spec fn record_views(records: Seq<PaymentRecord>) -> Seq<PaymentRecordView> {
    records.map_values(|record: PaymentRecord| record@)
}

/// A table of payment records. Its view is the sequence of its rows in the
/// order of their creation; no two rows share a transfer identifier.
pub struct PaymentStore {
    rows: Vec<PaymentRecord>,
}

impl View for PaymentStore {
    type V = Seq<PaymentRecordView>;

    closed spec fn view(&self) -> Seq<PaymentRecordView> {
        record_views(self.rows@)
    }
}

impl PaymentStore {
    #[verifier::type_invariant]
    spec fn ids_are_unique(self) -> bool {
        unique_ids(record_views(self.rows@))
    }

    /// An empty table.
    pub fn new() -> (store: PaymentStore)
        ensures
            store@ == Seq::<PaymentRecordView>::empty(),
    {
        let store = PaymentStore { rows: Vec::new() };
        assert(store@ =~= Seq::<PaymentRecordView>::empty());
        store
    }

    /// The number of rows.
    pub fn len(&self) -> (count: usize)
        ensures
            count == self@.len(),
            unique_ids(self@),
    {
        proof {
            use_type_invariant(self);
        }
        self.rows.len()
    }

    /// Moves the rows out and leaves the table empty, so that they can be
    /// changed and put back as a whole.
    fn take_rows(&mut self) -> (rows: Vec<PaymentRecord>)
        ensures
            rows@ == old(self).rows@,
            final(self).rows@ == Seq::<PaymentRecord>::empty(),
    {
        let mut rows = Vec::new();
        std::mem::swap(&mut rows, &mut self.rows);
        rows
    }

    /// The index of the row with the identifier `id`.
    fn position(&self, id: &String) -> (found: Option<usize>)
        ensures
            match found {
                Some(i) => i < self@.len() && self@[i as int].transfer_id == id@,
                None => !contains_id(self@, id@),
            },
    {
        let mut i: usize = 0;
        while i < self.rows.len()
            invariant
                i <= self.rows.len(),
                forall|k: int| 0 <= k < i ==> (#[trigger] self@[k]).transfer_id != id@,
            decreases self.rows.len() - i,
        {
            if self.rows[i].transfer_id == *id {
                return Some(i);
            }
            i += 1;
        }
        None
    }

    /// Creates the row for a request, with the initial status and every
    /// other field as the request gives it. A request whose transfer
    /// identifier is already present is turned down with
    /// `DuplicateKeyViolation` and the table stays as it was; otherwise the
    /// row is appended and its identifier returned.
    pub fn create(&mut self, request: NewPaymentRequest) -> (created: Result<String, StoreError>)
        ensures
            unique_ids(final(self)@),
            final(self)@ == with_created(old(self)@, request@),
            match created {
                Ok(id) => !contains_id(old(self)@, request@.transfer_id) && id@ == request@.transfer_id,
                Err(cause) => contains_id(old(self)@, request@.transfer_id) && cause
                    == StoreError::DuplicateKeyViolation,
            },
    {
        proof {
            use_type_invariant(&*self);
        }
        match self.position(&request.transfer_id) {
            Some(_) => Err(StoreError::DuplicateKeyViolation),
            None => {
                let id = request.transfer_id.clone();
                let record = PaymentRecord {
                    transfer_id: request.transfer_id,
                    sender: request.sender,
                    amount: request.amount,
                    memo: request.memo,
                    status: TransferStatus::initial(),
                };
                proof {
                    lemma_push_keeps_unique(self@, record@);
                    assert(record_views(self.rows@.push(record)) =~= record_views(self.rows@).push(record@));
                }
                let mut rows = self.take_rows();
                rows.push(record);
                self.rows = rows;
                Ok(id)
            },
        }
    }

    /// Sets the status of the row with the identifier `id` and returns the
    /// number of rows that it changed: one, or none where no row carries
    /// the identifier. No other field of any row changes.
    pub fn update_status(&mut self, id: &str, status: TransferStatus) -> (affected: usize)
        ensures
            unique_ids(final(self)@),
            final(self)@ == with_status(old(self)@, id@, status),
            affected == (if contains_id(old(self)@, id@) { 1usize } else { 0usize }),
    {
        proof {
            use_type_invariant(&*self);
            lemma_with_status_keeps_ids(self@, id@, status);
        }
        let key = id.to_owned();
        match self.position(&key) {
            None => {
                proof {
                    lemma_with_status_absent(self@, id@, status);
                }
                0
            },
            Some(i) => {
                let ghost before = self@;
                let mut rows = self.take_rows();
                rows[i].status = status;
                proof {
                    let after = record_views(rows@);
                    assert(before[i as int].transfer_id == id@);
                    assert forall|k: int| 0 <= k < before.len() implies after[k] == row_with_status(
                        before[k],
                        id@,
                        status,
                    ) by {
                        if k != i as int {
                            if k < i as int {
                                assert(before[k].transfer_id != before[i as int].transfer_id);
                            } else {
                                assert(before[i as int].transfer_id != before[k].transfer_id);
                            }
                        }
                    }
                    assert(after =~= with_status(before, id@, status));
                }
                self.rows = rows;
                1
            },
        }
    }

    /// The row with the identifier `id`, or `None` where there is none.
    pub fn get(&self, id: &str) -> (found: Option<PaymentRecord>)
        ensures
            unique_ids(self@),
            match found {
                Some(record) => lookup(self@, id@) == Some(record@),
                None => lookup(self@, id@).is_none(),
            },
    {
        proof {
            use_type_invariant(self);
        }
        let key = id.to_owned();
        match self.position(&key) {
            None => None,
            Some(i) => {
                proof {
                    lemma_lookup_at(self@, i as int);
                }
                Some(self.rows[i].clone())
            },
        }
    }

    /// The rows whose sender is `sender`, in the order of their creation;
    /// empty where there are none.
    pub fn get_by_sender(&self, sender: &str) -> (found: Vec<PaymentRecord>)
        ensures
            unique_ids(self@),
            record_views(found@) == by_sender(self@, sender@),
    {
        proof {
            use_type_invariant(self);
        }
        let key = sender.to_owned();
        let ghost wanted = |row: PaymentRecordView| row.sender == sender@;
        let mut found: Vec<PaymentRecord> = Vec::new();
        let mut i: usize = 0;
        proof {
            assert(self@.take(0) =~= Seq::<PaymentRecordView>::empty());
            assert(record_views(found@) =~= Seq::<PaymentRecordView>::empty());
            reveal(Seq::filter);
        }
        while i < self.rows.len()
            invariant
                i <= self.rows.len(),
                key@ == sender@,
                wanted == (|row: PaymentRecordView| row.sender == sender@),
                record_views(found@) == self@.take(i as int).filter(wanted),
            decreases self.rows.len() - i,
        {
            proof {
                assert(self@.take(i as int + 1) =~= self@.take(i as int).push(self@[i as int]));
                self@.take(i as int).lemma_filter_push(self@[i as int], wanted);
            }
            if self.rows[i].sender == key {
                let record = self.rows[i].clone();
                proof {
                    assert(record_views(found@.push(record)) =~= record_views(found@).push(record@));
                }
                found.push(record);
            }
            i += 1;
        }
        proof {
            assert(self@.take(i as int) =~= self@);
        }
        found
    }
}

} // verus!
