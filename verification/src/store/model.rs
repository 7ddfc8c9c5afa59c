//! The store as contracts see it: the rows of the two partitions, what an
//! insert and an update by reference make of them, and why both keep the
//! store's invariant.

use vstd::prelude::*;
use crate::error::PaymentError;
use crate::listing::newest_first;
use crate::models::payment_model::PaymentResponseView;
use crate::store::record::PayerKind;
use crate::store::record::PaymentRecordView;
use crate::store::record::SettlementOutcome;
use crate::store::record::SettlementView;

verus! {

/// Whether some row carries the reference.
pub open spec fn rows_hold_reference(rows: Seq<PaymentRecordView>, reference: Seq<char>) -> bool {
    exists|i: int| 0 <= i < rows.len() && (#[trigger] rows[i]).reference == reference
}

/// Whether some row carries the id.
pub open spec fn rows_hold_id(rows: Seq<PaymentRecordView>, id: Seq<char>) -> bool {
    exists|i: int| 0 <= i < rows.len() && (#[trigger] rows[i]).id == id
}

/// Whether some row carries the settlement's reference and accepts it.
pub open spec fn rows_accept(rows: Seq<PaymentRecordView>, settlement: SettlementView, at: i64) -> bool {
    exists|i: int|
        0 <= i < rows.len() && (#[trigger] rows[i]).reference == settlement.reference
            && rows[i].accepts(settlement, at)
}

/// The number of rows that carry the reference.
pub open spec fn rows_matching(rows: Seq<PaymentRecordView>, reference: Seq<char>) -> nat
    decreases rows.len(),
{
    if rows.len() == 0 {
        0
    } else {
        rows_matching(rows.drop_last(), reference) + if rows.last().reference == reference {
            1nat
        } else {
            0nat
        }
    }
}

/// The number of rows that carry the settlement's reference and accept it.
pub open spec fn rows_accepting(
    rows: Seq<PaymentRecordView>,
    settlement: SettlementView,
    at: i64,
) -> nat
    decreases rows.len(),
{
    if rows.len() == 0 {
        0
    } else {
        rows_accepting(rows.drop_last(), settlement, at) + if rows.last().reference
            == settlement.reference && rows.last().accepts(settlement, at) {
            1nat
        } else {
            0nat
        }
    }
}

/// A partition after an update by reference: every row that carries the
/// reference and accepts the settlement takes it; the others stay.
pub open spec fn rows_updated(
    rows: Seq<PaymentRecordView>,
    settlement: SettlementView,
    at: i64,
) -> Seq<PaymentRecordView> {
    Seq::new(rows.len(), |i: int| rows[i].updated(settlement, at))
}

/// No two rows share a reference, and no two share an id.
pub open spec fn rows_distinct(rows: Seq<PaymentRecordView>) -> bool {
    forall|i: int, j: int|
        0 <= i < j < rows.len() ==> (#[trigger] rows[i]).reference != (#[trigger] rows[j]).reference
            && rows[i].id != rows[j].id
}

/// No row of the one partition shares a reference or an id with a row of the
/// other.
pub open spec fn rows_apart(users: Seq<PaymentRecordView>, drivers: Seq<PaymentRecordView>) -> bool {
    forall|i: int, j: int|
        0 <= i < users.len() && 0 <= j < drivers.len() ==> (#[trigger] users[i]).reference != (
        #[trigger] drivers[j]).reference && users[i].id != drivers[j].id
}

/// The rows of a partition as a listing shows them, in the same order.
pub open spec fn rows_shown(rows: Seq<PaymentRecordView>, kind: PayerKind) -> Seq<
    PaymentResponseView,
> {
    Seq::new(rows.len(), |i: int| rows[i].response(kind))
}

/// The rows that belong to one payer, in the same order.
pub open spec fn rows_of_payer(rows: Seq<PaymentRecordView>, payer_id: Seq<char>) -> Seq<
    PaymentRecordView,
>
    decreases rows.len(),
{
    if rows.len() == 0 {
        Seq::empty()
    } else if rows.last().payer_id == payer_id {
        rows_of_payer(rows.drop_last(), payer_id).push(rows.last())
    } else {
        rows_of_payer(rows.drop_last(), payer_id)
    }
}

/// The store as contracts see it: the rows of each partition, in the order
/// in which they were inserted.
pub struct StoreView {
    pub users: Seq<PaymentRecordView>,
    pub drivers: Seq<PaymentRecordView>,
}

impl StoreView {
    /// The store without records.
    pub open spec fn empty() -> StoreView {
        StoreView { users: Seq::empty(), drivers: Seq::empty() }
    }

    /// The rows of one partition.
    pub open spec fn partition(self, kind: PayerKind) -> Seq<PaymentRecordView> {
        match kind {
            PayerKind::User => self.users,
            PayerKind::Driver => self.drivers,
        }
    }

    /// The rows of both partitions.
    pub open spec fn all(self) -> Seq<PaymentRecordView> {
        self.users + self.drivers
    }

    /// The store's invariant: a reference, and an id, address at most one
    /// record across both partitions.
    pub open spec fn wf(self) -> bool {
        &&& rows_distinct(self.users)
        &&& rows_distinct(self.drivers)
        &&& rows_apart(self.users, self.drivers)
    }

    /// Whether a record of either partition carries the reference.
    pub open spec fn holds_reference(self, reference: Seq<char>) -> bool {
        rows_hold_reference(self.users, reference) || rows_hold_reference(self.drivers, reference)
    }

    /// Whether a record of either partition carries the id.
    pub open spec fn holds_id(self, id: Seq<char>) -> bool {
        rows_hold_id(self.users, id) || rows_hold_id(self.drivers, id)
    }

    /// Whether the record is in the given partition.
    pub open spec fn holds(self, kind: PayerKind, record: PaymentRecordView) -> bool {
        self.partition(kind).contains(record)
    }

    /// The store with one partition replaced.
    pub open spec fn with_partition(self, kind: PayerKind, rows: Seq<PaymentRecordView>) -> StoreView {
        match kind {
            PayerKind::User => StoreView { users: rows, ..self },
            PayerKind::Driver => StoreView { drivers: rows, ..self },
        }
    }

    /// The store after a new pending record went into a partition.
    pub open spec fn inserted(self, kind: PayerKind, record: PaymentRecordView) -> StoreView {
        self.with_partition(kind, self.partition(kind).push(record.as_pending()))
    }

    /// The store after one partition was updated by reference.
    pub open spec fn partition_updated(
        self,
        kind: PayerKind,
        settlement: SettlementView,
        at: i64,
    ) -> StoreView {
        self.with_partition(kind, rows_updated(self.partition(kind), settlement, at))
    }

    /// The store after a settlement was probed against both partitions.
    pub open spec fn settled(self, settlement: SettlementView, at: i64) -> StoreView {
        StoreView {
            users: rows_updated(self.users, settlement, at),
            drivers: rows_updated(self.drivers, settlement, at),
        }
    }

    /// Whether the record that a settlement addresses would take it.
    pub open spec fn accepts(self, settlement: SettlementView, at: i64) -> bool {
        rows_accept(self.users, settlement, at) || rows_accept(self.drivers, settlement, at)
    }

    /// Every payment, newest first; of payments created at the same time,
    /// users' stand before drivers', and those of one partition in the order
    /// in which they were stored.
    pub open spec fn listing(self) -> Seq<PaymentResponseView> {
        newest_first(
            rows_shown(self.users, PayerKind::User) + rows_shown(self.drivers, PayerKind::Driver),
        )
    }

    /// The payments of one payer, newest first.
    pub open spec fn listing_of(self, kind: PayerKind, payer_id: Seq<char>) -> Seq<
        PaymentResponseView,
    > {
        newest_first(rows_shown(rows_of_payer(self.partition(kind), payer_id), kind))
    }

    /// What applying a settlement does: the outcome, and the store after it.
    /// An unknown reference is `ReferenceNotFound`; a settlement that the
    /// record does not accept is `Superseded`; either way the store stays as
    /// it was.
    pub open spec fn after_settlement(self, settlement: SettlementView, at: i64) -> (
        Result<SettlementOutcome, PaymentError>,
        StoreView,
    ) {
        if !self.holds_reference(settlement.reference) {
            (Err(PaymentError::ReferenceNotFound), self)
        } else if self.accepts(settlement, at) {
            (Ok(SettlementOutcome::Applied), self.settled(settlement, at))
        } else {
            (Ok(SettlementOutcome::Superseded), self)
        }
    }

    /// The record that carries the reference, with its partition.
    pub open spec fn lookup(self, reference: Seq<char>) -> Option<(PayerKind, PaymentRecordView)> {
        if rows_hold_reference(self.users, reference) {
            let i = choose|i: int|
                0 <= i < self.users.len() && (#[trigger] self.users[i]).reference == reference;
            Some((PayerKind::User, self.users[i]))
        } else if rows_hold_reference(self.drivers, reference) {
            let i = choose|i: int|
                0 <= i < self.drivers.len() && (#[trigger] self.drivers[i]).reference == reference;
            Some((PayerKind::Driver, self.drivers[i]))
        } else {
            None
        }
    }
}

/// Rows are matched exactly where some row carries the reference.
pub proof fn lemma_rows_matching(rows: Seq<PaymentRecordView>, reference: Seq<char>)
    ensures
        rows_matching(rows, reference) <= rows.len(),
        (rows_matching(rows, reference) == 0) == !rows_hold_reference(rows, reference),
    decreases rows.len(),
{
    if rows.len() > 0 {
        let front = rows.drop_last();
        lemma_rows_matching(front, reference);
        if rows_hold_reference(rows, reference) {
            let i = choose|i: int| 0 <= i < rows.len() && (#[trigger] rows[i]).reference == reference;
            if i < rows.len() - 1 {
                assert(front[i].reference == reference);
            }
        }
        if rows_hold_reference(front, reference) {
            let i = choose|i: int|
                0 <= i < front.len() && (#[trigger] front[i]).reference == reference;
            assert(rows[i].reference == reference);
        }
        if rows.last().reference == reference {
            assert(rows[rows.len() - 1].reference == reference);
        }
    }
}

/// Rows took the settlement exactly where some row carries its reference and
/// accepts it; where none does, the update changes nothing.
pub proof fn lemma_rows_accepting(rows: Seq<PaymentRecordView>, settlement: SettlementView, at: i64)
    ensures
        rows_accepting(rows, settlement, at) <= rows_matching(rows, settlement.reference),
        (rows_accepting(rows, settlement, at) == 0) == !rows_accept(rows, settlement, at),
        rows_accepting(rows, settlement, at) == 0 ==> rows_updated(rows, settlement, at) == rows,
    decreases rows.len(),
{
    if rows.len() > 0 {
        let front = rows.drop_last();
        lemma_rows_accepting(front, settlement, at);
        if rows_accept(rows, settlement, at) {
            let i = choose|i: int|
                0 <= i < rows.len() && (#[trigger] rows[i]).reference == settlement.reference
                    && rows[i].accepts(settlement, at);
            if i < rows.len() - 1 {
                assert(front[i].reference == settlement.reference);
            }
        }
        if rows_accept(front, settlement, at) {
            let i = choose|i: int|
                0 <= i < front.len() && (#[trigger] front[i]).reference == settlement.reference
                    && front[i].accepts(settlement, at);
            assert(rows[i].reference == settlement.reference);
        }
        if rows.last().reference == settlement.reference && rows.last().accepts(settlement, at) {
            assert(rows[rows.len() - 1].reference == settlement.reference);
        }
        if rows_accepting(rows, settlement, at) == 0 {
            assert forall|k: int| 0 <= k < rows.len() implies rows[k].updated(settlement, at)
                == rows[k] by {
                if rows[k].reference == settlement.reference && rows[k].accepts(settlement, at) {
                    assert(false);
                }
            }
            assert(rows_updated(rows, settlement, at) =~= rows);
        }
    } else {
        assert(rows_updated(rows, settlement, at) =~= rows);
    }
}

/// An update by reference changes no reference and no id, so it keeps the
/// store's invariant and what the store holds.
pub proof fn lemma_update_keeps(store: StoreView, kind: PayerKind, settlement: SettlementView, at: i64)
    requires
        store.wf(),
    ensures
        store.partition_updated(kind, settlement, at).wf(),
        forall|reference: Seq<char>|
            store.partition_updated(kind, settlement, at).holds_reference(reference)
                == store.holds_reference(reference),
{
    let after = store.partition_updated(kind, settlement, at);
    let rows = store.partition(kind);
    let updated = rows_updated(rows, settlement, at);
    assert forall|k: int| 0 <= k < rows.len() implies (#[trigger] updated[k]).reference
        == rows[k].reference && updated[k].id == rows[k].id by {}
    assert forall|reference: Seq<char>|
        rows_hold_reference(updated, reference) == rows_hold_reference(rows, reference) by {
        if rows_hold_reference(updated, reference) {
            let i = choose|i: int|
                0 <= i < updated.len() && (#[trigger] updated[i]).reference == reference;
            assert(rows[i].reference == reference);
        }
        if rows_hold_reference(rows, reference) {
            let i = choose|i: int| 0 <= i < rows.len() && (#[trigger] rows[i]).reference == reference;
            assert(updated[i].reference == reference);
        }
    }
    assert(rows_distinct(updated)) by {
        assert forall|i: int, j: int| 0 <= i < j < updated.len() implies (#[trigger] updated[i]).reference
            != (#[trigger] updated[j]).reference && updated[i].id != updated[j].id by {
            assert(rows[i].reference != rows[j].reference && rows[i].id != rows[j].id);
        }
    }
    match kind {
        PayerKind::User => {
            assert forall|i: int, j: int|
                0 <= i < updated.len() && 0 <= j < store.drivers.len() implies (
            #[trigger] updated[i]).reference != (#[trigger] store.drivers[j]).reference
                && updated[i].id != store.drivers[j].id by {
                assert(rows[i].reference != store.drivers[j].reference);
            }
        },
        PayerKind::Driver => {
            assert forall|i: int, j: int|
                0 <= i < store.users.len() && 0 <= j < updated.len() implies (
            #[trigger] store.users[i]).reference != (#[trigger] updated[j]).reference
                && store.users[i].id != updated[j].id by {
                assert(store.users[i].reference != rows[j].reference);
            }
        },
    }
}

/// A record whose reference and id the store does not hold keeps the
/// invariant when it goes in.
pub proof fn lemma_insert_keeps(store: StoreView, kind: PayerKind, record: PaymentRecordView)
    requires
        store.wf(),
        !store.holds_reference(record.reference),
        !store.holds_id(record.id),
    ensures
        store.inserted(kind, record).wf(),
{
    let row = record.as_pending();
    let rows = store.partition(kind);
    let grown = rows.push(row);
    assert forall|i: int| 0 <= i < store.users.len() implies (#[trigger] store.users[i]).reference
        != row.reference && store.users[i].id != row.id by {}
    assert forall|i: int| 0 <= i < store.drivers.len() implies (#[trigger] store.drivers[i]).reference
        != row.reference && store.drivers[i].id != row.id by {}
    assert(rows_distinct(grown)) by {
        assert forall|i: int, j: int| 0 <= i < j < grown.len() implies (#[trigger] grown[i]).reference
            != (#[trigger] grown[j]).reference && grown[i].id != grown[j].id by {
            if j < rows.len() {
                assert(rows[i].reference != rows[j].reference && rows[i].id != rows[j].id);
            } else {
                assert(rows[i].reference != row.reference && rows[i].id != row.id);
            }
        }
    }
    match kind {
        PayerKind::User => {
            assert forall|i: int, j: int|
                0 <= i < grown.len() && 0 <= j < store.drivers.len() implies (#[trigger] grown[i]).reference
                != (#[trigger] store.drivers[j]).reference && grown[i].id != store.drivers[j].id by {
                if i < rows.len() {
                    assert(rows[i].reference != store.drivers[j].reference);
                }
            }
        },
        PayerKind::Driver => {
            assert forall|i: int, j: int|
                0 <= i < store.users.len() && 0 <= j < grown.len() implies (
            #[trigger] store.users[i]).reference != (#[trigger] grown[j]).reference
                && store.users[i].id != grown[j].id by {
                if j < rows.len() {
                    assert(store.users[i].reference != rows[j].reference);
                }
            }
        },
    }
}

} // verus!
