//! The payment store: payment records keyed by the gateway's reference, kept
//! in two partitions by the kind of payer, with the writes that settlement
//! needs and the reads that listing needs.
//!
//! A reference addresses at most one record across both partitions, because a
//! settlement arrives without saying whose payment it settles.

pub mod model;
pub mod record;

use vstd::prelude::*;
use vstd::string::StringExecFns;
use crate::error::PaymentError;
use crate::listing::is_newest_first;
use crate::listing::lemma_newest_first;
use crate::listing::newest_first;
use crate::listing::place;
use crate::listing::responses_view;
use crate::models::payment_model::PaymentResponse;
use crate::models::payment_model::PaymentResponseView;
use crate::store::model::lemma_insert_keeps;
use crate::store::model::lemma_rows_accepting;
use crate::store::model::lemma_rows_matching;
use crate::store::model::lemma_update_keeps;
use crate::store::model::rows_accepting;
use crate::store::model::rows_hold_id;
use crate::store::model::rows_hold_reference;
use crate::store::model::rows_matching;
use crate::store::model::rows_of_payer;
use crate::store::model::rows_shown;
use crate::store::model::rows_updated;
use crate::store::model::StoreView;
use crate::store::record::copy_record;
use crate::store::record::records_view;
use crate::store::record::settlement_outcome;
use crate::store::record::PayerKind;
use crate::store::record::PaymentRecord;
use crate::store::record::RowsAffected;
use crate::store::record::Settlement;
use crate::store::record::SettlementOutcome;
use crate::text::copy_optional_bytes;
use crate::text::copy_optional_text;
use crate::text::text_eq;

verus! {

/// Whether some row carries the reference.
fn partition_holds_reference(rows: &Vec<PaymentRecord>, reference: &str) -> (found: bool)
    ensures
        found == rows_hold_reference(records_view(rows@), reference@),
{
    let mut i: usize = 0;
    while i < rows.len()
        invariant
            i <= rows.len(),
            forall|k: int| 0 <= k < i ==> (#[trigger] records_view(rows@)[k]).reference != reference@,
        decreases rows.len() - i,
    {
        if text_eq(rows[i].reference.as_str(), reference) {
            assert(records_view(rows@)[i as int].reference == reference@);
            return true;
        }
        i += 1;
    }
    false
}

/// Whether some row carries the id.
fn partition_holds_id(rows: &Vec<PaymentRecord>, id: &str) -> (found: bool)
    ensures
        found == rows_hold_id(records_view(rows@), id@),
{
    let mut i: usize = 0;
    while i < rows.len()
        invariant
            i <= rows.len(),
            forall|k: int| 0 <= k < i ==> (#[trigger] records_view(rows@)[k]).id != id@,
        decreases rows.len() - i,
    {
        if text_eq(rows[i].id.as_str(), id) {
            assert(records_view(rows@)[i as int].id == id@);
            return true;
        }
        i += 1;
    }
    false
}

/// Updates the rows of one partition by reference.
fn update_rows(rows: &mut Vec<PaymentRecord>, settlement: &Settlement, at: i64) -> (affected:
    RowsAffected)
    ensures
        records_view(final(rows)@) == rows_updated(records_view(old(rows)@), settlement@, at),
        affected.matched == rows_matching(records_view(old(rows)@), settlement@.reference),
        affected.updated == rows_accepting(records_view(old(rows)@), settlement@, at),
{
    let ghost before = records_view(rows@);
    let mut matched: u64 = 0;
    let mut updated: u64 = 0;
    let mut i: usize = 0;
    while i < rows.len()
        invariant
            i <= rows.len(),
            rows.len() == before.len(),
            matched <= i,
            updated <= i,
            matched == rows_matching(before.take(i as int), settlement@.reference),
            updated == rows_accepting(before.take(i as int), settlement@, at),
            forall|k: int| 0 <= k < i ==> (#[trigger] records_view(rows@)[k]) == before[k].updated(settlement@, at),
            forall|k: int| i <= k < rows.len() ==> (#[trigger] records_view(rows@)[k]) == before[k],
        decreases rows.len() - i,
    {
        assert(before.take(i + 1).drop_last() =~= before.take(i as int));
        assert(records_view(rows@)[i as int] == before[i as int]);
        let ghost others = records_view(rows@);
        if text_eq(rows[i].reference.as_str(), settlement.reference.as_str()) {
            matched += 1;
            if rows[i].accepts(settlement, at) {
                updated += 1;
                rows[i].status = settlement.status.clone();
                rows[i].gateway_response = copy_optional_text(&settlement.gateway_response);
                rows[i].raw_payload = copy_optional_bytes(&settlement.raw_payload);
                rows[i].updated_at = at;
                assert(records_view(rows@)[i as int] == before[i as int].settled(settlement@, at));
            }
        }
        assert forall|k: int| 0 <= k < rows.len() && k != i implies (#[trigger] records_view(
            rows@,
        )[k]) == others[k] by {}
        i += 1;
    }
    assert(before.take(before.len() as int) =~= before);
    assert(records_view(rows@) =~= rows_updated(before, settlement@, at));
    RowsAffected { matched, updated }
}

/// Where the first row that carries the reference stands.
fn find_row(rows: &Vec<PaymentRecord>, reference: &str) -> (at: Option<usize>)
    ensures
        at is Some == rows_hold_reference(records_view(rows@), reference@),
        at matches Some(i) ==> i < rows.len() && records_view(rows@)[i as int].reference
            == reference@,
{
    let mut i: usize = 0;
    while i < rows.len()
        invariant
            i <= rows.len(),
            forall|k: int| 0 <= k < i ==> (#[trigger] records_view(rows@)[k]).reference != reference@,
        decreases rows.len() - i,
    {
        if text_eq(rows[i].reference.as_str(), reference) {
            assert(records_view(rows@)[i as int].reference == reference@);
            return Some(i);
        }
        i += 1;
    }
    None
}

/// Places the rows of a partition, in their order, into a listing that holds
/// the payments `placed_before` in order.
fn place_rows(
    listing: &mut Vec<PaymentResponse>,
    rows: &Vec<PaymentRecord>,
    kind: PayerKind,
    Ghost(placed_before): Ghost<Seq<PaymentResponseView>>,
)
    requires
        responses_view(old(listing)@) == newest_first(placed_before),
    ensures
        responses_view(final(listing)@) == newest_first(
            placed_before + rows_shown(records_view(rows@), kind),
        ),
{
    let ghost shown = rows_shown(records_view(rows@), kind);
    let mut i: usize = 0;
    assert(placed_before + shown.take(0) =~= placed_before);
    while i < rows.len()
        invariant
            i <= rows.len(),
            shown == rows_shown(records_view(rows@), kind),
            responses_view(listing@) == newest_first(placed_before + shown.take(i as int)),
        decreases rows.len() - i,
    {
        let payment = rows[i].to_response(kind);
        proof {
            let next = placed_before + shown.take(i + 1);
            assert(next.drop_last() =~= placed_before + shown.take(i as int));
            assert(next.last() == payment@);
        }
        place(listing, payment);
        i += 1;
    }
    assert(shown.take(shown.len() as int) =~= shown);
}

/// Places the rows of one payer, in their order, into an empty listing.
fn place_rows_of_payer(rows: &Vec<PaymentRecord>, kind: PayerKind, payer_id: &str) -> (listing: Vec<
    PaymentResponse,
>)
    ensures
        responses_view(listing@) == newest_first(
            rows_shown(rows_of_payer(records_view(rows@), payer_id@), kind),
        ),
{
    let ghost all = records_view(rows@);
    let mut listing: Vec<PaymentResponse> = Vec::new();
    let mut i: usize = 0;
    assert(all.take(0) =~= Seq::empty());
    assert(rows_shown(Seq::empty(), kind) =~= Seq::empty());
    assert(responses_view(listing@) =~= Seq::empty());
    while i < rows.len()
        invariant
            i <= rows.len(),
            all == records_view(rows@),
            responses_view(listing@) == newest_first(
                rows_shown(rows_of_payer(all.take(i as int), payer_id@), kind),
            ),
        decreases rows.len() - i,
    {
        proof {
            assert(all.take(i + 1).drop_last() =~= all.take(i as int));
            assert(all.take(i + 1).last() == rows[i as int]@);
        }
        if text_eq(rows[i].payer_id.as_str(), payer_id) {
            let payment = rows[i].to_response(kind);
            proof {
                let earlier = rows_of_payer(all.take(i as int), payer_id@);
                let next = rows_shown(earlier.push(rows[i as int]@), kind);
                assert(next.drop_last() =~= rows_shown(earlier, kind));
                assert(next.last() == payment@);
            }
            place(&mut listing, payment);
        }
        i += 1;
    }
    assert(all.take(all.len() as int) =~= all);
    listing
}

/// The payment store. Its rows can be reached only through its methods,
/// which keep a reference, and an id, from addressing two records.
pub struct PaymentStore {
    user_payments: Vec<PaymentRecord>,
    driver_payments: Vec<PaymentRecord>,
}

impl View for PaymentStore {
    type V = StoreView;

    closed spec fn view(&self) -> StoreView {
        StoreView {
            users: records_view(self.user_payments@),
            drivers: records_view(self.driver_payments@),
        }
    }
}

impl PaymentStore {
    /// What every store keeps: a reference, and an id, address at most one
    /// record across both partitions.
    #[verifier::type_invariant]
    spec fn well_formed(self) -> bool {
        self@.wf()
    }

    /// A store without records.
    pub fn new() -> (store: PaymentStore)
        ensures
            store@ == StoreView::empty(),
            store@.wf(),
    {
        let store = PaymentStore { user_payments: Vec::new(), driver_payments: Vec::new() };
        assert(store@.users =~= Seq::empty());
        assert(store@.drivers =~= Seq::empty());
        store
    }

    /// The number of records of one partition.
    pub fn len(&self, kind: PayerKind) -> (n: usize)
        ensures
            n == self@.partition(kind).len(),
    {
        match kind {
            PayerKind::User => self.user_payments.len(),
            PayerKind::Driver => self.driver_payments.len(),
        }
    }

    /// Whether a record of either partition carries the reference.
    pub fn holds_reference(&self, reference: &str) -> (found: bool)
        ensures
            found == self@.holds_reference(reference@),
    {
        partition_holds_reference(&self.user_payments, reference) || partition_holds_reference(
            &self.driver_payments,
            reference,
        )
    }

    /// Whether a record of either partition carries the id.
    pub fn holds_id(&self, id: &str) -> (found: bool)
        ensures
            found == self@.holds_id(id@),
    {
        partition_holds_id(&self.user_payments, id) || partition_holds_id(&self.driver_payments, id)
    }

    /// Stores a new record in status `pending` in the partition `kind`.
    ///
    /// The write is refused with `PersistenceError`, and the store left as it
    /// was, exactly when a record already carries the reference or the id.
    /// What goes in is the record as first stored: pending, with no gateway
    /// response and no raw payload, last touched at its creation.
    pub fn insert_pending(&mut self, kind: PayerKind, record: PaymentRecord) -> (result: Result<
        (),
        PaymentError,
    >)
        ensures
            old(self)@.wf(),
            final(self)@.wf(),
            result is Ok == (!old(self)@.holds_reference(record@.reference) && !old(self)@.holds_id(
                record@.id,
            )),
            result is Ok ==> final(self)@ == old(self)@.inserted(kind, record@),
            result is Err ==> result == Err::<(), PaymentError>(PaymentError::PersistenceError)
                && final(self)@ == old(self)@,
    {
        proof {
            use_type_invariant(&*self);
        }
        if self.holds_reference(record.reference.as_str()) || self.holds_id(record.id.as_str()) {
            return Err(PaymentError::PersistenceError);
        }
        let mut row = record;
        row.status = String::from_str("pending");
        row.gateway_response = None;
        row.raw_payload = None;
        row.updated_at = row.created_at;
        assert(row@ == record@.as_pending());
        proof {
            lemma_insert_keeps(self@, kind, record@);
        }
        let mut rows: Vec<PaymentRecord> = Vec::new();
        match kind {
            PayerKind::User => {
                core::mem::swap(&mut self.user_payments, &mut rows);
                assert(records_view(rows@.push(row)) =~= records_view(rows@).push(row@));
                rows.push(row);
                self.user_payments = rows;
            },
            PayerKind::Driver => {
                core::mem::swap(&mut self.driver_payments, &mut rows);
                assert(records_view(rows@.push(row)) =~= records_view(rows@).push(row@));
                rows.push(row);
                self.driver_payments = rows;
            },
        }
        Ok(())
    }

    /// Updates one partition by reference: every row of the partition that
    /// carries the settlement's reference and accepts the settlement takes
    /// its status, gateway response and raw payload, and `at` as the time of
    /// its last change. Returns how many rows carry the reference and how
    /// many of them changed.
    pub fn update_by_reference(&mut self, kind: PayerKind, settlement: &Settlement, at: i64) -> (affected:
        RowsAffected)
        ensures
            old(self)@.wf(),
            final(self)@.wf(),
            final(self)@ == old(self)@.partition_updated(kind, settlement@, at),
            affected.matched == rows_matching(old(self)@.partition(kind), settlement@.reference),
            affected.updated == rows_accepting(old(self)@.partition(kind), settlement@, at),
    {
        proof {
            use_type_invariant(&*self);
            lemma_update_keeps(self@, kind, settlement@, at);
        }
        let mut rows: Vec<PaymentRecord> = Vec::new();
        match kind {
            PayerKind::User => {
                core::mem::swap(&mut self.user_payments, &mut rows);
                let affected = update_rows(&mut rows, settlement, at);
                self.user_payments = rows;
                affected
            },
            PayerKind::Driver => {
                core::mem::swap(&mut self.driver_payments, &mut rows);
                let affected = update_rows(&mut rows, settlement, at);
                self.driver_payments = rows;
                affected
            },
        }
    }

    /// Applies a settlement: both partitions are probed by the settlement's
    /// reference, whatever the first probe found.
    ///
    /// Fails with `ReferenceNotFound`, leaving every record as it was, exactly
    /// when no record of either partition carries the reference. Otherwise the
    /// record that carries it takes the settlement (`Applied`) if it accepts
    /// it, and stays as it was (`Superseded`) if it does not. No other record
    /// changes, and no row is added or removed.
    pub fn apply_settlement(&mut self, settlement: &Settlement, at: i64) -> (result: Result<
        SettlementOutcome,
        PaymentError,
    >)
        ensures
            old(self)@.wf(),
            final(self)@.wf(),
            final(self)@ == old(self)@.settled(settlement@, at),
            result == old(self)@.after_settlement(settlement@, at).0,
            final(self)@ == old(self)@.after_settlement(settlement@, at).1,
            match result {
                Err(e) => e == PaymentError::ReferenceNotFound && !old(self)@.holds_reference(
                    settlement@.reference,
                ) && final(self)@ == old(self)@,
                Ok(SettlementOutcome::Applied) => old(self)@.holds_reference(settlement@.reference)
                    && old(self)@.accepts(settlement@, at),
                Ok(SettlementOutcome::Superseded) => old(self)@.holds_reference(
                    settlement@.reference,
                ) && !old(self)@.accepts(settlement@, at) && final(self)@ == old(self)@,
            },
    {
        proof {
            use_type_invariant(&*self);
            lemma_rows_matching(self@.users, settlement@.reference);
            lemma_rows_matching(self@.drivers, settlement@.reference);
            lemma_rows_accepting(self@.users, settlement@, at);
            lemma_rows_accepting(self@.drivers, settlement@, at);
        }
        let users = self.update_by_reference(PayerKind::User, settlement, at);
        let drivers = self.update_by_reference(PayerKind::Driver, settlement, at);
        settlement_outcome(users, drivers)
    }

    /// The record that carries the reference, with its partition.
    pub fn find_by_reference(&self, reference: &str) -> (found: Option<(PayerKind, PaymentRecord)>)
        ensures
            self@.wf(),
            found is Some == self@.holds_reference(reference@),
            match found {
                Some((kind, record)) => self@.lookup(reference@) == Some((kind, record@))
                    && self@.holds(kind, record@) && record@.reference == reference@,
                None => self@.lookup(reference@) is None,
            },
    {
        proof {
            use_type_invariant(self);
        }
        match find_row(&self.user_payments, reference) {
            Some(i) => {
                proof {
                    let rows = self@.users;
                    let chosen = choose|k: int|
                        0 <= k < rows.len() && (#[trigger] rows[k]).reference == reference@;
                    assert(rows[i as int].reference == reference@);
                    assert(chosen == i);
                }
                Some((PayerKind::User, copy_record(&self.user_payments[i])))
            },
            None => match find_row(&self.driver_payments, reference) {
                Some(i) => {
                    proof {
                        let rows = self@.drivers;
                        let chosen = choose|k: int|
                            0 <= k < rows.len() && (#[trigger] rows[k]).reference == reference@;
                        assert(rows[i as int].reference == reference@);
                        assert(chosen == i);
                    }
                    Some((PayerKind::Driver, copy_record(&self.driver_payments[i])))
                },
                None => None,
            },
        }
    }

    /// Every payment of both partitions, newest first.
    pub fn list_all(&self) -> (listing: Vec<PaymentResponse>)
        ensures
            responses_view(listing@) == self@.listing(),
            is_newest_first(responses_view(listing@)),
            listing.len() == self@.users.len() + self@.drivers.len(),
            responses_view(listing@).to_multiset() == (rows_shown(self@.users, PayerKind::User)
                + rows_shown(self@.drivers, PayerKind::Driver)).to_multiset(),
    {
        let mut listing: Vec<PaymentResponse> = Vec::new();
        assert(responses_view(listing@) =~= Seq::empty());
        place_rows(&mut listing, &self.user_payments, PayerKind::User, Ghost(Seq::empty()));
        assert(Seq::<PaymentResponseView>::empty() + rows_shown(self@.users, PayerKind::User)
            =~= rows_shown(self@.users, PayerKind::User));
        place_rows(
            &mut listing,
            &self.driver_payments,
            PayerKind::Driver,
            Ghost(rows_shown(self@.users, PayerKind::User)),
        );
        proof {
            lemma_newest_first(
                rows_shown(self@.users, PayerKind::User) + rows_shown(
                    self@.drivers,
                    PayerKind::Driver,
                ),
            );
        }
        listing
    }

    /// The payments of one payer, newest first.
    pub fn list_by_payer(&self, kind: PayerKind, payer_id: &str) -> (listing: Vec<PaymentResponse>)
        ensures
            responses_view(listing@) == self@.listing_of(kind, payer_id@),
            is_newest_first(responses_view(listing@)),
            responses_view(listing@).to_multiset() == rows_shown(
                rows_of_payer(self@.partition(kind), payer_id@),
                kind,
            ).to_multiset(),
    {
        proof {
            lemma_newest_first(rows_shown(rows_of_payer(self@.partition(kind), payer_id@), kind));
        }
        match kind {
            PayerKind::User => place_rows_of_payer(&self.user_payments, kind, payer_id),
            PayerKind::Driver => place_rows_of_payer(&self.driver_payments, kind, payer_id),
        }
    }
}

} // verus!
