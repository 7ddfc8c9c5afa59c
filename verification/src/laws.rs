//! What holds of the payment operations taken together, stated over the
//! same models as their contracts.

use vstd::prelude::*;
use vstd::utf8::encode_utf8;
use crate::error::PaymentError;
use crate::gateway::spec_initialize_result;
use crate::gateway::GatewayConfigView;
use crate::handlers::payment_handlers::spec_paystack_webhook;
use crate::handlers::payment_handlers::spec_signed_settlement;
use crate::handlers::payment_handlers::SignatureHeader;
use crate::listing::is_newest_first;
use crate::listing::lemma_newest_first;
use crate::listing::newest_first;
use crate::models::payment_model::InitializeRequestView;
use crate::models::payment_model::PaymentResponseView;
use crate::services::payment_service::pending_record;
use crate::services::payment_service::spec_initialize;
use crate::services::payment_service::spec_initialize_request;
use crate::services::payment_service::spec_resolve_payer;
use crate::signature::expected_signature;
use crate::signature::hmac_sha512;
use crate::signature::lemma_hex_encoding_tells;
use crate::store::model::lemma_insert_keeps;
use crate::store::model::lemma_rows_accepting;
use crate::store::model::lemma_update_keeps;
use crate::store::model::rows_hold_reference;
use crate::store::model::rows_updated;
use crate::store::model::StoreView;
use crate::store::record::pending_status;
use crate::store::record::PayerKind;
use crate::store::record::PaymentRecordView;
use crate::store::record::SettlementOutcome;
use crate::store::record::SettlementView;

verus! {

/// In a store that keeps its invariant, the record found under a reference is
/// the one row that carries it.
pub proof fn lemma_lookup_row(store: StoreView, kind: PayerKind, i: int)
    requires
        store.wf(),
        0 <= i < store.partition(kind).len(),
    ensures
        store.holds_reference(store.partition(kind)[i].reference),
        store.lookup(store.partition(kind)[i].reference) == Some((kind, store.partition(kind)[i])),
{
    let row = store.partition(kind)[i];
    let reference = row.reference;
    match kind {
        PayerKind::User => {
            assert(store.users[i].reference == reference);
            let chosen = choose|k: int|
                0 <= k < store.users.len() && (#[trigger] store.users[k]).reference == reference;
            assert(chosen == i);
        },
        PayerKind::Driver => {
            assert(store.drivers[i].reference == reference);
            if rows_hold_reference(store.users, reference) {
                let k = choose|k: int|
                    0 <= k < store.users.len() && (#[trigger] store.users[k]).reference == reference;
                assert(store.users[k].reference != store.drivers[i].reference);
            }
            let chosen = choose|k: int|
                0 <= k < store.drivers.len() && (#[trigger] store.drivers[k]).reference
                    == reference;
            assert(chosen == i);
        },
    }
}

/// Whatever a settlement's outcome, the store after it is the store with
/// both partitions updated by reference; the invariant is kept, no row comes
/// or goes, and the same references are held.
pub proof fn lemma_after_settlement(store: StoreView, settlement: SettlementView, at: i64)
    requires
        store.wf(),
    ensures
        store.after_settlement(settlement, at).1 == store.settled(settlement, at),
        store.settled(settlement, at).wf(),
        store.settled(settlement, at).users.len() == store.users.len(),
        store.settled(settlement, at).drivers.len() == store.drivers.len(),
        forall|reference: Seq<char>|
            store.settled(settlement, at).holds_reference(reference) == store.holds_reference(
                reference,
            ),
{
    lemma_rows_accepting(store.users, settlement, at);
    lemma_rows_accepting(store.drivers, settlement, at);
    let half = store.partition_updated(PayerKind::User, settlement, at);
    lemma_update_keeps(store, PayerKind::User, settlement, at);
    lemma_update_keeps(half, PayerKind::Driver, settlement, at);
    assert(half.partition_updated(PayerKind::Driver, settlement, at) == store.settled(
        settlement,
        at,
    ));
}

/// A started payment is stored and can be found.
///
/// For a request that names exactly one payer and a gateway reply that holds
/// an initialize answer, the second step of `initialize` succeeds with that
/// answer, and the store then holds, under the gateway's reference and in the
/// payer's partition, a record in status `pending` made of the request and
/// the answer. This is stated for a reference and an id that the store does
/// not hold yet: with either taken, the write is refused.
pub proof fn law_initialize_stores_pending(
    store: StoreView,
    request: InitializeRequestView,
    reply: Option<(u16, Seq<u8>)>,
    id: Seq<char>,
    now: i64,
)
    requires
        store.wf(),
        spec_resolve_payer(request) is Ok,
        spec_initialize_result(reply) is Ok,
        !store.holds_reference(spec_initialize_result(reply)->Ok_0.data.reference),
        !store.holds_id(id),
    ensures
        ({
            let payer = spec_resolve_payer(request)->Ok_0;
            let response = spec_initialize_result(reply)->Ok_0;
            let record = pending_record(request, payer, response.data, id, now);
            let done = spec_initialize(store, request, reply, id, now);
            &&& done.0 == Ok::<_, PaymentError>(response)
            &&& done.1.wf()
            &&& done.1.holds_reference(response.data.reference)
            &&& done.1.lookup(response.data.reference) == Some((payer.kind(), record))
            &&& record.status == pending_status()
            &&& record.reference == response.data.reference
            &&& done.1.all().len() == store.all().len() + 1
        }),
{
    let payer = spec_resolve_payer(request)->Ok_0;
    let response = spec_initialize_result(reply)->Ok_0;
    let record = pending_record(request, payer, response.data, id, now);
    let after = store.inserted(payer.kind(), record);
    assert(record.as_pending() == record);
    lemma_insert_keeps(store, payer.kind(), record);
    let rows = after.partition(payer.kind());
    assert(rows[rows.len() - 1] == record);
    lemma_lookup_row(after, payer.kind(), rows.len() - 1);
}

/// A request with both payers, or with none, fails validation before any
/// call to the gateway.
///
/// The first step describes no call for it, whatever the configuration; and
/// the second step, should it be run all the same, fails with the same
/// validation error whatever the reply, and stores nothing.
pub proof fn law_invalid_payer_reaches_no_gateway(
    config: GatewayConfigView,
    store: StoreView,
    request: InitializeRequestView,
    reply: Option<(u16, Seq<u8>)>,
    id: Seq<char>,
    now: i64,
)
    requires
        request.user_id is Some == request.driver_id is Some,
    ensures
        spec_initialize_request(config, request) is Err,
        spec_initialize_request(config, request)->Err_0 is ValidationError,
        spec_initialize(store, request, reply, id, now).0 is Err,
        spec_initialize(store, request, reply, id, now).0->Err_0 == spec_initialize_request(
            config,
            request,
        )->Err_0,
        spec_initialize(store, request, reply, id, now).1 == store,
{
}

/// Settlement is idempotent.
///
/// Applying a settlement, and then the same settlement again at the same
/// time or later, leaves the store as one application at the later time
/// does: no row is added, and the record holds the same state. With
/// `first_at == again_at` this says that the second application changes
/// nothing.
pub proof fn law_settlement_idempotent(
    store: StoreView,
    settlement: SettlementView,
    first_at: i64,
    again_at: i64,
)
    requires
        store.wf(),
        first_at <= again_at,
    ensures
        store.after_settlement(settlement, first_at).1.after_settlement(settlement, again_at).1
            == store.after_settlement(settlement, again_at).1,
        store.after_settlement(settlement, first_at).1.after_settlement(settlement, first_at).1
            == store.after_settlement(settlement, first_at).1,
        store.after_settlement(settlement, first_at).1.after_settlement(
            settlement,
            again_at,
        ).1.users.len() == store.users.len(),
        store.after_settlement(settlement, first_at).1.after_settlement(
            settlement,
            again_at,
        ).1.drivers.len() == store.drivers.len(),
{
    let once = store.settled(settlement, first_at);
    lemma_after_settlement(store, settlement, first_at);
    lemma_after_settlement(store, settlement, again_at);
    lemma_after_settlement(once, settlement, again_at);
    lemma_after_settlement(once, settlement, first_at);
    lemma_rows_settled_again(store.users, settlement, first_at, again_at);
    lemma_rows_settled_again(store.drivers, settlement, first_at, again_at);
    lemma_rows_settled_again(store.users, settlement, first_at, first_at);
    lemma_rows_settled_again(store.drivers, settlement, first_at, first_at);
}

/// A settlement applied twice leaves each record as one application does.
///
/// Whatever the times of the two applications, also where the second is
/// stamped earlier than the first, every record ends as the first
/// application alone, or as the second application alone, leaves it; and no
/// row is added.
pub proof fn law_settlement_twice_is_once(
    store: StoreView,
    settlement: SettlementView,
    first_at: i64,
    again_at: i64,
    kind: PayerKind,
    i: int,
)
    requires
        0 <= i < store.partition(kind).len(),
    ensures
        ({
            let twice = store.settled(settlement, first_at).settled(settlement, again_at);
            &&& twice.partition(kind).len() == store.partition(kind).len()
            &&& (twice.partition(kind)[i] == store.settled(settlement, first_at).partition(kind)[i]
                || twice.partition(kind)[i] == store.settled(settlement, again_at).partition(
                kind,
            )[i])
        }),
{
}

/// Updating rows by reference twice with one settlement is updating them once
/// at the later time.
proof fn lemma_rows_settled_again(
    rows: Seq<PaymentRecordView>,
    settlement: SettlementView,
    first_at: i64,
    again_at: i64,
)
    requires
        first_at <= again_at,
    ensures
        rows_updated(rows_updated(rows, settlement, first_at), settlement, again_at)
            == rows_updated(rows, settlement, again_at),
{
    assert(rows_updated(rows_updated(rows, settlement, first_at), settlement, again_at)
        =~= rows_updated(rows, settlement, again_at));
}

/// The last settlement that is applied wins whole.
///
/// Take two settlements of one reference, applied one after the other. If
/// the second is applied, the record holds the second's status, gateway
/// response and raw payload and the second's time, and nothing of the first:
/// it is the record as first found, settled by the second alone. If the second is
/// not applied, the store is as the first left it. Either way no record is a
/// mixture of the two. And the second is applied whenever the record was
/// still `pending` after the first, or the second does not report `pending`
/// and is not older than the first and than the record.
pub proof fn law_last_settlement_wins(
    store: StoreView,
    kind: PayerKind,
    found: PaymentRecordView,
    first: SettlementView,
    first_at: i64,
    second: SettlementView,
    second_at: i64,
)
    requires
        store.wf(),
        first.reference == second.reference,
        store.lookup(first.reference) == Some((kind, found)),
    ensures
        ({
            let between = store.after_settlement(first, first_at).1;
            let last = between.after_settlement(second, second_at);
            &&& last.0 is Ok
            &&& last.0 == Ok::<_, PaymentError>(SettlementOutcome::Applied) ==> last.1.lookup(
                second.reference,
            ) == Some((kind, found.settled(second, second_at)))
            &&& last.0 == Ok::<_, PaymentError>(SettlementOutcome::Superseded) ==> last.1 == between
            &&& (first_at <= second_at && found.updated_at <= second_at && second.status
                != pending_status()) ==> last.0 == Ok::<_, PaymentError>(SettlementOutcome::Applied)
            &&& (found.status == pending_status() && first.status == pending_status()) ==> last.0
                == Ok::<_, PaymentError>(SettlementOutcome::Applied)
        }),
{
    let reference = first.reference;
    let between = store.settled(first, first_at);
    lemma_after_settlement(store, first, first_at);
    lemma_after_settlement(between, second, second_at);
    let i = lemma_lookup_found(store, reference);
    let rows = store.partition(kind);
    let middle = between.partition(kind);
    assert(middle[i] == rows[i].updated(first, first_at));
    assert(middle[i].reference == reference);
    lemma_lookup_row(between, kind, i);
    assert(between.holds_reference(reference));
    let last = between.after_settlement(second, second_at);
    let end = between.settled(second, second_at);
    assert(end.partition(kind)[i] == middle[i].updated(second, second_at));
    lemma_lookup_row(end, kind, i);
    lemma_accepts_row(between, kind, i, second, second_at);
}

/// Where a lookup finds a record, the row that holds it.
proof fn lemma_lookup_found(store: StoreView, reference: Seq<char>) -> (i: int)
    requires
        store.lookup(reference) is Some,
    ensures
        0 <= i < store.partition(store.lookup(reference)->Some_0.0).len(),
        store.partition(store.lookup(reference)->Some_0.0)[i] == store.lookup(reference)->Some_0.1,
        store.lookup(reference)->Some_0.1.reference == reference,
{
    if rows_hold_reference(store.users, reference) {
        choose|i: int|
            0 <= i < store.users.len() && (#[trigger] store.users[i]).reference == reference
    } else {
        choose|i: int|
            0 <= i < store.drivers.len() && (#[trigger] store.drivers[i]).reference == reference
    }
}

/// In a store that keeps its invariant, a settlement is accepted exactly
/// when the one row that carries its reference accepts it.
proof fn lemma_accepts_row(
    store: StoreView,
    kind: PayerKind,
    i: int,
    settlement: SettlementView,
    at: i64,
)
    requires
        store.wf(),
        0 <= i < store.partition(kind).len(),
        store.partition(kind)[i].reference == settlement.reference,
    ensures
        store.accepts(settlement, at) == store.partition(kind)[i].accepts(settlement, at),
{
    let row = store.partition(kind)[i];
    if store.accepts(settlement, at) {
        if crate::store::model::rows_accept(store.users, settlement, at) {
            let k = choose|k: int|
                0 <= k < store.users.len() && (#[trigger] store.users[k]).reference
                    == settlement.reference && store.users[k].accepts(settlement, at);
            match kind {
                PayerKind::User => {
                    assert(k == i);
                },
                PayerKind::Driver => {
                    assert(store.users[k].reference != store.drivers[i].reference);
                },
            }
        } else {
            let k = choose|k: int|
                0 <= k < store.drivers.len() && (#[trigger] store.drivers[k]).reference
                    == settlement.reference && store.drivers[k].accepts(settlement, at);
            match kind {
                PayerKind::User => {
                    assert(store.users[i].reference != store.drivers[k].reference);
                },
                PayerKind::Driver => {
                    assert(k == i);
                },
            }
        }
    }
    if row.accepts(settlement, at) {
        match kind {
            PayerKind::User => {
                assert(store.users[i].reference == settlement.reference);
            },
            PayerKind::Driver => {
                assert(store.drivers[i].reference == settlement.reference);
            },
        }
    }
}

/// A settlement of an unknown reference fails and changes nothing.
///
/// Where no record of either partition carries the reference, the outcome is
/// `ReferenceNotFound` and the store stays exactly as it was.
pub proof fn law_unknown_reference_changes_nothing(
    store: StoreView,
    settlement: SettlementView,
    at: i64,
)
    requires
        !store.holds_reference(settlement.reference),
    ensures
        store.after_settlement(settlement, at).0 == Err::<SettlementOutcome, PaymentError>(
            PaymentError::ReferenceNotFound,
        ),
        store.after_settlement(settlement, at).1 == store,
        store.settled(settlement, at) == store,
{
    assert(rows_updated(store.users, settlement, at) =~= store.users) by {
        assert forall|k: int| 0 <= k < store.users.len() implies (#[trigger] store.users[k]).updated(
            settlement,
            at,
        ) == store.users[k] by {
            assert(store.users[k].reference != settlement.reference);
        }
    }
    assert(rows_updated(store.drivers, settlement, at) =~= store.drivers) by {
        assert forall|k: int| 0 <= k < store.drivers.len() implies (
        #[trigger] store.drivers[k]).updated(settlement, at) == store.drivers[k] by {
            assert(store.drivers[k].reference != settlement.reference);
        }
    }
}

/// A settlement changes only what may change.
///
/// Whatever settlement is applied, every record keeps its id, its payer, its
/// email, amount and currency, its reference, its authorization artifacts
/// and its creation time; a record that has left `pending` does not go back
/// to it, and the time of its last change never moves backwards.
pub proof fn law_settlement_respects_the_record(
    store: StoreView,
    settlement: SettlementView,
    at: i64,
    kind: PayerKind,
    i: int,
)
    requires
        0 <= i < store.partition(kind).len(),
    ensures
        ({
            let before = store.partition(kind)[i];
            let after = store.settled(settlement, at).partition(kind)[i];
            &&& after.id == before.id
            &&& after.payer_id == before.payer_id
            &&& after.email == before.email
            &&& after.amount == before.amount
            &&& after.currency == before.currency
            &&& after.reference == before.reference
            &&& after.authorization_url == before.authorization_url
            &&& after.access_code == before.access_code
            &&& after.created_at == before.created_at
            &&& before.status != pending_status() ==> after.status != pending_status()
            &&& before.status != pending_status() ==> before.updated_at <= after.updated_at
            &&& before.reference != settlement.reference ==> after == before
        }),
{
}

/// A webhook request settles exactly what its signed body reports.
///
/// Serving a webhook request is checking the request, which needs no store,
/// and then applying the settlement that the body reports. A request that
/// fails the check (no readable signature header, no configured secret, a
/// signature that is not the gateway's for these bytes, a body that names no
/// payment) leaves every record as it was.
pub proof fn law_webhook_settles_what_was_signed(
    store: StoreView,
    config: GatewayConfigView,
    header: SignatureHeader,
    body: Seq<u8>,
    at: i64,
)
    ensures
        spec_paystack_webhook(store, config, header, body, at) == (match spec_signed_settlement(
            config,
            header,
            body,
        ) {
            Err(e) => (Err(e), store),
            Ok(settlement) => store.after_settlement(settlement, at),
        }),
        spec_signed_settlement(config, header, body) is Err ==> spec_paystack_webhook(
            store,
            config,
            header,
            body,
            at,
        ).1 == store,
{
}

/// A signature spells out one tag.
///
/// Under one secret, two bodies have the same signature exactly when they
/// have the same HMAC-SHA512 tag. So a signature that is valid for a body is
/// turned away for every body whose tag differs. That a changed body has a
/// changed tag is the MAC's promise and is not proved here.
pub proof fn law_signature_spells_one_tag(secret: Seq<char>, first: Seq<u8>, second: Seq<u8>)
    ensures
        (expected_signature(secret, first) == expected_signature(secret, second)) == (hmac_sha512(
            encode_utf8(secret),
            first,
        ) == hmac_sha512(encode_utf8(secret), second)),
{
    if expected_signature(secret, first) == expected_signature(secret, second) {
        lemma_hex_encoding_tells(
            hmac_sha512(encode_utf8(secret), first),
            hmac_sha512(encode_utf8(secret), second),
        );
    }
}

/// Ordering a listing twice is ordering it once, and a listing that is in
/// order already stays as it is.
pub proof fn law_listing_order_settles(payments: Seq<PaymentResponseView>)
    ensures
        newest_first(newest_first(payments)) == newest_first(payments),
        is_newest_first(payments) ==> newest_first(payments) == payments,
{
    lemma_newest_first(payments);
    lemma_in_order_stays(newest_first(payments));
    if is_newest_first(payments) {
        lemma_in_order_stays(payments);
    }
}

/// A listing that is in order already stays as it is.
proof fn lemma_in_order_stays(listing: Seq<PaymentResponseView>)
    requires
        is_newest_first(listing),
    ensures
        newest_first(listing) == listing,
    decreases listing.len(),
{
    if listing.len() == 0 {
        assert(listing =~= Seq::empty());
    } else {
        let front = listing.drop_last();
        assert forall|i: int, j: int| 0 <= i < j < front.len() implies (#[trigger] front[i]).created_at
            >= (#[trigger] front[j]).created_at by {
            assert(listing[i].created_at >= listing[j].created_at);
        }
        lemma_in_order_stays(front);
        if front.len() > 0 {
            assert(front.last() == listing[listing.len() - 2]);
            assert(listing[listing.len() - 2].created_at >= listing[listing.len() - 1].created_at);
        }
        assert(front.push(listing.last()) =~= listing);
    }
}

} // verus!
