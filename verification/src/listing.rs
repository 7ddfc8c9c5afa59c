//! The order of payment listings: newest first by creation time, payments of
//! the same creation time in the order in which they were handed in.

use vstd::prelude::*;
use vstd::seq_lib::to_multiset_build;
use crate::models::payment_model::PaymentResponse;
use crate::models::payment_model::PaymentResponseView;
use crate::text::copy_optional_text;

verus! {

/// The payments of a listing as contracts see them.
pub open spec fn responses_view(rows: Seq<PaymentResponse>) -> Seq<PaymentResponseView> {
    Seq::new(rows.len(), |i: int| rows[i]@)
}

/// Whether no payment of the listing stands before a newer one.
pub open spec fn is_newest_first(listing: Seq<PaymentResponseView>) -> bool {
    forall|i: int, j: int|
        0 <= i < j < listing.len() ==> (#[trigger] listing[i]).created_at >= (
        #[trigger] listing[j]).created_at
}

/// The listing with one more payment, which goes behind every payment that
/// is as new as it or newer, and before the older ones.
pub open spec fn placed(listing: Seq<PaymentResponseView>, payment: PaymentResponseView) -> Seq<
    PaymentResponseView,
>
    decreases listing.len(),
{
    if listing.len() == 0 || listing.last().created_at >= payment.created_at {
        listing.push(payment)
    } else {
        placed(listing.drop_last(), payment).push(listing.last())
    }
}

/// The payments ordered newest first; payments of the same creation time keep
/// the order they came in.
pub open spec fn newest_first(payments: Seq<PaymentResponseView>) -> Seq<PaymentResponseView>
    decreases payments.len(),
{
    if payments.len() == 0 {
        Seq::empty()
    } else {
        placed(newest_first(payments.drop_last()), payments.last())
    }
}

/// Placing a payment keeps a listing in order and adds that payment alone.
pub proof fn lemma_placed(listing: Seq<PaymentResponseView>, payment: PaymentResponseView)
    requires
        is_newest_first(listing),
    ensures
        is_newest_first(placed(listing, payment)),
        placed(listing, payment).len() == listing.len() + 1,
        placed(listing, payment).to_multiset() == listing.to_multiset().insert(payment),
        forall|k: int|
            0 <= k < listing.len() && listing[k].created_at >= payment.created_at ==> placed(
                listing,
                payment,
            )[k] == listing[k],
    decreases listing.len(),
{
    let grown = placed(listing, payment);
    if listing.len() == 0 || listing.last().created_at >= payment.created_at {
        to_multiset_build(listing, payment);
        assert forall|i: int, j: int| 0 <= i < j < grown.len() implies (#[trigger] grown[i]).created_at
            >= (#[trigger] grown[j]).created_at by {
            if j < listing.len() {
                assert(listing[i].created_at >= listing[j].created_at);
            } else {
                assert(listing[i].created_at >= listing[listing.len() - 1].created_at);
            }
        }
    } else {
        let front = listing.drop_last();
        let last = listing.last();
        assert forall|i: int, j: int| 0 <= i < j < front.len() implies (#[trigger] front[i]).created_at
            >= (#[trigger] front[j]).created_at by {
            assert(listing[i].created_at >= listing[j].created_at);
        }
        lemma_placed(front, payment);
        let inner = placed(front, payment);
        to_multiset_build(inner, last);
        to_multiset_build(front, last);
        assert(front.push(last) =~= listing);
        assert(grown.to_multiset() =~= listing.to_multiset().insert(payment));
        assert forall|x: PaymentResponseView| inner.contains(x) implies x.created_at
            >= last.created_at by {
            inner.to_multiset_ensures();
            front.to_multiset_ensures();
            if x != payment {
                vstd::multiset::lemma_insert_other_elements_unchanged(
                    front.to_multiset(),
                    payment,
                    x,
                );
                assert(front.to_multiset().count(x) > 0);
                assert(front.contains(x));
                let k = choose|k: int| 0 <= k < front.len() && front[k] == x;
                assert(listing[k].created_at >= listing[listing.len() - 1].created_at);
            }
        }
        assert forall|i: int, j: int| 0 <= i < j < grown.len() implies (#[trigger] grown[i]).created_at
            >= (#[trigger] grown[j]).created_at by {
            if j < inner.len() {
                assert(inner[i].created_at >= inner[j].created_at);
            } else {
                assert(inner.contains(inner[i]));
            }
        }
        assert forall|k: int|
            0 <= k < listing.len() && listing[k].created_at >= payment.created_at implies grown[k]
            == listing[k] by {
            if k < front.len() {
                assert(inner[k] == front[k]);
            } else {
                assert(listing[k] == last);
            }
        }
    }
}

/// The ordered listing is in order and holds exactly the payments handed in,
/// each as often as it was handed in.
pub proof fn lemma_newest_first(payments: Seq<PaymentResponseView>)
    ensures
        is_newest_first(newest_first(payments)),
        newest_first(payments).len() == payments.len(),
        newest_first(payments).to_multiset() == payments.to_multiset(),
    decreases payments.len(),
{
    if payments.len() == 0 {
        assert(payments =~= Seq::empty());
    } else {
        let front = payments.drop_last();
        lemma_newest_first(front);
        lemma_placed(newest_first(front), payments.last());
        to_multiset_build(front, payments.last());
        assert(front.push(payments.last()) =~= payments);
    }
}

/// A copy of a listed payment.
pub fn copy_response(payment: &PaymentResponse) -> (copy: PaymentResponse)
    ensures
        copy@ == payment@,
{
    PaymentResponse {
        id: payment.id.clone(),
        payer_type: payment.payer_type.clone(),
        payer_id: payment.payer_id.clone(),
        email: payment.email.clone(),
        amount: payment.amount.clone(),
        currency: payment.currency.clone(),
        status: payment.status.clone(),
        reference: payment.reference.clone(),
        authorization_url: copy_optional_text(&payment.authorization_url),
        access_code: copy_optional_text(&payment.access_code),
        gateway_response: copy_optional_text(&payment.gateway_response),
        created_at: payment.created_at,
        updated_at: payment.updated_at,
    }
}

/// Puts one more payment into a listing, behind every payment that is as new
/// as it or newer.
pub fn place(listing: &mut Vec<PaymentResponse>, payment: PaymentResponse)
    ensures
        responses_view(final(listing)@) == placed(responses_view(old(listing)@), payment@),
{
    let ghost before = responses_view(listing@);
    let mut j: usize = listing.len();
    proof {
        assert(before.take(j as int) =~= before);
        assert(placed(before, payment@) + before.skip(j as int) =~= placed(before, payment@));
    }
    while j > 0 && listing[j - 1].created_at < payment.created_at
        invariant
            j <= listing.len(),
            listing@ == old(listing)@,
            before == responses_view(listing@),
            placed(before, payment@) == placed(before.take(j as int), payment@) + before.skip(
                j as int,
            ),
        decreases j,
    {
        proof {
            let head = before.take(j as int);
            assert(head.last() == before[j - 1]);
            assert(head.drop_last() =~= before.take(j - 1));
            assert(placed(head, payment@) == placed(before.take(j - 1), payment@).push(
                before[j - 1],
            ));
            assert(placed(before.take(j - 1), payment@).push(before[j - 1]) + before.skip(j as int)
                =~= placed(before.take(j - 1), payment@) + before.skip(j - 1));
        }
        j -= 1;
    }
    proof {
        let head = before.take(j as int);
        if j > 0 {
            assert(head.last() == before[j - 1]);
        }
        assert(placed(head, payment@) == head.push(payment@));
        assert(responses_view(listing@.insert(j as int, payment)) =~= head.push(payment@)
            + before.skip(j as int));
    }
    listing.insert(j, payment);
}

/// The payments ordered newest first; payments of the same creation time keep
/// the order they came in.
pub fn sort_newest_first(payments: &Vec<PaymentResponse>) -> (listing: Vec<PaymentResponse>)
    ensures
        responses_view(listing@) == newest_first(responses_view(payments@)),
        is_newest_first(responses_view(listing@)),
        listing.len() == payments.len(),
        responses_view(listing@).to_multiset() == responses_view(payments@).to_multiset(),
{
    let ghost given = responses_view(payments@);
    let mut listing: Vec<PaymentResponse> = Vec::new();
    let mut i: usize = 0;
    assert(given.take(0) =~= Seq::empty());
    assert(responses_view(listing@) =~= Seq::empty());
    while i < payments.len()
        invariant
            i <= payments.len(),
            given == responses_view(payments@),
            responses_view(listing@) == newest_first(given.take(i as int)),
        decreases payments.len() - i,
    {
        let payment = copy_response(&payments[i]);
        proof {
            assert(given.take(i + 1).drop_last() =~= given.take(i as int));
            assert(given.take(i + 1).last() == payment@);
        }
        place(&mut listing, payment);
        i += 1;
    }
    proof {
        assert(given.take(given.len() as int) =~= given);
        lemma_newest_first(given);
    }
    listing
}

} // verus!
