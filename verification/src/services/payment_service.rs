//! The payment reconciler: starting a payment, verifying it against the
//! gateway, and taking in the gateway's webhooks, so that the payment record
//! ends in the same state whichever report comes first and however often it
//! comes.
//!
//! Talking to the gateway is the caller's part. An operation that needs the
//! gateway comes in two steps: one that says which call to make, and one that
//! takes the gateway's reply and does the rest.

use vstd::prelude::*;
use vstd::string::StringExecFns;
use crate::clock::fresh_id;
use crate::clock::now_micros;
use crate::error::done_is;
use crate::error::outcome_is;
use crate::error::Invalid;
use crate::error::PaymentError;
use crate::error::Setting;
use crate::gateway::initialize_call;
use crate::gateway::initialize_result;
use crate::gateway::spec_initialize_call;
use crate::gateway::spec_initialize_result;
use crate::gateway::spec_verify_call;
use crate::gateway::spec_verify_result;
use crate::gateway::verify_call;
use crate::gateway::verify_result;
use crate::gateway::GatewayConfig;
use crate::gateway::GatewayConfigView;
use crate::gateway::GatewayReply;
use crate::gateway::InitializeCall;
use crate::gateway::InitializeCallView;
use crate::gateway::VerifyCall;
use crate::json::json_model;
use crate::json::json_parse;
use crate::json::parse_value;
use crate::json::text_member;
use crate::json::value_member;
use crate::json::JsonModel;
use crate::listing::is_newest_first;
use crate::listing::responses_view;
use crate::models::payment_model::InitializeDataView;
use crate::models::payment_model::InitializeRequest;
use crate::models::payment_model::InitializeRequestView;
use crate::models::payment_model::InitializeResponse;
use crate::models::payment_model::InitializeResponseView;
use crate::models::payment_model::PaymentResponse;
use crate::models::payment_model::VerifyResponse;
use crate::models::payment_model::VerifyResponseView;
use crate::models::payment_model::WebhookData;
use crate::models::payment_model::WebhookDataView;
use crate::models::payment_model::WebhookEvent;
use crate::models::payment_model::WebhookEventView;
use crate::signature::expected_signature;
use crate::signature::verify_signature;
use crate::store::model::StoreView;
use crate::store::record::pending_status;
use crate::store::record::PayerKind;
use crate::store::record::PaymentRecord;
use crate::store::record::PaymentRecordView;
use crate::store::record::Settlement;
use crate::store::record::SettlementOutcome;
use crate::store::record::SettlementView;
use crate::store::PaymentStore;
use crate::text::copy_bytes;
use crate::text::copy_optional_text;
use crate::text::optional_bytes;
use crate::text::text_eq;

verus! {

/// On whose behalf a payment is made.
#[derive(Debug, Clone, PartialEq, Eq)]
pub enum Payer {
    User(String),
    Driver(String),
}

/// A payer as contracts see it.
pub enum PayerView {
    User(Seq<char>),
    Driver(Seq<char>),
}

impl View for Payer {
    type V = PayerView;

    open spec fn view(&self) -> PayerView {
        match self {
            Payer::User(id) => PayerView::User(id@),
            Payer::Driver(id) => PayerView::Driver(id@),
        }
    }
}

impl PayerView {
    /// The partition that holds this payer's payments.
    pub open spec fn kind(self) -> PayerKind {
        match self {
            PayerView::User(_) => PayerKind::User,
            PayerView::Driver(_) => PayerKind::Driver,
        }
    }

    /// The payer's id.
    pub open spec fn id(self) -> Seq<char> {
        match self {
            PayerView::User(id) => id,
            PayerView::Driver(id) => id,
        }
    }
}

impl Payer {
    /// The partition that holds this payer's payments.
    pub fn kind(&self) -> (kind: PayerKind)
        ensures
            kind == self@.kind(),
    {
        match self {
            Payer::User(_) => PayerKind::User,
            Payer::Driver(_) => PayerKind::Driver,
        }
    }

    /// The payer's id.
    pub fn id(&self) -> (id: &String)
        ensures
            id@ == self@.id(),
    {
        match self {
            Payer::User(id) => id,
            Payer::Driver(id) => id,
        }
    }
}

/// The payer of a request: the user or the driver, where exactly one of the
/// two is named.
pub open spec fn spec_resolve_payer(request: InitializeRequestView) -> Result<
    PayerView,
    PaymentError,
> {
    match (request.user_id, request.driver_id) {
        (Some(user_id), None) => Ok(PayerView::User(user_id)),
        (None, Some(driver_id)) => Ok(PayerView::Driver(driver_id)),
        (Some(_), Some(_)) => Err(PaymentError::ValidationError(Invalid::BothPayers)),
        (None, None) => Err(PaymentError::ValidationError(Invalid::NoPayer)),
    }
}

/// Finds the payer of a request. A request that names both a user and a
/// driver, or neither, is a validation error.
pub fn resolve_payer(payload: &InitializeRequest) -> (payer: Result<Payer, PaymentError>)
    ensures
        outcome_is(payer, spec_resolve_payer(payload@)),
{
    match (&payload.user_id, &payload.driver_id) {
        (Some(user_id), None) => Ok(Payer::User(user_id.clone())),
        (None, Some(driver_id)) => Ok(Payer::Driver(driver_id.clone())),
        (Some(_), Some(_)) => Err(PaymentError::ValidationError(Invalid::BothPayers)),
        (None, None) => Err(PaymentError::ValidationError(Invalid::NoPayer)),
    }
}

/// The currency of a payment whose request names none.
pub open spec fn default_currency() -> Seq<char> {
    "NGN"@
}

/// The currency a payment is recorded in.
pub open spec fn spec_resolve_currency(request: InitializeRequestView) -> Seq<char> {
    match request.currency {
        Some(currency) => currency,
        None => default_currency(),
    }
}

/// The currency a payment is recorded in: the request's, or `NGN` where the
/// request names none.
pub fn resolve_currency(payload: &InitializeRequest) -> (currency: String)
    ensures
        currency@ == spec_resolve_currency(payload@),
{
    match &payload.currency {
        Some(currency) => currency.clone(),
        None => String::from_str("NGN"),
    }
}

/// The gateway call that starts a payment. Validation comes first: a request
/// with both payers or none yields no call at all.
pub open spec fn spec_initialize_request(
    config: GatewayConfigView,
    request: InitializeRequestView,
) -> Result<InitializeCallView, PaymentError> {
    match spec_resolve_payer(request) {
        Err(e) => Err(e),
        Ok(_) => spec_initialize_call(config, request.email, request.amount, request.currency),
    }
}

/// First step of `initialize` and `redirect`: validates the request and says
/// which call to make to the gateway.
///
/// A request that names both payers, or none, fails validation here, whatever
/// the configuration, so no call to the gateway is ever described for it. The
/// call carries the email and the amount, and the currency only where the
/// request set one.
pub fn initialize_payment_request(config: &GatewayConfig, payload: &InitializeRequest) -> (call:
    Result<InitializeCall, PaymentError>)
    ensures
        outcome_is(call, spec_initialize_request(config@, payload@)),
        spec_resolve_payer(payload@) is Err ==> call is Err && call->Err_0.spec_is_validation(),
{
    match resolve_payer(payload) {
        Err(e) => Err(e),
        Ok(_) => initialize_call(
            config,
            payload.email.as_str(),
            payload.amount.as_str(),
            &payload.currency,
        ),
    }
}

/// The record that a started payment is stored as.
pub open spec fn pending_record(
    request: InitializeRequestView,
    payer: PayerView,
    data: InitializeDataView,
    id: Seq<char>,
    now: i64,
) -> PaymentRecordView {
    PaymentRecordView {
        id,
        payer_id: payer.id(),
        email: request.email,
        amount: request.amount,
        currency: spec_resolve_currency(request),
        reference: data.reference,
        status: pending_status(),
        authorization_url: Some(data.authorization_url),
        access_code: Some(data.access_code),
        gateway_response: None,
        raw_payload: None,
        created_at: now,
        updated_at: now,
    }
}

/// The pending record of a started payment with the partition it goes to,
/// or the validation error of a request that names both payers or none.
pub open spec fn spec_pending_payment(
    request: InitializeRequestView,
    data: InitializeDataView,
    id: Seq<char>,
    now: i64,
) -> Result<(PayerKind, PaymentRecordView), PaymentError> {
    match spec_resolve_payer(request) {
        Err(e) => Err(e),
        Ok(payer) => Ok((payer.kind(), pending_record(request, payer, data, id, now))),
    }
}

/// Makes the pending record of a payment that the gateway has started, and
/// says which partition it goes to.
pub fn pending_payment(
    payload: &InitializeRequest,
    response: &InitializeResponse,
    id: String,
    now: i64,
) -> (made: Result<(PayerKind, PaymentRecord), PaymentError>)
    ensures
        match (made, spec_pending_payment(payload@, response@.data, id@, now)) {
            (Ok((kind, record)), Ok((expected_kind, expected))) => kind == expected_kind && record@
                == expected,
            (Err(e), Err(f)) => e == f,
            _ => false,
        },
{
    let payer = match resolve_payer(payload) {
        Err(e) => {
            return Err(e);
        },
        Ok(payer) => payer,
    };
    let record = PaymentRecord::pending(
        id,
        payer.id().clone(),
        payload.email.clone(),
        payload.amount.clone(),
        resolve_currency(payload),
        response.data.reference.clone(),
        response.data.authorization_url.clone(),
        response.data.access_code.clone(),
        now,
    );
    Ok((payer.kind(), record))
}

/// What storing a started payment does: the outcome, and the store after it.
pub open spec fn spec_record_initialized(
    store: StoreView,
    request: InitializeRequestView,
    data: InitializeDataView,
    id: Seq<char>,
    now: i64,
) -> (Result<(), PaymentError>, StoreView) {
    match spec_resolve_payer(request) {
        Err(e) => (Err(e), store),
        Ok(payer) => if store.holds_reference(data.reference) || store.holds_id(id) {
            (Err(PaymentError::PersistenceError), store)
        } else {
            (Ok(()), store.inserted(payer.kind(), pending_record(request, payer, data, id, now)))
        },
    }
}

/// Stores the pending record of a payment that the gateway has started, under
/// the given id and creation time.
///
/// The record goes into the partition of the request's payer, keyed by the
/// gateway's reference, in status `pending`. Nothing is stored where the
/// request names both payers or none (a validation error), or where a record
/// already carries the reference or the id (`PersistenceError`).
pub fn record_initialized_payment(
    store: &mut PaymentStore,
    payload: &InitializeRequest,
    response: &InitializeResponse,
    id: String,
    now: i64,
) -> (result: Result<(), PaymentError>)
    ensures
        done_is(
            result,
            spec_record_initialized(old(store)@, payload@, response@.data, id@, now).0,
        ),
        final(store)@ == spec_record_initialized(old(store)@, payload@, response@.data, id@, now).1,
{
    match pending_payment(payload, response, id, now) {
        Err(e) => Err(e),
        Ok((kind, record)) => store.insert_pending(kind, record),
    }
}

/// Stores the pending record of a payment that the gateway has started, under
/// a fresh random id, created now.
///
/// Whatever the id and the time turn out to be, the store ends as
/// `record_initialized_payment` leaves it for them.
pub fn store_initialized_payment(
    store: &mut PaymentStore,
    payload: &InitializeRequest,
    response: &InitializeResponse,
) -> (result: Result<(), PaymentError>)
    ensures
        exists|id: Seq<char>, now: i64|
            {
                let expected = #[trigger] spec_record_initialized(
                    old(store)@,
                    payload@,
                    response@.data,
                    id,
                    now,
                );
                done_is(result, expected.0) && final(store)@ == expected.1
            },
{
    let now = now_micros();
    let id = fresh_id();
    record_initialized_payment(store, payload, response, id, now)
}

/// What the second step of `initialize` does: the outcome, and the store
/// after it. The request is validated before the reply is looked at; a reply
/// that is no initialize answer leaves the store as it was.
pub open spec fn spec_initialize(
    store: StoreView,
    request: InitializeRequestView,
    reply: Option<(u16, Seq<u8>)>,
    id: Seq<char>,
    now: i64,
) -> (Result<InitializeResponseView, PaymentError>, StoreView) {
    match spec_resolve_payer(request) {
        Err(e) => (Err(e), store),
        Ok(_) => match spec_initialize_result(reply) {
            Err(e) => (Err(e), store),
            Ok(response) => match spec_record_initialized(store, request, response.data, id, now) {
                (Err(e), after) => (Err(e), after),
                (Ok(_), after) => (Ok(response), after),
            },
        },
    }
}

/// Second step of `initialize`, under the given id and creation time: reads
/// the gateway's reply, stores the pending record and returns the gateway's
/// answer with its authorization artifacts.
pub fn complete_initialize(
    store: &mut PaymentStore,
    payload: &InitializeRequest,
    reply: &GatewayReply,
    id: String,
    now: i64,
) -> (result: Result<InitializeResponse, PaymentError>)
    ensures
        outcome_is(
            result,
            spec_initialize(old(store)@, payload@, reply.status_and_body(), id@, now).0,
        ),
        final(store)@ == spec_initialize(old(store)@, payload@, reply.status_and_body(), id@, now).1,
        result is Err ==> final(store)@ == old(store)@,
{
    if let Err(e) = resolve_payer(payload) {
        return Err(e);
    }
    let response = match initialize_result(reply) {
        Err(e) => {
            return Err(e);
        },
        Ok(response) => response,
    };
    match record_initialized_payment(store, payload, &response, id, now) {
        Err(e) => Err(e),
        Ok(()) => Ok(response),
    }
}

/// Second step of `initialize`: reads the gateway's reply, stores the pending
/// record under a fresh random id, created now, and returns the gateway's
/// answer with its authorization artifacts.
///
/// Whatever the id and the time turn out to be, the outcome and the store are
/// as `complete_initialize` leaves them for those two. A failure, at any
/// step, leaves no record behind.
pub fn initialize_payment_service(
    store: &mut PaymentStore,
    payload: &InitializeRequest,
    reply: &GatewayReply,
) -> (result: Result<InitializeResponse, PaymentError>)
    ensures
        exists|id: Seq<char>, now: i64|
            {
                let expected = #[trigger] spec_initialize(
                    old(store)@,
                    payload@,
                    reply.status_and_body(),
                    id,
                    now,
                );
                outcome_is(result, expected.0) && final(store)@ == expected.1
            },
        result is Err ==> final(store)@ == old(store)@,
        spec_resolve_payer(payload@) is Err ==> result is Err && result->Err_0.spec_is_validation(),
{
    let now = now_micros();
    let id = fresh_id();
    complete_initialize(store, payload, reply, id, now)
}

/// The address to send the payer to, out of an initialize outcome.
pub open spec fn redirect_of(outcome: Result<InitializeResponseView, PaymentError>) -> Result<
    Seq<char>,
    PaymentError,
> {
    match outcome {
        Ok(response) => Ok(response.data.authorization_url),
        Err(e) => Err(e),
    }
}

/// Second step of `redirect`: as `initialize_payment_service`, with the same
/// record stored, but only the gateway's authorization address is returned.
pub fn get_payment_redirect_url(
    store: &mut PaymentStore,
    payload: &InitializeRequest,
    reply: &GatewayReply,
) -> (result: Result<String, PaymentError>)
    ensures
        exists|id: Seq<char>, now: i64|
            {
                let expected = #[trigger] spec_initialize(
                    old(store)@,
                    payload@,
                    reply.status_and_body(),
                    id,
                    now,
                );
                outcome_is(result, redirect_of(expected.0)) && final(store)@ == expected.1
            },
        result is Err ==> final(store)@ == old(store)@,
        spec_resolve_payer(payload@) is Err ==> result is Err && result->Err_0.spec_is_validation(),
{
    match initialize_payment_service(store, payload, reply) {
        Ok(response) => Ok(response.data.authorization_url),
        Err(e) => Err(e),
    }
}

/// First step of `verify`: says which call to make to the gateway for a
/// reference.
pub fn verify_payment_request(config: &GatewayConfig, reference: &str) -> (call: Result<
    VerifyCall,
    PaymentError,
>)
    ensures
        outcome_is(call, spec_verify_call(config@, reference@)),
{
    verify_call(config, reference)
}

/// The settlement that a verification reports: the gateway's status and
/// response detail for the reference it names, with the reply's raw bytes as
/// the snapshot.
pub open spec fn verification_settlement(response: VerifyResponseView, body: Seq<u8>) -> SettlementView {
    SettlementView {
        reference: response.data.reference,
        status: response.data.status,
        gateway_response: Some(response.data.gateway_response),
        raw_payload: Some(body),
    }
}

/// What became of the local record of a verified payment.
#[derive(Debug, Clone, Copy, PartialEq, Eq, Structural)]
pub enum LocalRecord {
    /// The record took what the gateway reported.
    Applied,
    /// The record has left `pending` and did not take the report: it stayed
    /// as it was.
    Superseded,
    /// No record carries the reference: a warning to the caller, not a
    /// failure of the verification.
    Missing,
}

impl LocalRecord {
    /// The local record's fate, out of the outcome of the settlement.
    pub open spec fn of(outcome: Result<SettlementOutcome, PaymentError>) -> LocalRecord {
        match outcome {
            Ok(SettlementOutcome::Applied) => LocalRecord::Applied,
            Ok(SettlementOutcome::Superseded) => LocalRecord::Superseded,
            Err(_) => LocalRecord::Missing,
        }
    }
}

/// Makes the settlement that a verification reports, out of the gateway's
/// answer and the reply that carried it.
pub fn settlement_of_verification(response: &VerifyResponse, reply: &GatewayReply) -> (settlement:
    Settlement)
    ensures
        settlement@ == verification_settlement(response@, reply.spec_body()),
{
    Settlement {
        reference: response.data.reference.clone(),
        status: response.data.status.clone(),
        gateway_response: Some(response.data.gateway_response.clone()),
        raw_payload: Some(reply.body()),
    }
}

/// What a verification found: the gateway's answer, which stands whatever
/// the store holds, and what became of the local record.
#[derive(Debug, Clone, PartialEq, Eq)]
pub struct Verification {
    pub response: VerifyResponse,
    pub local: LocalRecord,
}

/// What a verification comes to, once the settlement it reports has been
/// tried: the gateway's answer stands where the settlement was applied,
/// superseded, or found no record; only a failure of the store itself fails
/// the verification.
pub open spec fn spec_conclude_verification(
    response: VerifyResponseView,
    outcome: Result<SettlementOutcome, PaymentError>,
) -> Result<(VerifyResponseView, LocalRecord), PaymentError> {
    match outcome {
        Ok(_) => Ok((response, LocalRecord::of(outcome))),
        Err(PaymentError::ReferenceNotFound) => Ok((response, LocalRecord::Missing)),
        Err(e) => Err(e),
    }
}

/// Concludes a verification from the gateway's answer and the outcome of the
/// settlement that it reports.
pub fn conclude_verification(
    response: VerifyResponse,
    outcome: Result<SettlementOutcome, PaymentError>,
) -> (verification: Result<Verification, PaymentError>)
    ensures
        match (verification, spec_conclude_verification(response@, outcome)) {
            (Ok(found), Ok((answer, local))) => found.response == response && found.response@
                == answer && found.local == local,
            (Err(e), Err(f)) => e == f,
            _ => false,
        },
{
    match outcome {
        Ok(SettlementOutcome::Applied) => Ok(Verification { response, local: LocalRecord::Applied }),
        Ok(SettlementOutcome::Superseded) => Ok(
            Verification { response, local: LocalRecord::Superseded },
        ),
        Err(PaymentError::ReferenceNotFound) => Ok(
            Verification { response, local: LocalRecord::Missing },
        ),
        Err(e) => Err(e),
    }
}

/// What the second step of `verify` does to the store and to the local
/// record, for a reply that holds a verify answer.
pub open spec fn spec_verify_settled(
    store: StoreView,
    response: VerifyResponseView,
    body: Seq<u8>,
    at: i64,
) -> (LocalRecord, StoreView) {
    let settled = store.after_settlement(verification_settlement(response, body), at);
    (LocalRecord::of(settled.0), settled.1)
}

/// Second step of `verify`, at the given time: reads the gateway's reply and
/// applies what it reports to the record that carries the reference.
///
/// Fails, with the store untouched, exactly where the reply is no verify
/// answer. Otherwise the answer is returned, and the store is as a
/// settlement of the reported status leaves it.
pub fn complete_verify(store: &mut PaymentStore, reply: &GatewayReply, at: i64) -> (result: Result<
    Verification,
    PaymentError,
>)
    ensures
        match spec_verify_result(reply.status_and_body()) {
            Err(e) => result == Err::<Verification, PaymentError>(e) && final(store)@ == old(
                store,
            )@,
            Ok(response) => {
                let expected = spec_verify_settled(old(store)@, response, reply.spec_body(), at);
                &&& result is Ok
                &&& result->Ok_0.response@ == response
                &&& result->Ok_0.local == expected.0
                &&& final(store)@ == expected.1
            },
        },
{
    let response = match verify_result(reply) {
        Err(e) => {
            return Err(e);
        },
        Ok(response) => response,
    };
    let settlement = settlement_of_verification(&response, reply);
    let outcome = store.apply_settlement(&settlement, at);
    conclude_verification(response, outcome)
}

/// Second step of `verify`: as `complete_verify`, at the current time.
pub fn verify_payment_service(store: &mut PaymentStore, reply: &GatewayReply) -> (result: Result<
    Verification,
    PaymentError,
>)
    ensures
        match spec_verify_result(reply.status_and_body()) {
            Err(e) => result == Err::<Verification, PaymentError>(e) && final(store)@ == old(
                store,
            )@,
            Ok(response) => result is Ok && result->Ok_0.response@ == response && exists|at: i64|
                {
                    let expected = #[trigger] spec_verify_settled(
                        old(store)@,
                        response,
                        reply.spec_body(),
                        at,
                    );
                    result->Ok_0.local == expected.0 && final(store)@ == expected.1
                },
        },
{
    let at = now_micros();
    complete_verify(store, reply, at)
}

/// Whether `signature` is the one the gateway puts on `body` under the
/// configured webhook secret.
///
/// Fails only where no secret is configured. A signature that does not match
/// is `Ok(false)`, not an error.
pub fn verify_webhook_signature(config: &GatewayConfig, signature: &str, body: &[u8]) -> (valid:
    Result<bool, PaymentError>)
    ensures
        match config@.webhook_secret {
            None => valid == Err::<bool, PaymentError>(
                PaymentError::ConfigurationMissing(Setting::WebhookSecret),
            ),
            Some(secret) => valid == Ok::<bool, PaymentError>(
                signature@ == expected_signature(secret, body@),
            ),
        },
{
    match &config.webhook_secret {
        None => Err(PaymentError::ConfigurationMissing(Setting::WebhookSecret)),
        Some(secret) => Ok(verify_signature(secret.as_str(), signature, body)),
    }
}

/// Whether a webhook may be taken in: `SignatureInvalid` where the signature
/// is not the gateway's for this body, `ConfigurationMissing` where no
/// secret is configured.
pub open spec fn spec_authenticate_webhook(
    config: GatewayConfigView,
    signature: Seq<char>,
    body: Seq<u8>,
) -> Result<(), PaymentError> {
    match config.webhook_secret {
        None => Err(PaymentError::ConfigurationMissing(Setting::WebhookSecret)),
        Some(secret) => if signature == expected_signature(secret, body) {
            Ok(())
        } else {
            Err(PaymentError::SignatureInvalid)
        },
    }
}

/// Checks that a webhook body carries the gateway's signature. Nothing of
/// the body is parsed for this.
pub fn authenticate_webhook(config: &GatewayConfig, signature: &str, body: &[u8]) -> (outcome:
    Result<(), PaymentError>)
    ensures
        done_is(outcome, spec_authenticate_webhook(config@, signature@, body@)),
{
    match verify_webhook_signature(config, signature, body) {
        Err(e) => Err(e),
        Ok(false) => Err(PaymentError::SignatureInvalid),
        Ok(true) => Ok(()),
    }
}

/// The members of a webhook document that settlement reads. A document
/// without a string `event` has the empty event; a `data` that is absent or
/// no object has no members.
pub open spec fn webhook_event_of(document: JsonModel) -> WebhookEventView {
    WebhookEventView {
        event: match document.text_member("event"@) {
            Some(event) => event,
            None => Seq::empty(),
        },
        data: match document.member("data"@) {
            Some(data) => WebhookDataView {
                reference: data.text_member("reference"@),
                status: data.text_member("status"@),
                gateway_response: data.text_member("gateway_response"@),
            },
            None => WebhookDataView { reference: None, status: None, gateway_response: None },
        },
    }
}

/// The status that a webhook reports: `success` for the event
/// `charge.success` and `failed` for `charge.failed`, whatever `data.status`
/// says; for any other event `data.status`, and `pending` where that is
/// absent.
pub open spec fn spec_webhook_status(event: WebhookEventView) -> Seq<char> {
    if event.event == "charge.success"@ {
        "success"@
    } else if event.event == "charge.failed"@ {
        "failed"@
    } else {
        match event.data.status {
            Some(status) => status,
            None => pending_status(),
        }
    }
}

/// The settlement that a webhook reports, with the raw body as the snapshot.
/// A webhook without a reference, or with an empty one, is turned away.
pub open spec fn spec_webhook_settlement(event: WebhookEventView, body: Seq<u8>) -> Result<
    SettlementView,
    PaymentError,
> {
    match event.data.reference {
        Some(reference) => if reference.len() == 0 {
            Err(PaymentError::ValidationError(Invalid::MissingReference))
        } else {
            Ok(
                SettlementView {
                    reference,
                    status: spec_webhook_status(event),
                    gateway_response: event.data.gateway_response,
                    raw_payload: Some(body),
                },
            )
        },
        None => Err(PaymentError::ValidationError(Invalid::MissingReference)),
    }
}

/// Reads out of a parsed webhook document what settlement needs.
fn read_webhook_event(document: &serde_json::Value) -> (event: WebhookEvent)
    ensures
        event@ == webhook_event_of(json_model(*document)),
{
    let event = match text_member(document, "event") {
        Some(event) => event,
        None => String::new(),
    };
    let data = match value_member(document, "data") {
        Some(data) => WebhookData {
            reference: text_member(data, "reference"),
            status: text_member(data, "status"),
            gateway_response: text_member(data, "gateway_response"),
        },
        None => WebhookData { reference: None, status: None, gateway_response: None },
    };
    WebhookEvent { event, data }
}

/// The status that a webhook reports.
pub fn webhook_status(event: &WebhookEvent) -> (status: String)
    ensures
        status@ == spec_webhook_status(event@),
{
    if text_eq(event.event.as_str(), "charge.success") {
        String::from_str("success")
    } else if text_eq(event.event.as_str(), "charge.failed") {
        String::from_str("failed")
    } else {
        match &event.data.status {
            Some(status) => status.clone(),
            None => String::from_str("pending"),
        }
    }
}

/// The settlement that a webhook reports, or the validation error for a
/// webhook that names no reference.
pub fn webhook_settlement(event: &WebhookEvent, body: &[u8]) -> (settlement: Result<
    Settlement,
    PaymentError,
>)
    ensures
        outcome_is(settlement, spec_webhook_settlement(event@, body@)),
{
    match &event.data.reference {
        Some(reference) => {
            if reference.as_str().is_empty() {
                return Err(PaymentError::ValidationError(Invalid::MissingReference));
            }
            Ok(
                Settlement {
                    reference: reference.clone(),
                    status: webhook_status(event),
                    gateway_response: copy_optional_text(&event.data.gateway_response),
                    raw_payload: Some(copy_bytes(body)),
                },
            )
        },
        None => Err(PaymentError::ValidationError(Invalid::MissingReference)),
    }
}

/// The settlement that a webhook body reports. A body that is no JSON
/// document, or names no reference, is a validation error.
pub open spec fn spec_read_webhook(body: Seq<u8>) -> Result<SettlementView, PaymentError> {
    match json_parse(body) {
        None => Err(PaymentError::ValidationError(Invalid::MalformedPayload)),
        Some(document) => spec_webhook_settlement(webhook_event_of(document), body),
    }
}

/// Parses a webhook body and derives the settlement that it reports.
pub fn read_webhook(body: &[u8]) -> (settlement: Result<Settlement, PaymentError>)
    ensures
        outcome_is(settlement, spec_read_webhook(body@)),
{
    let document = match parse_value(body) {
        Err(_) => {
            return Err(PaymentError::ValidationError(Invalid::MalformedPayload));
        },
        Ok(document) => document,
    };
    let event = read_webhook_event(&document);
    webhook_settlement(&event, body)
}

/// What taking in a webhook body does: the outcome, and the store after it.
/// A body that reports no settlement leaves the store as it was.
pub open spec fn spec_process_webhook(store: StoreView, body: Seq<u8>, at: i64) -> (
    Result<SettlementOutcome, PaymentError>,
    StoreView,
) {
    match spec_read_webhook(body) {
        Err(e) => (Err(e), store),
        Ok(settlement) => store.after_settlement(settlement, at),
    }
}

/// Takes in the body of a webhook whose signature was found valid, at the
/// given time: parses it, derives the settlement and applies it.
pub fn settle_webhook(store: &mut PaymentStore, body: &[u8], at: i64) -> (result: Result<
    SettlementOutcome,
    PaymentError,
>)
    ensures
        result == spec_process_webhook(old(store)@, body@, at).0,
        final(store)@ == spec_process_webhook(old(store)@, body@, at).1,
        result is Err ==> final(store)@ == old(store)@,
{
    match read_webhook(body) {
        Err(e) => Err(e),
        Ok(settlement) => store.apply_settlement(&settlement, at),
    }
}

/// Takes in the body of a webhook whose signature was found valid, at the
/// current time. Whatever the time turns out to be, the outcome and the
/// store are as `settle_webhook` leaves them for it.
pub fn process_webhook_event(store: &mut PaymentStore, body: &[u8]) -> (result: Result<
    SettlementOutcome,
    PaymentError,
>)
    ensures
        exists|at: i64|
            {
                let expected = #[trigger] spec_process_webhook(old(store)@, body@, at);
                result == expected.0 && final(store)@ == expected.1
            },
        result is Err ==> final(store)@ == old(store)@,
{
    let at = now_micros();
    settle_webhook(store, body, at)
}

/// What receiving a webhook does: the outcome, and the store after it.
/// Without a configured secret nothing can be checked; a signature that is
/// not the gateway's for this body is turned away. Either way the body is not
/// even parsed, and the store stays as it was.
pub open spec fn spec_handle_webhook(
    store: StoreView,
    config: GatewayConfigView,
    signature: Seq<char>,
    body: Seq<u8>,
    at: i64,
) -> (Result<SettlementOutcome, PaymentError>, StoreView) {
    match spec_authenticate_webhook(config, signature, body) {
        Err(e) => (Err(e), store),
        Ok(_) => spec_process_webhook(store, body, at),
    }
}

/// Receives a webhook at the given time: checks the signature over the raw
/// body, and only then parses the body and applies the settlement.
pub fn receive_webhook(
    store: &mut PaymentStore,
    config: &GatewayConfig,
    signature: &str,
    body: &[u8],
    at: i64,
) -> (result: Result<SettlementOutcome, PaymentError>)
    ensures
        result == spec_handle_webhook(old(store)@, config@, signature@, body@, at).0,
        final(store)@ == spec_handle_webhook(old(store)@, config@, signature@, body@, at).1,
        result is Err ==> final(store)@ == old(store)@,
{
    match authenticate_webhook(config, signature, body) {
        Err(e) => Err(e),
        Ok(_) => settle_webhook(store, body, at),
    }
}

/// Receives a webhook at the current time. Whatever the time turns out to
/// be, the outcome and the store are as `receive_webhook` leaves them for it.
pub fn handle_webhook(
    store: &mut PaymentStore,
    config: &GatewayConfig,
    signature: &str,
    body: &[u8],
) -> (result: Result<SettlementOutcome, PaymentError>)
    ensures
        exists|at: i64|
            {
                let expected = #[trigger] spec_handle_webhook(
                    old(store)@,
                    config@,
                    signature@,
                    body@,
                    at,
                );
                result == expected.0 && final(store)@ == expected.1
            },
        result is Err ==> final(store)@ == old(store)@,
{
    let at = now_micros();
    receive_webhook(store, config, signature, body, at)
}

/// The settlement made of its parts.
pub open spec fn settlement_of(
    reference: Seq<char>,
    status: Seq<char>,
    gateway_response: Option<Seq<char>>,
    raw_payload: Option<Seq<u8>>,
) -> SettlementView {
    SettlementView { reference, status, gateway_response, raw_payload }
}

/// Settlement-apply at the current time: probes both partitions for the
/// reference and overwrites status, gateway response and raw payload of the
/// record that carries it.
///
/// Whatever the time turns out to be, the outcome and the store are as
/// `PaymentStore::apply_settlement` leaves them for it. In particular the
/// call fails with `ReferenceNotFound`, and changes nothing, exactly when no
/// record carries the reference.
pub fn update_payment_by_reference(
    store: &mut PaymentStore,
    reference: &str,
    status: &str,
    gateway_response: Option<String>,
    raw_payload: Option<Vec<u8>>,
) -> (result: Result<SettlementOutcome, PaymentError>)
    ensures
        exists|at: i64|
            {
                let expected = #[trigger] old(store)@.after_settlement(
                    settlement_of(
                        reference@,
                        status@,
                        gateway_response.deep_view(),
                        optional_bytes(raw_payload),
                    ),
                    at,
                );
                result == expected.0 && final(store)@ == expected.1
            },
        result == Err::<SettlementOutcome, PaymentError>(PaymentError::ReferenceNotFound) <==> !old(
            store,
        )@.holds_reference(reference@),
        result is Err ==> final(store)@ == old(store)@,
{
    let at = now_micros();
    let settlement = Settlement {
        reference: reference.to_owned(),
        status: status.to_owned(),
        gateway_response,
        raw_payload,
    };
    store.apply_settlement(&settlement, at)
}

/// Every payment, newest first.
pub fn list_all_payments_service(store: &PaymentStore) -> (payments: Vec<PaymentResponse>)
    ensures
        responses_view(payments@) == store@.listing(),
        is_newest_first(responses_view(payments@)),
        payments.len() == store@.users.len() + store@.drivers.len(),
{
    store.list_all()
}

/// The payments of one user, newest first.
pub fn list_user_payments_service(store: &PaymentStore, user_id: &str) -> (payments: Vec<
    PaymentResponse,
>)
    ensures
        responses_view(payments@) == store@.listing_of(PayerKind::User, user_id@),
        is_newest_first(responses_view(payments@)),
{
    store.list_by_payer(PayerKind::User, user_id)
}

/// The payments of one driver, newest first.
pub fn list_driver_payments_service(store: &PaymentStore, driver_id: &str) -> (payments: Vec<
    PaymentResponse,
>)
    ensures
        responses_view(payments@) == store@.listing_of(PayerKind::Driver, driver_id@),
        is_newest_first(responses_view(payments@)),
{
    store.list_by_payer(PayerKind::Driver, driver_id)
}

} // verus!
