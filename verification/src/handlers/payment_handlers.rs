//! The HTTP answers of the payment endpoints: which status goes out for
//! which outcome, and what stands in the body where the service failed.

use vstd::prelude::*;
use vstd::string::StringExecFns;
use crate::error::outcome_is;
use crate::error::Invalid;
use crate::error::PaymentError;
use crate::gateway::GatewayConfig;
use crate::gateway::GatewayConfigView;
use crate::models::payment_model::InitializeResponse;
use crate::models::payment_model::PaymentResponse;
use crate::models::payment_model::VerifyDataView;
use crate::models::payment_model::VerifyResponse;
use crate::models::payment_model::VerifyResponseData;
use crate::models::payment_model::VerifyResponseView;
use crate::services::payment_service::authenticate_webhook;
use crate::services::payment_service::handle_webhook;
use crate::services::payment_service::read_webhook;
use crate::services::payment_service::receive_webhook;
use crate::services::payment_service::spec_authenticate_webhook;
use crate::services::payment_service::spec_handle_webhook;
use crate::services::payment_service::spec_read_webhook;
use crate::services::payment_service::Verification;
use crate::store::model::StoreView;
use crate::store::record::Settlement;
use crate::store::record::SettlementOutcome;
use crate::store::record::SettlementView;
use crate::store::PaymentStore;

verus! {

/// The request went through.
pub const OK: u16 = 200;

/// The request is malformed.
pub const BAD_REQUEST: u16 = 400;

/// The request does not show whom it is from.
pub const UNAUTHORIZED: u16 = 401;

/// The server could not do what was asked.
pub const INTERNAL_SERVER_ERROR: u16 = 500;

/// What a webhook request carries under `x-paystack-signature`.
#[derive(Debug, Clone, PartialEq, Eq)]
pub enum SignatureHeader {
    /// The request has no such header.
    Missing,
    /// The header's value is not readable text.
    Malformed,
    /// The header's value.
    Present(String),
}

impl SignatureHeader {
    /// The header's value, where it has a readable one.
    pub open spec fn value(self) -> Option<Seq<char>> {
        match self {
            SignatureHeader::Present(signature) => Some(signature@),
            _ => None,
        }
    }

    /// What is wrong with a header that has no readable value.
    pub open spec fn fault(self) -> PaymentError {
        match self {
            SignatureHeader::Malformed => PaymentError::ValidationError(
                Invalid::MalformedSignature,
            ),
            _ => PaymentError::ValidationError(Invalid::MissingSignature),
        }
    }
}

/// Whether a failure is of the request's form: the signature header is
/// missing or unreadable, or the body is no JSON document.
pub open spec fn is_malformed_request(failure: PaymentError) -> bool {
    failure == PaymentError::ValidationError(Invalid::MissingSignature) || failure
        == PaymentError::ValidationError(Invalid::MalformedSignature) || failure
        == PaymentError::ValidationError(Invalid::MalformedPayload)
}

/// The status that answers a webhook: 200 where the settlement went
/// through, 400 for a request that is malformed, 401 for a signature that
/// does not match, 500 for anything else.
pub open spec fn spec_webhook_status_code(outcome: Result<SettlementOutcome, PaymentError>) -> u16 {
    match outcome {
        Ok(_) => OK,
        Err(failure) => if is_malformed_request(failure) {
            BAD_REQUEST
        } else if failure == PaymentError::SignatureInvalid {
            UNAUTHORIZED
        } else {
            INTERNAL_SERVER_ERROR
        },
    }
}

/// The status that answers a webhook, from the outcome of serving it.
pub fn webhook_status_code(outcome: &Result<SettlementOutcome, PaymentError>) -> (code: u16)
    ensures
        code == spec_webhook_status_code(*outcome),
{
    match outcome {
        Ok(_) => OK,
        Err(PaymentError::ValidationError(Invalid::MissingSignature)) => BAD_REQUEST,
        Err(PaymentError::ValidationError(Invalid::MalformedSignature)) => BAD_REQUEST,
        Err(PaymentError::ValidationError(Invalid::MalformedPayload)) => BAD_REQUEST,
        Err(PaymentError::SignatureInvalid) => UNAUTHORIZED,
        Err(_) => INTERNAL_SERVER_ERROR,
    }
}

/// The settlement that a webhook request reports, once its header, its
/// signature and its body have been checked, in that order.
pub open spec fn spec_signed_settlement(
    config: GatewayConfigView,
    header: SignatureHeader,
    body: Seq<u8>,
) -> Result<SettlementView, PaymentError> {
    match header.value() {
        None => Err(header.fault()),
        Some(signature) => match spec_authenticate_webhook(config, signature, body) {
            Err(e) => Err(e),
            Ok(_) => spec_read_webhook(body),
        },
    }
}

/// Checks a webhook request and derives the settlement that it reports.
/// The body is parsed only after its signature was found valid.
pub fn signed_settlement(config: &GatewayConfig, header: &SignatureHeader, body: &[u8]) -> (settlement:
    Result<Settlement, PaymentError>)
    ensures
        outcome_is(settlement, spec_signed_settlement(config@, *header, body@)),
{
    match header {
        SignatureHeader::Missing => Err(PaymentError::ValidationError(Invalid::MissingSignature)),
        SignatureHeader::Malformed => Err(
            PaymentError::ValidationError(Invalid::MalformedSignature),
        ),
        SignatureHeader::Present(signature) => match authenticate_webhook(
            config,
            signature.as_str(),
            body,
        ) {
            Err(e) => Err(e),
            Ok(_) => read_webhook(body),
        },
    }
}

/// What receiving a webhook request does: the outcome, and the store after
/// it. A request without a readable signature header is turned away before
/// anything else is looked at.
pub open spec fn spec_paystack_webhook(
    store: StoreView,
    config: GatewayConfigView,
    header: SignatureHeader,
    body: Seq<u8>,
    at: i64,
) -> (Result<SettlementOutcome, PaymentError>, StoreView) {
    match header.value() {
        None => (Err(header.fault()), store),
        Some(signature) => spec_handle_webhook(store, config, signature, body, at),
    }
}

/// Serves a webhook request at the given time, and gives the status to
/// answer with.
pub fn serve_webhook(
    store: &mut PaymentStore,
    config: &GatewayConfig,
    header: &SignatureHeader,
    body: &[u8],
    at: i64,
) -> (code: u16)
    ensures
        code == spec_webhook_status_code(
            spec_paystack_webhook(old(store)@, config@, *header, body@, at).0,
        ),
        final(store)@ == spec_paystack_webhook(old(store)@, config@, *header, body@, at).1,
        code != OK ==> final(store)@ == old(store)@,
{
    match header {
        SignatureHeader::Missing => BAD_REQUEST,
        SignatureHeader::Malformed => BAD_REQUEST,
        SignatureHeader::Present(signature) => {
            let outcome = receive_webhook(store, config, signature.as_str(), body, at);
            webhook_status_code(&outcome)
        },
    }
}

/// Serves a webhook request at the current time, and gives the status to
/// answer with. Whatever the time turns out to be, status and store are as
/// `serve_webhook` leaves them for it.
pub fn paystack_webhook(
    store: &mut PaymentStore,
    config: &GatewayConfig,
    header: &SignatureHeader,
    body: &[u8],
) -> (code: u16)
    ensures
        exists|at: i64|
            {
                let expected = #[trigger] spec_paystack_webhook(
                    old(store)@,
                    config@,
                    *header,
                    body@,
                    at,
                );
                code == spec_webhook_status_code(expected.0) && final(store)@ == expected.1
            },
        code != OK ==> final(store)@ == old(store)@,
{
    match header {
        SignatureHeader::Present(signature) => {
            let ghost before = store@;
            let outcome = handle_webhook(store, config, signature.as_str(), body);
            proof {
                let at = choose|at: i64|
                    {
                        let expected = #[trigger] spec_handle_webhook(
                            before,
                            config@,
                            signature@,
                            body@,
                            at,
                        );
                        outcome == expected.0 && store@ == expected.1
                    };
                assert(spec_paystack_webhook(before, config@, *header, body@, at)
                    == spec_handle_webhook(before, config@, signature@, body@, at));
            }
            webhook_status_code(&outcome)
        },
        _ => {
            proof {
                let expected = spec_paystack_webhook(store@, config@, *header, body@, 0);
                assert(spec_webhook_status_code(expected.0) == BAD_REQUEST);
                assert(expected.1 == store@);
            }
            BAD_REQUEST
        },
    }
}

/// The body that answers a verification that failed: every field at its
/// zero value, the status `false`.
pub open spec fn verify_failure() -> VerifyResponseView {
    VerifyResponseView {
        status: false,
        message: "Payment verification failed"@,
        data: VerifyDataView {
            status: "failed"@,
            amount: 0,
            reference: Seq::empty(),
            gateway_response: Seq::empty(),
        },
    }
}

/// Answers a verification: 200 with the gateway's answer, or 500 with the
/// failure body.
pub fn verify_payment(outcome: Result<Verification, PaymentError>) -> (answer: (u16, VerifyResponse))
    ensures
        match outcome {
            Ok(verification) => answer.0 == OK && answer.1 == verification.response,
            Err(_) => answer.0 == INTERNAL_SERVER_ERROR && answer.1@ == verify_failure(),
        },
{
    match outcome {
        Ok(verification) => (OK, verification.response),
        Err(_) => (
            INTERNAL_SERVER_ERROR,
            VerifyResponse {
                status: false,
                message: String::from_str("Payment verification failed"),
                data: VerifyResponseData {
                    status: String::from_str("failed"),
                    amount: 0,
                    reference: String::new(),
                    gateway_response: String::new(),
                },
            },
        ),
    }
}

/// Answers an initialize call: the gateway's answer as the body, or 500 for
/// any failure.
pub fn initialize_payment(outcome: Result<InitializeResponse, PaymentError>) -> (answer: Result<
    InitializeResponse,
    u16,
>)
    ensures
        match outcome {
            Ok(response) => answer == Ok::<InitializeResponse, u16>(response),
            Err(_) => answer == Err::<InitializeResponse, u16>(INTERNAL_SERVER_ERROR),
        },
{
    match outcome {
        Ok(response) => Ok(response),
        Err(_) => Err(INTERNAL_SERVER_ERROR),
    }
}

/// Answers a redirect call: the address to redirect to, or 500 for any
/// failure.
pub fn initialize_payment_redirect(outcome: Result<String, PaymentError>) -> (answer: Result<
    String,
    u16,
>)
    ensures
        match outcome {
            Ok(url) => answer == Ok::<String, u16>(url),
            Err(_) => answer == Err::<String, u16>(INTERNAL_SERVER_ERROR),
        },
{
    match outcome {
        Ok(url) => Ok(url),
        Err(_) => Err(INTERNAL_SERVER_ERROR),
    }
}

/// Answers a listing: 200 with the payments, or 500 with an empty list.
pub fn list_payments<E>(outcome: Result<Vec<PaymentResponse>, E>) -> (answer: (
    u16,
    Vec<PaymentResponse>,
))
    ensures
        match outcome {
            Ok(payments) => answer.0 == OK && answer.1 == payments,
            Err(_) => answer.0 == INTERNAL_SERVER_ERROR && answer.1@.len() == 0,
        },
{
    match outcome {
        Ok(payments) => (OK, payments),
        Err(_) => (INTERNAL_SERVER_ERROR, Vec::new()),
    }
}

} // verus!
