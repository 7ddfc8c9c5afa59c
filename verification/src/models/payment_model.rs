//! Requests and responses of the payment operations, and the gateway's
//! answers as the library holds them.

use vstd::prelude::*;

verus! {

/// A request to start a payment. Exactly one of `user_id` and `driver_id`
/// names the payer; a request with both or neither is turned away.
#[derive(Debug, Clone, PartialEq, Eq)]
pub struct InitializeRequest {
    pub email: String,
    pub amount: String,
    pub currency: Option<String>,
    pub user_id: Option<String>,
    pub driver_id: Option<String>,
}

/// An initialize request as contracts see it.
pub struct InitializeRequestView {
    pub email: Seq<char>,
    pub amount: Seq<char>,
    pub currency: Option<Seq<char>>,
    pub user_id: Option<Seq<char>>,
    pub driver_id: Option<Seq<char>>,
}

impl View for InitializeRequest {
    type V = InitializeRequestView;

    open spec fn view(&self) -> InitializeRequestView {
        InitializeRequestView {
            email: self.email@,
            amount: self.amount@,
            currency: self.currency.deep_view(),
            user_id: self.user_id.deep_view(),
            driver_id: self.driver_id.deep_view(),
        }
    }
}

/// What the gateway hands back for a started payment.
#[derive(Debug, Clone, PartialEq, Eq)]
pub struct InitializeDataResponse {
    pub authorization_url: String,
    pub access_code: String,
    pub reference: String,
}

/// The gateway's authorization artifacts as contracts see them.
pub struct InitializeDataView {
    pub authorization_url: Seq<char>,
    pub access_code: Seq<char>,
    pub reference: Seq<char>,
}

impl View for InitializeDataResponse {
    type V = InitializeDataView;

    open spec fn view(&self) -> InitializeDataView {
        InitializeDataView {
            authorization_url: self.authorization_url@,
            access_code: self.access_code@,
            reference: self.reference@,
        }
    }
}

/// The gateway's answer to an initialize call.
#[derive(Debug, Clone, PartialEq, Eq)]
pub struct InitializeResponse {
    pub status: bool,
    pub message: String,
    pub data: InitializeDataResponse,
}

/// An initialize answer as contracts see it.
pub struct InitializeResponseView {
    pub status: bool,
    pub message: Seq<char>,
    pub data: InitializeDataView,
}

impl View for InitializeResponse {
    type V = InitializeResponseView;

    open spec fn view(&self) -> InitializeResponseView {
        InitializeResponseView { status: self.status, message: self.message@, data: self.data@ }
    }
}

/// What the gateway reports of a transaction when asked to verify it.
#[derive(Debug, Clone, PartialEq, Eq)]
pub struct VerifyResponseData {
    pub status: String,
    pub amount: u64,
    pub reference: String,
    pub gateway_response: String,
}

/// The gateway's report of a transaction as contracts see it.
pub struct VerifyDataView {
    pub status: Seq<char>,
    pub amount: u64,
    pub reference: Seq<char>,
    pub gateway_response: Seq<char>,
}

impl View for VerifyResponseData {
    type V = VerifyDataView;

    open spec fn view(&self) -> VerifyDataView {
        VerifyDataView {
            status: self.status@,
            amount: self.amount,
            reference: self.reference@,
            gateway_response: self.gateway_response@,
        }
    }
}

/// The gateway's answer to a verify call.
#[derive(Debug, Clone, PartialEq, Eq)]
pub struct VerifyResponse {
    pub status: bool,
    pub message: String,
    pub data: VerifyResponseData,
}

/// A verify answer as contracts see it.
pub struct VerifyResponseView {
    pub status: bool,
    pub message: Seq<char>,
    pub data: VerifyDataView,
}

impl View for VerifyResponse {
    type V = VerifyResponseView;

    open spec fn view(&self) -> VerifyResponseView {
        VerifyResponseView { status: self.status, message: self.message@, data: self.data@ }
    }
}

/// The part of a webhook's `data` member that settlement reads. A member that
/// is absent, or is no JSON string, is `None`.
#[derive(Debug, Clone, PartialEq, Eq)]
pub struct WebhookData {
    pub reference: Option<String>,
    pub status: Option<String>,
    pub gateway_response: Option<String>,
}

/// The `data` of a webhook as contracts see it.
pub struct WebhookDataView {
    pub reference: Option<Seq<char>>,
    pub status: Option<Seq<char>>,
    pub gateway_response: Option<Seq<char>>,
}

impl View for WebhookData {
    type V = WebhookDataView;

    open spec fn view(&self) -> WebhookDataView {
        WebhookDataView {
            reference: self.reference.deep_view(),
            status: self.status.deep_view(),
            gateway_response: self.gateway_response.deep_view(),
        }
    }
}

/// A webhook delivery as settlement reads it: the event's name, empty where
/// the payload gives none, and the members of `data`.
#[derive(Debug, Clone, PartialEq, Eq)]
pub struct WebhookEvent {
    pub event: String,
    pub data: WebhookData,
}

/// A webhook delivery as contracts see it.
pub struct WebhookEventView {
    pub event: Seq<char>,
    pub data: WebhookDataView,
}

impl View for WebhookEvent {
    type V = WebhookEventView;

    open spec fn view(&self) -> WebhookEventView {
        WebhookEventView { event: self.event@, data: self.data@ }
    }
}

/// One payment as the listing endpoints show it. Times are microseconds since
/// the Unix epoch.
#[derive(Debug, Clone, PartialEq, Eq)]
pub struct PaymentResponse {
    pub id: String,
    /// `"user"` or `"driver"`.
    pub payer_type: String,
    pub payer_id: String,
    pub email: String,
    pub amount: String,
    pub currency: String,
    pub status: String,
    pub reference: String,
    pub authorization_url: Option<String>,
    pub access_code: Option<String>,
    pub gateway_response: Option<String>,
    pub created_at: i64,
    pub updated_at: i64,
}

/// A listed payment as contracts see it.
pub struct PaymentResponseView {
    pub id: Seq<char>,
    pub payer_type: Seq<char>,
    pub payer_id: Seq<char>,
    pub email: Seq<char>,
    pub amount: Seq<char>,
    pub currency: Seq<char>,
    pub status: Seq<char>,
    pub reference: Seq<char>,
    pub authorization_url: Option<Seq<char>>,
    pub access_code: Option<Seq<char>>,
    pub gateway_response: Option<Seq<char>>,
    pub created_at: i64,
    pub updated_at: i64,
}

impl View for PaymentResponse {
    type V = PaymentResponseView;

    open spec fn view(&self) -> PaymentResponseView {
        PaymentResponseView {
            id: self.id@,
            payer_type: self.payer_type@,
            payer_id: self.payer_id@,
            email: self.email@,
            amount: self.amount@,
            currency: self.currency@,
            status: self.status@,
            reference: self.reference@,
            authorization_url: self.authorization_url.deep_view(),
            access_code: self.access_code.deep_view(),
            gateway_response: self.gateway_response.deep_view(),
            created_at: self.created_at,
            updated_at: self.updated_at,
        }
    }
}

} // verus!
