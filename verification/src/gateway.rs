//! The gateway client's translation layer: what is sent to the payment
//! gateway for an initialize or a verify call, and how its answer is read.
//! Sending and receiving are the caller's; this module decides what goes out
//! and what the bytes that came back mean.

use vstd::prelude::*;
use vstd::string::StringExecFns;
use crate::error::outcome_is;
use crate::error::PaymentError;
use crate::error::Setting;
use crate::json::boolean_member;
use crate::json::json_model;
use crate::json::json_parse;
use crate::json::parse_value;
use crate::json::text_member;
use crate::json::unsigned_member;
use crate::json::value_member;
use crate::json::JsonModel;
use crate::models::payment_model::InitializeDataResponse;
use crate::models::payment_model::InitializeDataView;
use crate::models::payment_model::InitializeResponse;
use crate::models::payment_model::InitializeResponseView;
use crate::models::payment_model::VerifyDataView;
use crate::models::payment_model::VerifyResponse;
use crate::models::payment_model::VerifyResponseData;
use crate::models::payment_model::VerifyResponseView;
use crate::text::copy_bytes;
use crate::text::copy_optional_text;

verus! {

/// The settings of the gateway integration, set once when the process
/// starts. A setting that was not given is `None`; an operation that needs it
/// then fails with `ConfigurationMissing`.
#[derive(Debug, Clone, PartialEq, Eq)]
pub struct GatewayConfig {
    /// The bearer credential of outbound calls.
    pub api_key: Option<String>,
    /// The address of the gateway's initialize endpoint.
    pub initialize_url: Option<String>,
    /// The address of the gateway's verify endpoint; the reference is
    /// appended to it.
    pub verify_url: Option<String>,
    /// The secret that signs webhook bodies.
    pub webhook_secret: Option<String>,
}

/// The settings as contracts see them.
pub struct GatewayConfigView {
    pub api_key: Option<Seq<char>>,
    pub initialize_url: Option<Seq<char>>,
    pub verify_url: Option<Seq<char>>,
    pub webhook_secret: Option<Seq<char>>,
}

impl View for GatewayConfig {
    type V = GatewayConfigView;

    open spec fn view(&self) -> GatewayConfigView {
        GatewayConfigView {
            api_key: self.api_key.deep_view(),
            initialize_url: self.initialize_url.deep_view(),
            verify_url: self.verify_url.deep_view(),
            webhook_secret: self.webhook_secret.deep_view(),
        }
    }
}

/// The body of an initialize call. The currency goes out only where the
/// request set one.
#[derive(Debug, Clone, PartialEq, Eq)]
pub struct InitializePayload {
    pub email: String,
    pub amount: String,
    pub currency: Option<String>,
}

/// The body of an initialize call as contracts see it.
pub struct InitializePayloadView {
    pub email: Seq<char>,
    pub amount: Seq<char>,
    pub currency: Option<Seq<char>>,
}

impl View for InitializePayload {
    type V = InitializePayloadView;

    open spec fn view(&self) -> InitializePayloadView {
        InitializePayloadView {
            email: self.email@,
            amount: self.amount@,
            currency: self.currency.deep_view(),
        }
    }
}

/// An initialize call to make: a POST of `payload`, as JSON, to `url`, with
/// `authorization` as the value of the Authorization header.
#[derive(Debug, Clone, PartialEq, Eq)]
pub struct InitializeCall {
    pub url: String,
    pub authorization: String,
    pub payload: InitializePayload,
}

/// An initialize call as contracts see it.
pub struct InitializeCallView {
    pub url: Seq<char>,
    pub authorization: Seq<char>,
    pub payload: InitializePayloadView,
}

impl View for InitializeCall {
    type V = InitializeCallView;

    open spec fn view(&self) -> InitializeCallView {
        InitializeCallView {
            url: self.url@,
            authorization: self.authorization@,
            payload: self.payload@,
        }
    }
}

/// A verify call to make: a GET of `url`, authenticated with `bearer_token`.
#[derive(Debug, Clone, PartialEq, Eq)]
pub struct VerifyCall {
    pub url: String,
    pub bearer_token: String,
}

/// A verify call as contracts see it.
pub struct VerifyCallView {
    pub url: Seq<char>,
    pub bearer_token: Seq<char>,
}

impl View for VerifyCall {
    type V = VerifyCallView;

    open spec fn view(&self) -> VerifyCallView {
        VerifyCallView { url: self.url@, bearer_token: self.bearer_token@ }
    }
}

/// What came of a call to the gateway.
#[derive(Debug, Clone, PartialEq, Eq)]
pub enum GatewayReply {
    /// The call did not get through, or no answer came back.
    TransportFailure,
    /// The gateway answered with this HTTP status and body.
    Response { status: u16, body: Vec<u8> },
}

/// Whether an HTTP status reports success.
pub open spec fn spec_is_success(status: u16) -> bool {
    200 <= status < 300
}

/// Whether an HTTP status reports success.
pub fn is_success(status: u16) -> (yes: bool)
    ensures
        yes == spec_is_success(status),
{
    200 <= status && status < 300
}

/// The value of the Authorization header for a bearer credential.
pub open spec fn spec_bearer_header(api_key: Seq<char>) -> Seq<char> {
    "Bearer "@ + api_key
}

/// The value of the Authorization header for a bearer credential.
pub fn bearer_header(api_key: &str) -> (header: String)
    ensures
        header@ == spec_bearer_header(api_key@),
{
    String::from_str("Bearer ").concat(api_key)
}

/// The initialize call for a payment, or the setting that is missing.
pub open spec fn spec_initialize_call(
    config: GatewayConfigView,
    email: Seq<char>,
    amount: Seq<char>,
    currency: Option<Seq<char>>,
) -> Result<InitializeCallView, PaymentError> {
    match (config.api_key, config.initialize_url) {
        (None, _) => Err(PaymentError::ConfigurationMissing(Setting::ApiKey)),
        (Some(_), None) => Err(PaymentError::ConfigurationMissing(Setting::InitializeUrl)),
        (Some(key), Some(url)) => Ok(
            InitializeCallView {
                url,
                authorization: spec_bearer_header(key),
                payload: InitializePayloadView { email, amount, currency },
            },
        ),
    }
}

/// Describes the initialize call for a payment: the payload holds the email
/// and the amount, and the currency only where one was set.
pub fn initialize_call(
    config: &GatewayConfig,
    email: &str,
    amount: &str,
    currency: &Option<String>,
) -> (call: Result<InitializeCall, PaymentError>)
    ensures
        outcome_is(call, spec_initialize_call(config@, email@, amount@, currency.deep_view())),
{
    match &config.api_key {
        None => Err(PaymentError::ConfigurationMissing(Setting::ApiKey)),
        Some(key) => match &config.initialize_url {
            None => Err(PaymentError::ConfigurationMissing(Setting::InitializeUrl)),
            Some(url) => Ok(
                InitializeCall {
                    url: url.clone(),
                    authorization: bearer_header(key.as_str()),
                    payload: InitializePayload {
                        email: email.to_owned(),
                        amount: amount.to_owned(),
                        currency: copy_optional_text(currency),
                    },
                },
            ),
        },
    }
}

/// The verify call for a reference, or the setting that is missing.
pub open spec fn spec_verify_call(config: GatewayConfigView, reference: Seq<char>) -> Result<
    VerifyCallView,
    PaymentError,
> {
    match (config.api_key, config.verify_url) {
        (None, _) => Err(PaymentError::ConfigurationMissing(Setting::ApiKey)),
        (Some(_), None) => Err(PaymentError::ConfigurationMissing(Setting::VerifyUrl)),
        (Some(key), Some(prefix)) => Ok(VerifyCallView { url: prefix + reference, bearer_token: key }),
    }
}

/// Describes the verify call for a reference: the reference is appended to
/// the configured address.
pub fn verify_call(config: &GatewayConfig, reference: &str) -> (call: Result<
    VerifyCall,
    PaymentError,
>)
    ensures
        outcome_is(call, spec_verify_call(config@, reference@)),
{
    match &config.api_key {
        None => Err(PaymentError::ConfigurationMissing(Setting::ApiKey)),
        Some(key) => match &config.verify_url {
            None => Err(PaymentError::ConfigurationMissing(Setting::VerifyUrl)),
            Some(prefix) => Ok(
                VerifyCall { url: prefix.clone().concat(reference), bearer_token: key.clone() },
            ),
        },
    }
}

/// The initialize answer that a document holds: an object with a truth value
/// `status`, a string `message` and an object `data` whose members
/// `authorization_url`, `access_code` and `reference` are strings. Other
/// members are passed over.
pub open spec fn initialize_response_of(document: JsonModel) -> Option<InitializeResponseView> {
    match (
        document.boolean_member("status"@),
        document.text_member("message"@),
        document.member("data"@),
    ) {
        (Some(status), Some(message), Some(data)) => match (
            data.text_member("authorization_url"@),
            data.text_member("access_code"@),
            data.text_member("reference"@),
        ) {
            (Some(authorization_url), Some(access_code), Some(reference)) => Some(
                InitializeResponseView {
                    status,
                    message,
                    data: InitializeDataView { authorization_url, access_code, reference },
                },
            ),
            _ => None,
        },
        _ => None,
    }
}

/// The verify answer that a document holds: an object with a truth value
/// `status`, a string `message` and an object `data` whose members `status`,
/// `reference` and `gateway_response` are strings and whose `amount` is an
/// unsigned integer. Other members are passed over.
pub open spec fn verify_response_of(document: JsonModel) -> Option<VerifyResponseView> {
    match (
        document.boolean_member("status"@),
        document.text_member("message"@),
        document.member("data"@),
    ) {
        (Some(status), Some(message), Some(data)) => match (
            data.text_member("status"@),
            data.unsigned_member("amount"@),
            data.text_member("reference"@),
            data.text_member("gateway_response"@),
        ) {
            (Some(paid), Some(amount), Some(reference), Some(gateway_response)) => Some(
                VerifyResponseView {
                    status,
                    message,
                    data: VerifyDataView { status: paid, amount, reference, gateway_response },
                },
            ),
            _ => None,
        },
        _ => None,
    }
}

/// What an initialize reply means: a transport failure is
/// `GatewayUnavailable`; an answer with a status outside 200..=299, or a body
/// that holds no initialize answer, is `GatewayResponseInvalid`.
pub open spec fn spec_initialize_result(status_and_body: Option<(u16, Seq<u8>)>) -> Result<
    InitializeResponseView,
    PaymentError,
> {
    match status_and_body {
        None => Err(PaymentError::GatewayUnavailable),
        Some((status, body)) => if !spec_is_success(status) {
            Err(PaymentError::GatewayResponseInvalid)
        } else {
            match json_parse(body) {
                Some(document) => match initialize_response_of(document) {
                    Some(response) => Ok(response),
                    None => Err(PaymentError::GatewayResponseInvalid),
                },
                None => Err(PaymentError::GatewayResponseInvalid),
            }
        },
    }
}

/// What a verify reply means, by the same rule.
pub open spec fn spec_verify_result(status_and_body: Option<(u16, Seq<u8>)>) -> Result<
    VerifyResponseView,
    PaymentError,
> {
    match status_and_body {
        None => Err(PaymentError::GatewayUnavailable),
        Some((status, body)) => if !spec_is_success(status) {
            Err(PaymentError::GatewayResponseInvalid)
        } else {
            match json_parse(body) {
                Some(document) => match verify_response_of(document) {
                    Some(response) => Ok(response),
                    None => Err(PaymentError::GatewayResponseInvalid),
                },
                None => Err(PaymentError::GatewayResponseInvalid),
            }
        },
    }
}

impl GatewayReply {
    /// The status and body of an answer; `None` for a transport failure.
    pub open spec fn status_and_body(self) -> Option<(u16, Seq<u8>)> {
        match self {
            GatewayReply::TransportFailure => None,
            GatewayReply::Response { status, body } => Some((status, body@)),
        }
    }

    /// The bytes of the answer; none for a transport failure.
    pub open spec fn spec_body(self) -> Seq<u8> {
        match self {
            GatewayReply::TransportFailure => Seq::empty(),
            GatewayReply::Response { status, body } => body@,
        }
    }

    /// A copy of the bytes of the answer; none for a transport failure.
    pub fn body(&self) -> (bytes: Vec<u8>)
        ensures
            bytes@ == self.spec_body(),
    {
        match self {
            GatewayReply::TransportFailure => Vec::new(),
            GatewayReply::Response { status, body } => copy_bytes(body.as_slice()),
        }
    }
}

/// Reads the initialize answer out of a parsed document.
fn read_initialize_response(document: &serde_json::Value) -> (read: Option<InitializeResponse>)
    ensures
        match (read, initialize_response_of(json_model(*document))) {
            (Some(response), Some(expected)) => response@ == expected,
            (None, None) => true,
            _ => false,
        },
{
    let status = boolean_member(document, "status");
    let message = text_member(document, "message");
    let data = value_member(document, "data");
    match (status, message, data) {
        (Some(status), Some(message), Some(data)) => {
            let authorization_url = text_member(data, "authorization_url");
            let access_code = text_member(data, "access_code");
            let reference = text_member(data, "reference");
            match (authorization_url, access_code, reference) {
                (Some(authorization_url), Some(access_code), Some(reference)) => Some(
                    InitializeResponse {
                        status,
                        message,
                        data: InitializeDataResponse { authorization_url, access_code, reference },
                    },
                ),
                _ => None,
            }
        },
        _ => None,
    }
}

/// Reads the verify answer out of a parsed document.
fn read_verify_response(document: &serde_json::Value) -> (read: Option<VerifyResponse>)
    ensures
        match (read, verify_response_of(json_model(*document))) {
            (Some(response), Some(expected)) => response@ == expected,
            (None, None) => true,
            _ => false,
        },
{
    let status = boolean_member(document, "status");
    let message = text_member(document, "message");
    let data = value_member(document, "data");
    match (status, message, data) {
        (Some(status), Some(message), Some(data)) => {
            let paid = text_member(data, "status");
            let amount = unsigned_member(data, "amount");
            let reference = text_member(data, "reference");
            let gateway_response = text_member(data, "gateway_response");
            match (paid, amount, reference, gateway_response) {
                (Some(paid), Some(amount), Some(reference), Some(gateway_response)) => Some(
                    VerifyResponse {
                        status,
                        message,
                        data: VerifyResponseData {
                            status: paid,
                            amount,
                            reference,
                            gateway_response,
                        },
                    },
                ),
                _ => None,
            }
        },
        _ => None,
    }
}

/// Reads the gateway's answer to an initialize call.
pub fn initialize_result(reply: &GatewayReply) -> (result: Result<InitializeResponse, PaymentError>)
    ensures
        outcome_is(result, spec_initialize_result(reply.status_and_body())),
{
    match reply {
        GatewayReply::TransportFailure => Err(PaymentError::GatewayUnavailable),
        GatewayReply::Response { status, body } => {
            if !is_success(*status) {
                return Err(PaymentError::GatewayResponseInvalid);
            }
            match parse_value(body.as_slice()) {
                Ok(document) => match read_initialize_response(&document) {
                    Some(response) => Ok(response),
                    None => Err(PaymentError::GatewayResponseInvalid),
                },
                Err(_) => Err(PaymentError::GatewayResponseInvalid),
            }
        },
    }
}

/// Reads the gateway's answer to a verify call.
pub fn verify_result(reply: &GatewayReply) -> (result: Result<VerifyResponse, PaymentError>)
    ensures
        outcome_is(result, spec_verify_result(reply.status_and_body())),
{
    match reply {
        GatewayReply::TransportFailure => Err(PaymentError::GatewayUnavailable),
        GatewayReply::Response { status, body } => {
            if !is_success(*status) {
                return Err(PaymentError::GatewayResponseInvalid);
            }
            match parse_value(body.as_slice()) {
                Ok(document) => match read_verify_response(&document) {
                    Some(response) => Ok(response),
                    None => Err(PaymentError::GatewayResponseInvalid),
                },
                Err(_) => Err(PaymentError::GatewayResponseInvalid),
            }
        },
    }
}

} // verus!
