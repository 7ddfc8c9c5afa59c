//! The closed set of failures that payment operations report.

use vstd::prelude::*;
use vstd::string::StringExecFns;

verus! {

/// Why an input was turned away.
#[derive(Debug, Clone, Copy, PartialEq, Eq, Structural)]
pub enum Invalid {
    /// Both a user and a driver were named as the payer.
    BothPayers,
    /// Neither a user nor a driver was named as the payer.
    NoPayer,
    /// A webhook arrived without its signature header.
    MissingSignature,
    /// The signature header is not readable text.
    MalformedSignature,
    /// The webhook body is not a JSON document.
    MalformedPayload,
    /// The webhook names no payment reference.
    MissingReference,
}

/// A setting that an operation needs and the configuration lacks.
#[derive(Debug, Clone, Copy, PartialEq, Eq, Structural)]
pub enum Setting {
    ApiKey,
    InitializeUrl,
    VerifyUrl,
    WebhookSecret,
}

/// How a payment operation failed.
#[derive(Debug, Clone, Copy, PartialEq, Eq, Structural)]
pub enum PaymentError {
    /// Bad or missing input; nothing outside the process was touched.
    ValidationError(Invalid),
    /// The configuration lacks a setting the operation needs.
    ConfigurationMissing(Setting),
    /// The gateway could not be reached.
    GatewayUnavailable,
    /// The gateway answered, but not with what the protocol promises.
    GatewayResponseInvalid,
    /// The webhook signature does not match the body.
    SignatureInvalid,
    /// No payment record carries the reference.
    ReferenceNotFound,
    /// The store refused the write.
    PersistenceError,
}

impl Invalid {
    /// The sentence shown for this reason.
    pub open spec fn spec_message(self) -> Seq<char> {
        match self {
            Invalid::BothPayers => "Provide only one of user_id or driver_id"@,
            Invalid::NoPayer => "user_id or driver_id is required"@,
            Invalid::MissingSignature => "Missing x-paystack-signature header"@,
            Invalid::MalformedSignature => "Invalid signature header format"@,
            Invalid::MalformedPayload => "Failed to parse webhook payload"@,
            Invalid::MissingReference => "Webhook payload missing reference"@,
        }
    }

    /// The sentence shown for this failure.
    pub fn message(&self) -> (text: String)
        ensures
            text@ == self.spec_message(),
    {
        match self {
            Invalid::BothPayers => String::from_str("Provide only one of user_id or driver_id"),
            Invalid::NoPayer => String::from_str("user_id or driver_id is required"),
            Invalid::MissingSignature => String::from_str("Missing x-paystack-signature header"),
            Invalid::MalformedSignature => String::from_str("Invalid signature header format"),
            Invalid::MalformedPayload => String::from_str("Failed to parse webhook payload"),
            Invalid::MissingReference => String::from_str("Webhook payload missing reference"),
        }
    }
}

impl Setting {
    /// The sentence shown when this setting is absent.
    pub open spec fn spec_message(self) -> Seq<char> {
        match self {
            Setting::ApiKey => "PAYSTACK_API_KEY not set in environment"@,
            Setting::InitializeUrl => "PAYSTACK_INITIALIZE_URL not set in environment"@,
            Setting::VerifyUrl => "PAYSTACK_TRANS_VERIFY_URL not set in environment"@,
            Setting::WebhookSecret => "Webhook secret not set in environment"@,
        }
    }

    /// The sentence shown for this failure.
    pub fn message(&self) -> (text: String)
        ensures
            text@ == self.spec_message(),
    {
        match self {
            Setting::ApiKey => String::from_str("PAYSTACK_API_KEY not set in environment"),
            Setting::InitializeUrl => String::from_str(
                "PAYSTACK_INITIALIZE_URL not set in environment",
            ),
            Setting::VerifyUrl => String::from_str(
                "PAYSTACK_TRANS_VERIFY_URL not set in environment",
            ),
            Setting::WebhookSecret => String::from_str("Webhook secret not set in environment"),
        }
    }
}

impl PaymentError {
    /// The sentence shown for this failure.
    pub open spec fn spec_message(self) -> Seq<char> {
        match self {
            PaymentError::ValidationError(reason) => reason.spec_message(),
            PaymentError::ConfigurationMissing(setting) => setting.spec_message(),
            PaymentError::GatewayUnavailable => "Payment gateway request failed"@,
            PaymentError::GatewayResponseInvalid => "Failed to parse response"@,
            PaymentError::SignatureInvalid => "Invalid webhook signature"@,
            PaymentError::ReferenceNotFound => "No payment found for reference"@,
            PaymentError::PersistenceError => "Failed to store payment"@,
        }
    }

    /// Whether the failure is the caller's: bad input, as opposed to a fault of
    /// the gateway, the store or the configuration.
    pub open spec fn spec_is_validation(self) -> bool {
        self is ValidationError
    }

    /// Whether the failure is the caller's: bad input.
    pub fn is_validation(&self) -> (b: bool)
        ensures
            b == self.spec_is_validation(),
    {
        match self {
            PaymentError::ValidationError(_) => true,
            _ => false,
        }
    }

    /// The sentence shown for this failure.
    pub fn message(&self) -> (text: String)
        ensures
            text@ == self.spec_message(),
    {
        match self {
            PaymentError::ValidationError(reason) => reason.message(),
            PaymentError::ConfigurationMissing(setting) => setting.message(),
            PaymentError::GatewayUnavailable => String::from_str("Payment gateway request failed"),
            PaymentError::GatewayResponseInvalid => String::from_str("Failed to parse response"),
            PaymentError::SignatureInvalid => String::from_str("Invalid webhook signature"),
            PaymentError::ReferenceNotFound => String::from_str("No payment found for reference"),
            PaymentError::PersistenceError => String::from_str("Failed to store payment"),
        }
    }
}

/// Whether an outcome is the expected one: the same failure, or a success
/// whose value has the expected view.
pub open spec fn outcome_is<T: View>(
    outcome: Result<T, PaymentError>,
    expected: Result<T::V, PaymentError>,
) -> bool {
    match (outcome, expected) {
        (Ok(value), Ok(view)) => value@ == view,
        (Err(e), Err(f)) => e == f,
        _ => false,
    }
}

/// Whether an outcome without a value is the expected one: success, or the
/// same failure.
pub open spec fn done_is(outcome: Result<(), PaymentError>, expected: Result<(), PaymentError>) -> bool {
    match (outcome, expected) {
        (Ok(_), Ok(_)) => true,
        (Err(e), Err(f)) => e == f,
        _ => false,
    }
}

} // verus!
