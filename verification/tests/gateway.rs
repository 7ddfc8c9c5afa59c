use ridenow_backend::error::Invalid;
use ridenow_backend::error::PaymentError;
use ridenow_backend::error::Setting;
use ridenow_backend::gateway::bearer_header;
use ridenow_backend::gateway::initialize_call;
use ridenow_backend::gateway::initialize_result;
use ridenow_backend::gateway::is_success;
use ridenow_backend::gateway::verify_call;
use ridenow_backend::gateway::verify_result;
use ridenow_backend::gateway::GatewayConfig;
use ridenow_backend::gateway::GatewayReply;
use ridenow_backend::models::payment_model::WebhookData;
use ridenow_backend::models::payment_model::WebhookEvent;
use ridenow_backend::services::payment_service::webhook_settlement;
use ridenow_backend::services::payment_service::webhook_status;

fn config() -> GatewayConfig {
    GatewayConfig {
        api_key: Some("sk_test_key".to_string()),
        initialize_url: Some("https://gateway.test/initialize".to_string()),
        verify_url: Some("https://gateway.test/verify/".to_string()),
        webhook_secret: None,
    }
}

fn event(name: &str, status: Option<&str>) -> WebhookEvent {
    WebhookEvent {
        event: name.to_string(),
        data: WebhookData {
            reference: Some("ref_123".to_string()),
            status: status.map(|s| s.to_string()),
            gateway_response: Some("Approved".to_string()),
        },
    }
}

fn answer(body: &str) -> GatewayReply {
    GatewayReply::Response { status: 200, body: body.as_bytes().to_vec() }
}

#[test]
fn bearer_header_puts_the_scheme_before_the_key() {
    assert_eq!(bearer_header("sk_test_key"), "Bearer sk_test_key");
    assert_eq!(bearer_header(""), "Bearer ");
}

#[test]
fn initialize_call_sends_the_currency_only_when_set() {
    let without = initialize_call(&config(), "a@b.com", "5000", &None).unwrap();
    assert_eq!(without.url, "https://gateway.test/initialize");
    assert_eq!(without.authorization, "Bearer sk_test_key");
    assert_eq!(without.payload.email, "a@b.com");
    assert_eq!(without.payload.amount, "5000");
    assert_eq!(without.payload.currency, None);
    let with = initialize_call(&config(), "a@b.com", "5000", &Some("USD".to_string())).unwrap();
    assert_eq!(with.payload.currency, Some("USD".to_string()));
}

#[test]
fn calls_need_their_settings() {
    let mut no_key = config();
    no_key.api_key = None;
    assert_eq!(
        initialize_call(&no_key, "a@b.com", "1", &None),
        Err(PaymentError::ConfigurationMissing(Setting::ApiKey))
    );
    assert_eq!(verify_call(&no_key, "ref"), Err(PaymentError::ConfigurationMissing(Setting::ApiKey)));
    let mut no_urls = config();
    no_urls.initialize_url = None;
    no_urls.verify_url = None;
    assert_eq!(
        initialize_call(&no_urls, "a@b.com", "1", &None),
        Err(PaymentError::ConfigurationMissing(Setting::InitializeUrl))
    );
    assert_eq!(verify_call(&no_urls, "ref"), Err(PaymentError::ConfigurationMissing(Setting::VerifyUrl)));
}

#[test]
fn verify_call_appends_the_reference_to_the_address() {
    let call = verify_call(&config(), "ref_123").unwrap();
    assert_eq!(call.url, "https://gateway.test/verify/ref_123");
    assert_eq!(call.bearer_token, "sk_test_key");
}

#[test]
fn only_the_two_hundreds_are_success() {
    assert!(is_success(200));
    assert!(is_success(201));
    assert!(is_success(299));
    assert!(!is_success(199));
    assert!(!is_success(300));
    assert!(!is_success(404));
    assert!(!is_success(0));
}

#[test]
fn initialize_answer_is_read_member_by_member() {
    let reply = answer(
        r#"{"data":{"reference":"ref_9","access_code":"ac","authorization_url":"https://c.test/x","extra":1},"message":"ok","status":false}"#,
    );
    let response = initialize_result(&reply).unwrap();
    assert!(!response.status);
    assert_eq!(response.message, "ok");
    assert_eq!(response.data.authorization_url, "https://c.test/x");
    assert_eq!(response.data.access_code, "ac");
    assert_eq!(response.data.reference, "ref_9");
}

#[test]
fn initialize_answer_needs_every_member_in_its_kind() {
    let missing_reference = r#"{"status":true,"message":"ok","data":{"authorization_url":"u","access_code":"a"}}"#;
    let status_as_text = r#"{"status":"true","message":"ok","data":{"authorization_url":"u","access_code":"a","reference":"r"}}"#;
    let data_as_list = r#"{"status":true,"message":"ok","data":["u","a","r"]}"#;
    let message_missing = r#"{"status":true,"data":{"authorization_url":"u","access_code":"a","reference":"r"}}"#;
    let a_list = r#"[true,"ok",{"authorization_url":"u","access_code":"a","reference":"r"}]"#;
    for body in [missing_reference, status_as_text, data_as_list, message_missing, a_list, "", "null"] {
        assert_eq!(initialize_result(&answer(body)), Err(PaymentError::GatewayResponseInvalid), "{}", body);
    }
}

#[test]
fn replies_fail_by_their_kind() {
    assert_eq!(initialize_result(&GatewayReply::TransportFailure), Err(PaymentError::GatewayUnavailable));
    assert_eq!(verify_result(&GatewayReply::TransportFailure), Err(PaymentError::GatewayUnavailable));
    let good = r#"{"status":true,"message":"ok","data":{"authorization_url":"u","access_code":"a","reference":"r"}}"#;
    let not_found = GatewayReply::Response { status: 404, body: good.as_bytes().to_vec() };
    assert_eq!(initialize_result(&not_found), Err(PaymentError::GatewayResponseInvalid));
    assert_eq!(GatewayReply::TransportFailure.body(), Vec::<u8>::new());
    assert_eq!(not_found.body(), good.as_bytes().to_vec());
}

#[test]
fn verify_answer_is_read_member_by_member() {
    let reply = answer(
        r#"{"status":true,"message":"Verification successful","data":{"status":"abandoned","amount":18446744073709551615,"reference":"ref_1","gateway_response":"Not completed"}}"#,
    );
    let response = verify_result(&reply).unwrap();
    assert!(response.status);
    assert_eq!(response.message, "Verification successful");
    assert_eq!(response.data.status, "abandoned");
    assert_eq!(response.data.amount, u64::MAX);
    assert_eq!(response.data.reference, "ref_1");
    assert_eq!(response.data.gateway_response, "Not completed");
}

#[test]
fn verify_answer_needs_an_unsigned_amount() {
    let as_text = r#"{"status":true,"message":"m","data":{"status":"s","amount":"5000","reference":"r","gateway_response":"g"}}"#;
    let fraction = r#"{"status":true,"message":"m","data":{"status":"s","amount":50.5,"reference":"r","gateway_response":"g"}}"#;
    let too_large = r#"{"status":true,"message":"m","data":{"status":"s","amount":18446744073709551616,"reference":"r","gateway_response":"g"}}"#;
    let missing = r#"{"status":true,"message":"m","data":{"status":"s","reference":"r","gateway_response":"g"}}"#;
    for body in [as_text, fraction, too_large, missing] {
        assert_eq!(verify_result(&answer(body)), Err(PaymentError::GatewayResponseInvalid), "{}", body);
    }
}

#[test]
fn charge_success_is_success_whatever_the_data_says() {
    assert_eq!(webhook_status(&event("charge.success", Some("failed"))), "success");
    assert_eq!(webhook_status(&event("charge.success", Some("pending"))), "success");
    assert_eq!(webhook_status(&event("charge.success", None)), "success");
}

#[test]
fn charge_failed_is_failed_whatever_the_data_says() {
    assert_eq!(webhook_status(&event("charge.failed", Some("success"))), "failed");
    assert_eq!(webhook_status(&event("charge.failed", None)), "failed");
}

#[test]
fn other_events_fall_back_to_the_data_status_or_pending() {
    assert_eq!(webhook_status(&event("transfer.success", Some("reversed"))), "reversed");
    assert_eq!(webhook_status(&event("transfer.success", None)), "pending");
    assert_eq!(webhook_status(&event("", Some("success"))), "success");
    assert_eq!(webhook_status(&event("", None)), "pending");
    assert_eq!(webhook_status(&event("CHARGE.SUCCESS", None)), "pending");
}

#[test]
fn webhook_settlement_carries_the_body_as_snapshot() {
    let settlement = webhook_settlement(&event("charge.success", None), b"raw body").unwrap();
    assert_eq!(settlement.reference, "ref_123");
    assert_eq!(settlement.status, "success");
    assert_eq!(settlement.gateway_response, Some("Approved".to_string()));
    assert_eq!(settlement.raw_payload, Some(b"raw body".to_vec()));
}

#[test]
fn webhook_settlement_needs_a_reference() {
    let mut empty = event("charge.success", None);
    empty.data.reference = Some(String::new());
    assert_eq!(
        webhook_settlement(&empty, b"{}"),
        Err(PaymentError::ValidationError(Invalid::MissingReference))
    );
    let mut absent = event("charge.success", None);
    absent.data.reference = None;
    assert_eq!(
        webhook_settlement(&absent, b"{}"),
        Err(PaymentError::ValidationError(Invalid::MissingReference))
    );
}

#[test]
fn failures_have_their_messages() {
    assert_eq!(PaymentError::ValidationError(Invalid::BothPayers).message(), "Provide only one of user_id or driver_id");
    assert_eq!(PaymentError::ValidationError(Invalid::NoPayer).message(), "user_id or driver_id is required");
    assert_eq!(PaymentError::ValidationError(Invalid::MissingReference).message(), "Webhook payload missing reference");
    assert_eq!(PaymentError::ReferenceNotFound.message(), "No payment found for reference");
    assert_eq!(PaymentError::ConfigurationMissing(Setting::ApiKey).message(), "PAYSTACK_API_KEY not set in environment");
    assert_eq!(Setting::InitializeUrl.message(), "PAYSTACK_INITIALIZE_URL not set in environment");
    assert_eq!(Setting::VerifyUrl.message(), "PAYSTACK_TRANS_VERIFY_URL not set in environment");
    assert!(PaymentError::ValidationError(Invalid::MalformedPayload).is_validation());
    assert!(!PaymentError::GatewayUnavailable.is_validation());
    assert!(!PaymentError::SignatureInvalid.is_validation());
}
