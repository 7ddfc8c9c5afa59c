use ridenow_backend::error::Invalid;
use ridenow_backend::error::PaymentError;
use ridenow_backend::error::Setting;
use ridenow_backend::gateway::GatewayConfig;
use ridenow_backend::gateway::GatewayReply;
use ridenow_backend::handlers::payment_handlers::initialize_payment;
use ridenow_backend::handlers::payment_handlers::initialize_payment_redirect;
use ridenow_backend::handlers::payment_handlers::list_payments;
use ridenow_backend::handlers::payment_handlers::paystack_webhook;
use ridenow_backend::handlers::payment_handlers::serve_webhook;
use ridenow_backend::handlers::payment_handlers::verify_payment;
use ridenow_backend::handlers::payment_handlers::webhook_status_code;
use ridenow_backend::handlers::payment_handlers::SignatureHeader;
use ridenow_backend::models::payment_model::InitializeRequest;
use ridenow_backend::models::payment_model::PaymentResponse;
use ridenow_backend::models::payment_model::VerifyResponse;
use ridenow_backend::models::payment_model::VerifyResponseData;
use ridenow_backend::services::payment_service::complete_initialize;
use ridenow_backend::services::payment_service::complete_verify;
use ridenow_backend::store::record::SettlementOutcome;
use ridenow_backend::store::PaymentStore;

const BODY: &[u8] =
    br#"{"event":"charge.success","data":{"reference":"ref_123","gateway_response":"Approved"}}"#;

const SIGNATURE: &str = "c3e34fa626377e30e6db33a146dc13c8aa869805c7ac5c265d34f890365f6e8d3d4b75371cf89dd5a01c98ecc66852f91c2cb7de12b1fa751a130dd58821834a";

fn config() -> GatewayConfig {
    GatewayConfig {
        api_key: Some("sk_test_key".to_string()),
        initialize_url: Some("https://gateway.test/initialize".to_string()),
        verify_url: Some("https://gateway.test/verify/".to_string()),
        webhook_secret: Some("sk_test_secret".to_string()),
    }
}

fn store_with_pending_payment() -> PaymentStore {
    let mut store = PaymentStore::new();
    let request = InitializeRequest {
        email: "a@b.com".to_string(),
        amount: "5000".to_string(),
        currency: None,
        user_id: Some("u1".to_string()),
        driver_id: None,
    };
    let reply = GatewayReply::Response {
        status: 200,
        body: br#"{"status":true,"message":"ok","data":{"authorization_url":"https://c.test/x","access_code":"ac","reference":"ref_123"}}"#.to_vec(),
    };
    complete_initialize(&mut store, &request, &reply, "id-1".to_string(), 1).unwrap();
    store
}

#[test]
fn webhook_with_a_valid_signature_answers_ok() {
    let mut store = store_with_pending_payment();
    let code = paystack_webhook(&mut store, &config(), &SignatureHeader::Present(SIGNATURE.to_string()), BODY);
    assert_eq!(code, 200);
    assert_eq!(store.find_by_reference("ref_123").unwrap().1.status, "success");
}

#[test]
fn webhook_without_a_readable_signature_header_is_a_bad_request() {
    let mut store = store_with_pending_payment();
    assert_eq!(paystack_webhook(&mut store, &config(), &SignatureHeader::Missing, BODY), 400);
    assert_eq!(serve_webhook(&mut store, &config(), &SignatureHeader::Malformed, BODY, 5), 400);
    assert_eq!(store.find_by_reference("ref_123").unwrap().1.status, "pending");
}

#[test]
fn webhook_with_a_wrong_signature_is_unauthorized() {
    let mut store = store_with_pending_payment();
    let header = SignatureHeader::Present("00".repeat(64));
    assert_eq!(serve_webhook(&mut store, &config(), &header, BODY, 5), 401);
    assert_eq!(store.find_by_reference("ref_123").unwrap().1.status, "pending");
}

#[test]
fn webhook_without_a_secret_is_a_server_error() {
    let mut store = store_with_pending_payment();
    let mut config = config();
    config.webhook_secret = None;
    let header = SignatureHeader::Present(SIGNATURE.to_string());
    assert_eq!(serve_webhook(&mut store, &config, &header, BODY, 5), 500);
}

#[test]
fn signed_webhook_with_an_unreadable_body_is_a_bad_request() {
    let mut store = PaymentStore::new();
    let header = SignatureHeader::Present("049609f73fad3c7f1d7e7143a836b16bbfb070df49f755e6df088fdbfdf8233193ce7f4d779337cd51310cf96c153964b9eae58262205fd43cf98252d26e9c4f".to_string());
    assert_eq!(serve_webhook(&mut store, &config(), &header, b"not json", 5), 400);
}

#[test]
fn signed_webhook_without_a_reference_is_a_server_error() {
    let mut store = PaymentStore::new();
    let header = SignatureHeader::Present("48d8005043f3491927798bc8963700a7ce751ba0c3edce9b866512886ae04befd3d4138e0e886287633cdb50f132365a4f0e26401e360be8b55c4b8616ef6dc0".to_string());
    let body = br#"{"event":"charge.success","data":{}}"#;
    assert_eq!(serve_webhook(&mut store, &config(), &header, body, 5), 500);
}

#[test]
fn signed_webhook_for_an_unknown_reference_is_a_server_error() {
    let mut store = PaymentStore::new();
    let header = SignatureHeader::Present(SIGNATURE.to_string());
    assert_eq!(serve_webhook(&mut store, &config(), &header, BODY, 5), 500);
}

#[test]
fn webhook_outcomes_map_to_their_statuses() {
    assert_eq!(webhook_status_code(&Ok(SettlementOutcome::Applied)), 200);
    assert_eq!(webhook_status_code(&Ok(SettlementOutcome::Superseded)), 200);
    assert_eq!(webhook_status_code(&Err(PaymentError::ValidationError(Invalid::MissingSignature))), 400);
    assert_eq!(webhook_status_code(&Err(PaymentError::ValidationError(Invalid::MalformedSignature))), 400);
    assert_eq!(webhook_status_code(&Err(PaymentError::ValidationError(Invalid::MalformedPayload))), 400);
    assert_eq!(webhook_status_code(&Err(PaymentError::ValidationError(Invalid::MissingReference))), 500);
    assert_eq!(webhook_status_code(&Err(PaymentError::SignatureInvalid)), 401);
    assert_eq!(webhook_status_code(&Err(PaymentError::ReferenceNotFound)), 500);
    assert_eq!(webhook_status_code(&Err(PaymentError::PersistenceError)), 500);
    assert_eq!(webhook_status_code(&Err(PaymentError::ConfigurationMissing(Setting::WebhookSecret))), 500);
    assert_eq!(webhook_status_code(&Err(PaymentError::GatewayUnavailable)), 500);
}

#[test]
fn a_failed_verification_answers_with_zero_valued_fields() {
    let (code, body) = verify_payment(Err(PaymentError::GatewayUnavailable));
    assert_eq!(code, 500);
    assert_eq!(
        body,
        VerifyResponse {
            status: false,
            message: "Payment verification failed".to_string(),
            data: VerifyResponseData {
                status: "failed".to_string(),
                amount: 0,
                reference: String::new(),
                gateway_response: String::new(),
            },
        }
    );
}

#[test]
fn a_verification_answers_with_what_the_gateway_said() {
    let mut store = PaymentStore::new();
    let reply = GatewayReply::Response {
        status: 200,
        body: br#"{"status":true,"message":"Verification successful","data":{"status":"success","amount":5000,"reference":"ref_1","gateway_response":"Successful"}}"#.to_vec(),
    };
    let (code, body) = verify_payment(complete_verify(&mut store, &reply, 3));
    assert_eq!(code, 200);
    assert!(body.status);
    assert_eq!(body.data.status, "success");
    assert_eq!(body.data.amount, 5000);
    assert_eq!(body.data.reference, "ref_1");
}

#[test]
fn initialize_failures_are_server_errors() {
    assert_eq!(initialize_payment(Err(PaymentError::GatewayUnavailable)), Err(500));
    assert_eq!(initialize_payment(Err(PaymentError::ValidationError(Invalid::NoPayer))), Err(500));
    assert_eq!(initialize_payment_redirect(Err(PaymentError::PersistenceError)), Err(500));
    assert_eq!(
        initialize_payment_redirect(Ok("https://c.test/x".to_string())),
        Ok("https://c.test/x".to_string())
    );
}

#[test]
fn listings_answer_with_the_payments_or_an_empty_list() {
    let (code, payments) = list_payments::<String>(Err("database is down".to_string()));
    assert_eq!(code, 500);
    assert!(payments.is_empty());
    let store = store_with_pending_payment();
    let (code, payments) = list_payments::<String>(Ok(store.list_all()));
    assert_eq!(code, 200);
    assert_eq!(payments.len(), 1);
    let shown: &PaymentResponse = &payments[0];
    assert_eq!(shown.reference, "ref_123");
    assert_eq!(shown.payer_type, "user");
}
