use ridenow_backend::error::Invalid;
use ridenow_backend::error::PaymentError;
use ridenow_backend::error::Setting;
use ridenow_backend::gateway::GatewayConfig;
use ridenow_backend::gateway::GatewayReply;
use ridenow_backend::models::payment_model::InitializeDataResponse;
use ridenow_backend::models::payment_model::InitializeRequest;
use ridenow_backend::models::payment_model::InitializeResponse;
use ridenow_backend::services::payment_service::complete_initialize;
use ridenow_backend::services::payment_service::complete_verify;
use ridenow_backend::services::payment_service::get_payment_redirect_url;
use ridenow_backend::services::payment_service::handle_webhook;
use ridenow_backend::services::payment_service::initialize_payment_request;
use ridenow_backend::services::payment_service::initialize_payment_service;
use ridenow_backend::services::payment_service::process_webhook_event;
use ridenow_backend::services::payment_service::receive_webhook;
use ridenow_backend::services::payment_service::record_initialized_payment;
use ridenow_backend::services::payment_service::resolve_currency;
use ridenow_backend::services::payment_service::resolve_payer;
use ridenow_backend::services::payment_service::settle_webhook;
use ridenow_backend::services::payment_service::store_initialized_payment;
use ridenow_backend::services::payment_service::update_payment_by_reference;
use ridenow_backend::services::payment_service::verify_payment_request;
use ridenow_backend::services::payment_service::verify_payment_service;
use ridenow_backend::services::payment_service::verify_webhook_signature;
use ridenow_backend::services::payment_service::LocalRecord;
use ridenow_backend::services::payment_service::Payer;
use ridenow_backend::store::record::PayerKind;
use ridenow_backend::store::record::SettlementOutcome;
use ridenow_backend::store::PaymentStore;

const SECRET: &str = "sk_test_secret";

const SUCCESS_BODY: &[u8] =
    br#"{"event":"charge.success","data":{"reference":"ref_123","gateway_response":"Approved"}}"#;

const SUCCESS_SIGNATURE: &str = "c3e34fa626377e30e6db33a146dc13c8aa869805c7ac5c265d34f890365f6e8d3d4b75371cf89dd5a01c98ecc66852f91c2cb7de12b1fa751a130dd58821834a";

const INITIALIZE_BODY: &[u8] = br#"{"status":true,"message":"Authorization URL created","data":{"authorization_url":"https://checkout.test/abc","access_code":"abc","reference":"ref_123"}}"#;

fn config() -> GatewayConfig {
    GatewayConfig {
        api_key: Some("sk_test_key".to_string()),
        initialize_url: Some("https://gateway.test/transaction/initialize".to_string()),
        verify_url: Some("https://gateway.test/transaction/verify/".to_string()),
        webhook_secret: Some(SECRET.to_string()),
    }
}

fn user_request() -> InitializeRequest {
    InitializeRequest {
        email: "a@b.com".to_string(),
        amount: "5000".to_string(),
        currency: None,
        user_id: Some("u1".to_string()),
        driver_id: None,
    }
}

fn driver_request() -> InitializeRequest {
    InitializeRequest {
        email: "d@b.com".to_string(),
        amount: "700".to_string(),
        currency: Some("GHS".to_string()),
        user_id: None,
        driver_id: Some("d1".to_string()),
    }
}

fn gateway_answer(reference: &str) -> InitializeResponse {
    InitializeResponse {
        status: true,
        message: "Authorization URL created".to_string(),
        data: InitializeDataResponse {
            authorization_url: format!("https://checkout.test/{}", reference),
            access_code: format!("code_{}", reference),
            reference: reference.to_string(),
        },
    }
}

fn ok_reply(body: &[u8]) -> GatewayReply {
    GatewayReply::Response { status: 200, body: body.to_vec() }
}

#[test]
fn end_to_end_initialize_then_signed_webhook() {
    let config = config();
    let mut store = PaymentStore::new();
    let request = user_request();

    let call = initialize_payment_request(&config, &request).unwrap();
    assert_eq!(call.url, "https://gateway.test/transaction/initialize");
    assert_eq!(call.authorization, "Bearer sk_test_key");
    assert_eq!(call.payload.email, "a@b.com");
    assert_eq!(call.payload.amount, "5000");
    assert_eq!(call.payload.currency, None);

    let response = initialize_payment_service(&mut store, &request, &ok_reply(INITIALIZE_BODY)).unwrap();
    assert!(response.status);
    assert_eq!(response.message, "Authorization URL created");
    assert_eq!(response.data.reference, "ref_123");
    assert_eq!(response.data.authorization_url, "https://checkout.test/abc");
    assert_eq!(response.data.access_code, "abc");

    let (kind, record) = store.find_by_reference("ref_123").unwrap();
    assert_eq!(kind, PayerKind::User);
    assert_eq!(record.status, "pending");
    assert_eq!(record.payer_id, "u1");
    assert_eq!(record.email, "a@b.com");
    assert_eq!(record.amount, "5000");
    assert_eq!(record.currency, "NGN");
    assert_eq!(record.authorization_url, Some("https://checkout.test/abc".to_string()));
    assert_eq!(record.access_code, Some("abc".to_string()));
    assert_eq!(record.gateway_response, None);
    assert_eq!(record.raw_payload, None);
    assert_eq!(record.created_at, record.updated_at);
    assert!(!record.id.is_empty());

    let outcome = handle_webhook(&mut store, &config, SUCCESS_SIGNATURE, SUCCESS_BODY);
    assert_eq!(outcome, Ok(SettlementOutcome::Applied));

    let (kind, settled) = store.find_by_reference("ref_123").unwrap();
    assert_eq!(kind, PayerKind::User);
    assert_eq!(settled.status, "success");
    assert_eq!(settled.gateway_response, Some("Approved".to_string()));
    assert_eq!(settled.raw_payload, Some(SUCCESS_BODY.to_vec()));
    assert_eq!(settled.id, record.id);
    assert_eq!(settled.email, "a@b.com");
    assert_eq!(settled.amount, "5000");
    assert_eq!(settled.created_at, record.created_at);
    assert!(settled.updated_at >= record.updated_at);
    assert_eq!(store.len(PayerKind::User), 1);
    assert_eq!(store.len(PayerKind::Driver), 0);
}

#[test]
fn initialize_stores_a_pending_record_for_a_user() {
    let mut store = PaymentStore::new();
    let result = complete_initialize(
        &mut store,
        &user_request(),
        &ok_reply(INITIALIZE_BODY),
        "id-1".to_string(),
        1_000,
    );
    assert_eq!(result.unwrap().data.reference, "ref_123");
    let (kind, record) = store.find_by_reference("ref_123").unwrap();
    assert_eq!(kind, PayerKind::User);
    assert_eq!(record.id, "id-1");
    assert_eq!(record.status, "pending");
    assert_eq!(record.reference, "ref_123");
    assert_eq!(record.created_at, 1_000);
    assert_eq!(record.updated_at, 1_000);
}

#[test]
fn initialize_stores_a_pending_record_for_a_driver() {
    let mut store = PaymentStore::new();
    let answer = gateway_answer("ref_d");
    let result = record_initialized_payment(&mut store, &driver_request(), &answer, "id-2".to_string(), 5);
    assert_eq!(result, Ok(()));
    let (kind, record) = store.find_by_reference("ref_d").unwrap();
    assert_eq!(kind, PayerKind::Driver);
    assert_eq!(record.payer_id, "d1");
    assert_eq!(record.currency, "GHS");
    assert_eq!(record.status, "pending");
    assert_eq!(store.len(PayerKind::Driver), 1);
    assert_eq!(store.len(PayerKind::User), 0);
}

#[test]
fn initialize_with_both_payers_fails_before_any_call() {
    let mut request = user_request();
    request.driver_id = Some("d1".to_string());
    assert_eq!(
        initialize_payment_request(&config(), &request),
        Err(PaymentError::ValidationError(Invalid::BothPayers))
    );
    let mut store = PaymentStore::new();
    let result = initialize_payment_service(&mut store, &request, &ok_reply(INITIALIZE_BODY));
    assert_eq!(result, Err(PaymentError::ValidationError(Invalid::BothPayers)));
    assert_eq!(store.len(PayerKind::User), 0);
    assert_eq!(store.len(PayerKind::Driver), 0);
}

#[test]
fn initialize_with_no_payer_fails_before_any_call() {
    let mut request = user_request();
    request.user_id = None;
    assert_eq!(
        initialize_payment_request(&config(), &request),
        Err(PaymentError::ValidationError(Invalid::NoPayer))
    );
    let mut store = PaymentStore::new();
    let result = get_payment_redirect_url(&mut store, &request, &ok_reply(INITIALIZE_BODY));
    assert_eq!(result, Err(PaymentError::ValidationError(Invalid::NoPayer)));
    assert!(store.find_by_reference("ref_123").is_none());
}

#[test]
fn validation_comes_before_configuration() {
    let empty = GatewayConfig { api_key: None, initialize_url: None, verify_url: None, webhook_secret: None };
    let mut request = user_request();
    request.user_id = None;
    assert_eq!(
        initialize_payment_request(&empty, &request),
        Err(PaymentError::ValidationError(Invalid::NoPayer))
    );
    assert_eq!(
        initialize_payment_request(&empty, &user_request()),
        Err(PaymentError::ConfigurationMissing(Setting::ApiKey))
    );
}

#[test]
fn resolve_payer_names_the_one_payer() {
    assert_eq!(resolve_payer(&user_request()), Ok(Payer::User("u1".to_string())));
    assert_eq!(resolve_payer(&driver_request()), Ok(Payer::Driver("d1".to_string())));
    assert_eq!(Payer::User("u1".to_string()).kind(), PayerKind::User);
    assert_eq!(Payer::Driver("d1".to_string()).kind(), PayerKind::Driver);
    assert_eq!(Payer::Driver("d1".to_string()).id(), "d1");
}

#[test]
fn resolve_currency_defaults_to_ngn() {
    assert_eq!(resolve_currency(&user_request()), "NGN");
    assert_eq!(resolve_currency(&driver_request()), "GHS");
}

#[test]
fn redirect_returns_the_authorization_address_and_stores_the_record() {
    let mut store = PaymentStore::new();
    let url = get_payment_redirect_url(&mut store, &user_request(), &ok_reply(INITIALIZE_BODY));
    assert_eq!(url, Ok("https://checkout.test/abc".to_string()));
    let (_, record) = store.find_by_reference("ref_123").unwrap();
    assert_eq!(record.status, "pending");
}

#[test]
fn initialize_fails_without_a_record_when_the_gateway_fails() {
    let mut store = PaymentStore::new();
    let unavailable = initialize_payment_service(&mut store, &user_request(), &GatewayReply::TransportFailure);
    assert_eq!(unavailable, Err(PaymentError::GatewayUnavailable));
    let refused = initialize_payment_service(
        &mut store,
        &user_request(),
        &GatewayReply::Response { status: 401, body: INITIALIZE_BODY.to_vec() },
    );
    assert_eq!(refused, Err(PaymentError::GatewayResponseInvalid));
    let garbled = initialize_payment_service(&mut store, &user_request(), &ok_reply(b"<html>"));
    assert_eq!(garbled, Err(PaymentError::GatewayResponseInvalid));
    let partial = initialize_payment_service(
        &mut store,
        &user_request(),
        &ok_reply(br#"{"status":false,"message":"Invalid key"}"#),
    );
    assert_eq!(partial, Err(PaymentError::GatewayResponseInvalid));
    assert_eq!(store.len(PayerKind::User), 0);
    assert_eq!(store.len(PayerKind::Driver), 0);
}

#[test]
fn a_reference_is_stored_once_across_both_partitions() {
    let mut store = PaymentStore::new();
    let answer = gateway_answer("ref_1");
    assert_eq!(
        record_initialized_payment(&mut store, &user_request(), &answer, "id-1".to_string(), 1),
        Ok(())
    );
    assert_eq!(
        record_initialized_payment(&mut store, &driver_request(), &answer, "id-2".to_string(), 2),
        Err(PaymentError::PersistenceError)
    );
    assert_eq!(
        record_initialized_payment(&mut store, &driver_request(), &gateway_answer("ref_2"), "id-1".to_string(), 2),
        Err(PaymentError::PersistenceError)
    );
    assert_eq!(store.len(PayerKind::User), 1);
    assert_eq!(store.len(PayerKind::Driver), 0);
}

#[test]
fn store_initialized_payment_uses_a_fresh_id_each_time() {
    let mut store = PaymentStore::new();
    assert_eq!(store_initialized_payment(&mut store, &user_request(), &gateway_answer("ref_a")), Ok(()));
    assert_eq!(store_initialized_payment(&mut store, &user_request(), &gateway_answer("ref_b")), Ok(()));
    let (_, first) = store.find_by_reference("ref_a").unwrap();
    let (_, second) = store.find_by_reference("ref_b").unwrap();
    assert_ne!(first.id, second.id);
    assert_eq!(first.id.len(), 36);
    assert!(first.created_at > 1_600_000_000_000_000);
    assert!(second.created_at >= first.created_at);
}

#[test]
fn webhook_with_a_wrong_signature_changes_nothing() {
    let config = config();
    let mut store = PaymentStore::new();
    complete_initialize(&mut store, &user_request(), &ok_reply(INITIALIZE_BODY), "id-1".to_string(), 1).unwrap();
    let mut forged = SUCCESS_SIGNATURE.to_string();
    forged.replace_range(0..1, "d");
    let outcome = receive_webhook(&mut store, &config, &forged, SUCCESS_BODY, 2);
    assert_eq!(outcome, Err(PaymentError::SignatureInvalid));
    let (_, record) = store.find_by_reference("ref_123").unwrap();
    assert_eq!(record.status, "pending");
    assert_eq!(record.updated_at, 1);
    assert_eq!(record.raw_payload, None);
}

#[test]
fn webhook_with_a_mutated_body_is_rejected() {
    let config = config();
    let mut store = PaymentStore::new();
    complete_initialize(&mut store, &user_request(), &ok_reply(INITIALIZE_BODY), "id-1".to_string(), 1).unwrap();
    let mut body = SUCCESS_BODY.to_vec();
    let last = body.len() - 1;
    body[last] = b' ';
    assert_eq!(verify_webhook_signature(&config, SUCCESS_SIGNATURE, &body), Ok(false));
    assert_eq!(
        receive_webhook(&mut store, &config, SUCCESS_SIGNATURE, &body, 2),
        Err(PaymentError::SignatureInvalid)
    );
    assert_eq!(store.find_by_reference("ref_123").unwrap().1.status, "pending");
}

#[test]
fn webhook_without_a_configured_secret_fails() {
    let mut config = config();
    config.webhook_secret = None;
    let mut store = PaymentStore::new();
    assert_eq!(
        verify_webhook_signature(&config, SUCCESS_SIGNATURE, SUCCESS_BODY),
        Err(PaymentError::ConfigurationMissing(Setting::WebhookSecret))
    );
    assert_eq!(
        handle_webhook(&mut store, &config, SUCCESS_SIGNATURE, SUCCESS_BODY),
        Err(PaymentError::ConfigurationMissing(Setting::WebhookSecret))
    );
}

#[test]
fn signed_webhook_for_an_unknown_reference_is_not_found() {
    let config = config();
    let mut store = PaymentStore::new();
    complete_initialize(&mut store, &user_request(), &ok_reply(INITIALIZE_BODY), "id-1".to_string(), 1).unwrap();
    let body = br#"{"event":"charge.success","data":{"reference":"ref_124","gateway_response":"Approved"}}"#;
    let signature = "d7f55e2bf5ecda1b531d7b47e4bae1d5deaea59f0b4e229f6923321bee3bf3c892f14cbd4d1053455b4de43207f555d5916c296c275a2e50b72ec47beafbd72f";
    assert_eq!(
        receive_webhook(&mut store, &config, signature, body, 2),
        Err(PaymentError::ReferenceNotFound)
    );
    let (_, record) = store.find_by_reference("ref_123").unwrap();
    assert_eq!(record.status, "pending");
    assert_eq!(record.updated_at, 1);
}

#[test]
fn signed_webhook_that_is_no_json_is_a_validation_error() {
    let config = config();
    let mut store = PaymentStore::new();
    let signature = "049609f73fad3c7f1d7e7143a836b16bbfb070df49f755e6df088fdbfdf8233193ce7f4d779337cd51310cf96c153964b9eae58262205fd43cf98252d26e9c4f";
    assert_eq!(
        receive_webhook(&mut store, &config, signature, b"not json", 2),
        Err(PaymentError::ValidationError(Invalid::MalformedPayload))
    );
}

#[test]
fn signed_webhook_without_a_reference_is_a_validation_error() {
    let config = config();
    let mut store = PaymentStore::new();
    let signature = "48d8005043f3491927798bc8963700a7ce751ba0c3edce9b866512886ae04befd3d4138e0e886287633cdb50f132365a4f0e26401e360be8b55c4b8616ef6dc0";
    assert_eq!(
        receive_webhook(&mut store, &config, signature, br#"{"event":"charge.success","data":{}}"#, 2),
        Err(PaymentError::ValidationError(Invalid::MissingReference))
    );
}

#[test]
fn webhook_body_settles_by_event_name() {
    let mut store = PaymentStore::new();
    complete_initialize(&mut store, &user_request(), &ok_reply(INITIALIZE_BODY), "id-1".to_string(), 1).unwrap();
    let failed = br#"{"event":"charge.failed","data":{"reference":"ref_123","status":"success","gateway_response":"Declined"}}"#;
    assert_eq!(settle_webhook(&mut store, failed, 2), Ok(SettlementOutcome::Applied));
    let (_, record) = store.find_by_reference("ref_123").unwrap();
    assert_eq!(record.status, "failed");
    assert_eq!(record.gateway_response, Some("Declined".to_string()));
    assert_eq!(record.raw_payload, Some(failed.to_vec()));
    assert_eq!(record.updated_at, 2);

    let refund = br#"{"event":"refund.processed","data":{"reference":"ref_123","status":"reversed"}}"#;
    assert_eq!(settle_webhook(&mut store, refund, 3), Ok(SettlementOutcome::Applied));
    let (_, record) = store.find_by_reference("ref_123").unwrap();
    assert_eq!(record.status, "reversed");
    assert_eq!(record.gateway_response, None);
}

#[test]
fn process_webhook_event_applies_at_the_current_time() {
    let mut store = PaymentStore::new();
    complete_initialize(&mut store, &user_request(), &ok_reply(INITIALIZE_BODY), "id-1".to_string(), 1).unwrap();
    assert_eq!(process_webhook_event(&mut store, SUCCESS_BODY), Ok(SettlementOutcome::Applied));
    let (_, record) = store.find_by_reference("ref_123").unwrap();
    assert_eq!(record.status, "success");
    assert!(record.updated_at > 1_600_000_000_000_000);
    assert_eq!(
        process_webhook_event(&mut store, b"[1, 2"),
        Err(PaymentError::ValidationError(Invalid::MalformedPayload))
    );
}

#[test]
fn update_payment_by_reference_probes_both_partitions() {
    let mut store = PaymentStore::new();
    record_initialized_payment(&mut store, &user_request(), &gateway_answer("ref_u"), "id-1".to_string(), 1).unwrap();
    record_initialized_payment(&mut store, &driver_request(), &gateway_answer("ref_d"), "id-2".to_string(), 1).unwrap();
    assert_eq!(
        update_payment_by_reference(&mut store, "ref_d", "success", Some("Approved".to_string()), None),
        Ok(SettlementOutcome::Applied)
    );
    assert_eq!(store.find_by_reference("ref_d").unwrap().1.status, "success");
    assert_eq!(store.find_by_reference("ref_u").unwrap().1.status, "pending");
    assert_eq!(
        update_payment_by_reference(&mut store, "ref_x", "success", None, None),
        Err(PaymentError::ReferenceNotFound)
    );
    assert_eq!(store.find_by_reference("ref_u").unwrap().1.status, "pending");
    assert_eq!(store.find_by_reference("ref_d").unwrap().1.gateway_response, Some("Approved".to_string()));
}

#[test]
fn verify_request_appends_the_reference() {
    let call = verify_payment_request(&config(), "ref_123").unwrap();
    assert_eq!(call.url, "https://gateway.test/transaction/verify/ref_123");
    assert_eq!(call.bearer_token, "sk_test_key");
}

#[test]
fn verify_applies_the_reported_status() {
    let mut store = PaymentStore::new();
    complete_initialize(&mut store, &user_request(), &ok_reply(INITIALIZE_BODY), "id-1".to_string(), 1).unwrap();
    let body = br#"{"status":true,"message":"Verification successful","data":{"status":"success","amount":5000,"reference":"ref_123","gateway_response":"Successful","channel":"card"}}"#;
    let verification = complete_verify(&mut store, &ok_reply(body), 9).unwrap();
    assert!(verification.response.status);
    assert_eq!(verification.response.message, "Verification successful");
    assert_eq!(verification.response.data.status, "success");
    assert_eq!(verification.response.data.amount, 5000);
    assert_eq!(verification.response.data.reference, "ref_123");
    assert_eq!(verification.response.data.gateway_response, "Successful");
    assert_eq!(verification.local, LocalRecord::Applied);
    let (_, record) = store.find_by_reference("ref_123").unwrap();
    assert_eq!(record.status, "success");
    assert_eq!(record.gateway_response, Some("Successful".to_string()));
    assert_eq!(record.raw_payload, Some(body.to_vec()));
    assert_eq!(record.updated_at, 9);
}

#[test]
fn verify_returns_the_answer_even_without_a_local_record() {
    let mut store = PaymentStore::new();
    let body = br#"{"status":true,"message":"Verification successful","data":{"status":"success","amount":5000,"reference":"ref_999","gateway_response":"Successful"}}"#;
    let verification = verify_payment_service(&mut store, &ok_reply(body)).unwrap();
    assert_eq!(verification.response.data.reference, "ref_999");
    assert_eq!(verification.local, LocalRecord::Missing);
    assert_eq!(store.len(PayerKind::User), 0);
}

#[test]
fn verify_fails_on_a_reply_that_is_no_answer() {
    let mut store = PaymentStore::new();
    assert_eq!(
        verify_payment_service(&mut store, &GatewayReply::TransportFailure),
        Err(PaymentError::GatewayUnavailable)
    );
    let negative = br#"{"status":true,"message":"m","data":{"status":"success","amount":-1,"reference":"r","gateway_response":"g"}}"#;
    assert_eq!(
        verify_payment_service(&mut store, &ok_reply(negative)),
        Err(PaymentError::GatewayResponseInvalid)
    );
    let server_error = GatewayReply::Response { status: 503, body: Vec::new() };
    assert_eq!(verify_payment_service(&mut store, &server_error), Err(PaymentError::GatewayResponseInvalid));
}

#[test]
fn verify_does_not_take_a_settled_payment_back_to_pending() {
    let mut store = PaymentStore::new();
    complete_initialize(&mut store, &user_request(), &ok_reply(INITIALIZE_BODY), "id-1".to_string(), 1).unwrap();
    assert_eq!(settle_webhook(&mut store, SUCCESS_BODY, 2), Ok(SettlementOutcome::Applied));
    let body = br#"{"status":true,"message":"m","data":{"status":"pending","amount":5000,"reference":"ref_123","gateway_response":"Waiting"}}"#;
    let verification = complete_verify(&mut store, &ok_reply(body), 3).unwrap();
    assert_eq!(verification.response.data.status, "pending");
    assert_eq!(verification.local, LocalRecord::Superseded);
    let (_, record) = store.find_by_reference("ref_123").unwrap();
    assert_eq!(record.status, "success");
    assert_eq!(record.gateway_response, Some("Approved".to_string()));
    assert_eq!(record.updated_at, 2);
}
