use ridenow_backend::auth::middleware::auth_middleware;
use ridenow_backend::auth::middleware::bearer_token;
use ridenow_backend::auth::middleware::let_through;
use ridenow_backend::auth::middleware::optional_auth_middleware;
use ridenow_backend::auth::middleware::AuthRejection;
use ridenow_backend::auth::password_utils::claims_for;
use ridenow_backend::auth::password_utils::expiry;
use ridenow_backend::auth::password_utils::hash_password;
use ridenow_backend::auth::password_utils::hash_password_with_salt;
use ridenow_backend::auth::password_utils::verify_password;
use ridenow_backend::auth::password_utils::Claims;
use ridenow_backend::models::login_model::LoginRequest;
use ridenow_backend::models::login_model::LoginResponse;
use ridenow_backend::models::transport_company_model::CreateTransportCompanyRequest;
use ridenow_backend::models::transport_company_model::CreateVehicleRequest;
use ridenow_backend::models::transport_company_model::Role;
use ridenow_backend::models::user_model::CreateUserRequest;
use ridenow_backend::routes::protected_route::admin_dashboard;
use ridenow_backend::routes::protected_route::get_profile;
use ridenow_backend::routes::protected_route::get_settings;
use ridenow_backend::services::driver_service::delete_driver_service;
use ridenow_backend::services::driver_service::validate_driver_id;
use ridenow_backend::services::login_service::login_response;
use ridenow_backend::services::login_service::login_service;
use ridenow_backend::services::login_service::validate_login;
use ridenow_backend::services::login_service::StoredCredentials;
use ridenow_backend::services::rules::deleted;
use ridenow_backend::services::rules::found;
use ridenow_backend::services::rules::require;
use ridenow_backend::services::transport_company_service::new_driver_role;
use ridenow_backend::services::transport_company_service::validate_create_transport_company;
use ridenow_backend::services::transport_company_service::validate_create_vehicle;
use ridenow_backend::services::user_service::create_user_service;
use ridenow_backend::services::user_service::delete_user_service;
use ridenow_backend::services::user_service::new_user;
use ridenow_backend::services::user_service::validate_create_user;
use ridenow_backend::services::user_service::validate_user_id;

const KNOWN_HASH: &str = "$argon2id$v=19$m=19456,t=2,p=1$c29tZXNhbHQxMjM0NTY3OA$Wb3lVa1bSFJb0VqFpZjqGQfHgSEFKiJRRDyMBYfutP4";

fn user_request() -> CreateUserRequest {
    CreateUserRequest {
        email: "a@b.com".to_string(),
        username: "ada".to_string(),
        password: "correct horse".to_string(),
        first_name: "Ada".to_string(),
        last_name: "Obi".to_string(),
        phone: Some("0800".to_string()),
    }
}

fn claims(role: &str) -> Claims {
    Claims { sub: "u1".to_string(), exp: 1_700_000_000, role: role.to_string() }
}

#[test]
fn a_hashed_password_verifies_and_another_does_not() {
    let hash = hash_password("correct horse").unwrap();
    assert!(hash.starts_with("$argon2"));
    assert!(verify_password("correct horse", &hash));
    assert!(!verify_password("correct horsf", &hash));
    assert!(!verify_password("", &hash));
}

const SALT: &str = "c29tZXNhbHQxMjM0NTY3OA";

const HASH_UNDER_SALT: &str = "$argon2id$v=19$m=19456,t=2,p=1$c29tZXNhbHQxMjM0NTY3OA$oVLnFW4Vdd+KZaNyuHNZYDlTeeRDSkyoACLFGAAhgLc";

#[test]
fn a_password_under_a_known_salt_has_the_known_hash() {
    assert_eq!(hash_password_with_salt("correct horse", SALT), Ok(HASH_UNDER_SALT.to_string()));
    assert!(verify_password("correct horse", HASH_UNDER_SALT));
    assert!(!verify_password("correct horsf", HASH_UNDER_SALT));
}

#[test]
fn the_hash_is_decided_by_the_password_and_the_salt() {
    let first = hash_password_with_salt("secret", SALT).unwrap();
    let again = hash_password_with_salt("secret", SALT).unwrap();
    let other_salt = hash_password_with_salt("secret", "b3RoZXJzYWx0MTIzNDU2Nw").unwrap();
    let other_password = hash_password_with_salt("Secret", SALT).unwrap();
    assert_eq!(first, again);
    assert_ne!(first, other_salt);
    assert_ne!(first, other_password);
    assert_ne!(first, HASH_UNDER_SALT);
    assert!(verify_password("secret", &other_salt));
}

#[test]
fn a_text_that_is_no_salt_fails_the_hashing() {
    for salt in ["", "abc", "abcd", "not a salt!", "c29tZXNhbHQxMjM0NTY3OA=="] {
        assert_eq!(
            hash_password_with_salt("secret", salt),
            Err("Password hashing failed".to_string()),
            "{}",
            salt
        );
    }
}

#[test]
fn a_fresh_hash_carries_the_default_parameters_and_a_salt() {
    let hash = hash_password("secret").unwrap();
    let fields: Vec<&str> = hash.split('$').collect();
    assert_eq!(fields.len(), 6);
    assert_eq!(fields[1], "argon2id");
    assert_eq!(fields[2], "v=19");
    assert_eq!(fields[3], "m=19456,t=2,p=1");
    assert_eq!(fields[4].len(), 22);
    assert_eq!(hash_password_with_salt("secret", fields[4]), Ok(hash.clone()));
}

#[test]
fn two_hashes_of_one_password_differ_by_their_salt() {
    let first = hash_password("secret").unwrap();
    let second = hash_password("secret").unwrap();
    assert_ne!(first, second);
    assert!(verify_password("secret", &first));
    assert!(verify_password("secret", &second));
}

#[test]
fn a_stored_hash_that_is_no_hash_matches_nothing() {
    assert!(!verify_password("secret", "secret"));
    assert!(!verify_password("secret", ""));
    assert!(!verify_password("secret", "hashed_secret"));
    assert!(!verify_password("password", KNOWN_HASH));
}

#[test]
fn expiry_counts_the_lifetime_in_hours() {
    assert_eq!(expiry(1_700_000_000, 24), Some(1_700_086_400));
    assert_eq!(expiry(0, 0), Some(0));
    assert_eq!(expiry(100, -1), None);
    assert_eq!(expiry(3_600, -1), Some(0));
    assert_eq!(expiry(0, i64::MAX), None);
    assert_eq!(expiry(i64::MAX, 1), None);
    assert_eq!(expiry(i64::MIN, 0), None);
}

#[test]
fn claims_carry_the_user_the_role_and_the_expiry() {
    assert_eq!(claims_for("u1", "admin", 42), Claims { sub: "u1".to_string(), exp: 42, role: "admin".to_string() });
}

#[test]
fn bearer_token_is_what_follows_the_scheme() {
    assert_eq!(bearer_token("Bearer abc.def"), Some("abc.def"));
    assert_eq!(bearer_token("Bearer "), Some(""));
    assert_eq!(bearer_token("Bearer  x"), Some(" x"));
    assert_eq!(bearer_token("bearer abc"), None);
    assert_eq!(bearer_token("Bearer"), None);
    assert_eq!(bearer_token("Basic abc"), None);
    assert_eq!(bearer_token(""), None);
}

#[test]
fn the_guard_turns_away_without_a_well_formed_header() {
    assert_eq!(auth_middleware(None), Err(AuthRejection::MissingHeader));
    assert_eq!(auth_middleware(Some("Token abc")), Err(AuthRejection::InvalidFormat));
    assert_eq!(auth_middleware(Some("Bearer abc")), Ok("abc"));
    assert_eq!(optional_auth_middleware(None), None);
    assert_eq!(optional_auth_middleware(Some("Token abc")), None);
    assert_eq!(optional_auth_middleware(Some("Bearer abc")), Some("abc"));
}

#[test]
fn the_guard_lets_through_what_verified() {
    assert_eq!(let_through::<u8, String>(Ok(7)), Ok(7));
    assert_eq!(let_through::<u8, String>(Err("expired".to_string())), Err(AuthRejection::InvalidToken));
}

#[test]
fn rejections_are_worded_and_unauthorized() {
    assert_eq!(AuthRejection::MissingHeader.message(), "Missing Authorization header");
    assert_eq!(
        AuthRejection::InvalidFormat.message(),
        "Invalid Authorization header format. Expected: Bearer <token>"
    );
    assert_eq!(AuthRejection::InvalidToken.message(), "Invalid or expired token");
    assert_eq!(AuthRejection::MissingHeader.status(), 401);
    assert_eq!(AuthRejection::InvalidToken.status(), 401);
}

#[test]
fn protected_routes_answer_from_the_claims() {
    assert_eq!(get_profile(&claims("rider")), "Profile for user: u1, Role: rider");
    assert_eq!(get_settings(&claims("rider")), "Settings for user: u1");
    assert_eq!(admin_dashboard(&claims("admin")), "Welcome to admin dashboard, u1");
    assert_eq!(admin_dashboard(&claims("rider")), "Access denied. Admin role required.");
    assert_eq!(admin_dashboard(&claims("Admin")), "Access denied. Admin role required.");
    assert_eq!(admin_dashboard(&claims("")), "Access denied. Admin role required.");
}

#[test]
fn login_needs_both_fields() {
    let no_password = LoginRequest { username: "ada".to_string(), password: String::new() };
    let no_username = LoginRequest { username: String::new(), password: "x".to_string() };
    let full = LoginRequest { username: "ada".to_string(), password: "x".to_string() };
    assert_eq!(validate_login(&no_password), Err("Username and password are required".to_string()));
    assert_eq!(validate_login(&no_username), Err("Username and password are required".to_string()));
    assert_eq!(validate_login(&full), Ok(()));
    assert_eq!(login_service(&no_password, None), Err("Username and password are required".to_string()));
}

#[test]
fn login_goes_through_with_the_right_password_only() {
    let stored = StoredCredentials {
        user_id: "u1".to_string(),
        username: "ada".to_string(),
        password_hash: hash_password("correct horse").unwrap(),
    };
    let right = LoginRequest { username: "ada".to_string(), password: "correct horse".to_string() };
    let wrong = LoginRequest { username: "ada".to_string(), password: "battery".to_string() };
    assert_eq!(
        login_service(&right, Some(stored.clone())),
        Ok(LoginResponse {
            token: "token_for_user_u1".to_string(),
            user_id: "u1".to_string(),
            email: "ada".to_string(),
            username: "ada".to_string(),
        })
    );
    assert_eq!(login_service(&wrong, Some(stored)), Err("Invalid username or password".to_string()));
    assert_eq!(login_service(&right, None), Err("Invalid username or password".to_string()));
}

#[test]
fn login_response_carries_the_token_for_the_user() {
    let response = login_response("42".to_string(), "ada".to_string());
    assert_eq!(response.token, "token_for_user_42");
    assert_eq!(response.user_id, "42");
    assert_eq!(response.email, "ada");
    assert_eq!(response.username, "ada");
}

#[test]
fn creating_a_user_needs_email_username_and_password() {
    assert_eq!(validate_create_user(&user_request()), Ok(()));
    let mut request = user_request();
    request.email = String::new();
    assert_eq!(validate_create_user(&request), Err("Email, username, and password are required".to_string()));
    let mut request = user_request();
    request.username = String::new();
    assert_eq!(validate_create_user(&request), Err("Email, username, and password are required".to_string()));
    let mut request = user_request();
    request.password = String::new();
    assert_eq!(create_user_service(request), Err("Email, username, and password are required".to_string()));
    let mut request = user_request();
    request.first_name = String::new();
    request.phone = None;
    assert_eq!(validate_create_user(&request), Ok(()));
}

#[test]
fn a_new_user_is_active_and_has_no_picture() {
    let user = new_user(user_request(), "hash".to_string(), "id-1".to_string(), 77);
    assert_eq!(user.id, "id-1");
    assert_eq!(user.email, "a@b.com");
    assert_eq!(user.username, "ada");
    assert_eq!(user.password_hash, "hash");
    assert_eq!(user.first_name, "Ada");
    assert_eq!(user.last_name, "Obi");
    assert_eq!(user.phone, Some("0800".to_string()));
    assert_eq!(user.profile_picture, None);
    assert!(user.is_active);
    assert_eq!(user.created_at, 77);
    assert_eq!(user.updated_at, 77);
}

#[test]
fn create_user_service_hashes_the_password() {
    let user = create_user_service(user_request()).unwrap();
    assert_eq!(user.email, "a@b.com");
    assert_eq!(user.username, "ada");
    assert!(user.is_active);
    assert_eq!(user.profile_picture, None);
    assert_ne!(user.password_hash, "correct horse");
    assert!(verify_password("correct horse", &user.password_hash));
    assert_eq!(user.id.len(), 36);
    assert!(user.created_at > 1_600_000_000_000_000);
}

#[test]
fn ids_are_required() {
    assert_eq!(validate_user_id(""), Err("User ID is required".to_string()));
    assert_eq!(validate_user_id("u1"), Ok(()));
    assert_eq!(validate_driver_id(""), Err("Driver ID is required".to_string()));
    assert_eq!(validate_driver_id("d1"), Ok(()));
}

#[test]
fn deletes_are_worded_by_the_rows_that_went() {
    assert_eq!(delete_user_service("u1", 1), Ok("User u1 deleted successfully".to_string()));
    assert_eq!(delete_user_service("u1", 0), Err("User not found".to_string()));
    assert_eq!(delete_driver_service("d1", 2), Ok("Driver d1 deleted successfully".to_string()));
    assert_eq!(delete_driver_service("d1", 0), Err("Driver not found".to_string()));
    assert_eq!(deleted("Vehicle", "", 1), Ok("Vehicle  deleted successfully".to_string()));
}

#[test]
fn rules_say_what_is_missing() {
    assert_eq!(require(true, "needed"), Ok(()));
    assert_eq!(require(false, "needed"), Err("needed".to_string()));
    assert_eq!(found("User", Some(3)), Ok(3));
    assert_eq!(found::<u8>("User", None), Err("User not found".to_string()));
}

#[test]
fn creating_a_driver_needs_its_four_fields() {
    assert_eq!(
        ridenow_backend::services::driver_service::validate_create_driver("a@b.com", "Ada", "ada", "pw"),
        Ok(())
    );
    for (email, first_name, username, password) in
        [("", "Ada", "ada", "pw"), ("a@b.com", "", "ada", "pw"), ("a@b.com", "Ada", "", "pw"), ("a@b.com", "Ada", "ada", "")]
    {
        assert_eq!(
            ridenow_backend::services::driver_service::validate_create_driver(email, first_name, username, password),
            Err("Email, username, first name, and password are required".to_string())
        );
    }
}

#[test]
fn creating_a_company_needs_name_and_email() {
    let mut request = CreateTransportCompanyRequest {
        name: "Swift".to_string(),
        email: "s@t.co".to_string(),
        phone: None,
        address: None,
    };
    assert_eq!(validate_create_transport_company(&request), Ok(()));
    request.name = String::new();
    assert_eq!(validate_create_transport_company(&request), Err("Name and email are required".to_string()));
    request.name = "Swift".to_string();
    request.email = String::new();
    assert_eq!(validate_create_transport_company(&request), Err("Name and email are required".to_string()));
}

#[test]
fn creating_a_vehicle_needs_make_model_and_plate() {
    let mut request = CreateVehicleRequest {
        transport_company_id: String::new(),
        make: "Toyota".to_string(),
        model: "Corolla".to_string(),
        year: 2020,
        license_plate: "ABC-123".to_string(),
    };
    assert_eq!(validate_create_vehicle(&request), Ok(()));
    request.license_plate = String::new();
    assert_eq!(
        validate_create_vehicle(&request),
        Err("Make, model, and license plate are required".to_string())
    );
}

#[test]
fn creating_a_company_driver_needs_email_username_and_password() {
    assert_eq!(
        ridenow_backend::services::transport_company_service::validate_create_driver("a@b.com", "ada", "pw"),
        Ok(())
    );
    assert_eq!(
        ridenow_backend::services::transport_company_service::validate_create_driver("a@b.com", "ada", ""),
        Err("Email, username, and password are required".to_string())
    );
}

#[test]
fn company_driver_passwords_get_their_prefix() {
    assert_eq!(
        ridenow_backend::services::transport_company_service::hash_password("pw"),
        Ok("hashed_pw".to_string())
    );
    assert_eq!(
        ridenow_backend::services::transport_company_service::hash_password(""),
        Ok("hashed_".to_string())
    );
}

#[test]
fn roles_are_stored_by_name() {
    assert_eq!(Role::TCUser.name(), "TCUser");
    assert_eq!(Role::TCDriver.name(), "TCDriver");
    assert_eq!(Role::TCAdmin.name(), "TCAdmin");
    assert_eq!(new_driver_role(), Role::TCDriver);
}
