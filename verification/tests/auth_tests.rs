use cyborgtech::auth::{AuthService, TOKEN_TTL_SECS};
use cyborgtech::error::ApiError;
use cyborgtech::models::{LoginRequest, ProductType, RegisterRequest, Role, User, UserResponse};

const NOW: u64 = 1_700_000_000;

fn service() -> AuthService {
    AuthService::new("test-signing-secret".to_string())
}

fn register_request(email: &str) -> RegisterRequest {
    RegisterRequest {
        email: email.to_string(),
        password: "hunter2".to_string(),
        name: "Some User".to_string(),
    }
}

fn login_request(email: &str, password: &str) -> LoginRequest {
    LoginRequest { email: email.to_string(), password: password.to_string() }
}

#[test]
fn register_stores_a_user_with_hashed_password() {
    let mut svc = service();
    let resp = svc.register(register_request("a@example.com"), NOW).expect("first registration");
    assert_eq!(resp.user.email, "a@example.com");
    assert_eq!(resp.user.name, "Some User");
    assert_eq!(resp.user.role, Role::User);
    assert_eq!(resp.user.created_at, NOW);
    assert_eq!(resp.user.id.len(), 36);
    // the password is stored only as a salted hash
    assert_ne!(resp.user.password, "hunter2");
    assert_eq!(svc.users.len(), 1);
}

#[test]
fn register_twice_yields_already_exists() {
    let mut svc = service();
    assert!(svc.register(register_request("a@example.com"), NOW).is_ok());
    let second = svc.register(register_request("a@example.com"), NOW);
    assert_eq!(second.err(), Some(ApiError::AlreadyExists));
    assert_eq!(svc.users.len(), 1);
}

#[test]
fn login_succeeds_only_with_the_right_password() {
    let mut svc = service();
    svc.register(register_request("a@example.com"), NOW).unwrap();

    let ok = svc.login(login_request("a@example.com", "hunter2"), NOW);
    assert!(ok.is_ok());
    assert_eq!(ok.unwrap().user.email, "a@example.com");

    // wrong password and unknown user yield the same error
    let wrong = svc.login(login_request("a@example.com", "wrong"), NOW);
    assert_eq!(wrong.err(), Some(ApiError::InvalidCredentials));
    let unknown = svc.login(login_request("b@example.com", "hunter2"), NOW);
    assert_eq!(unknown.err(), Some(ApiError::InvalidCredentials));
}

#[test]
fn issued_tokens_verify_immediately_and_carry_the_claims() {
    let mut svc = service();
    let resp = svc.register(register_request("a@example.com"), NOW).unwrap();

    let claims = svc.verify_token(&resp.token, NOW).expect("fresh token must verify");
    assert_eq!(claims.sub, resp.user.id);
    assert_eq!(claims.role, Role::User);
    assert_eq!(claims.iat, NOW);
    assert_eq!(claims.exp, NOW + TOKEN_TTL_SECS);

    let claims_later = svc.verify_token(&resp.token, NOW + TOKEN_TTL_SECS - 1).unwrap();
    assert_eq!(claims_later.sub, resp.user.id);
}

#[test]
fn expired_tokens_are_unauthorized() {
    let mut svc = service();
    let resp = svc.register(register_request("a@example.com"), NOW).unwrap();
    let expired = svc.verify_token(&resp.token, NOW + TOKEN_TTL_SECS);
    assert_eq!(expired.err(), Some(ApiError::Unauthorized));
}

#[test]
fn tampered_tokens_are_unauthorized() {
    let mut svc = service();
    let resp = svc.register(register_request("a@example.com"), NOW).unwrap();

    // flip a character of the signature segment
    let mut chars: Vec<char> = resp.token.chars().collect();
    let last = chars.len() - 1;
    chars[last] = if chars[last] == 'A' { 'B' } else { 'A' };
    let tampered: String = chars.iter().collect();

    let r = svc.verify_token(&tampered, NOW);
    assert_eq!(r.err(), Some(ApiError::Unauthorized));
}

#[test]
fn tokens_signed_with_another_secret_are_unauthorized() {
    let mut svc = service();
    let resp = svc.register(register_request("a@example.com"), NOW).unwrap();
    let other = AuthService::new("a-different-secret".to_string());
    assert_eq!(other.verify_token(&resp.token, NOW).err(), Some(ApiError::Unauthorized));
}

#[test]
fn get_user_by_id_finds_registered_users() {
    let mut svc = service();
    let resp = svc.register(register_request("a@example.com"), NOW).unwrap();
    let user = svc.get_user_by_id(&resp.user.id).expect("registered user is retrievable");
    assert_eq!(user.email, "a@example.com");
    assert_eq!(svc.get_user_by_id("missing"), None);
}

#[test]
fn seed_admin_user_is_idempotent_and_creates_admins() {
    let mut svc = service();
    svc.seed_admin_user(NOW).unwrap();
    assert_eq!(svc.users.len(), 2);
    svc.seed_admin_user(NOW).unwrap();
    assert_eq!(svc.users.len(), 2);

    let admin = svc.login(login_request("admin@cyborgtech.com", "admin123"), NOW).unwrap();
    assert_eq!(admin.user.role, Role::Admin);
    let melanie = svc.login(login_request("melanie@cyborgtech.com", "melanie"), NOW).unwrap();
    assert_eq!(melanie.user.role, Role::Admin);
}

#[test]
fn user_response_drops_the_password_hash() {
    let user = User {
        id: "id-1".to_string(),
        email: "a@example.com".to_string(),
        password: "some-hash".to_string(),
        name: "A".to_string(),
        role: Role::Admin,
        created_at: NOW,
    };
    let resp = UserResponse::from_user(&user);
    assert_eq!(resp.id, "id-1");
    assert_eq!(resp.email, "a@example.com");
    assert_eq!(resp.name, "A");
    assert_eq!(resp.role, Role::Admin);
}

#[test]
fn error_statuses_follow_the_taxonomy() {
    assert_eq!(ApiError::NotFound(ProductType::Product).status_code(), 404);
    assert_eq!(ApiError::AlreadyExists.status_code(), 400);
    assert_eq!(ApiError::InvalidRequest.status_code(), 400);
    assert_eq!(ApiError::InvalidCredentials.status_code(), 401);
    assert_eq!(ApiError::Unauthorized.status_code(), 401);
    assert_eq!(ApiError::Forbidden.status_code(), 403);
    assert_eq!(ApiError::InsufficientStock.status_code(), 500);
    assert_eq!(ApiError::MissingStockInfo.status_code(), 500);
    assert_eq!(ApiError::DataAccessError.status_code(), 500);
}
