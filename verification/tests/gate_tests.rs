use cyborgtech::auth::AuthService;
use cyborgtech::error::ApiError;
use cyborgtech::gate::{admin_middleware, auth_middleware, extract_bearer};
use cyborgtech::models::{RegisterRequest, Role, User};

const NOW: u64 = 1_700_000_000;

fn service_with_user() -> (AuthService, String, User) {
    let mut svc = AuthService::new("gate-secret".to_string());
    let resp = svc
        .register(
            RegisterRequest {
                email: "a@example.com".to_string(),
                password: "pw".to_string(),
                name: "A".to_string(),
            },
            NOW,
        )
        .unwrap();
    (svc, resp.token, resp.user)
}

#[test]
fn bearer_extraction_requires_the_exact_prefix() {
    assert_eq!(extract_bearer("Bearer abc.def"), Some("abc.def"));
    assert_eq!(extract_bearer("Bearer "), Some(""));
    assert_eq!(extract_bearer("bearer abc"), None);
    assert_eq!(extract_bearer("Basic abc"), None);
    assert_eq!(extract_bearer(""), None);
    assert_eq!(extract_bearer("Bearer"), None);
}

#[test]
fn identity_gate_resolves_a_valid_bearer_token() {
    let (svc, token, user) = service_with_user();
    let header = format!("Bearer {token}");
    let resolved = auth_middleware(&svc, Some(&header), NOW).expect("valid token resolves");
    assert_eq!(resolved.id, user.id);
    assert_eq!(resolved.email, user.email);
}

#[test]
fn identity_gate_fails_closed() {
    let (svc, token, _) = service_with_user();

    // missing header
    assert_eq!(auth_middleware(&svc, None, NOW).err(), Some(ApiError::Unauthorized));
    // malformed header
    assert_eq!(auth_middleware(&svc, Some(&token), NOW).err(), Some(ApiError::Unauthorized));
    // expired token
    let header = format!("Bearer {token}");
    assert_eq!(
        auth_middleware(&svc, Some(&header), NOW + 24 * 60 * 60).err(),
        Some(ApiError::Unauthorized)
    );
    // garbage token
    assert_eq!(
        auth_middleware(&svc, Some("Bearer not.a.token"), NOW).err(),
        Some(ApiError::Unauthorized)
    );
}

#[test]
fn identity_gate_rejects_tokens_of_deleted_users() {
    let (svc, token, _) = service_with_user();
    // a service that shares the secret but no longer has the user
    let empty = AuthService::new("gate-secret".to_string());
    let header = format!("Bearer {token}");
    assert_eq!(auth_middleware(&empty, Some(&header), NOW).err(), Some(ApiError::Unauthorized));
}

#[test]
fn role_gate_admits_admins_and_only_admins() {
    let admin = User {
        id: "i".to_string(),
        email: "e".to_string(),
        password: "p".to_string(),
        name: "n".to_string(),
        role: Role::Admin,
        created_at: NOW,
    };
    let user = User { role: Role::User, ..admin.clone() };

    assert_eq!(admin_middleware(Some(&admin)), Ok(()));
    assert_eq!(admin_middleware(Some(&user)), Err(ApiError::Forbidden));
    assert_eq!(admin_middleware(None), Err(ApiError::Unauthorized));
}

#[test]
fn gates_compose_identity_then_role() {
    let (mut svc, _, _) = service_with_user();
    svc.seed_admin_user(NOW).unwrap();
    let admin = svc
        .login(
            cyborgtech::models::LoginRequest {
                email: "admin@cyborgtech.com".to_string(),
                password: "admin123".to_string(),
            },
            NOW,
        )
        .unwrap();

    let header = format!("Bearer {}", admin.token);
    let identity = auth_middleware(&svc, Some(&header), NOW).unwrap();
    assert_eq!(admin_middleware(Some(&identity)), Ok(()));

    let (svc2, user_token, _) = service_with_user();
    let header2 = format!("Bearer {user_token}");
    let identity2 = auth_middleware(&svc2, Some(&header2), NOW).unwrap();
    assert_eq!(admin_middleware(Some(&identity2)), Err(ApiError::Forbidden));
}
