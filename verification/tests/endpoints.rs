use authcore::config::AppConfig;
use authcore::controllers::{login, me, register, LoginRequest, RegisterRequest, UserResponse};
use authcore::health::health_check;
use authcore::jwt::{validate_token, JwtConfig};
use authcore::middleware::{require_jwt, GateOutcome, GateRejection};
use authcore::user_service::UserService;

fn jwt_cfg() -> JwtConfig {
    JwtConfig { secret: "end-to-end-secret".to_string(), exp_minutes: 60 }
}

#[test]
fn health_summary_is_ok_only_when_both_services_answer() {
    let (code, body) = health_check(true, true);
    assert_eq!(code, 200);
    assert_eq!(body.status, "ok");
    assert_eq!(body.services.postgres, "ok");
    assert_eq!(body.services.redis, "ok");

    let (code, body) = health_check(true, false);
    assert_eq!(code, 503);
    assert_eq!(body.status, "degraded");
    assert_eq!(body.services.postgres, "ok");
    assert_eq!(body.services.redis, "error");

    let (code, body) = health_check(false, true);
    assert_eq!(code, 503);
    assert_eq!(body.status, "degraded");
    assert_eq!(body.services.postgres, "error");
}

#[test]
fn addr_joins_host_and_port() {
    let cfg = AppConfig {
        host: "0.0.0.0".to_string(),
        port: 8000,
        database_url: String::new(),
        redis_url: String::new(),
    };
    assert_eq!(cfg.addr(), "0.0.0.0:8000");
    let cfg = AppConfig {
        host: "localhost".to_string(),
        port: 65535,
        database_url: String::new(),
        redis_url: String::new(),
    };
    assert_eq!(cfg.addr(), "localhost:65535");
    let cfg = AppConfig {
        host: "h".to_string(),
        port: 0,
        database_url: String::new(),
        redis_url: String::new(),
    };
    assert_eq!(cfg.addr(), "h:0");
}

#[test]
fn me_resolves_the_account_or_rejects() {
    let user = UserResponse {
        id: "id-1".to_string(),
        email: "a@x.com".to_string(),
        created_at: "2024-01-01T00:00:00Z".to_string(),
    };
    let ok = me(Some(user)).unwrap();
    assert_eq!(ok.id, "id-1");
    let err = me(None).unwrap_err();
    assert_eq!(err.0, 401);
    assert_eq!(err.1.error, "user_not_found");
}

#[test]
fn login_without_signing_secret_is_a_configuration_failure() {
    let digest = UserService::hash_password("correct-horse").unwrap();
    let payload = LoginRequest { email: "a@x.com".to_string(), password: "correct-horse".to_string() };
    let err = login(Some(("some-id", digest.as_str())), &payload, &None, 1_700_000_000).unwrap_err();
    assert_eq!(err.0, 500);
    assert_eq!(err.1.error, "jwt_not_configured");
}

#[test]
fn end_to_end_register_login_and_gated_access() {
    let account_id = "550e8400-e29b-41d4-a716-446655440000";
    let jwt = Some(jwt_cfg());
    let now = std::time::SystemTime::now()
        .duration_since(std::time::UNIX_EPOCH)
        .unwrap()
        .as_secs();
    // The persistence collaborator, reduced to one slot.
    let mut stored: Option<(String, String)> = None;

    // Register: success, and the stored digest is not the plaintext.
    let payload = RegisterRequest { email: "a@x.com".to_string(), password: "correct-horse".to_string() };
    let email_taken = stored.is_some();
    let digest = register(&payload, email_taken).unwrap();
    assert_ne!(digest, "correct-horse");
    stored = Some((account_id.to_string(), digest));

    // Register again with the same email: conflict.
    let err = register(&payload, stored.is_some()).unwrap_err();
    assert_eq!(err.0, 409);
    assert_eq!(err.1.error, "user_already_exists");

    // Login with the wrong password: rejected, no token issued.
    let wrong = LoginRequest { email: "a@x.com".to_string(), password: "incorrect-horse".to_string() };
    let (id, digest) = stored.as_ref().unwrap();
    let err = login(Some((id.as_str(), digest.as_str())), &wrong, &jwt, now).unwrap_err();
    assert_eq!(err.0, 401);
    assert_eq!(err.1.error, "invalid_credentials");

    // Login with the right password: a token naming the account.
    let right = LoginRequest { email: "a@x.com".to_string(), password: "correct-horse".to_string() };
    let token = login(Some((id.as_str(), digest.as_str())), &right, &jwt, now).unwrap();
    let claims = validate_token(&token, jwt.as_ref().unwrap()).unwrap();
    assert_eq!(claims.sub, account_id);
    assert_eq!(claims.exp, now + 60 * 60);

    // A protected operation with the bearer header: admitted as the account.
    let header = format!("Bearer {}", token);
    let expected = uuid::Uuid::parse_str(account_id).unwrap().as_u128();
    assert_eq!(require_jwt(Some(&header), &jwt, 0), GateOutcome::Admitted(expected));

    // The same operation with no header, or with the token expired.
    assert_eq!(
        require_jwt(None, &jwt, 0),
        GateOutcome::Rejected(GateRejection::MissingCredential)
    );
    assert_eq!(
        require_jwt(Some(&header), &jwt, u64::MAX),
        GateOutcome::Rejected(GateRejection::InvalidCredential)
    );
}
