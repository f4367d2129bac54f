use authcore::jwt::{
    create_token, create_token_at, validate_token_at, JwtConfig, VerificationError,
};

fn cfg(secret: &str) -> JwtConfig {
    JwtConfig { secret: secret.to_string(), exp_minutes: 60 }
}

#[test]
fn issued_token_verifies_before_expiry_with_original_subject() {
    let c = cfg("top-secret");
    let now: u64 = 1_700_000_000;
    let token = create_token_at("user-17", &c, now).unwrap();
    let exp = now + 60 * 60;
    let claims = validate_token_at(&token, &c, now).unwrap();
    assert_eq!(claims.sub, "user-17");
    assert_eq!(claims.exp, exp);
    let claims = validate_token_at(&token, &c, exp - 1).unwrap();
    assert_eq!(claims.sub, "user-17");
}

#[test]
fn token_expires_at_the_exact_boundary_instant() {
    let c = cfg("top-secret");
    let now: u64 = 1_700_000_000;
    let token = create_token_at("user-17", &c, now).unwrap();
    let exp = now + 60 * 60;
    assert_eq!(validate_token_at(&token, &c, exp), Err(VerificationError::Expired));
    assert_eq!(validate_token_at(&token, &c, exp + 1), Err(VerificationError::Expired));
}

#[test]
fn tampering_with_the_token_is_rejected() {
    let c = cfg("top-secret");
    let now: u64 = 1_700_000_000;
    let token = create_token_at("user-17", &c, now).unwrap();
    let bytes: Vec<char> = token.chars().collect();
    let first_dot = token.find('.').unwrap();
    let second_dot = first_dot + 1 + token[first_dot + 1..].find('.').unwrap();
    for i in 0..bytes.len() {
        let mut tampered: Vec<char> = bytes.clone();
        tampered[i] = if bytes[i] == 'x' { 'y' } else { 'x' };
        let tampered: String = tampered.into_iter().collect();
        let verdict = validate_token_at(&tampered, &c, now);
        assert!(verdict.is_err(), "tampered byte {} was accepted", i);
        if i > first_dot && i < second_dot {
            // Changing the signed payload leaves the structure intact, so
            // the failure is signature-classified.
            assert_eq!(verdict, Err(VerificationError::BadSignature), "at byte {}", i);
        }
    }
}

#[test]
fn token_signed_under_one_secret_fails_under_another() {
    let a = cfg("secret-a");
    let b = cfg("secret-b");
    let now: u64 = 1_700_000_000;
    let token = create_token_at("user-17", &a, now).unwrap();
    assert_eq!(validate_token_at(&token, &b, now), Err(VerificationError::BadSignature));
    assert!(validate_token_at(&token, &a, now).is_ok());
}

#[test]
fn garbage_is_malformed_not_a_signature_failure() {
    let c = cfg("top-secret");
    let now: u64 = 1_700_000_000;
    assert_eq!(validate_token_at("", &c, now), Err(VerificationError::Malformed));
    assert_eq!(validate_token_at("no-dots-here", &c, now), Err(VerificationError::Malformed));
    assert_eq!(validate_token_at("a.b.c", &c, now), Err(VerificationError::Malformed));
}

#[test]
fn create_token_against_the_clock_round_trips_the_subject() {
    let c = cfg("top-secret");
    let token = create_token("3f2e7c1a-dead-beef-0000-000000000000", &c).unwrap();
    // The clock-based issuance promises a well-signed token naming the
    // subject; check it at an instant long before any plausible expiry.
    let claims = validate_token_at(&token, &c, 0).unwrap();
    assert_eq!(claims.sub, "3f2e7c1a-dead-beef-0000-000000000000");
}
