use authcore::jwt::{create_token_at, JwtConfig};
use authcore::middleware::{require_jwt, GateOutcome, GateRejection};

fn cfg(secret: &str) -> JwtConfig {
    JwtConfig { secret: secret.to_string(), exp_minutes: 60 }
}

const SUBJECT: &str = "550e8400-e29b-41d4-a716-446655440000";

#[test]
fn gate_admits_a_well_signed_live_token() {
    let c = cfg("gate-secret");
    let now: u64 = 1_700_000_000;
    let token = create_token_at(SUBJECT, &c, now).unwrap();
    let header = format!("Bearer {}", token);
    let outcome = require_jwt(Some(&header), &Some(c), now);
    let expected = uuid::Uuid::parse_str(SUBJECT).unwrap().as_u128();
    assert_eq!(outcome, GateOutcome::Admitted(expected));
}

#[test]
fn gate_rejects_missing_header_and_wrong_scheme() {
    let c = cfg("gate-secret");
    let now: u64 = 1_700_000_000;
    let missing = GateOutcome::Rejected(GateRejection::MissingCredential);
    assert_eq!(require_jwt(None, &Some(c.clone()), now), missing);
    assert_eq!(require_jwt(Some(""), &Some(c.clone()), now), missing);
    assert_eq!(require_jwt(Some("Basic dXNlcg=="), &Some(c.clone()), now), missing);
    assert_eq!(require_jwt(Some("bearer lower-case"), &Some(c), now), missing);
}

#[test]
fn gate_fails_closed_without_a_signing_secret() {
    let c = cfg("gate-secret");
    let now: u64 = 1_700_000_000;
    let token = create_token_at(SUBJECT, &c, now).unwrap();
    let header = format!("Bearer {}", token);
    assert_eq!(
        require_jwt(Some(&header), &None, now),
        GateOutcome::Rejected(GateRejection::NotConfigured)
    );
}

#[test]
fn gate_collapses_all_verification_failures() {
    let c = cfg("gate-secret");
    let other = cfg("other-secret");
    let now: u64 = 1_700_000_000;
    let invalid = GateOutcome::Rejected(GateRejection::InvalidCredential);

    // Expired: presented at the exact expiry instant.
    let token = create_token_at(SUBJECT, &c, now).unwrap();
    let header = format!("Bearer {}", token);
    let exp = now + 60 * 60;
    assert_eq!(require_jwt(Some(&header), &Some(c.clone()), exp), invalid);

    // Forged: signed under another secret.
    let forged = create_token_at(SUBJECT, &other, now).unwrap();
    let header = format!("Bearer {}", forged);
    assert_eq!(require_jwt(Some(&header), &Some(c.clone()), now), invalid);

    // Malformed: not a token at all.
    assert_eq!(require_jwt(Some("Bearer garbage"), &Some(c.clone()), now), invalid);

    // Well-signed but the subject is not an account identifier.
    let odd = create_token_at("not-a-uuid", &c, now).unwrap();
    let header = format!("Bearer {}", odd);
    assert_eq!(require_jwt(Some(&header), &Some(c), now), invalid);
}
