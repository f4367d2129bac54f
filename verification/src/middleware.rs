//! Access guard: turns a presented credential into an admitted or rejected
//! operation.
//!
//! Each protected operation hands the guard the value of its authorization
//! header, the signing configuration and the current instant; the guard
//! extracts the `Bearer` token, delegates to the token verifier and either
//! resolves the caller's identity or rejects. It keeps no state across
//! operations: every call is decided independently.

use vstd::prelude::*;

use crate::jwt::{claims_of, spec_validate, validate_token_at, JwtConfig};

verus! {

/// Why the guard rejected an operation.
#[derive(Clone, Copy, Debug, PartialEq, Eq, Structural)]
pub enum GateRejection {
    /// No authorization header, or not the `Bearer` scheme.
    MissingCredential,
    /// The presented token did not verify — malformed, forged or expired
    /// alike, deliberately not distinguished to the caller.
    InvalidCredential,
    /// The process-wide signing secret was never configured; the guard fails
    /// closed rather than treat that as "no auth required".
    NotConfigured,
}

/// The guard's ruling on one operation: admitted with the caller's resolved
/// account identifier, or rejected.
#[derive(Clone, Copy, Debug, PartialEq, Eq, Structural)]
pub enum GateOutcome {
    Admitted(u128),
    Rejected(GateRejection),
}

// The account identifier that the identifier backend reads out of a textual
// UUID, if the text is one: a pure function of the characters.
pub uninterp spec fn uuid_of(s: Seq<char>) -> Option<u128>;

/// Relies on uuid::Uuid::parse_str and Uuid::as_u128: whether a subject
/// string is a well-formed UUID and which 128-bit value it denotes depend
/// on the characters alone, named `uuid_of`.
#[verifier::external_body]
fn parse_uuid(s: &str) -> (r: Option<u128>)
    ensures
        r == uuid_of(s@),
{
    match uuid::Uuid::parse_str(s) {
        Ok(u) => Some(u.as_u128()),
        Err(_) => None,
    }
}

/// The scheme prefix expected in front of the token.
pub open spec fn bearer_prefix() -> Seq<char> {
    seq!['B', 'e', 'a', 'r', 'e', 'r', ' ']
}

/// The token inside a credential of the form `Bearer <token>`, if the
/// credential has that form.
pub open spec fn spec_bearer_token(header: Seq<char>) -> Option<Seq<char>> {
    if header.len() >= 7 && header.subrange(0, 7) == bearer_prefix() {
        Some(header.subrange(7, header.len() as int))
    } else {
        None
    }
}

/// Extracts the token from a `Bearer`-scheme credential; anything else —
/// too short, or any other scheme — yields nothing.
fn bearer_token<'a>(header: &'a str) -> (r: Option<&'a str>)
    ensures
        match r {
            Some(t) => spec_bearer_token(header@) == Some(t@),
            None => spec_bearer_token(header@) is None,
        },
{
    let n = header.unicode_len();
    if n < 7 {
        return None;
    }
    if header.get_char(0) == 'B' && header.get_char(1) == 'e' && header.get_char(2) == 'a'
        && header.get_char(3) == 'r' && header.get_char(4) == 'e' && header.get_char(5) == 'r'
        && header.get_char(6) == ' ' {
        proof {
            assert(header@.subrange(0, 7) =~= bearer_prefix());
        }
        Some(header.substring_char(7, n))
    } else {
        proof {
            if header@.subrange(0, 7) == bearer_prefix() {
                assert(header@[0] == bearer_prefix()[0]);
                assert(header@[1] == bearer_prefix()[1]);
                assert(header@[2] == bearer_prefix()[2]);
                assert(header@[3] == bearer_prefix()[3]);
                assert(header@[4] == bearer_prefix()[4]);
                assert(header@[5] == bearer_prefix()[5]);
                assert(header@[6] == bearer_prefix()[6]);
            }
        }
        None
    }
}

/// The header value as the guard's model sees it.
pub open spec fn spec_header(h: Option<&str>) -> Option<Seq<char>> {
    match h {
        Some(s) => Some(s@),
        None => None,
    }
}

/// The guard's ruling as a function of the presented header, the signing
/// configuration and the instant of the check: missing or non-`Bearer`
/// credentials are rejected as missing; with no configured secret the guard
/// fails closed; a token that does not verify — malformed, forged or
/// expired alike — or whose subject is not a well-formed account identifier
/// is rejected as invalid; otherwise the operation is admitted with the
/// subject's identifier.
pub open spec fn spec_gate(header: Option<Seq<char>>, jwt: Option<JwtConfig>, now: u64) -> GateOutcome {
    match header {
        None => GateOutcome::Rejected(GateRejection::MissingCredential),
        Some(h) => match spec_bearer_token(h) {
            None => GateOutcome::Rejected(GateRejection::MissingCredential),
            Some(token) => match jwt {
                None => GateOutcome::Rejected(GateRejection::NotConfigured),
                Some(cfg) => match spec_validate(token, cfg.secret@, now) {
                    Err(_) => GateOutcome::Rejected(GateRejection::InvalidCredential),
                    Ok(c) => match uuid_of(c.0) {
                        None => GateOutcome::Rejected(GateRejection::InvalidCredential),
                        Some(id) => GateOutcome::Admitted(id),
                    },
                },
            },
        },
    }
}

/// Gates one protected operation, as of the instant `now`: exactly the
/// ruling of `spec_gate` on the presented authorization header value.
pub fn require_jwt(auth_header: Option<&str>, jwt: &Option<JwtConfig>, now: u64) -> (r: GateOutcome)
    ensures
        r == spec_gate(spec_header(auth_header), *jwt, now),
{
    let header = match auth_header {
        Some(h) => h,
        None => return GateOutcome::Rejected(GateRejection::MissingCredential),
    };
    let token = match bearer_token(header) {
        Some(t) => t,
        None => return GateOutcome::Rejected(GateRejection::MissingCredential),
    };
    let cfg = match jwt {
        Some(c) => c,
        None => return GateOutcome::Rejected(GateRejection::NotConfigured),
    };
    match validate_token_at(token, cfg, now) {
        Err(_) => GateOutcome::Rejected(GateRejection::InvalidCredential),
        Ok(claims) => match parse_uuid(claims.sub.as_str()) {
            None => GateOutcome::Rejected(GateRejection::InvalidCredential),
            Some(id) => GateOutcome::Admitted(id),
        },
    }
}

/// A well-signed live token presented under the `Bearer` scheme is
/// admitted with its subject's identifier: composing extraction and
/// verification, the guard admits exactly the account that a token issued
/// under the current secret names, for as long as the token lives.
pub proof fn lemma_guard_admits_issued_token(
    token: Seq<char>,
    cfg: JwtConfig,
    sub: Seq<char>,
    exp: u64,
    id: u128,
    now: u64,
)
    requires
        claims_of(token, cfg.secret@) == Ok::<(Seq<char>, u64), bool>((sub, exp)),
        uuid_of(sub) == Some(id),
        now < exp,
    ensures
        spec_gate(Some(bearer_prefix() + token), Some(cfg), now) == GateOutcome::Admitted(id),
{
    let h = bearer_prefix() + token;
    assert(h.subrange(0, 7) =~= bearer_prefix());
    assert(h.subrange(7, h.len() as int) =~= token);
}

/// The guard fails closed: with no signing secret configured, no operation
/// is admitted, whatever credential it presents.
pub proof fn lemma_gate_fails_closed(header: Option<Seq<char>>, now: u64)
    ensures
        !(spec_gate(header, None::<JwtConfig>, now) is Admitted),
{
}

} // verus!
