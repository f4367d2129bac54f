//! Token issuer/verifier: signed, time-bound assertions of identity.
//!
//! A token carries a subject and an absolute expiry instant, signed with a
//! process-wide symmetric secret. The signing and the signature check are
//! done by an outside backend behind two trusted wrappers; everything
//! decided about a token afterwards — whose claims it carries, whether it
//! is still alive, how a failure is classified — is verified here.

use vstd::prelude::*;

use jsonwebtoken::errors::ErrorKind;
use jsonwebtoken::{decode, encode, Algorithm, DecodingKey, EncodingKey, Header, Validation};
use serde_json::Value;
use std::collections::HashSet;

verus! {

/// The payload of a token: the subject (an opaque account identifier) and
/// the expiry instant, in whole seconds since the Unix epoch.
#[derive(Debug, PartialEq, Eq)]
pub struct Claims {
    pub sub: String,
    pub exp: u64,
}

/// Process-wide signing configuration: the symmetric signing secret and the
/// lifetime, in minutes, of the tokens issued with it. Constructed once at
/// startup and read-only afterwards.
#[derive(Clone)]
pub struct JwtConfig {
    pub secret: String,
    pub exp_minutes: u64,
}

/// Issuance failed: the signing backend gave an error, or the expiry
/// instant is not representable. Detail is never surfaced to callers. The
/// one other way issuance can fail — no signing secret configured — is
/// checked by callers before issuance is attempted: every issuing function
/// here already holds a `JwtConfig`.
#[derive(Clone, Copy, Debug, PartialEq, Eq, Structural)]
pub struct IssuanceError;

/// Why a presented token was rejected.
#[derive(Clone, Copy, Debug, PartialEq, Eq, Structural)]
pub enum VerificationError {
    /// The compact encoding is not structurally a token.
    Malformed,
    /// The encoding parses but its signature does not verify under the
    /// current signing secret.
    BadSignature,
    /// Well-signed, but its expiry instant is not in the future.
    Expired,
}

// The compact signed encoding that the token backend produces for a given
// subject, expiry and signing secret: a pure function of the three.
pub uninterp spec fn token_of(sub: Seq<char>, exp: u64, secret: Seq<char>) -> Seq<char>;

// What decoding a compact token under a signing secret yields: the subject
// and expiry it carries when the encoding parses and its signature verifies;
// otherwise `Err(true)` when the signature was the flaw and `Err(false)` when
// the encoding itself is unusable. A pure function of token and secret.
pub uninterp spec fn claims_of(token: Seq<char>, secret: Seq<char>) -> Result<(Seq<char>, u64), bool>;

#[verifier::external_type_specification]
#[verifier::external_body]
pub struct ExJwtError(jsonwebtoken::errors::Error);

/// Relies on jsonwebtoken::encode with an HS256 header: the compact encoding
/// is a pure function of the claims and the secret, named `token_of`, and
/// decoding it under the same secret — jsonwebtoken::decode, as
/// `decode_hs256` configures it — returns exactly the subject and expiry
/// that were signed. For HS256 with a raw-secret key the call cannot fail:
/// the key family matches the header, HMAC accepts a key of any length, and
/// serializing the two-field claims object and signing are infallible.
#[verifier::external_body]
fn encode_hs256(sub: &str, exp: u64, secret: &str) -> (r: Result<String, jsonwebtoken::errors::Error>)
    ensures
        match r {
            Ok(t) => t@ == token_of(sub@, exp, secret@) && claims_of(t@, secret@) == Ok::<
                (Seq<char>, u64),
                bool,
            >((sub@, exp)),
            Err(_) => false,
        },
{
    let mut claims = serde_json::Map::new();
    claims.insert(String::from("sub"), Value::from(sub));
    claims.insert(String::from("exp"), Value::from(exp));
    encode(
        &Header::new(Algorithm::HS256),
        &Value::Object(claims),
        &EncodingKey::from_secret(secret.as_bytes()),
    )
}

/// Relies on jsonwebtoken::decode restricted to HS256, with its built-in
/// expiry check turned off so that verified callers make the expiry decision
/// themselves: whether the encoding parses, whether its signature verifies
/// under the secret, and which subject and expiry it carries are a pure
/// function of token and secret, named `claims_of`. A rejected signature is
/// reported as `Err(true)`; any structural flaw — unparsable encoding, a
/// header declaring another algorithm, a missing, ill-typed or unacceptable claim — as
/// `Err(false)`.
#[verifier::external_body]
fn decode_hs256(token: &str, secret: &str) -> (r: Result<(String, u64), bool>)
    ensures
        match r {
            Ok(p) => claims_of(token@, secret@) == Ok::<(Seq<char>, u64), bool>((p.0@, p.1)),
            Err(sig) => claims_of(token@, secret@) == Err::<(Seq<char>, u64), bool>(sig),
        },
{
    let mut validation = Validation::new(Algorithm::HS256);
    validation.validate_exp = false;
    validation.required_spec_claims = HashSet::new();
    match decode::<Value>(token, &DecodingKey::from_secret(secret.as_bytes()), &validation) {
        Ok(d) => {
            match (d.claims.get("sub").and_then(|v| v.as_str()), d.claims.get("exp").and_then(|v| v.as_u64())) {
                (Some(s), Some(e)) => Ok((s.to_string(), e)),
                _ => Err(false),
            }
        }
        Err(e) => Err(matches!(e.kind(), ErrorKind::InvalidSignature)),
    }
}

/// Relies on std::time::SystemTime::now, read as whole seconds since the
/// Unix epoch; a clock before the epoch reads as 0. Nothing is promised of
/// the value: callers state what holds whatever instant comes back.
#[verifier::external_body]
fn now_unix_seconds() -> u64 {
    std::time::SystemTime::now()
        .duration_since(std::time::UNIX_EPOCH)
        .map(|d| d.as_secs())
        .unwrap_or(0)
}

/// The verdict on a decoded token at a given instant: its claims while it is
/// alive, the kind of rejection otherwise. A token is expired at the exact
/// expiry instant — it is alive only strictly before it, with no leeway for
/// clock skew. The signature is judged before any decoded field is trusted,
/// and a well-signed but expired token is distinguished from a forged one.
pub open spec fn spec_validate(token: Seq<char>, secret: Seq<char>, now: u64) -> Result<
    (Seq<char>, u64),
    VerificationError,
> {
    match claims_of(token, secret) {
        Ok(c) => if now < c.1 {
            Ok(c)
        } else {
            Err(VerificationError::Expired)
        },
        Err(sig) => if sig {
            Err(VerificationError::BadSignature)
        } else {
            Err(VerificationError::Malformed)
        },
    }
}

/// Verifies a presented token as of the instant `now`: exactly the verdict
/// of `spec_validate`.
pub fn validate_token_at(token: &str, cfg: &JwtConfig, now: u64) -> (r: Result<
    Claims,
    VerificationError,
>)
    ensures
        match spec_validate(token@, cfg.secret@, now) {
            Ok(c) => r matches Ok(cl) && cl.sub@ == c.0 && cl.exp == c.1,
            Err(e) => r matches Err(f) && f == e,
        },
{
    match decode_hs256(token, cfg.secret.as_str()) {
        Ok(p) => {
            if now < p.1 {
                Ok(Claims { sub: p.0, exp: p.1 })
            } else {
                Err(VerificationError::Expired)
            }
        },
        Err(true) => Err(VerificationError::BadSignature),
        Err(false) => Err(VerificationError::Malformed),
    }
}

/// Verifies a presented token against the process clock. On success the
/// returned claims are exactly what the token carries under the current
/// secret; a token whose decoding fails is rejected with the matching
/// classification whatever the clock says.
pub fn validate_token(token: &str, cfg: &JwtConfig) -> (r: Result<Claims, VerificationError>)
    ensures
        r matches Ok(c) ==> claims_of(token@, cfg.secret@) == Ok::<(Seq<char>, u64), bool>(
            (c.sub@, c.exp),
        ),
        claims_of(token@, cfg.secret@) matches Err(s) ==> r matches Err(f) && f == (if s {
            VerificationError::BadSignature
        } else {
            VerificationError::Malformed
        }),
{
    let now = now_unix_seconds();
    validate_token_at(token, cfg, now)
}

/// Issues a token for `user_id` as of the instant `now`. It succeeds if and
/// only if the expiry instant — `now` plus the configured lifetime — is
/// representable, and then the result is the canonical encoding of exactly
/// that subject and expiry under the secret, so decoding it under the same
/// secret gives them back.
pub fn create_token_at(user_id: &str, cfg: &JwtConfig, now: u64) -> (r: Result<
    String,
    IssuanceError,
>)
    ensures
        now + cfg.exp_minutes * 60 <= u64::MAX ==> r is Ok,
        r matches Ok(t) ==> now + cfg.exp_minutes * 60 <= u64::MAX && t@ == token_of(
            user_id@,
            (now + cfg.exp_minutes * 60) as u64,
            cfg.secret@,
        ),
        r matches Ok(t) ==> claims_of(t@, cfg.secret@) == Ok::<(Seq<char>, u64), bool>(
            (user_id@, (now + cfg.exp_minutes * 60) as u64),
        ),
        now + cfg.exp_minutes * 60 > u64::MAX ==> r == Err::<String, IssuanceError>(
            IssuanceError,
        ),
{
    let exp_wide: u128 = now as u128 + cfg.exp_minutes as u128 * 60;
    if exp_wide > u64::MAX as u128 {
        return Err(IssuanceError);
    }
    let exp: u64 = exp_wide as u64;
    match encode_hs256(user_id, exp, cfg.secret.as_str()) {
        Ok(t) => Ok(t),
        Err(_) => Err(IssuanceError),
    }
}

/// Issues a token for `user_id` against the process clock. Whatever instant
/// the clock read, a token this returns decodes under the configured secret
/// to `user_id` as its subject; the exact contract — success owed whenever
/// the expiry instant is representable — lives on `create_token_at`, which
/// takes the instant as an argument.
pub fn create_token(user_id: &str, cfg: &JwtConfig) -> (r: Result<String, IssuanceError>)
    ensures
        r matches Ok(t) ==> claims_of(t@, cfg.secret@) matches Ok(c) && c.0 == user_id@,
{
    let now = now_unix_seconds();
    create_token_at(user_id, cfg, now)
}

/// An issued token — one whose decoding under the signing secret yields the
/// subject and expiry it was issued with, as `create_token_at` ensures of
/// its result — is accepted when verified strictly before the expiry
/// instant, returning that same subject, and is rejected as expired when
/// verified at or after it.
pub proof fn lemma_issued_token_verdict(
    token: Seq<char>,
    secret: Seq<char>,
    sub: Seq<char>,
    exp: u64,
    at: u64,
)
    requires
        claims_of(token, secret) == Ok::<(Seq<char>, u64), bool>((sub, exp)),
    ensures
        at < exp ==> spec_validate(token, secret, at) == Ok::<(Seq<char>, u64), VerificationError>(
            (sub, exp),
        ),
        at >= exp ==> spec_validate(token, secret, at) == Err::<
            (Seq<char>, u64),
            VerificationError,
        >(VerificationError::Expired),
{
}

} // verus!
