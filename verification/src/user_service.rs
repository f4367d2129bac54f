//! Credential hasher and the account decisions built on it.
//!
//! A plaintext secret is turned into a salted, self-contained digest by a
//! deliberately slow one-way function, and later verified against it in
//! constant time. The hashing itself is an outside backend behind two
//! trusted wrappers; the registration and authentication decisions that use
//! it are verified here.

use vstd::prelude::*;

use vstd::utf8::is_ascii_chars;

verus! {

/// The hashing backend failed internally (for instance, no secure
/// randomness for the salt); never caused by the shape of the input.
#[derive(Clone, Copy, Debug, PartialEq, Eq, Structural)]
pub struct HashingError;

/// Why a registration decision refused the request.
#[derive(Clone, Copy, Debug, PartialEq, Eq, Structural)]
pub enum RegisterError {
    /// An account with this email already exists.
    AlreadyExists,
    /// The credential hasher failed internally.
    Hashing,
}

// Whether the hashing backend accepts `plain` as the secret behind `digest`:
// the digest is self-contained (algorithm, cost, salt, output), so the check
// re-derives it and is a pure function of the two arguments. A digest the
// backend cannot parse matches nothing.
pub uninterp spec fn digest_matches(plain: Seq<char>, digest: Seq<char>) -> bool;

/// The plaintexts for which the hasher's uniqueness is stated: ASCII (so
/// each character is one byte), shorter than 72 characters (bcrypt reads at
/// most 72 bytes and truncates the rest), and free of NUL. The NUL
/// exclusion matters: bcrypt terminates its input with a NUL and cycles the
/// resulting bytes as the key, so a plaintext with an interior NUL can
/// produce the very key stream of a shorter one — `"a\u{0}a"` hashes as
/// `"a"` does — while NUL-free inputs each yield a distinct key stream.
pub open spec fn within_hash_window(s: Seq<char>) -> bool {
    s.len() < 72 && is_ascii_chars(s) && !s.contains('\u{0}')
}

#[verifier::external_type_specification]
#[verifier::external_body]
pub struct ExBcryptError(bcrypt::BcryptError);

/// Relies on bcrypt::hash at the crate's default cost: the digest is 60
/// characters beginning `$`, encodes algorithm, cost and a salt drawn from
/// OS randomness, and bcrypt::verify accepts exactly the hashed plaintext
/// against it. The uniqueness clause is bcrypt's second-preimage
/// resistance, an idealization of its 23-byte output, and is stated only
/// for plaintexts within `within_hash_window`: distinct NUL-free ASCII
/// inputs shorter than 72 bytes feed bcrypt distinct key streams, whereas a
/// longer plaintext is truncated and one with an interior NUL can repeat a
/// shorter one's key stream, so nothing is claimed of those.
#[verifier::external_body]
fn bcrypt_hash(plain: &str) -> (r: Result<String, bcrypt::BcryptError>)
    ensures
        match r {
            Ok(d) => d@.len() == 60 && d@[0] == '$' && digest_matches(plain@, d@) && (forall|
                q: Seq<char>,
            |
                #![trigger digest_matches(q, d@)]
                within_hash_window(plain@) && within_hash_window(q) && q != plain@
                    ==> !digest_matches(q, d@)),
            Err(_) => true,
        },
{
    bcrypt::hash(plain, bcrypt::DEFAULT_COST)
}

/// Relies on bcrypt::verify: re-derives the digest from the parameters
/// embedded in it and compares in constant time — a pure function of the
/// two arguments, named `digest_matches`. A digest bcrypt cannot parse is
/// reported as a mismatch, not an error; bcrypt parses only digests of
/// exactly 60 ASCII characters, so any other length matches nothing.
#[verifier::external_body]
fn bcrypt_check(plain: &str, digest: &str) -> (r: bool)
    ensures
        r == digest_matches(plain@, digest@) && (digest@.len() != 60 ==> !r),
{
    bcrypt::verify(plain, digest).unwrap_or(false)
}

/// Stateless façade over the credential hasher: the hashing and
/// verification contract, and the registration and authentication decisions
/// built on it. Account storage itself is an outside collaborator; its
/// findings come in as plain values.
pub struct UserService;

impl UserService {
    /// Hashes a plaintext secret into a storable digest with a fresh random
    /// salt. On success the digest accepts exactly the hashed plaintext:
    /// verifying it yields true, and verifying any other plaintext — both
    /// within `within_hash_window`, the inputs the hasher keeps apart —
    /// yields false. Fails only on catastrophic internal failure, never on
    /// the shape of the input.
    pub fn hash_password(plain: &str) -> (r: Result<String, HashingError>)
        ensures
            r matches Ok(d) ==> d@.len() == 60 && d@[0] == '$' && digest_matches(plain@, d@),
            r matches Ok(d) ==> forall|q: Seq<char>|
                #![trigger digest_matches(q, d@)]
                within_hash_window(plain@) && within_hash_window(q) && q != plain@
                    ==> !digest_matches(q, d@),
    {
        match bcrypt_hash(plain) {
            Ok(d) => Ok(d),
            Err(_) => Err(HashingError),
        }
    }

    /// Verifies a plaintext secret against a stored digest: true exactly
    /// when the digest accepts the plaintext. Any mismatch is false, never
    /// an error; in particular a digest that is not exactly 60 characters —
    /// as every well-formed digest is — matches nothing.
    pub fn verify_password(plain: &str, hashed: &str) -> (r: bool)
        ensures
            r == digest_matches(plain@, hashed@),
            hashed@.len() != 60 ==> !r,
    {
        bcrypt_check(plain, hashed)
    }

    /// Registration decision: refused outright when the email is already
    /// taken; otherwise the digest to store for the new account — one that
    /// accepts exactly the chosen password — or a hashing failure.
    pub fn register(email_taken: bool, password: &str) -> (r: Result<String, RegisterError>)
        ensures
            email_taken ==> r == Err::<String, RegisterError>(RegisterError::AlreadyExists),
            !email_taken ==> match r {
                Ok(d) => d@.len() == 60 && digest_matches(password@, d@),
                Err(e) => e == RegisterError::Hashing,
            },
    {
        if email_taken {
            return Err(RegisterError::AlreadyExists);
        }
        match Self::hash_password(password) {
            Ok(d) => Ok(d),
            Err(_) => Err(RegisterError::Hashing),
        }
    }

    /// Authentication decision: the presented password authenticates
    /// exactly when the account exists and its stored digest accepts the
    /// password.
    pub fn authenticate(stored_digest: Option<&str>, password: &str) -> (r: bool)
        ensures
            r == (stored_digest matches Some(d) && digest_matches(password@, d@)),
    {
        match stored_digest {
            Some(d) => Self::verify_password(password, d),
            None => false,
        }
    }
}

} // verus!
