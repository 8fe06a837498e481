//! Credential service: password hashing and verification, and issue and
//! verification of signed, time-bounded session tokens.
//!
//! The hashing and signing primitives are external; everything stated
//! about them is collected in the trusted wrappers here.

use vstd::prelude::*;
use vstd::string::StrSliceExecFns;
use vstd::string::StringSliceAdditionalSpecFns;
use argon2::{PasswordHasher, PasswordVerifier};

use crate::domain::Claims;
use crate::errors::UserError;

verus! {

/// How long an issued session stays valid, in seconds.
pub const TOKEN_TTL_SECS: i64 = 86400;

/// Error type of the external password-hashing primitive.
#[verifier::external_type_specification]
#[verifier::external_body]
pub struct ExPasswordHashError(argon2::password_hash::Error);

/// Whether the external verifier accepts `password` against the PHC
/// hash string `hash`. The verdict is a function of the two arguments
/// alone: the salt and parameters are embedded in the hash string.
pub uninterp spec fn password_matches(password: Seq<u8>, hash: Seq<char>) -> bool;

/// Relies on `argon2`'s `PasswordHasher::hash_password`: hashes with a
/// fresh random salt, producing a PHC string that verifies against the
/// same password.
#[verifier::external_body]
fn argon2_hash(password: &[u8]) -> (r: Result<String, argon2::password_hash::Error>)
    ensures
        r matches Ok(h) ==> password_matches(password@, h@),
{
    match argon2::Argon2::default().hash_password(password) {
        Ok(h) => Ok(h.to_string()),
        Err(e) => Err(e),
    }
}

/// Relies on `argon2`'s `PasswordVerifier::verify_password` for PHC
/// strings: recomputes the hash under the parameters and salt embedded
/// in `hash` and compares. Unreadable hash strings never match.
#[verifier::external_body]
fn argon2_verify(password: &[u8], hash: &str) -> (r: bool)
    ensures
        r == password_matches(password@, hash@),
{
    argon2::Argon2::default().verify_password(password, hash).is_ok()
}

/// Hash a plaintext password for storage.
pub fn hash_password(password: &str) -> (r: Result<String, UserError>)
    ensures
        r matches Ok(h) ==> password_matches(password.spec_bytes(), h@),
        r matches Err(e) ==> e is PasswordHashing,
{
    match argon2_hash(password.as_bytes()) {
        Ok(h) => Ok(h),
        Err(_) => Err(UserError::PasswordHashing),
    }
}

/// Check a plaintext password against a stored hash.
pub fn verify_password(password: &str, hash: &str) -> (r: bool)
    ensures
        r == password_matches(password.spec_bytes(), hash@),
{
    argon2_verify(password.as_bytes(), hash)
}

/// The identity payload that signature verification under `secret`
/// recovers from `token`: `None` when the signature does not match or
/// no claims can be read, `Some` of subject id, subject name and expiry
/// otherwise. A function of the two arguments alone; whether a token is
/// also unexpired depends on the clock and is not part of this.
pub uninterp spec fn token_claims(secret: Seq<u8>, token: Seq<char>) -> Option<(i64, Seq<char>, i64)>;

/// Relies on `jsonwebtoken::encode` with an HS256 header: the returned
/// token carries exactly the claims given, and `jsonwebtoken::decode`
/// under the same secret recovers them. Assumes the process-wide
/// crypto provider is the pure-Rust one this crate's manifest selects;
/// a host that installs another provider before first use is outside
/// what is stated here.
#[verifier::external_body]
fn encode_token(secret: &[u8], user_id: i64, username: &str, exp: i64) -> (r: Result<
    String,
    String,
>)
    ensures
        r matches Ok(t) ==> token_claims(secret@, t@) == Some((user_id, username@, exp)),
{
    let mut claims = serde_json::Map::new();
    claims.insert("user_id".to_string(), serde_json::Value::from(user_id));
    claims.insert("username".to_string(), serde_json::Value::from(username));
    claims.insert("exp".to_string(), serde_json::Value::from(exp));
    let key = jsonwebtoken::EncodingKey::from_secret(secret);
    let header = jsonwebtoken::Header::default();
    jsonwebtoken::encode(&header, &serde_json::Value::Object(claims), &key).map_err(
        |e| format!("{e}"),
    )
}

/// Relies on `jsonwebtoken::decode` with default validation (HS256,
/// expiry checked): succeeds only on a token whose signature matches
/// `secret`, and then returns the claims embedded in the token. Expired
/// tokens are rejected, so no success is promised here. Assumes the
/// same process-wide crypto provider as the issuing side.
#[verifier::external_body]
fn decode_token(secret: &[u8], token: &str) -> (r: Option<Claims>)
    ensures
        r matches Some(c) ==> token_claims(secret@, token@) == Some(
            (c.user_id, c.username@, c.exp),
        ),
        token_claims(secret@, token@) is None ==> r is None,
{
    let key = jsonwebtoken::DecodingKey::from_secret(secret);
    let validation = jsonwebtoken::Validation::default();
    let data = jsonwebtoken::decode::<serde_json::Value>(token, &key, &validation).ok()?;
    let user_id = data.claims.get("user_id")?.as_i64()?;
    let username = data.claims.get("username")?.as_str()?.to_string();
    let exp = data.claims.get("exp")?.as_i64()?;
    Some(Claims { user_id, username, exp })
}

/// Whether a signing secret is long enough to be accepted at startup.
pub fn check_secret(secret: &str) -> (ok: bool)
    ensures
        ok == (secret.spec_bytes().len() >= 32),
{
    secret.as_bytes().len() >= 32
}

/// Issues and verifies signed session tokens under one signing key,
/// fixed at startup and never mutated.
pub struct JwtService {
    secret: Vec<u8>,
}

impl JwtService {
    /// The signing key, as the token contracts speak of it.
    pub closed spec fn key(&self) -> Seq<u8> {
        self.secret@
    }

    /// Build the service from the signing secret.
    pub fn new(secret: &str) -> (s: JwtService)
        ensures
            s.key() == secret.spec_bytes(),
    {
        JwtService { secret: secret.as_bytes_vec() }
    }

    /// Issue a session token for the given subject, valid for
    /// [`TOKEN_TTL_SECS`] from `now`.
    pub fn generate_token(&self, user_id: i64, username: &str, now: i64) -> (r: Result<
        String,
        UserError,
    >)
        requires
            0 <= now <= i64::MAX - TOKEN_TTL_SECS,
        ensures
            r matches Ok(t) ==> token_claims(self.key(), t@) == Some(
                (user_id, username@, (now + TOKEN_TTL_SECS) as i64),
            ),
            r matches Err(e) ==> e is CreateJwtToken,
    {
        let exp = now + TOKEN_TTL_SECS;
        match encode_token(self.secret.as_slice(), user_id, username, exp) {
            Ok(t) => Ok(t),
            Err(detail) => Err(UserError::CreateJwtToken(detail)),
        }
    }

    /// Verify a session token: check the signature and expiry, and
    /// recover the identity embedded in it. Failure reasons are opaque
    /// to callers.
    pub fn verify_token(&self, token: &str) -> (r: Option<Claims>)
        ensures
            r matches Some(c) ==> token_claims(self.key(), token@) == Some(
                (c.user_id, c.username@, c.exp),
            ),
            token_claims(self.key(), token@) is None ==> r is None,
    {
        decode_token(self.secret.as_slice(), token)
    }
}

} // verus!
