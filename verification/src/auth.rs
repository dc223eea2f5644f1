//! Session authentication: credential verification and issue, and the
//! password checks behind the login and registration flows.
//!
//! The trust boundary is drawn around two outside services. The signing and
//! verification of credentials is jsonwebtoken's: what a token carries
//! under a given secret is named by `claims_of` and `token_of`, and the
//! verified code decides everything time-dependent (the expiry check)
//! itself, so both the upgrade path and the header path go through one
//! function with one contract. Password hashing is argon2's: whether a
//! password matches a stored hash is named by `password_matches`.

use vstd::prelude::*;

use crate::models::{AuthUser, Claims, LoginResponse, User};

verus! {

/// Why a presented credential was rejected: malformed, wrongly signed, or
/// expired. The caller never learns which, by design.
#[derive(Clone, Copy, Debug, PartialEq)]
pub enum AuthError {
    InvalidCredential,
}

/// How long an issued credential lives, in seconds.
pub const TOKEN_LIFETIME_SECS: usize = 86400;

/// The claims that a credential carries under a secret: `Some((subject,
/// expiry))` exactly when the token is well formed and its signature
/// verifies; a function of the token and the secret alone.
pub uninterp spec fn claims_of(token: Seq<char>, secret: Seq<u8>) -> Option<(Seq<char>, usize)>;

/// The signed credential issued for a subject and expiry under a secret; a
/// function of the three alone.
pub uninterp spec fn token_of(sub: Seq<char>, exp: usize, secret: Seq<u8>) -> Seq<char>;

/// Whether a password matches a stored PHC hash string; a function of the
/// two alone (the salt and parameters are part of the hash string).
pub uninterp spec fn password_matches(password: Seq<char>, hash: Seq<char>) -> bool;

/// Relies on jsonwebtoken::decode (HS256). With the time-based checks
/// turned off, whether the signature verifies under the secret and which
/// `sub` and `exp` claims the token carries depend on the token and the
/// secret alone.
#[verifier::external_body]
fn decode_claims(token: &str, secret: &[u8]) -> (r: Option<Claims>)
    ensures
        match r {
            Some(c) => claims_of(token@, secret@) == Some((c.sub@, c.exp)),
            None => claims_of(token@, secret@) is None,
        },
{
    let mut validation = jsonwebtoken::Validation::new(jsonwebtoken::Algorithm::HS256);
    validation.validate_exp = false;
    validation.required_spec_claims = std::collections::HashSet::new();
    let key = jsonwebtoken::DecodingKey::from_secret(secret);
    let data = match jsonwebtoken::decode::<serde_json::Value>(token, &key, &validation) {
        Ok(d) => d,
        Err(_) => return None,
    };
    let sub = data.claims.get("sub").and_then(serde_json::Value::as_str);
    let exp = data.claims.get("exp").and_then(serde_json::Value::as_u64);
    match (sub, exp) {
        (Some(s), Some(e)) => Some(Claims { sub: s.to_string(), exp: e as usize }),
        _ => None,
    }
}

/// Relies on jsonwebtoken::encode (HS256): the signed token for a given
/// subject, expiry and secret is a function of those three alone. Signing
/// cannot fail here: the HMAC signer accepts a secret of any length and
/// its signing step is infallible, and serialising the fixed two-entry
/// claims object cannot fail. And what jsonwebtoken::decode makes of the
/// produced token under the same secret is exactly these claims: the
/// signature verifies by recomputation, and the subject and expiry
/// round-trip through the JSON claims object as a string and an integer.
#[verifier::external_body]
fn encode_claims(sub: &str, exp: usize, secret: &[u8]) -> (r: Option<String>)
    ensures
        r is Some,
        r matches Some(t) ==> t@ == token_of(sub@, exp, secret@) && claims_of(t@, secret@)
            == Some((sub@, exp)),
{
    let mut claims = serde_json::Map::new();
    claims.insert("sub".to_string(), serde_json::Value::from(sub));
    claims.insert("exp".to_string(), serde_json::Value::from(exp as u64));
    let key = jsonwebtoken::EncodingKey::from_secret(secret);
    let header = jsonwebtoken::Header::default();
    jsonwebtoken::encode(&header, &serde_json::Value::Object(claims), &key).ok()
}

/// Relies on argon2's `PasswordVerifier::verify_password`: whether a
/// password matches a stored PHC hash string is a function of the two
/// alone.
#[verifier::external_body]
fn argon2_verify(password: &str, hash: &str) -> (r: bool)
    ensures
        r == password_matches(password@, hash@),
{
    let algo = argon2::Argon2::default();
    argon2::password_hash::PasswordVerifier::<str>::verify_password(
        &algo,
        password.as_bytes(),
        hash,
    )
        .is_ok()
}

/// Relies on argon2's `PasswordHasher::hash_password`, which salts with the
/// system RNG. Every hash it produces verifies against the password it was
/// made from — the round trip its own documentation shows — whatever salt
/// was drawn.
#[verifier::external_body]
fn argon2_hash(password: &str) -> (r: Option<String>)
    ensures
        r matches Some(h) ==> password_matches(password@, h@),
{
    let algo = argon2::Argon2::default();
    match argon2::password_hash::PasswordHasher::hash_password(&algo, password.as_bytes()) {
        Ok(h) => Some(h.to_string()),
        Err(_) => None,
    }
}

/// Checks a presented credential against the signing secret and the
/// current time (epoch seconds). Both transports — the upgrade handshake's
/// query parameter and the plain bearer header — go through this one
/// function, so they share trust semantics exactly. Succeeds if and only
/// if the credential carries verified claims whose expiry lies strictly
/// after `now`; the bound identity is the carried subject.
pub fn authenticate(token: &str, secret: &[u8], now: usize) -> (r: Result<AuthUser, AuthError>)
    ensures
        r is Ok <==> (claims_of(token@, secret@) matches Some(c) && c.1 > now),
        r matches Ok(user) ==> (claims_of(token@, secret@) matches Some(c) && user.username@
            == c.0),
        r matches Err(e) ==> e is InvalidCredential,
{
    match decode_claims(token, secret) {
        Some(c) => {
            if c.exp > now {
                Ok(AuthUser { username: c.sub })
            } else {
                Err(AuthError::InvalidCredential)
            }
        },
        None => Err(AuthError::InvalidCredential),
    }
}

/// Issues a signed credential for `identity`, valid for
/// [`TOKEN_LIFETIME_SECS`] from `now`. Issue always succeeds; the produced
/// token is exactly the one `token_of` names, and it carries back, under
/// the same secret, exactly this subject and expiry — so it is accepted by
/// `authenticate` at any instant before the expiry.
pub fn issue_token(identity: &str, now: usize, secret: &[u8]) -> (r: Option<String>)
    requires
        now + TOKEN_LIFETIME_SECS <= usize::MAX,
    ensures
        r matches Some(t) && t@ == token_of(identity@, (now + TOKEN_LIFETIME_SECS) as usize,
            secret@) && claims_of(t@, secret@) == Some((identity@, (now
            + TOKEN_LIFETIME_SECS) as usize)),
{
    encode_claims(identity, now + TOKEN_LIFETIME_SECS, secret)
}

/// The decision at the heart of the login flow: given the account found
/// for the requested username (if any) and the presented password, decides
/// whether to issue a credential. A response is owed exactly when the
/// account exists and its stored hash matches the password; it then
/// carries that account's identity and the credential `token_of` names,
/// whose claims under the same secret are that identity and the new
/// expiry. A missing account or a wrong password is always refused.
pub fn login_attempt(user: Option<&User>, password: &str, now: usize, secret: &[u8]) -> (r: Option<
    LoginResponse,
>)
    requires
        now + TOKEN_LIFETIME_SECS <= usize::MAX,
    ensures
        r is Some <==> (user matches Some(u) && password_matches(password@, u.password_hash@)),
        r matches Some(resp) ==> (user matches Some(u) && resp.username@ == u.username@
            && resp.token@ == token_of(u.username@, (now + TOKEN_LIFETIME_SECS) as usize, secret@)
            && claims_of(resp.token@, secret@) == Some((u.username@, (now
            + TOKEN_LIFETIME_SECS) as usize))),
{
    match user {
        Some(u) => {
            if argon2_verify(password, u.password_hash.as_str()) {
                match issue_token(u.username.as_str(), now, secret) {
                    Some(token) => Some(LoginResponse { token, username: u.username.clone() }),
                    None => None,
                }
            } else {
                None
            }
        },
        None => None,
    }
}

/// Hashes a new account's password for storage. A produced hash verifies
/// against the password it was made from.
pub fn hash_password_for_storage(password: &str) -> (r: Option<String>)
    ensures
        r matches Some(h) ==> password_matches(password@, h@),
{
    argon2_hash(password)
}

} // verus!
