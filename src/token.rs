use vstd::prelude::*;

use crate::user::User;

verus! {

/// How long an issued credential stays valid, in seconds (four hours).
pub const VALIDITY_SECONDS: i64 = 14400;

/// A claim set: the subject id and the instant, in seconds since the Unix
/// epoch, from which the claim is no longer usable.
pub struct AuthorizationToken {
    pub uid: String,
    pub exp: i64,
}

/// Why a credential was refused.
#[derive(Debug, Clone, Copy, PartialEq, Eq, Structural)]
pub enum TokenError {
    /// The signature does not match the secret.
    SignatureInvalid,
    /// The text is not a well-formed token, or lacks a field of the claim set.
    Malformed,
    /// The claim set is no longer in force.
    Expired,
}

#[verifier::external_type_specification]
#[verifier::external_body]
pub struct ExJwtError(jsonwebtoken::errors::Error);

/// The token that signing the claim set (`uid`, `exp`) with `secret` gives.
pub uninterp spec fn signed_token(uid: Seq<char>, exp: int, secret: Seq<char>) -> Seq<char>;

/// What opening `token` with `secret` gives: `None` where the token is not
/// well formed or its signature does not match, else the subject id and the
/// expiry it carries, each where present with the right type.
pub uninterp spec fn opened_claims(token: Seq<char>, secret: Seq<char>) -> Option<(Option<Seq<char>>, Option<int>)>;

pub open spec fn text_view(o: Option<String>) -> Option<Seq<char>> {
    match o {
        Some(s) => Some(s@),
        None => None,
    }
}

pub open spec fn int_view(o: Option<i64>) -> Option<int> {
    match o {
        Some(e) => Some(e as int),
        None => None,
    }
}

/// Relies on `jsonwebtoken::encode` with the default (HS256) header and an
/// HMAC key made of the secret's bytes: with an HMAC key and a claim set of a
/// string and an integer it returns `Ok`, and the token depends on the claims
/// and the secret alone.
#[verifier::external_body]
fn sign_claims(uid: &str, exp: i64, secret: &str) -> (r: Result<String, jsonwebtoken::errors::Error>)
    ensures
        r is Ok,
        r matches Ok(t) ==> t@ == signed_token(uid@, exp as int, secret@),
{
    let claims = std::collections::BTreeMap::from([
        ("uid", serde_json::Value::from(uid)),
        ("exp", serde_json::Value::from(exp)),
    ]);
    let key = jsonwebtoken::EncodingKey::from_secret(secret.as_bytes());
    jsonwebtoken::encode(&jsonwebtoken::Header::default(), &claims, &key)
}

/// The subject id and the expiry opened out of a token, each where present.
type OpenedFields = (Option<String>, Option<i64>);

/// Relies on `jsonwebtoken::decode` with HS256 and the expiry left unchecked:
/// it checks the token's shape, its header and its HMAC signature, and that an
/// `exp` claim is present as a non-negative integer; the result depends on the
/// token and the secret alone. A token that `jsonwebtoken::encode` signed with
/// the same secret opens to the claims it was signed with.
#[verifier::external_body]
fn open_claims(token: &str, secret: &str) -> (r: Result<OpenedFields, jsonwebtoken::errors::Error>)
    ensures
        r is Ok <==> opened_claims(token@, secret@) is Some,
        r matches Ok(c) ==> opened_claims(token@, secret@) == Some((text_view(c.0), int_view(c.1))),
        forall|uid: Seq<char>, exp: int|
            0 <= exp <= i64::MAX && token@ == #[trigger] signed_token(uid, exp, secret@)
                ==> (r is Ok && text_view(r->Ok_0.0) == Some(uid) && int_view(r->Ok_0.1) == Some(exp)),
{
    let mut validation = jsonwebtoken::Validation::new(jsonwebtoken::Algorithm::HS256);
    validation.validate_exp = false;
    let key = jsonwebtoken::DecodingKey::from_secret(secret.as_bytes());
    let data = jsonwebtoken::decode::<std::collections::BTreeMap<String, serde_json::Value>>(token, &key, &validation)?;
    let uid = data.claims.get("uid").and_then(serde_json::Value::as_str).map(String::from);
    let exp = data.claims.get("exp").and_then(serde_json::Value::as_i64);
    Ok((uid, exp))
}

/// Relies on `jsonwebtoken::errors::Error::kind`: whether the failure was a
/// signature that does not match.
#[verifier::external_body]
fn is_signature_mismatch(e: &jsonwebtoken::errors::Error) -> (r: bool) {
    matches!(e.kind(), jsonwebtoken::errors::ErrorKind::InvalidSignature)
}

/// Relies on `chrono::Utc::now`: the current time in whole seconds since the
/// Unix epoch.
#[verifier::external_body]
pub fn now_seconds() -> (r: i64) {
    chrono::Utc::now().timestamp()
}

/// The outcome of checking claims that were opened with a matching signature,
/// at time `now`.
pub open spec fn checked_claims(uid: Option<Seq<char>>, exp: Option<int>, now: int) -> Result<(Seq<char>, int), TokenError> {
    match (uid, exp) {
        (Some(u), Some(e)) => if e > now { Ok((u, e)) } else { Err(TokenError::Expired) },
        _ => Err(TokenError::Malformed),
    }
}

/// The claim set that `token` carries under `secret` where it is accepted at
/// time `now`: signed with `secret`, well formed, and not yet expired.
pub open spec fn validated(token: Seq<char>, secret: Seq<char>, now: int) -> Option<(Seq<char>, int)> {
    match opened_claims(token, secret) {
        None => None,
        Some((u, e)) => match checked_claims(u, e, now) {
            Ok(c) => Some(c),
            Err(_) => None,
        },
    }
}

impl AuthorizationToken {
    /// The claim set issued to `user` at time `now`: it expires
    /// `VALIDITY_SECONDS` later.
    pub fn issued_at(user: User, now: i64) -> (r: AuthorizationToken)
        requires
            now <= i64::MAX - VALIDITY_SECONDS,
        ensures
            r.uid@ == user.id@,
            r.exp == now + VALIDITY_SECONDS,
            r.exp > now,
    {
        AuthorizationToken { uid: user.id, exp: now + VALIDITY_SECONDS }
    }

    /// The claim set issued to `user` now, by the system clock; where the
    /// validity window would pass the largest instant, it ends there.
    pub fn from(user: User) -> (r: AuthorizationToken)
        ensures
            r.uid@ == user.id@,
    {
        let now = now_seconds();
        if now <= i64::MAX - VALIDITY_SECONDS {
            Self::issued_at(user, now)
        } else {
            AuthorizationToken { uid: user.id, exp: i64::MAX }
        }
    }

    /// The signed, encoded form of this claim set under `secret`.
    pub fn encode(&self, secret: &str) -> (r: Result<String, jsonwebtoken::errors::Error>)
        ensures
            r is Ok,
            r matches Ok(t) ==> t@ == signed_token(self.uid@, self.exp as int, secret@),
    {
        sign_claims(self.uid.as_str(), self.exp, secret)
    }

    /// The claim set from fields opened out of a token whose signature
    /// matched, checked at time `now`: both fields must be there, and the
    /// expiry must lie after `now`.
    pub fn check_claims(uid: Option<String>, exp: Option<i64>, now: i64) -> (r: Result<AuthorizationToken, TokenError>)
        ensures
            match checked_claims(text_view(uid), int_view(exp), now as int) {
                Ok((u, e)) => r matches Ok(c) && c.uid@ == u && c.exp == e,
                Err(k) => r == Err::<AuthorizationToken, TokenError>(k),
            },
    {
        match (uid, exp) {
            (Some(u), Some(e)) => {
                if e > now {
                    Ok(AuthorizationToken { uid: u, exp: e })
                } else {
                    Err(TokenError::Expired)
                }
            },
            _ => Err(TokenError::Malformed),
        }
    }

    /// Verifies `token` against `secret` and decodes its claim set, refusing
    /// it where the expiry is not after `now`.
    pub fn decode(token: &str, secret: &str, now: i64) -> (r: Result<AuthorizationToken, TokenError>)
        ensures
            match opened_claims(token@, secret@) {
                None => r == Err::<AuthorizationToken, TokenError>(TokenError::SignatureInvalid)
                    || r == Err::<AuthorizationToken, TokenError>(TokenError::Malformed),
                Some((u, e)) => match checked_claims(u, e, now as int) {
                    Ok((u, e)) => r matches Ok(c) && c.uid@ == u && c.exp == e,
                    Err(k) => r == Err::<AuthorizationToken, TokenError>(k),
                },
            },
            match validated(token@, secret@, now as int) {
                Some((u, e)) => r matches Ok(c) && c.uid@ == u && c.exp == e,
                None => r is Err,
            },
            forall|uid: Seq<char>, exp: int|
                0 <= exp && now < exp <= i64::MAX && token@ == #[trigger] signed_token(uid, exp, secret@)
                    ==> (r is Ok && r->Ok_0.uid@ == uid && r->Ok_0.exp == exp),
            forall|uid: Seq<char>, exp: int|
                0 <= exp <= now && token@ == #[trigger] signed_token(uid, exp, secret@)
                    ==> r == Err::<AuthorizationToken, TokenError>(TokenError::Expired),
    {
        match open_claims(token, secret) {
            Ok((uid, exp)) => Self::check_claims(uid, exp, now),
            Err(e) => {
                if is_signature_mismatch(&e) {
                    Err(TokenError::SignatureInvalid)
                } else {
                    Err(TokenError::Malformed)
                }
            },
        }
    }
}

} // verus!
