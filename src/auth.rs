use vstd::prelude::*;

use crate::api_response::ApiError;
use crate::text::same_text;
use crate::token::{now_seconds, opened_claims, signed_token, text_view, validated, AuthorizationToken, VALIDITY_SECONDS};
use crate::user::User;

verus! {

/// The name/value pairs of the form-encoded text `query`, decoded, in order.
pub uninterp spec fn form_pairs(query: Seq<char>) -> Seq<(Seq<char>, Seq<char>)>;

pub open spec fn pairs_view(ps: Seq<(String, String)>) -> Seq<(Seq<char>, Seq<char>)> {
    ps.map_values(|p: (String, String)| (p.0@, p.1@))
}

/// Relies on `url::form_urlencoded::parse`: the pairs of a form-encoded text,
/// percent-decoded, in the order they stand; they depend on the text alone.
#[verifier::external_body]
fn query_pairs(query: &str) -> (r: Vec<(String, String)>)
    ensures
        pairs_view(r@) == form_pairs(query@),
{
    url::form_urlencoded::parse(query.as_bytes()).map(|(k, v)| (k.into_owned(), v.into_owned())).collect()
}

/// The value of the first pair from position `from` on whose name is `key`.
pub open spec fn first_value(ps: Seq<(Seq<char>, Seq<char>)>, key: Seq<char>, from: int) -> Option<Seq<char>>
    decreases ps.len() - from,
{
    if from < 0 || from >= ps.len() {
        None
    } else if ps[from].0 == key {
        Some(ps[from].1)
    } else {
        first_value(ps, key, from + 1)
    }
}

/// The position of the first `c` in `s` between `from` and `end`, or `end`.
pub open spec fn next_index(s: Seq<char>, c: char, from: int, end: int) -> int
    decreases end - from,
{
    if from >= end {
        end
    } else if s[from] == c {
        from
    } else {
        next_index(s, c, from + 1, end)
    }
}

/// The position of the first character that is not a space in `s` between
/// `from` and `end`, or `end`.
pub open spec fn skip_spaces(s: Seq<char>, from: int, end: int) -> int
    decreases end - from,
{
    if from < end && s[from] == ' ' {
        skip_spaces(s, from + 1, end)
    } else {
        from
    }
}

pub proof fn lemma_next_index_bounds(s: Seq<char>, c: char, from: int, end: int)
    requires
        from <= end,
    ensures
        from <= next_index(s, c, from, end) <= end,
    decreases end - from,
{
    if from < end && s[from] != c {
        lemma_next_index_bounds(s, c, from + 1, end);
    }
}

/// The value of the first `token=` pair in the cookie header `h`, looking at
/// the `;`-separated pieces from position `start` on, each without its
/// leading spaces.
pub open spec fn cookie_token_from(h: Seq<char>, start: int) -> Option<Seq<char>>
    decreases h.len() - start via cookie_token_from_decreases
{
    if start < 0 || start > h.len() {
        None
    } else {
        let end = next_index(h, ';', start, h.len() as int);
        let k = skip_spaces(h, start, end);
        let eq = next_index(h, '=', k, end);
        if eq < end && h.subrange(k, eq) == "token"@ {
            Some(h.subrange(eq + 1, end))
        } else if end < h.len() {
            cookie_token_from(h, end + 1)
        } else {
            None
        }
    }
}

#[via_fn]
proof fn cookie_token_from_decreases(h: Seq<char>, start: int) {
    if 0 <= start <= h.len() {
        lemma_next_index_bounds(h, ';', start, h.len() as int);
    }
}

/// The credential that the cookie header `h` carries.
pub open spec fn cookie_token(h: Seq<char>) -> Option<Seq<char>> {
    cookie_token_from(h, 0)
}

/// The credential that a connection handshake carries: the `token` query
/// parameter, else the `token` cookie.
pub open spec fn handshake_token_of(query: Option<Seq<char>>, cookie: Option<Seq<char>>) -> Option<Seq<char>> {
    let from_query = match query {
        Some(q) => first_value(form_pairs(q), "token"@, 0),
        None => None,
    };
    match from_query {
        Some(t) => Some(t),
        None => match cookie {
            Some(c) => cookie_token(c),
            None => None,
        },
    }
}

pub open spec fn str_view(o: Option<&str>) -> Option<Seq<char>> {
    match o {
        Some(s) => Some(s@),
        None => None,
    }
}

/// The outcome of authenticating with the credential `token` at time `now`.
pub open spec fn authenticated(token: Option<Seq<char>>, secret: Seq<char>, now: int) -> Result<(Seq<char>, int), ApiError> {
    match token {
        None => Err(ApiError::AuthenticationRequired),
        Some(t) => match validated(t, secret, now) {
            Some(c) => Ok(c),
            None => Err(ApiError::AuthenticationExpired),
        },
    }
}

fn next_char(s: &str, c: char, from: usize, end: usize) -> (r: usize)
    requires
        from <= end <= s@.len(),
    ensures
        r == next_index(s@, c, from as int, end as int),
        from <= r <= end,
{
    let mut i = from;
    while i < end
        invariant
            from <= i <= end <= s@.len(),
            next_index(s@, c, from as int, end as int) == next_index(s@, c, i as int, end as int),
        decreases end - i,
    {
        if s.get_char(i) == c {
            return i;
        }
        i += 1;
    }
    i
}

fn skip_space_chars(s: &str, from: usize, end: usize) -> (r: usize)
    requires
        from <= end <= s@.len(),
    ensures
        r == skip_spaces(s@, from as int, end as int),
        from <= r <= end,
{
    let mut i = from;
    while i < end && s.get_char(i) == ' '
        invariant
            from <= i <= end <= s@.len(),
            skip_spaces(s@, from as int, end as int) == skip_spaces(s@, i as int, end as int),
        decreases end - i,
    {
        i += 1;
    }
    i
}

/// The value of the `token` cookie in the cookie header `header`: the header
/// is split at `;`, each piece at its first `=`, and the first piece whose
/// name, after leading spaces, is `token` gives its value.
pub fn token_from_cookie(header: &str) -> (r: Option<String>)
    ensures
        text_view(r) == cookie_token(header@),
{
    let n = header.unicode_len();
    let mut start: usize = 0;
    proof { reveal_strlit("token"); }
    loop
        invariant
            start <= n,
            n == header@.len(),
            cookie_token_from(header@, start as int) == cookie_token(header@),
        decreases n - start,
    {
        let end = next_char(header, ';', start, n);
        let k = skip_space_chars(header, start, end);
        let eq = next_char(header, '=', k, end);
        if eq < end && same_text(header.substring_char(k, eq), "token") {
            let value = header.substring_char(eq + 1, end);
            return Some(value.to_string());
        }
        if end < n {
            start = end + 1;
        } else {
            return None;
        }
    }
}

/// The value of the first pair named `token` in `pairs`.
pub fn token_param(pairs: &Vec<(String, String)>) -> (r: Option<String>)
    ensures
        text_view(r) == first_value(pairs_view(pairs@), "token"@, 0),
{
    let ghost ps = pairs_view(pairs@);
    let mut i: usize = 0;
    while i < pairs.len()
        invariant
            i <= pairs@.len(),
            ps == pairs_view(pairs@),
            first_value(ps, "token"@, i as int) == first_value(ps, "token"@, 0),
        decreases pairs@.len() - i,
    {
        assert(ps[i as int] == (pairs@[i as int].0@, pairs@[i as int].1@));
        if same_text(pairs[i].0.as_str(), "token") {
            return Some(pairs[i].1.clone());
        }
        i += 1;
    }
    None
}

/// The value of the `token` parameter of the query text `query`.
pub fn token_from_query(query: &str) -> (r: Option<String>)
    ensures
        text_view(r) == first_value(form_pairs(query@), "token"@, 0),
{
    let pairs = query_pairs(query);
    token_param(&pairs)
}

/// The credential of a connection handshake: the `token` query parameter
/// where there is one, else the `token` cookie.
pub fn handshake_token(query: Option<&str>, cookie: Option<&str>) -> (r: Option<String>)
    ensures
        text_view(r) == handshake_token_of(str_view(query), str_view(cookie)),
{
    let from_query = match query {
        Some(q) => token_from_query(q),
        None => None,
    };
    match from_query {
        Some(t) => Some(t),
        None => match cookie {
            Some(c) => token_from_cookie(c),
            None => None,
        },
    }
}

/// Validates the credential `token` at time `now`.
fn authenticate_at(token: Option<&str>, secret: &str, now: i64) -> (r: Result<AuthorizationToken, ApiError>)
    ensures
        match authenticated(str_view(token), secret@, now as int) {
            Ok((u, e)) => r matches Ok(c) && c.uid@ == u && c.exp == e,
            Err(k) => r == Err::<AuthorizationToken, ApiError>(k),
        },
{
    match token {
        None => Err(ApiError::AuthenticationRequired),
        Some(t) => match AuthorizationToken::decode(t, secret, now) {
            Ok(c) => Ok(c),
            Err(_) => Err(ApiError::AuthenticationExpired),
        },
    }
}

/// The identity of a request that carried a bearer credential in its
/// authorization header.
pub struct JwtUserExtractor(pub AuthorizationToken);

impl JwtUserExtractor {
    /// Authenticates with the bearer credential `bearer`, checked at time
    /// `now`: a missing one fails `AuthenticationRequired`, one that does not
    /// validate fails `AuthenticationExpired`.
    pub fn from_bearer_at(bearer: Option<&str>, secret: &str, now: i64) -> (r: Result<JwtUserExtractor, ApiError>)
        ensures
            match authenticated(str_view(bearer), secret@, now as int) {
                Ok((u, e)) => r matches Ok(x) && x.0.uid@ == u && x.0.exp == e,
                Err(k) => r == Err::<JwtUserExtractor, ApiError>(k),
            },
    {
        match authenticate_at(bearer, secret, now) {
            Ok(c) => Ok(JwtUserExtractor(c)),
            Err(e) => Err(e),
        }
    }

    /// Authenticates with the bearer credential `bearer` at the current time.
    pub fn from_bearer(bearer: Option<&str>, secret: &str) -> (r: Result<JwtUserExtractor, ApiError>)
        ensures
            bearer is None ==> r == Err::<JwtUserExtractor, ApiError>(ApiError::AuthenticationRequired),
            bearer is Some ==> r is Ok || r == Err::<JwtUserExtractor, ApiError>(ApiError::AuthenticationExpired),
            r matches Ok(x) ==> opened_claims(bearer->Some_0@, secret@) == Some((Some(x.0.uid@), Some(x.0.exp as int))),
    {
        let now = now_seconds();
        Self::from_bearer_at(bearer, secret, now)
    }
}

/// The identity of a connection handshake, which carries its credential in
/// the `token` query parameter or the `token` cookie.
pub struct JwtWsUserExtractor(pub AuthorizationToken);

impl JwtWsUserExtractor {
    /// Authenticates a handshake whose query text is `query` and whose cookie
    /// header is `cookie`, checked at time `now`.
    pub fn from_handshake_at(query: Option<&str>, cookie: Option<&str>, secret: &str, now: i64) -> (r: Result<JwtWsUserExtractor, ApiError>)
        ensures
            match authenticated(handshake_token_of(str_view(query), str_view(cookie)), secret@, now as int) {
                Ok((u, e)) => r matches Ok(x) && x.0.uid@ == u && x.0.exp == e,
                Err(k) => r == Err::<JwtWsUserExtractor, ApiError>(k),
            },
    {
        let token = handshake_token(query, cookie);
        let found = match &token {
            Some(t) => Some(t.as_str()),
            None => None,
        };
        match authenticate_at(found, secret, now) {
            Ok(c) => Ok(JwtWsUserExtractor(c)),
            Err(e) => Err(e),
        }
    }

    /// Authenticates a handshake at the current time.
    pub fn from_handshake(query: Option<&str>, cookie: Option<&str>, secret: &str) -> (r: Result<JwtWsUserExtractor, ApiError>)
        ensures
            handshake_token_of(str_view(query), str_view(cookie)) is None
                ==> r == Err::<JwtWsUserExtractor, ApiError>(ApiError::AuthenticationRequired),
            handshake_token_of(str_view(query), str_view(cookie)) is Some
                ==> (r is Ok || r == Err::<JwtWsUserExtractor, ApiError>(ApiError::AuthenticationExpired)),
            r matches Ok(x) ==> opened_claims(handshake_token_of(str_view(query), str_view(cookie))->Some_0, secret@)
                == Some((Some(x.0.uid@), Some(x.0.exp as int))),
    {
        let now = now_seconds();
        Self::from_handshake_at(query, cookie, secret, now)
    }
}

/// The answer to a successful credential request.
pub struct AuthResponse {
    pub auth_token: String,
}

impl AuthResponse {
    /// Issues a credential to `user` at time `now`, signed with `secret`: its
    /// claim set names the user and expires `VALIDITY_SECONDS` later.
    pub fn issue_at(user: User, secret: &str, now: i64) -> (r: Result<AuthResponse, ApiError>)
        requires
            now <= i64::MAX - VALIDITY_SECONDS,
        ensures
            r matches Ok(a) && a.auth_token@ == signed_token(user.id@, now + VALIDITY_SECONDS, secret@),
    {
        let claims = AuthorizationToken::issued_at(user, now);
        match claims.encode(secret) {
            Ok(t) => Ok(AuthResponse { auth_token: t }),
            Err(_) => Err(ApiError::TokenGenerationError),
        }
    }

    /// Issues a credential to `user` now, signed with `secret`.
    pub fn issue(user: User, secret: &str) -> (r: Result<AuthResponse, ApiError>)
        ensures
            r matches Ok(a) && exists|e: int| a.auth_token@ == signed_token(user.id@, e, secret@),
    {
        let claims = AuthorizationToken::from(user);
        match claims.encode(secret) {
            Ok(t) => Ok(AuthResponse { auth_token: t }),
            Err(_) => Err(ApiError::TokenGenerationError),
        }
    }
}

} // verus!
