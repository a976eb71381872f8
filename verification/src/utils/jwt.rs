//! Signed, time-limited tokens that carry a user's identity. Signing and
//! signature checking are the `jsonwebtoken` crate's; which claims a token
//! gets and until when it is honoured is decided here.

use axum_extra::headers::authorization::Bearer;
use axum_extra::headers::Authorization;
use jsonwebtoken::{DecodingKey, EncodingKey, Header, Validation};
use serde_json::Value;
use vstd::prelude::*;

use crate::config::Auth;
use crate::error::api_error::{ApiError, ApiErrorView, AuthenticateError};
use crate::error::OhMyResult;

verus! {

/// `jsonwebtoken`'s error, carried but never looked into.
#[verifier::external_type_specification]
#[verifier::external_body]
pub struct ExTokenError(jsonwebtoken::errors::Error);

/// The user that a token speaks for.
#[derive(Debug, Clone, PartialEq, Eq)]
pub struct Payload {
    pub id: u64,
    pub username: String,
}

/// A `Payload` with its name as a sequence of characters.
pub struct PayloadView {
    pub id: u64,
    pub username: Seq<char>,
}

impl View for Payload {
    type V = PayloadView;

    open spec fn view(&self) -> PayloadView {
        PayloadView { id: self.id, username: self.username@ }
    }
}

/// What a token states: when it was issued, when it expires (both in seconds
/// since 1970) and for whom it speaks.
#[derive(Debug, Clone, PartialEq, Eq)]
pub struct Claims {
    pub exp: usize,
    pub iat: usize,
    pub payload: Payload,
}

/// `Claims` with the user's name as a sequence of characters.
pub struct ClaimsView {
    pub exp: usize,
    pub iat: usize,
    pub payload: PayloadView,
}

impl View for Claims {
    type V = ClaimsView;

    open spec fn view(&self) -> ClaimsView {
        ClaimsView { exp: self.exp, iat: self.iat, payload: self.payload@ }
    }
}

/// The token that `jsonwebtoken` makes of the four claims under `secret`, or
/// `None` where it makes none.
pub uninterp spec fn signed_token(
    secret: Seq<char>,
    exp: int,
    iat: int,
    id: int,
    username: Seq<char>,
) -> Option<Seq<char>>;

/// The claims (expiry, issue time, user id, user name) that `jsonwebtoken`
/// reads from `token` once it has found the signature to be made with
/// `secret`, whatever the time; `None` where the signature or the shape of
/// the token is wrong.
pub uninterp spec fn token_claims(token: Seq<char>, secret: Seq<char>) -> Option<
    (u64, u64, u64, Seq<char>),
>;

impl ClaimsView {
    /// The token that states these claims under `secret`, if one can be made.
    pub open spec fn token(self, secret: Seq<char>) -> Option<Seq<char>> {
        signed_token(
            secret,
            self.exp as int,
            self.iat as int,
            self.payload.id as int,
            self.payload.username,
        )
    }

    /// The claims as the four values that a token holds.
    pub open spec fn raw(self) -> (u64, u64, u64, Seq<char>) {
        (self.exp as u64, self.iat as u64, self.payload.id, self.payload.username)
    }
}

/// The claims that come out of a token, with the name as characters.
pub open spec fn claims_read(raw: Option<(u64, u64, u64, String)>) -> Option<
    (u64, u64, u64, Seq<char>),
> {
    match raw {
        Some((exp, iat, id, username)) => Some((exp, iat, id, username@)),
        None => None,
    }
}

/// Calls `jsonwebtoken::encode` with the default header (HS256), a key made
/// by `EncodingKey::from_secret`, and the claims as a JSON object with the
/// members `exp`, `iat` and `payload`, the last with `id` and `username`. The
/// token depends on the secret and the claims alone; `signed_token` is its
/// name. A token that comes out carries these claims under this secret: read
/// back by `jsonwebtoken::decode`, it yields them again.
#[verifier::external_body]
fn sign(secret: &str, claims: &Claims) -> (r: Result<String, jsonwebtoken::errors::Error>)
    ensures
        signed_token(
            secret@,
            claims.exp as int,
            claims.iat as int,
            claims.payload.id as int,
            claims.payload.username@,
        ) == match r {
            Ok(token) => Some(token@),
            Err(_) => None,
        },
        r matches Ok(token) ==> token_claims(token@, secret@) == Some(claims@.raw()),
{
    let mut payload = serde_json::Map::new();
    payload.insert("id".to_string(), Value::from(claims.payload.id));
    payload.insert("username".to_string(), Value::from(claims.payload.username.as_str()));
    let mut object = serde_json::Map::new();
    object.insert("exp".to_string(), Value::from(claims.exp));
    object.insert("iat".to_string(), Value::from(claims.iat));
    object.insert("payload".to_string(), Value::Object(payload));
    jsonwebtoken::encode(&Header::default(), &object, &EncodingKey::from_secret(secret.as_bytes()))
}

/// Calls `jsonwebtoken::decode` with a key made by `DecodingKey::from_secret`
/// and the default validation (HS256, `exp` required) with the check of the
/// expiry against the clock switched off, then takes the four claims out of
/// the JSON object: `exp`, `iat`, and `id` and `username` under `payload`.
/// What comes out depends on the token and the secret alone; `token_claims`
/// is its name.
#[verifier::external_body]
fn read_signed(token: &str, secret: &str) -> (r: Option<(u64, u64, u64, String)>)
    ensures
        claims_read(r) == token_claims(token@, secret@),
{
    let mut validation = Validation::default();
    validation.validate_exp = false;
    let key = DecodingKey::from_secret(secret.as_bytes());
    let claims = jsonwebtoken::decode::<Value>(token, &key, &validation).ok()?.claims;
    let payload = claims.get("payload")?;
    Some((
        claims.get("exp")?.as_u64()?,
        claims.get("iat")?.as_u64()?,
        payload.get("id")?.as_u64()?,
        payload.get("username")?.as_str()?.to_string(),
    ))
}

/// Whether `c` may stand in a header value that is read as text: a tab, or
/// a character from the space to the tilde.
pub open spec fn header_char(c: char) -> bool {
    c == '\t' || ' ' <= c <= '~'
}

/// Whether `header` begins with the scheme `Bearer`, in capitals or small
/// letters, and one space, with something after the scheme.
pub open spec fn bearer_scheme(header: Seq<char>) -> bool {
    &&& header.len() > 6
    &&& header[0] == 'B' || header[0] == 'b'
    &&& header[1] == 'E' || header[1] == 'e'
    &&& header[2] == 'A' || header[2] == 'a'
    &&& header[3] == 'R' || header[3] == 'r'
    &&& header[4] == 'E' || header[4] == 'e'
    &&& header[5] == 'R' || header[5] == 'r'
    &&& header[6] == ' '
}

/// The text without the spaces and tabs that lead it.
pub open spec fn without_leading_blanks(text: Seq<char>) -> Seq<char>
    decreases text.len(),
{
    if text.len() > 0 && (text[0] == ' ' || text[0] == '\t') {
        without_leading_blanks(text.subrange(1, text.len() as int))
    } else {
        text
    }
}

/// The token that the value of an `Authorization` header holds as bearer
/// credentials: the value must be made of header characters alone and begin
/// with the scheme; the token is what follows the scheme and its space,
/// without leading blanks. It may be empty.
pub open spec fn bearer_credentials(header: Seq<char>) -> Option<Seq<char>> {
    if bearer_scheme(header) && (forall|i: int|
        0 <= i < header.len() ==> header_char(#[trigger] header[i])) {
        Some(without_leading_blanks(header.subrange(7, header.len() as int)))
    } else {
        None
    }
}

/// The credentials that come out of a header, as characters.
pub open spec fn credentials_read(token: Option<String>) -> Option<Seq<char>> {
    match token {
        Some(text) => Some(text@),
        None => None,
    }
}

/// Makes an `http::HeaderValue` of the text with `HeaderValue::from_str`,
/// decodes it with `headers::Authorization::<Bearer>::decode` and takes the
/// token with `Authorization::token`; `None` where one of the first two
/// fails. The crates take a value whose bytes are tabs and visible ASCII
/// alone and that begins with `Bearer`, in any case, and a space; the token
/// is the rest, trimmed at the front.
#[verifier::external_body]
fn bearer_token(header: &str) -> (r: Option<String>)
    ensures
        credentials_read(r) == bearer_credentials(header@),
{
    let value = axum_extra::headers::HeaderValue::from_str(header).ok()?;
    let mut values = std::iter::once(&value);
    let parsed: Authorization<Bearer> = axum_extra::headers::Header::decode(&mut values).ok()?;
    Some(parsed.token().to_string())
}

/// Reads the clock with `std::time::SystemTime::now`, makes a
/// `chrono::DateTime<Utc>` of it with `From<SystemTime>` and takes the
/// seconds since 1970 with `DateTime::timestamp`. Nothing is said of the
/// number: a clock that stands before 1970 gives a negative one. The
/// conversion fails only on a time outside the years that `chrono` can
/// write, some 262,000 years either way.
#[verifier::external_body]
fn unix_now() -> i64 {
    chrono::DateTime::<chrono::Utc>::from(std::time::SystemTime::now()).timestamp()
}

/// The claims of a token issued at `now` for `payload`, to live for
/// `lifetime` seconds; `None` where the lifetime is zero, so that the token
/// would expire as it is issued, or a time does not fit the claims' fields.
pub open spec fn issued_claims(payload: PayloadView, now: int, lifetime: u64) -> Option<
    ClaimsView,
> {
    if 0 <= now && 0 < lifetime && now + lifetime <= usize::MAX {
        Some(ClaimsView { exp: (now + lifetime) as usize, iat: now as usize, payload })
    } else {
        None
    }
}

/// The token that is handed out at `now` for `payload`, if any.
pub open spec fn issued_token(
    payload: PayloadView,
    secret: Seq<char>,
    lifetime: u64,
    now: int,
) -> Option<Seq<char>> {
    match issued_claims(payload, now, lifetime) {
        Some(claims) => claims.token(secret),
        None => None,
    }
}

/// Whether the claims that a token holds are those of `payload`, with an
/// expiry that is the issue time plus `lifetime` and lies after the issue
/// time.
pub open spec fn issued_for(
    raw: Option<(u64, u64, u64, Seq<char>)>,
    payload: PayloadView,
    lifetime: u64,
) -> bool {
    raw matches Some((exp, iat, id, username)) && exp == iat + lifetime && iat < exp && id
        == payload.id && username == payload.username
}

/// Whether `r` hands out exactly `expected`, and fails where there is none.
pub open spec fn hands_out(r: Result<String, AuthenticateError>, expected: Option<Seq<char>>) -> bool {
    match expected {
        Some(token) => r matches Ok(text) && text@ == token,
        None => r matches Err(err) && err == AuthenticateError::GenerateToken,
    }
}

/// Whether `r` is the outcome of `generate` at the time `now`: the token
/// issued at `now`, which holds the claims issued at `now`, or the
/// token-generation error where there is no such token.
pub open spec fn generated_at(
    r: Result<String, AuthenticateError>,
    payload: PayloadView,
    secret: Seq<char>,
    lifetime: u64,
    now: i64,
) -> bool {
    &&& hands_out(r, issued_token(payload, secret, lifetime, now as int))
    &&& match (r, issued_claims(payload, now as int, lifetime)) {
        (Ok(token), Some(claims)) => token_claims(token@, secret) == Some(claims.raw()),
        (Ok(_), None) => false,
        (Err(_), _) => true,
    }
}

/// The claims that are accepted at `now` from what a token holds: all of them
/// as they are, unless a time does not fit its field or the expiry lies
/// before `now`.
pub open spec fn accepted_claims(raw: Option<(u64, u64, u64, Seq<char>)>, now: int) -> Result<
    ClaimsView,
    AuthenticateError,
> {
    match raw {
        Some((exp, iat, id, username)) => if exp <= usize::MAX && iat <= usize::MAX && now
            <= exp {
            Ok(
                ClaimsView {
                    exp: exp as usize,
                    iat: iat as usize,
                    payload: PayloadView { id, username },
                },
            )
        } else {
            Err(AuthenticateError::InvalidToken)
        },
        None => Err(AuthenticateError::InvalidToken),
    }
}

/// The outcome of a verification, with the claims by their view.
pub open spec fn outcome_view(r: Result<Claims, AuthenticateError>) -> Result<
    ClaimsView,
    AuthenticateError,
> {
    match r {
        Ok(claims) => Ok(claims@),
        Err(err) => Err(err),
    }
}

/// Whether `r` is the outcome of `decode` at the time `now`.
pub open spec fn decoded_at(
    r: Result<Claims, AuthenticateError>,
    token: Seq<char>,
    secret: Seq<char>,
    now: i64,
) -> bool {
    outcome_view(r) == accepted_claims(token_claims(token, secret), now as int)
}

impl Claims {
    /// The claims of a token issued at `issued_at` that lives for `lifetime`
    /// seconds. The expiry is the issue time plus the lifetime, and lies
    /// after the issue time: a token lives for a second at least.
    pub fn new(id: u64, username: String, issued_at: usize, lifetime: u64) -> (claims: Claims)
        requires
            0 < lifetime,
            issued_at + lifetime <= usize::MAX,
        ensures
            claims.iat == issued_at,
            claims.exp == issued_at + lifetime,
            claims.iat < claims.exp,
            claims.payload.id == id,
            claims.payload.username == username,
    {
        Claims { exp: issued_at + lifetime as usize, iat: issued_at, payload: Payload { id, username } }
    }

    /// The claims of a token issued for `payload` at `now`, a reading of the
    /// clock, or `None` where the lifetime is zero or the issue time or the
    /// expiry does not fit.
    pub fn issue(payload: Payload, now: i64, lifetime: u64) -> (r: Option<Claims>)
        ensures
            match issued_claims(payload@, now as int, lifetime) {
                Some(claims) => r matches Some(made) && made@ == claims,
                None => r is None,
            },
            r matches Some(made) ==> made.iat < made.exp,
    {
        if now < 0 || lifetime == 0 {
            return None;
        }
        let issued_at: u64 = now as u64;
        if issued_at > usize::MAX as u64 || lifetime > usize::MAX as u64 - issued_at {
            return None;
        }
        Some(Claims::new(payload.id, payload.username, issued_at as usize, lifetime))
    }

    /// Decides at `now` on what `jsonwebtoken` read from a token: the claims
    /// are accepted unless there are none, a time does not fit, or the token
    /// has expired.
    pub fn accept(raw: Option<(u64, u64, u64, String)>, now: i64) -> (r: Result<
        Claims,
        AuthenticateError,
    >)
        ensures
            outcome_view(r) == accepted_claims(claims_read(raw), now as int),
    {
        match raw {
            Some((exp, iat, id, username)) => {
                if exp > usize::MAX as u64 || iat > usize::MAX as u64 {
                    return Err(AuthenticateError::InvalidToken);
                }
                if now > 0 && exp < now as u64 {
                    return Err(AuthenticateError::InvalidToken);
                }
                Ok(Claims { exp: exp as usize, iat: iat as usize, payload: Payload { id, username } })
            },
            None => Err(AuthenticateError::InvalidToken),
        }
    }
}

/// Turns what `jsonwebtoken` made of the claims into the library's own
/// result: the token as it is, or the token-generation error.
pub fn signing_outcome(signed: Result<String, jsonwebtoken::errors::Error>) -> (r: Result<
    String,
    AuthenticateError,
>)
    ensures
        match signed {
            Ok(token) => r matches Ok(text) && text == token,
            Err(_) => r matches Err(err) && err == AuthenticateError::GenerateToken,
        },
{
    match signed {
        Ok(token) => Ok(token),
        Err(_) => Err(AuthenticateError::GenerateToken),
    }
}

/// Issues at `now` a token for `payload`: its claims are signed with the
/// configured secret and expire the configured lifetime after `now`. Fails
/// with the token-generation error where the lifetime is zero, a time does
/// not fit or signing fails. A token that is handed out holds claims that
/// were issued at `now` and expire after it, by exactly the lifetime.
pub fn generate_at(payload: Payload, auth: &Auth, now: i64) -> (r: Result<
    String,
    AuthenticateError,
>)
    ensures
        generated_at(r, payload@, auth.secret@, auth.expire, now),
        r matches Ok(token) ==> token_claims(token@, auth.secret@) == Some(
            ((now + auth.expire) as u64, now as u64, payload.id, payload.username@),
        ),
        r matches Ok(token) ==> issued_for(
            token_claims(token@, auth.secret@),
            payload@,
            auth.expire,
        ),
{
    match Claims::issue(payload, now, auth.expire) {
        Some(claims) => signing_outcome(sign(auth.secret.as_str(), &claims)),
        None => Err(AuthenticateError::GenerateToken),
    }
}

/// Issues a token for `payload` at the time that the clock shows. A token
/// that is handed out holds the claims issued at that time. Whatever the
/// time is, they are claims for `payload` that expire after their issue
/// time, by exactly the configured lifetime; with a lifetime of zero no
/// token is handed out.
pub fn generate(payload: Payload, auth: &Auth) -> (r: Result<String, AuthenticateError>)
    ensures
        exists|now: i64| #[trigger] generated_at(r, payload@, auth.secret@, auth.expire, now),
        r matches Ok(token) ==> issued_for(
            token_claims(token@, auth.secret@),
            payload@,
            auth.expire,
        ),
        auth.expire == 0 ==> hands_out(r, None),
{
    let now: i64 = unix_now();
    let r = generate_at(payload, auth, now);
    assert(generated_at(r, payload@, auth.secret@, auth.expire, now));
    r
}

/// Verifies `token` at `now`: its signature must be made with `secret`, it
/// must hold all four claims, and its expiry must not lie before `now`.
/// Anything else is an invalid token.
pub fn decode_at(token: &str, secret: &str, now: i64) -> (r: Result<Claims, AuthenticateError>)
    ensures
        outcome_view(r) == accepted_claims(token_claims(token@, secret@), now as int),
{
    Claims::accept(read_signed(token, secret), now)
}

/// Verifies `token` at the time that the clock shows. Whatever that time
/// is, claims that are accepted are the claims that the token holds under
/// `secret`, and the only error is the invalid token.
pub fn decode(token: &str, secret: &str) -> (r: Result<Claims, AuthenticateError>)
    ensures
        exists|now: i64| #[trigger] decoded_at(r, token@, secret@, now),
        match r {
            Ok(claims) => token_claims(token@, secret@) == Some(claims@.raw()),
            Err(err) => err == AuthenticateError::InvalidToken,
        },
{
    let now: i64 = unix_now();
    let r = decode_at(token, secret, now);
    assert(decoded_at(r, token@, secret@, now));
    r
}

/// Whom a request with the given `Authorization` header, if it has one,
/// speaks for at `now`: the header must hold bearer credentials, else the
/// token is missing; the token must be accepted, else it is invalid.
pub open spec fn authenticated(
    authorization: Option<Seq<char>>,
    secret: Seq<char>,
    now: int,
) -> Result<ClaimsView, AuthenticateError> {
    match authorization {
        Some(header) => match bearer_credentials(header) {
            Some(token) => accepted_claims(token_claims(token, secret), now),
            None => Err(AuthenticateError::MissingToken),
        },
        None => Err(AuthenticateError::MissingToken),
    }
}

/// The outcome of an authentication, with claims and error by their views.
pub open spec fn guarded_view(r: Result<Claims, ApiError>) -> Result<ClaimsView, ApiErrorView> {
    match r {
        Ok(claims) => Ok(claims@),
        Err(err) => Err(err@),
    }
}

/// An authentication error as the error of a request.
pub open spec fn as_api_error(r: Result<ClaimsView, AuthenticateError>) -> Result<
    ClaimsView,
    ApiErrorView,
> {
    match r {
        Ok(claims) => Ok(claims),
        Err(err) => Err(ApiErrorView::Authenticate(err)),
    }
}

/// The view of a header value that may be absent.
pub open spec fn header_text(authorization: Option<&str>) -> Option<Seq<char>> {
    match authorization {
        Some(header) => Some(header@),
        None => None,
    }
}

/// Whether `r` is the outcome of `Claims::from_request_parts` at `now`.
pub open spec fn authenticated_at(
    r: Result<Claims, ApiError>,
    authorization: Option<Seq<char>>,
    secret: Seq<char>,
    now: i64,
) -> bool {
    guarded_view(r) == as_api_error(authenticated(authorization, secret, now as int))
}

impl Claims {
    /// Decides at `now` on the bearer credentials that were read from a
    /// request: without credentials the token is missing; with them, the
    /// token must be accepted under the configured secret.
    pub fn from_credentials(credentials: Option<String>, auth: &Auth, now: i64) -> (r: OhMyResult<
        Claims,
    >)
        ensures
            guarded_view(r) == as_api_error(
                match credentials_read(credentials) {
                    Some(token) => accepted_claims(token_claims(token, auth.secret@), now as int),
                    None => Err(AuthenticateError::MissingToken),
                },
            ),
    {
        match credentials {
            Some(token) => match decode_at(token.as_str(), auth.secret.as_str(), now) {
                Ok(claims) => Ok(claims),
                Err(err) => Err(ApiError::Authenticate(err)),
            },
            None => Err(ApiError::Authenticate(AuthenticateError::MissingToken)),
        }
    }

    /// Authenticates at `now` a request by the value of its `Authorization`
    /// header, `None` where it has none.
    pub fn from_authorization_at(authorization: Option<&str>, auth: &Auth, now: i64) -> (r:
        OhMyResult<Claims>)
        ensures
            guarded_view(r) == as_api_error(
                authenticated(header_text(authorization), auth.secret@, now as int),
            ),
    {
        match authorization {
            Some(header) => Claims::from_credentials(bearer_token(header), auth, now),
            None => Err(ApiError::Authenticate(AuthenticateError::MissingToken)),
        }
    }

    /// Authenticates a request at the time that the clock shows. A request
    /// without bearer credentials is answered with the missing-token error
    /// whatever the time.
    pub fn from_request_parts(authorization: Option<&str>, auth: &Auth) -> (r: OhMyResult<Claims>)
        ensures
            exists|now: i64| #[trigger]
                authenticated_at(r, header_text(authorization), auth.secret@, now),
    {
        let now: i64 = unix_now();
        let r = Claims::from_authorization_at(authorization, auth, now);
        assert(authenticated_at(r, header_text(authorization), auth.secret@, now));
        r
    }
}

/// A request misses its token exactly when it has no `Authorization` header
/// or the header holds no bearer credentials. With credentials, the only
/// error is the invalid token.
pub proof fn lemma_missing_token_is_told_from_invalid(
    authorization: Option<Seq<char>>,
    secret: Seq<char>,
    now: int,
)
    ensures
        authenticated(authorization, secret, now) == Err::<ClaimsView, _>(
            AuthenticateError::MissingToken,
        ) <==> (authorization matches Some(header) ==> bearer_credentials(header) is None),
        authenticated(authorization, secret, now) matches Err(err) ==> err
            == AuthenticateError::MissingToken || err == AuthenticateError::InvalidToken,
{
}

/// A token from which `jsonwebtoken` reads no claims under `secret` is
/// invalid at every time. Whether it reads none from a token that was
/// signed with another secret is the crate's to say, not this library's.
pub proof fn lemma_unread_token_is_invalid(token: Seq<char>, secret: Seq<char>, now: int)
    requires
        token_claims(token, secret) is None,
    ensures
        accepted_claims(token_claims(token, secret), now) == Err::<ClaimsView, _>(
            AuthenticateError::InvalidToken,
        ),
{
}

/// A token whose expiry lies before `now` is not accepted at `now`, whatever
/// else it holds.
pub proof fn lemma_expired_token_is_invalid(raw: (u64, u64, u64, Seq<char>), now: int)
    requires
        raw.0 < now,
    ensures
        accepted_claims(Some(raw), now) == Err::<ClaimsView, _>(AuthenticateError::InvalidToken),
{
}

/// Claims that are accepted at `now` have not expired at `now`, and stay
/// accepted at every earlier time.
pub proof fn lemma_accepted_until_expiry(raw: Option<(u64, u64, u64, Seq<char>)>, now: int, earlier: int)
    requires
        accepted_claims(raw, now) is Ok,
        earlier <= now,
    ensures
        now <= accepted_claims(raw, now).unwrap().exp,
        accepted_claims(raw, earlier) == accepted_claims(raw, now),
{
}

/// The claims of an issued token expire after they were issued, by exactly
/// the lifetime, and are accepted from the issue time up to the expiry.
pub proof fn lemma_issued_claims_expire_after_lifetime(
    payload: PayloadView,
    now: int,
    lifetime: u64,
    at: int,
)
    requires
        issued_claims(payload, now, lifetime) is Some,
    ensures
        ({
            let claims = issued_claims(payload, now, lifetime).unwrap();
            &&& claims.exp == claims.iat + lifetime
            &&& claims.iat < claims.exp
            &&& claims.iat == now
            &&& claims.payload == payload
            &&& at <= claims.exp ==> accepted_claims(Some(claims.raw()), at) == Ok::<
                _,
                AuthenticateError,
            >(claims)
            &&& at > claims.exp ==> accepted_claims(Some(claims.raw()), at) == Err::<
                ClaimsView,
                _,
            >(AuthenticateError::InvalidToken)
        }),
{
}

} // verus!
