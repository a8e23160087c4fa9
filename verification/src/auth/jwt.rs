use crate::utils::error::{AppError, AppErrorType};
use jsonwebtoken::Algorithm;
use vstd::prelude::*;

verus! {

/// `jsonwebtoken::errors::Error`. Nothing is read from it: every failure
/// of the encoder is a `SigningFailure`, every failure of the decoder an
/// `InvalidToken`.
#[verifier::external_type_specification]
#[verifier::external_body]
pub struct ExTokenError(jsonwebtoken::errors::Error);

/// How long a session token is good for.
pub const TOKEN_LIFETIME_MINUTES: i64 = 5;

/// The same in seconds.
pub const TOKEN_LIFETIME_SECONDS: u64 = 300;

/// The signing algorithms that a token's header can name.
#[derive(Debug, Clone, Copy, PartialEq, Eq, Structural)]
pub enum TokenAlgorithm {
    HS256,
    HS384,
    HS512,
    ES256,
    ES384,
    RS256,
    RS384,
    RS512,
    PS256,
    PS384,
    PS512,
    EdDSA,
}

/// The one algorithm under which tokens are issued and accepted.
pub open spec fn pinned_algorithm() -> TokenAlgorithm {
    TokenAlgorithm::HS256
}

/// The claims of a session token: whom it names, and the second, counted
/// from the Unix epoch, at which it stops being good.
#[derive(Debug, Clone, PartialEq, Eq)]
pub struct Claims {
    pub sub: String,
    pub exp: u64,
}

/// `Claims` with the subject as a sequence.
pub struct ClaimsView {
    pub sub: Seq<char>,
    pub exp: u64,
}

impl View for Claims {
    type V = ClaimsView;

    open spec fn view(&self) -> ClaimsView {
        ClaimsView { sub: self.sub@, exp: self.exp }
    }
}

/// What the payload of a token with a good signature holds of the two
/// claims: `sub` if it is there as a string, `exp` if it is there as a
/// whole number that fits.
#[derive(Debug, Clone, PartialEq, Eq)]
pub struct DecodedClaims {
    pub sub: Option<String>,
    pub exp: Option<u64>,
}

/// `DecodedClaims` with the subject as a sequence.
pub struct DecodedClaimsView {
    pub sub: Option<Seq<char>>,
    pub exp: Option<u64>,
}

impl View for DecodedClaims {
    type V = DecodedClaimsView;

    open spec fn view(&self) -> DecodedClaimsView {
        DecodedClaimsView {
            sub: match self.sub {
                Some(sub) => Some(sub@),
                None => None,
            },
            exp: self.exp,
        }
    }
}

/// What `jsonwebtoken::encode` gives: the compact token that carries the
/// claim set `{sub, exp}` under the default header, signed with
/// HMAC-SHA-256 under `secret`.
pub uninterp spec fn hs256_token(sub: Seq<char>, exp: u64, secret: Seq<u8>) -> Seq<char>;

/// What `jsonwebtoken::decode` reads: what the payload of `token` holds of
/// `sub` and `exp`, where `token` has three parts, a header that names
/// HS256, a signature that is good under `secret`, and a payload that
/// passes the decoder's checks other than the one on the clock; `None` of
/// every other string.
pub uninterp spec fn hs256_payload(token: Seq<char>, secret: Seq<u8>) -> Option<DecodedClaimsView>;

/// What `jsonwebtoken::decode_header` reads: the algorithm that the header
/// of `token` names, where `token` has three parts of which the first is a
/// header; `None` of every other string.
pub uninterp spec fn token_algorithm(token: Seq<char>) -> Option<TokenAlgorithm>;

/// `token` is the token of `claims` under `secret`: the encoder gives it,
/// its header names the pinned algorithm, and decoding it under `secret`
/// gives `claims` back.
pub open spec fn is_token_of(token: Seq<char>, claims: ClaimsView, secret: Seq<u8>) -> bool {
    &&& hs256_token(claims.sub, claims.exp, secret) == token
    &&& token_algorithm(token) == Some(pinned_algorithm())
    &&& hs256_payload(token, secret) == Some(
        DecodedClaimsView { sub: Some(claims.sub), exp: Some(claims.exp) },
    )
}

/// The claims that a decoded payload stands for at the second `now`: both
/// must be there, and the expiry strictly later than `now`.
pub open spec fn live_claims(decoded: DecodedClaimsView, now: u64) -> Option<ClaimsView> {
    if decoded.sub is Some && decoded.exp is Some && decoded.exp.unwrap() > now {
        Some(ClaimsView { sub: decoded.sub.unwrap(), exp: decoded.exp.unwrap() })
    } else {
        None
    }
}

/// The claims for which `token` is good under `secret` at the second
/// `now`, if it is good at all.
pub open spec fn accepted_claims(token: Seq<char>, secret: Seq<u8>, now: u64) -> Option<
    ClaimsView,
> {
    if token_algorithm(token) != Some(pinned_algorithm()) {
        None
    } else {
        match hs256_payload(token, secret) {
            Some(decoded) => live_claims(decoded, now),
            None => None,
        }
    }
}

/// A secret, if there is one, as a sequence of bytes.
pub open spec fn secret_view(secret: Option<&[u8]>) -> Option<Seq<u8>> {
    match secret {
        Some(key) => Some(key@),
        None => None,
    }
}

/// How issuing ends: without a secret, or where the expiry is past the
/// last second that a claim can hold, nothing is signed; else the token is
/// the encoder's.
pub open spec fn issue_outcome(
    identity: Seq<char>,
    now: u64,
    ttl: u64,
    secret: Option<Seq<u8>>,
) -> Result<Seq<char>, AppErrorType> {
    if secret is None || now + ttl > u64::MAX {
        Err(AppErrorType::SigningFailure)
    } else {
        Ok(hs256_token(identity, (now + ttl) as u64, secret.unwrap()))
    }
}

/// Whether `outcome` is how issuing to `identity` at the second `now`
/// ends. A token that was issued is the token of its claims.
pub open spec fn is_issue_outcome(
    outcome: Result<String, AppErrorType>,
    identity: Seq<char>,
    now: u64,
    ttl: u64,
    secret: Option<Seq<u8>>,
) -> bool {
    match outcome {
        Ok(token) => {
            &&& issue_outcome(identity, now, ttl, secret) == Ok::<Seq<char>, AppErrorType>(token@)
            &&& is_token_of(
                token@,
                ClaimsView { sub: identity, exp: (now + ttl) as u64 },
                secret.unwrap(),
            )
        },
        Err(kind) => issue_outcome(identity, now, ttl, secret) == Err::<Seq<char>, AppErrorType>(
            kind,
        ),
    }
}

/// Whether `outcome` is what the token that a request stored stands for
/// at the second `now`.
pub open spec fn is_extract_outcome(
    outcome: Result<Claims, AppErrorType>,
    raw_token: Option<&str>,
    secret: Seq<u8>,
    now: u64,
) -> bool {
    match outcome {
        Ok(claims) => raw_token is Some && accepted_claims(raw_token.unwrap()@, secret, now)
            == Some(claims@),
        Err(kind) => kind == AppErrorType::Unauthenticated && (raw_token is None
            || accepted_claims(raw_token.unwrap()@, secret, now) is None),
    }
}

/// Whether `outcome` is what the session cookie of a request stands for
/// at the second `now`. The failure is the one that `from` makes of its
/// kind.
pub open spec fn is_request_outcome(
    outcome: Result<Claims, AppError>,
    cookie: Option<&str>,
    secret: Seq<u8>,
    now: u64,
) -> bool {
    match outcome {
        Ok(claims) => is_extract_outcome(Ok(claims), cookie, secret, now),
        Err(error) => {
            &&& is_extract_outcome(Err(error.error_type), cookie, secret, now)
            &&& error.is_from(AppErrorType::Unauthenticated)
        },
    }
}

/// `jsonwebtoken::encode` with `Header::default()`, a JSON object of the
/// two claims, and `EncodingKey::from_secret`. Claims that the encoder
/// gives a token: a key made from a secret is of the header's family, a
/// string and a `u64` always serialise, and HMAC signs every message.
/// Claims further that the token depends on the claims and the secret
/// alone, that `decode_header` reads HS256 from it, and that `decode`
/// under the same secret, with the check on the clock switched off, reads
/// the two claims back: the header is the default one, the signature is
/// the one that the decoder computes again, and a string and a `u64`
/// survive JSON unchanged.
#[verifier::external_body]
fn encode_hs256(claims: &Claims, secret: &[u8]) -> (outcome: Result<
    String,
    jsonwebtoken::errors::Error,
>)
    ensures
        outcome is Ok,
        outcome matches Ok(token) ==> token@ == hs256_token(claims@.sub, claims@.exp, secret@),
        outcome matches Ok(token) ==> is_token_of(token@, claims@, secret@),
{
    let mut body = serde_json::Map::new();
    body.insert(String::from("sub"), serde_json::Value::from(claims.sub.as_str()));
    body.insert(String::from("exp"), serde_json::Value::from(claims.exp));
    let key = jsonwebtoken::EncodingKey::from_secret(secret);
    jsonwebtoken::encode(&jsonwebtoken::Header::default(), &body, &key)
}

/// `jsonwebtoken::decode` into a JSON object, with
/// `DecodingKey::from_secret` and `Validation::new(Algorithm::HS256)` whose
/// `validate_exp` is switched off, so that no clock is read; then `sub`
/// through `Value::as_str` and `exp` through `Value::as_u64`. Claims that
/// the outcome depends on the token and the secret alone.
#[verifier::external_body]
fn decode_hs256(token: &str, secret: &[u8]) -> (outcome: Result<
    DecodedClaims,
    jsonwebtoken::errors::Error,
>)
    ensures
        match outcome {
            Ok(decoded) => hs256_payload(token@, secret@) == Some(decoded@),
            Err(_) => hs256_payload(token@, secret@) is None,
        },
{
    let mut validation = jsonwebtoken::Validation::new(Algorithm::HS256);
    validation.validate_exp = false;
    let key = jsonwebtoken::DecodingKey::from_secret(secret);
    let data = jsonwebtoken::decode::<serde_json::Map<String, serde_json::Value>>(
        token,
        &key,
        &validation,
    )?;
    Ok(
        DecodedClaims {
            sub: data.claims.get("sub").and_then(serde_json::Value::as_str).map(String::from),
            exp: data.claims.get("exp").and_then(serde_json::Value::as_u64),
        },
    )
}

/// `jsonwebtoken::decode_header`, and the algorithm it reads, variant for
/// variant. A string it cannot read has none.
#[verifier::external_body]
fn header_algorithm(token: &str) -> (algorithm: Option<TokenAlgorithm>)
    ensures
        algorithm == token_algorithm(token@),
{
    let Ok(header) = jsonwebtoken::decode_header(token) else { return None };
    Some(match header.alg {
        Algorithm::HS256 => TokenAlgorithm::HS256,
        Algorithm::HS384 => TokenAlgorithm::HS384,
        Algorithm::HS512 => TokenAlgorithm::HS512,
        Algorithm::ES256 => TokenAlgorithm::ES256,
        Algorithm::ES384 => TokenAlgorithm::ES384,
        Algorithm::RS256 => TokenAlgorithm::RS256,
        Algorithm::RS384 => TokenAlgorithm::RS384,
        Algorithm::RS512 => TokenAlgorithm::RS512,
        Algorithm::PS256 => TokenAlgorithm::PS256,
        Algorithm::PS384 => TokenAlgorithm::PS384,
        Algorithm::PS512 => TokenAlgorithm::PS512,
        Algorithm::EdDSA => TokenAlgorithm::EdDSA,
    })
}

/// `chrono::Utc::now().timestamp()`: the seconds since the Unix epoch on
/// this machine's clock. The clock is read, so nothing is claimed but that
/// the count is not negative: chrono measures it from the epoch forward.
#[verifier::external_body]
fn unix_timestamp() -> (seconds: i64)
    ensures
        0 <= seconds,
{
    chrono::Utc::now().timestamp()
}

/// `chrono::TimeDelta::try_minutes` and then `num_seconds`: sixty times
/// the minutes, where that is within chrono's range of `i64::MAX`
/// milliseconds either way.
#[verifier::external_body]
fn whole_seconds(minutes: i64) -> (seconds: Option<i64>)
    ensures
        seconds == if -(i64::MAX / 1000) <= minutes * 60 <= i64::MAX / 1000 {
            Some((minutes * 60) as i64)
        } else {
            None::<i64>
        },
{
    match chrono::TimeDelta::try_minutes(minutes) {
        Some(delta) => Some(delta.num_seconds()),
        None => None,
    }
}

/// A token that names `identity` and expires `ttl` seconds after `now`,
/// signed under `secret`. Without a secret, or where the expiry is past
/// the last second that a claim can hold, nothing is signed; in every
/// other case a token is.
pub fn issue(identity: &str, now: u64, ttl: u64, secret: Option<&[u8]>) -> (outcome: Result<
    String,
    AppErrorType,
>)
    ensures
        is_issue_outcome(outcome, identity@, now, ttl, secret_view(secret)),
{
    let key = match secret {
        Some(key) => key,
        None => return Err(AppErrorType::SigningFailure),
    };
    let exp = match now.checked_add(ttl) {
        Some(exp) => exp,
        None => return Err(AppErrorType::SigningFailure),
    };
    let claims = Claims { sub: identity.to_owned(), exp };
    match encode_hs256(&claims, key) {
        Ok(token) => Ok(token),
        Err(_) => Err(AppErrorType::SigningFailure),
    }
}

/// A token that names `username` and expires `TOKEN_LIFETIME_MINUTES`
/// after the present second, signed under `secret`. The second is read
/// from the clock: it is some count from the Unix epoch on.
pub fn create_token(username: String, secret: Option<&[u8]>) -> (outcome: Result<
    String,
    AppErrorType,
>)
    ensures
        exists|now: u64|
            now <= i64::MAX && #[trigger] is_issue_outcome(
                outcome,
                username@,
                now,
                TOKEN_LIFETIME_SECONDS,
                secret_view(secret),
            ),
{
    let now = unix_timestamp() as u64;
    let ttl = match whole_seconds(TOKEN_LIFETIME_MINUTES) {
        Some(seconds) => seconds as u64,
        None => return Err(AppErrorType::SigningFailure),
    };
    issue(username.as_str(), now, ttl, secret)
}

impl Claims {
    /// The claims that a decoded payload stands for at the second `now`.
    /// A payload without a subject or an expiry, or whose expiry is `now`
    /// or earlier, is no token.
    pub fn from_decoded(decoded: DecodedClaims, now: u64) -> (outcome: Result<
        Claims,
        AppErrorType,
    >)
        ensures
            match outcome {
                Ok(claims) => live_claims(decoded@, now) == Some(claims@),
                Err(kind) => kind == AppErrorType::InvalidToken && live_claims(decoded@, now)
                    is None,
            },
    {
        match (decoded.sub, decoded.exp) {
            (Some(sub), Some(exp)) => {
                if exp > now {
                    Ok(Claims { sub, exp })
                } else {
                    Err(AppErrorType::InvalidToken)
                }
            },
            _ => Err(AppErrorType::InvalidToken),
        }
    }

    /// The identity behind the session cookie of a request, at the present
    /// second, which is read from the clock.
    pub fn from_request(cookie: Option<&str>, secret: &[u8]) -> (outcome: Result<
        Claims,
        AppError,
    >)
        ensures
            exists|now: u64|
                now <= i64::MAX && #[trigger] is_request_outcome(outcome, cookie, secret@, now),
    {
        let now = unix_timestamp() as u64;
        let outcome = match extract(cookie, secret, now) {
            Ok(claims) => Ok(claims),
            Err(kind) => Err(AppError::from(kind)),
        };
        assert(is_request_outcome(outcome, cookie, secret@, now));
        outcome
    }
}

/// The claims of `token`, if it is good under `secret` at the second
/// `now`. A string that is no token, a header that names another
/// algorithm, a signature that is not good, a payload without the two
/// claims and an expiry that is not after `now` all give the one error.
/// The header is read first: a token of another algorithm is turned away
/// before its signature is looked at.
pub fn decode_token(token: &str, secret: &[u8], now: u64) -> (outcome: Result<
    Claims,
    AppErrorType,
>)
    ensures
        match outcome {
            Ok(claims) => accepted_claims(token@, secret@, now) == Some(claims@),
            Err(kind) => kind == AppErrorType::InvalidToken && accepted_claims(
                token@,
                secret@,
                now,
            ) is None,
        },
{
    match header_algorithm(token) {
        Some(TokenAlgorithm::HS256) => {},
        _ => return Err(AppErrorType::InvalidToken),
    }
    match decode_hs256(token, secret) {
        Ok(decoded) => Claims::from_decoded(decoded, now),
        Err(_) => Err(AppErrorType::InvalidToken),
    }
}

/// The identity behind the token that a request stored, at the second
/// `now`. No token and a token that is not good are the same to the
/// caller: sign in again.
pub fn extract(raw_token: Option<&str>, secret: &[u8], now: u64) -> (outcome: Result<
    Claims,
    AppErrorType,
>)
    ensures
        is_extract_outcome(outcome, raw_token, secret@, now),
        raw_token is None ==> outcome == Err::<Claims, AppErrorType>(
            AppErrorType::Unauthenticated,
        ),
{
    match raw_token {
        Some(token) => match decode_token(token, secret, now) {
            Ok(claims) => Ok(claims),
            Err(_) => Err(AppErrorType::Unauthenticated),
        },
        None => Err(AppErrorType::Unauthenticated),
    }
}

/// A token that was issued is good under the secret that signed it at
/// every second before its expiry, for the identity it was issued to, and
/// at no second from its expiry on.
pub proof fn lemma_issued_token_good_until_expiry(
    issued: Result<String, AppErrorType>,
    identity: Seq<char>,
    now: u64,
    ttl: u64,
    secret: Seq<u8>,
    at: u64,
)
    requires
        is_issue_outcome(issued, identity, now, ttl, Some(secret)),
        issued is Ok,
    ensures
        at < now + ttl ==> accepted_claims(issued.unwrap()@, secret, at) == Some(
            ClaimsView { sub: identity, exp: (now + ttl) as u64 },
        ),
        at >= now + ttl ==> accepted_claims(issued.unwrap()@, secret, at) is None,
{
}

/// A token whose header names another algorithm than the pinned one, or
/// none, is good under no secret and at no time, whatever its signature.
pub proof fn lemma_foreign_algorithm_rejected(token: Seq<char>, secret: Seq<u8>, now: u64)
    ensures
        token_algorithm(token) != Some(pinned_algorithm()) ==> accepted_claims(
            token,
            secret,
            now,
        ) is None,
{
}

/// Where there is a secret and the expiry can be held, a token is issued.
pub proof fn lemma_token_is_owed(identity: Seq<char>, now: u64, ttl: u64, secret: Seq<u8>)
    requires
        now + ttl <= u64::MAX,
    ensures
        issue_outcome(identity, now, ttl, Some(secret)) is Ok,
{
}

} // verus!
