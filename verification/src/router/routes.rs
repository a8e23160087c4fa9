use crate::auth::jwt::{
    accepted_claims, create_token, is_issue_outcome, issue, issue_outcome,
    lemma_issued_token_good_until_expiry, secret_view, Claims, ClaimsView, TOKEN_LIFETIME_SECONDS,
};
use crate::auth::password::{
    is_hash_outcome, is_hashable, lemma_password_matches_own_record, password_matches,
    verify_password,
};
use crate::db::models::{User, UserView};
use crate::db::query::{create_user, is_new_row, NewUser};
use crate::utils::error::{AppError, AppErrorType};
use vstd::prelude::*;

verus! {

/// Name of the cookie that carries the session token.
pub const AUTH_COOKIE: &'static str = "auth_token";

/// Path that the session cookie is set for.
pub const COOKIE_PATH: &'static str = "/";

/// A user's page is this, followed by the user's name.
pub const PROFILE_PREFIX: &'static str = "/u/";

/// Where a caller is sent once an account is stored.
pub const USERS_LOCATION: &'static str = "/users";

/// The session cookie, as the web layer is to set it.
#[derive(Debug, Clone, PartialEq, Eq)]
pub struct SessionCookie {
    pub name: String,
    pub value: String,
    pub secure: bool,
    pub http_only: bool,
    pub same_site_strict: bool,
    pub path: String,
}

/// `SessionCookie` with its texts as sequences.
pub struct SessionCookieView {
    pub name: Seq<char>,
    pub value: Seq<char>,
    pub secure: bool,
    pub http_only: bool,
    pub same_site_strict: bool,
    pub path: Seq<char>,
}

impl View for SessionCookie {
    type V = SessionCookieView;

    open spec fn view(&self) -> SessionCookieView {
        SessionCookieView {
            name: self.name@,
            value: self.value@,
            secure: self.secure,
            http_only: self.http_only,
            same_site_strict: self.same_site_strict,
            path: self.path@,
        }
    }
}

/// What a login that went through hands to the web layer: the cookie to
/// set and the page to send the caller to.
#[derive(Debug, Clone, PartialEq, Eq)]
pub struct SignedIn {
    pub cookie: SessionCookie,
    pub redirect_url: String,
}

/// `SignedIn` with its texts as sequences.
pub struct SignedInView {
    pub cookie: SessionCookieView,
    pub redirect_url: Seq<char>,
}

impl View for SignedIn {
    type V = SignedInView;

    open spec fn view(&self) -> SignedInView {
        SignedInView { cookie: self.cookie@, redirect_url: self.redirect_url@ }
    }
}

/// What a user's own page shows.
#[derive(Debug, Clone, PartialEq, Eq)]
pub struct ProfilePage {
    pub username: String,
    pub email: String,
}

/// The session of the user `name` with the token `token`: the token goes
/// into a cookie that is sent over TLS only, kept from scripts, never sent
/// across sites and good for the whole site; the caller goes to the user's
/// own page.
pub open spec fn session_of(name: Seq<char>, token: Seq<char>) -> SignedInView {
    SignedInView {
        cookie: SessionCookieView {
            name: AUTH_COOKIE@,
            value: token,
            secure: true,
            http_only: true,
            same_site_strict: true,
            path: COOKIE_PATH@,
        },
        redirect_url: PROFILE_PREFIX@ + name,
    }
}

/// How a login at the second `now` ends. An identifier that no account
/// goes by, a password that does not match the account's record and a
/// token that cannot be signed fail in this order; else the caller is
/// signed in with a token that expires `TOKEN_LIFETIME_SECONDS` later.
pub open spec fn login_outcome(
    user: Option<User>,
    password: Seq<char>,
    secret: Option<Seq<u8>>,
    now: u64,
) -> Result<SignedInView, AppErrorType> {
    match user {
        None => Err(AppErrorType::AccountNotFound),
        Some(account) => if !password_matches(password, account.password_hash@) {
            Err(AppErrorType::InvalidCredentials)
        } else {
            match issue_outcome(account.name@, now, TOKEN_LIFETIME_SECONDS, secret) {
                Ok(token) => Ok(session_of(account.name@, token)),
                Err(kind) => Err(kind),
            }
        },
    }
}

/// Whether `outcome` is how a login at the second `now` ends. The token
/// of a session is the token of its claims.
pub open spec fn is_login_outcome(
    outcome: Result<SignedIn, AppError>,
    user: Option<User>,
    password: Seq<char>,
    secret: Option<Seq<u8>>,
    now: u64,
) -> bool {
    match outcome {
        Ok(session) => {
            &&& login_outcome(user, password, secret, now) == Ok::<SignedInView, AppErrorType>(
                session@,
            )
            &&& is_issue_outcome(
                Ok(session.cookie.value),
                user.unwrap().name@,
                now,
                TOKEN_LIFETIME_SECONDS,
                secret,
            )
        },
        Err(error) => {
            &&& login_outcome(user, password, secret, now) == Err::<SignedInView, AppErrorType>(
                error.error_type,
            )
            &&& error.is_from(error.error_type)
        },
    }
}

/// The session of the user `name` with a token that was signed for it.
pub fn signed_in(name: &str, token: String) -> (session: SignedIn)
    ensures
        session@ == session_of(name@, token@),
{
    let mut redirect_url = PROFILE_PREFIX.to_owned();
    redirect_url.append(name);
    SignedIn {
        cookie: SessionCookie {
            name: AUTH_COOKIE.to_owned(),
            value: token,
            secure: true,
            http_only: true,
            same_site_strict: true,
            path: COOKIE_PATH.to_owned(),
        },
        redirect_url,
    }
}

/// The account that the lookup found, if the password is its own.
fn checked_account(user: Option<User>, password: &str) -> (outcome: Result<User, AppError>)
    ensures
        match outcome {
            Ok(account) => user == Some(account) && password_matches(
                password@,
                account.password_hash@,
            ),
            Err(error) => if user is None {
                error.is_from(AppErrorType::AccountNotFound)
            } else {
                !password_matches(password@, user.unwrap().password_hash@) && error.is_from(
                    AppErrorType::InvalidCredentials,
                )
            },
        },
{
    let account = match user {
        Some(account) => account,
        None => return Err(AppError::from(AppErrorType::AccountNotFound)),
    };
    if verify_password(password, account.password_hash.as_str()) {
        Ok(account)
    } else {
        Err(AppError::from(AppErrorType::InvalidCredentials))
    }
}

/// The session for a token that was issued to `name`, or the failure to
/// issue one.
fn session_from(name: &str, issued: Result<String, AppErrorType>) -> (outcome: Result<
    SignedIn,
    AppError,
>)
    ensures
        match outcome {
            Ok(session) => issued is Ok && session@ == session_of(name@, issued.unwrap()@),
            Err(error) => issued == Err::<String, AppErrorType>(error.error_type)
                && error.is_from(error.error_type),
        },
{
    match issued {
        Ok(token) => Ok(signed_in(name, token)),
        Err(kind) => Err(AppError::from(kind)),
    }
}

/// Signs in the account that the lookup of the caller's identifier found,
/// if the password is the account's, at the second `now`.
pub fn login_at(user: Option<User>, password: &str, secret: Option<&[u8]>, now: u64) -> (outcome:
    Result<SignedIn, AppError>)
    ensures
        is_login_outcome(outcome, user, password@, secret_view(secret), now),
{
    let account = match checked_account(user, password) {
        Ok(account) => account,
        Err(error) => return Err(error),
    };
    let issued = issue(account.name.as_str(), now, TOKEN_LIFETIME_SECONDS, secret);
    session_from(account.name.as_str(), issued)
}

/// Signs in the account that the lookup of the caller's identifier found,
/// if the password is the account's, at the present second.
pub fn login(user: Option<User>, password: &str, secret: Option<&[u8]>) -> (outcome: Result<
    SignedIn,
    AppError,
>)
    ensures
        exists|now: u64|
            now <= i64::MAX && #[trigger] is_login_outcome(
                outcome,
                user,
                password@,
                secret_view(secret),
                now,
            ),
{
    let account = match checked_account(user, password) {
        Ok(account) => account,
        Err(error) => {
            assert(is_login_outcome(Err(error), user, password@, secret_view(secret), 0));
            return Err(error);
        },
    };
    let name = account.name.clone();
    let issued = create_token(account.name, secret);
    let ghost now = choose|now: u64|
        now <= i64::MAX && #[trigger] is_issue_outcome(
            issued,
            name@,
            now,
            TOKEN_LIFETIME_SECONDS,
            secret_view(secret),
        );
    let outcome = session_from(name.as_str(), issued);
    assert(is_login_outcome(outcome, user, password@, secret_view(secret), now));
    outcome
}

/// The row to store for a new account, unless the lookup of its name and
/// e-mail address found one that is there already. Where none is there,
/// every password that Argon2 takes gets a row, whatever it holds.
pub fn register_user(
    existing: Option<User>,
    username: String,
    email: String,
    password: String,
) -> (outcome: Result<NewUser, AppError>)
    ensures
        outcome is Ok <==> existing is None && is_hashable(password@),
        match outcome {
            Ok(row) => is_new_row(row, username@, email@, password@),
            Err(error) => if existing is Some {
                error.is_from(AppErrorType::AccountAlreadyExists)
            } else {
                error.is_from(AppErrorType::HashingFailure)
            },
        },
{
    match existing {
        Some(_) => Err(AppError::from(AppErrorType::AccountAlreadyExists)),
        None => create_user(username, email, password),
    }
}

/// Where the caller goes once the persistence layer has said whether it
/// stored the new account.
pub fn registered(stored: bool) -> (outcome: Result<&'static str, AppError>)
    ensures
        match outcome {
            Ok(location) => stored && location@ == USERS_LOCATION@,
            Err(error) => !stored && error.is_from(AppErrorType::StorageFailure),
        },
{
    if stored {
        Ok(USERS_LOCATION)
    } else {
        Err(AppError::from(AppErrorType::StorageFailure))
    }
}

/// A page that the web layer rendered, or the failure to render it.
pub fn rendered(page: Option<String>) -> (outcome: Result<String, AppError>)
    ensures
        match outcome {
            Ok(html) => page == Some(html),
            Err(error) => page is None && error.is_from(AppErrorType::RenderFailure),
        },
{
    match page {
        Some(html) => Ok(html),
        None => Err(AppError::from(AppErrorType::RenderFailure)),
    }
}

/// The page of the account that the lookup of the token's subject found,
/// for a caller who asks for the page under that very name. Anyone else
/// is sent to sign in.
pub fn profile(claims: &Claims, username_path: &str, user: Option<User>) -> (outcome: Result<
    ProfilePage,
    AppError,
>)
    ensures
        match outcome {
            Ok(page) => claims.sub@ == username_path@ && user is Some && page.username
                == user.unwrap().name && page.email == user.unwrap().email,
            Err(error) => error.is_from(AppErrorType::Unauthenticated) && (user is None
                || claims.sub@ != username_path@),
        },
{
    let asked = username_path.to_owned();
    match user {
        Some(account) => {
            if claims.sub == asked {
                Ok(ProfilePage { username: account.name, email: account.email })
            } else {
                Err(AppError::from(AppErrorType::Unauthenticated))
            }
        },
        None => Err(AppError::from(AppErrorType::Unauthenticated)),
    }
}

/// The cookie that a login sets is good under the secret that signed it,
/// for the name of the account that signed in, at every second before
/// `TOKEN_LIFETIME_SECONDS` have passed, and at no second from then on.
pub proof fn lemma_session_good_for_its_lifetime(
    outcome: Result<SignedIn, AppError>,
    user: Option<User>,
    password: Seq<char>,
    secret: Seq<u8>,
    now: u64,
    at: u64,
)
    requires
        is_login_outcome(outcome, user, password, Some(secret), now),
        outcome is Ok,
    ensures
        user is Some,
        password_matches(password, user.unwrap().password_hash@),
        at < now + TOKEN_LIFETIME_SECONDS ==> accepted_claims(
            outcome.unwrap().cookie.value@,
            secret,
            at,
        ) == Some(
            ClaimsView {
                sub: user.unwrap().name@,
                exp: (now + TOKEN_LIFETIME_SECONDS) as u64,
            },
        ),
        at >= now + TOKEN_LIFETIME_SECONDS ==> accepted_claims(
            outcome.unwrap().cookie.value@,
            secret,
            at,
        ) is None,
{
    lemma_issued_token_good_until_expiry(
        Ok(outcome.unwrap().cookie.value),
        user.unwrap().name@,
        now,
        TOKEN_LIFETIME_SECONDS,
        secret,
        at,
    );
}

/// An account whose stored record was derived from a password signs in
/// with that password wherever there is a secret: the password matches,
/// and a token is owed.
pub proof fn lemma_own_password_signs_in(
    hashed: Result<String, AppErrorType>,
    user: User,
    password: Seq<char>,
    salt: Seq<char>,
    secret: Seq<u8>,
    now: u64,
)
    requires
        is_hash_outcome(hashed, password, salt),
        hashed matches Ok(record) && record@ == user.password_hash@,
        now + TOKEN_LIFETIME_SECONDS <= u64::MAX,
    ensures
        login_outcome(Some(user), password, Some(secret), now) is Ok,
{
    lemma_password_matches_own_record(hashed, password, salt);
}

} // verus!
