use crate::auth::password::{
    hash_password, is_drawn_salt, is_hash_outcome, is_hashable, is_record_of,
};
use crate::db::models::User;
use crate::utils::error::{AppError, AppErrorType};
use vstd::prelude::*;

verus! {

/// How the fetch of one account row ended.
#[derive(Debug, Clone, PartialEq, Eq)]
pub enum Fetched {
    /// The row.
    Row(User),
    /// The query ran and matched no row.
    NoRow,
    /// The query did not run to its end, with the text of the cause.
    Failed(String),
}

/// The row of an account that is about to be stored.
#[derive(Debug, Clone, PartialEq, Eq)]
pub struct NewUser {
    pub name: String,
    pub email: String,
    pub password_hash: String,
}

/// Whether `row` is the row of a new account with this name, address and
/// password: the two as given, and the password as its record under some
/// salt of the drawn form, which the record holds beside the parameters
/// and the digest.
pub open spec fn is_new_row(
    row: NewUser,
    name: Seq<char>,
    email: Seq<char>,
    password: Seq<char>,
) -> bool {
    &&& row.name@ == name
    &&& row.email@ == email
    &&& exists|salt: Seq<char>|
        is_drawn_salt(salt) && #[trigger] is_record_of(row.password_hash@, password, salt)
}

/// A failure of the persistence layer, with the text of its cause.
pub fn storage_failure(cause: String) -> (error: AppError)
    ensures
        error.error_type == AppErrorType::StorageFailure,
        error.inner == cause,
        error.context is None,
{
    AppError { error_type: AppErrorType::StorageFailure, inner: cause, context: None }
}

/// The account that a fetch found, if any. That no row matched is no
/// failure; every other way the fetch can fail is a `StorageFailure` that
/// keeps the cause.
pub fn found_user(fetched: Fetched) -> (outcome: Result<Option<User>, AppError>)
    ensures
        match fetched {
            Fetched::Row(user) => outcome == Ok::<Option<User>, AppError>(Some(user)),
            Fetched::NoRow => outcome == Ok::<Option<User>, AppError>(None),
            Fetched::Failed(cause) => outcome matches Err(error) && error.error_type
                == AppErrorType::StorageFailure && error.inner == cause && error.context is None,
        },
{
    match fetched {
        Fetched::Row(user) => Ok(Some(user)),
        Fetched::NoRow => Ok(None),
        Fetched::Failed(cause) => Err(storage_failure(cause)),
    }
}

/// The row for a new account. The password is stored as a record under a
/// salt drawn for this call, never as it was typed. Every password that
/// Argon2 takes gets a row, whatever it holds.
pub fn create_user(name: String, email: String, password: String) -> (outcome: Result<
    NewUser,
    AppError,
>)
    ensures
        outcome is Ok <==> is_hashable(password@),
        match outcome {
            Ok(row) => is_new_row(row, name@, email@, password@),
            Err(error) => error.is_from(AppErrorType::HashingFailure),
        },
{
    let hashed = hash_password(password.as_str());
    let ghost salt = choose|salt: Seq<char>|
        is_drawn_salt(salt) && #[trigger] is_hash_outcome(hashed, password@, salt);
    match hashed {
        Ok(password_hash) => {
            let row = NewUser { name, email, password_hash };
            assert(is_drawn_salt(salt) && is_record_of(row.password_hash@, password@, salt));
            Ok(row)
        },
        Err(kind) => Err(AppError::from(kind)),
    }
}

} // verus!
