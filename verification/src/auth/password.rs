use crate::utils::error::AppErrorType;
use argon2::password_hash::rand_core::OsRng;
use argon2::password_hash::{PasswordHash, PasswordHasher, PasswordVerifier, SaltString};
use argon2::Argon2;
use vstd::prelude::*;

verus! {

/// `argon2::password_hash::Error`. Nothing is read from it: every failure
/// of the hasher is a `HashingFailure`.
#[verifier::external_type_specification]
#[verifier::external_body]
pub struct ExPasswordHashError(argon2::password_hash::Error);

/// What every record written here opens with: the algorithm, its
/// version, and the work parameters (19 MiB of memory, two passes, one
/// lane).
pub const RECORD_PREFIX: &'static str = "$argon2id$v=19$m=19456,t=2,p=1$";

/// What stands between the fields of a record.
pub const RECORD_SEPARATOR: &'static str = "$";

/// What `PasswordHasher::hash_password` of `Argon2::default()` derives:
/// the digest of a password and a salt under `RECORD_PREFIX`'s
/// parameters, in the alphabet of records; `None` where it derives none
/// (a salt it does not take).
pub uninterp spec fn argon2_digest(password: Seq<char>, salt: Seq<char>) -> Option<Seq<char>>;

/// The record of a password under a salt: one string that holds the
/// parameters, the salt as it was given, and the digest.
pub open spec fn derived_record(password: Seq<char>, salt: Seq<char>) -> Option<Seq<char>> {
    match argon2_digest(password, salt) {
        Some(digest) => Some(RECORD_PREFIX@ + salt + RECORD_SEPARATOR@ + digest),
        None => None,
    }
}

/// What `PasswordVerifier::verify_password` of `Argon2::default()`
/// answers: whether Argon2, run with the parameters and the salt that
/// `record` holds, arrives at the digest that `record` holds. False of a
/// string that is no record.
pub uninterp spec fn password_matches(password: Seq<char>, record: Seq<char>) -> bool;

/// `record` is what `password` and `salt` derive, and `password` matches
/// it.
pub open spec fn is_record_of(record: Seq<char>, password: Seq<char>, salt: Seq<char>) -> bool {
    &&& derived_record(password, salt) == Some(record)
    &&& password_matches(password, record)
}

/// The longest password, in bytes of UTF-8, that Argon2 takes.
pub const MAX_PASSWORD_BYTES: u32 = 0xFFFF_FFFF;

/// Whether Argon2 takes `password`: its UTF-8 text has no more than
/// `MAX_PASSWORD_BYTES` bytes. What the bytes are plays no part.
pub open spec fn is_hashable(password: Seq<char>) -> bool {
    vstd::utf8::encode_utf8(password).len() <= MAX_PASSWORD_BYTES
}

/// Whether `c` is a letter, a digit, `+` or `/`.
pub open spec fn is_salt_char(c: char) -> bool {
    ||| 'A' <= c <= 'Z'
    ||| 'a' <= c <= 'z'
    ||| '0' <= c <= '9'
    ||| c == '+'
    ||| c == '/'
}

/// The form of a salt that was drawn: sixteen bytes as 22 characters of
/// six bits each, of which the last carries two bits only.
pub open spec fn is_drawn_salt(salt: Seq<char>) -> bool {
    &&& salt.len() == 22
    &&& forall|i: int| 0 <= i < 22 ==> is_salt_char(#[trigger] salt[i])
    &&& (salt[21] == 'A' || salt[21] == 'Q' || salt[21] == 'g' || salt[21] == 'w')
}

/// Whether `outcome` is how hashing `password` under `salt` ends: the
/// record, or a failure where Argon2 derives none. Under a salt of the
/// drawn form it derives one exactly for the passwords it takes.
pub open spec fn is_hash_outcome(
    outcome: Result<String, AppErrorType>,
    password: Seq<char>,
    salt: Seq<char>,
) -> bool {
    &&& match outcome {
        Ok(record) => is_record_of(record@, password, salt),
        Err(kind) => kind == AppErrorType::HashingFailure && argon2_digest(password, salt)
            is None,
    }
    &&& is_drawn_salt(salt) ==> (outcome is Ok <==> is_hashable(password))
}

/// `SaltString::generate` on the operating system's generator, as text.
/// The salt is random. Claims its form only: `generate` writes sixteen
/// bytes out in unpadded Base64, which makes 22 characters, the last of
/// them from the four that end in four zero bits.
#[verifier::external_body]
fn fresh_salt() -> (salt: String)
    ensures
        is_drawn_salt(salt@),
{
    SaltString::generate(&mut OsRng).as_str().to_string()
}

/// `Argon2::default().hash_password`, the salt read by
/// `SaltString::from_b64` and the record written out by `to_string`.
/// Claims that the record is the default algorithm, version and
/// parameters, the salt as given and a digest, each behind a `$`; that the
/// digest depends on the password and the salt alone; that
/// `verify_password` accepts the password for the record, since verifying
/// derives the digest again from exactly what the record holds; and that
/// under a salt of sixteen bytes the one thing refused is a password of
/// more than `MAX_PASSWORD_BYTES` bytes.
#[verifier::external_body]
fn argon2_hash(password: &str, salt: &str) -> (outcome: Result<
    String,
    argon2::password_hash::Error,
>)
    ensures
        match outcome {
            Ok(record) => is_record_of(record@, password@, salt@),
            Err(_) => argon2_digest(password@, salt@) is None,
        },
        is_drawn_salt(salt@) ==> (outcome is Ok <==> is_hashable(password@)),
{
    let salt = SaltString::from_b64(salt)?;
    let hash = Argon2::default().hash_password(password.as_bytes(), &salt)?;
    Ok(hash.to_string())
}

/// `PasswordHash::new` and then `Argon2::default().verify_password`.
/// Claims that the answer depends on the password and the record alone. A
/// string that does not parse as a record is answered with `false`.
#[verifier::external_body]
fn argon2_verify(password: &str, record: &str) -> (accepted: bool)
    ensures
        accepted == password_matches(password@, record@),
{
    match PasswordHash::new(record) {
        Ok(parsed) => Argon2::default().verify_password(password.as_bytes(), &parsed).is_ok(),
        Err(_) => false,
    }
}

/// The record of `plaintext` under a given salt.
pub fn hash_with_salt(plaintext: &str, salt: &str) -> (outcome: Result<String, AppErrorType>)
    ensures
        is_hash_outcome(outcome, plaintext@, salt@),
{
    match argon2_hash(plaintext, salt) {
        Ok(record) => Ok(record),
        Err(_) => Err(AppErrorType::HashingFailure),
    }
}

/// A record of `plaintext` under a salt drawn for this call. Every
/// password that Argon2 takes gets one, whatever it holds, and matches it.
pub fn hash_password(plaintext: &str) -> (outcome: Result<String, AppErrorType>)
    ensures
        exists|salt: Seq<char>|
            is_drawn_salt(salt) && #[trigger] is_hash_outcome(outcome, plaintext@, salt),
        outcome is Ok <==> is_hashable(plaintext@),
        outcome matches Ok(record) ==> password_matches(plaintext@, record@),
        outcome matches Err(kind) ==> kind == AppErrorType::HashingFailure,
{
    let salt = fresh_salt();
    hash_with_salt(plaintext, salt.as_str())
}

/// Whether `plaintext` is the password that `record` was derived from. A
/// malformed record matches nothing.
pub fn verify_password(plaintext: &str, record: &str) -> (accepted: bool)
    ensures
        accepted == password_matches(plaintext@, record@),
{
    argon2_verify(plaintext, record)
}

/// A password matches every record derived from it, whatever the salt.
pub proof fn lemma_password_matches_own_record(
    outcome: Result<String, AppErrorType>,
    password: Seq<char>,
    salt: Seq<char>,
)
    requires
        is_hash_outcome(outcome, password, salt),
        outcome is Ok,
    ensures
        password_matches(password, outcome.unwrap()@),
        outcome.unwrap()@ == RECORD_PREFIX@ + salt + RECORD_SEPARATOR@ + argon2_digest(
            password,
            salt,
        ).unwrap(),
{
}

/// No character takes more than four bytes of UTF-8.
pub proof fn lemma_utf8_length(text: Seq<char>)
    ensures
        vstd::utf8::encode_utf8(text).len() <= 4 * text.len(),
    decreases text.len(),
{
    if text.len() > 0 {
        lemma_utf8_length(text.drop_first());
    }
}

/// Argon2 takes every password of up to a thousand million characters,
/// whatever the characters are.
pub proof fn lemma_password_is_hashable(password: Seq<char>)
    requires
        password.len() <= 1_000_000_000,
    ensures
        is_hashable(password),
{
    lemma_utf8_length(password);
}

} // verus!
