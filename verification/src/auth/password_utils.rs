//! Password hashes and the claims that a token carries.

use vstd::prelude::*;
use vstd::string::StringExecFns;
use vstd::utf8::encode_utf8;

verus! {

/// What a token says of its bearer.
#[derive(Debug, Clone, PartialEq, Eq)]
pub struct Claims {
    /// The user's id.
    pub sub: String,
    /// When the token expires, in seconds since the Unix epoch.
    pub exp: usize,
    pub role: String,
}

/// Claims as contracts see them.
pub struct ClaimsView {
    pub sub: Seq<char>,
    pub exp: usize,
    pub role: Seq<char>,
}

impl View for Claims {
    type V = ClaimsView;

    open spec fn view(&self) -> ClaimsView {
        ClaimsView { sub: self.sub@, exp: self.exp, role: self.role@ }
    }
}

/// `argon2::password_hash::Error`, the failure of hashing or checking a
/// password. Nothing inside a value is known to the library.
#[verifier::external_type_specification]
#[verifier::external_body]
pub struct ExPasswordHashError(argon2::password_hash::Error);

/// Whether Argon2 accepts a password for a stored hash: the hash is a PHC
/// string, and hashing the password with the salt and the parameters that
/// the string names gives the output that the string holds.
pub uninterp spec fn argon2_accepts(password: Seq<u8>, hash: Seq<char>) -> bool;

/// The PHC string that Argon2 with its default parameters makes of a
/// password under a salt given in B64 text; `None` where the text is no salt
/// that Argon2 takes. It is a function of the password and the salt alone.
pub uninterp spec fn argon2_phc(password: Seq<u8>, salt: Seq<char>) -> Option<Seq<char>>;

/// A random salt from `SaltString::generate(&mut OsRng)`, as the B64 text
/// that the salt holds. Nothing is claimed of the value.
#[verifier::external_body]
fn fresh_salt() -> String {
    let salt = argon2::password_hash::SaltString::generate(
        &mut argon2::password_hash::rand_core::OsRng,
    );
    salt.as_str().to_owned()
}

/// Hashes a password under a salt with `SaltString::from_b64` and
/// `Argon2::default().hash_password`, and gives the PHC string. Not proved:
/// that the string is the one named `argon2_phc`, and that an error comes
/// exactly where that name is `None`.
#[verifier::external_body]
fn argon2_hash(password: &[u8], salt: &str) -> (hashed: Result<
    String,
    argon2::password_hash::Error,
>)
    ensures
        hashed is Ok == argon2_phc(password@, salt@) is Some,
        hashed matches Ok(hash) ==> argon2_phc(password@, salt@) == Some(hash@),
{
    match argon2::password_hash::SaltString::from_b64(salt) {
        Ok(salt) => match argon2::PasswordHasher::hash_password(
            &argon2::Argon2::default(),
            password,
            &salt,
        ) {
            Ok(hash) => Ok(hash.to_string()),
            Err(e) => Err(e),
        },
        Err(e) => Err(e),
    }
}

/// Checks a password against a stored hash with `PasswordHash::new` and
/// `Argon2::default().verify_password`. Not proved: that `Ok` comes back
/// exactly where the hash parses and the password matches it, which is what
/// `argon2_accepts` names.
#[verifier::external_body]
fn argon2_verify(password: &[u8], hash: &str) -> (checked: Result<(), argon2::password_hash::Error>)
    ensures
        checked is Ok == argon2_accepts(password@, hash@),
{
    match argon2::PasswordHash::new(hash) {
        Ok(parsed) => argon2::PasswordVerifier::verify_password(
            &argon2::Argon2::default(),
            password,
            &parsed,
        ),
        Err(e) => Err(e),
    }
}

/// What hashing a password under a salt comes to: the PHC string of the
/// password's UTF-8 bytes under that salt, or the failure where Argon2 makes
/// none.
pub open spec fn spec_hash_password(password: Seq<char>, salt: Seq<char>) -> Result<
    Seq<char>,
    Seq<char>,
> {
    match argon2_phc(encode_utf8(password), salt) {
        Some(hash) => Ok(hash),
        None => Err("Password hashing failed"@),
    }
}

/// Whether the outcome of hashing is the expected one: the expected hash, or
/// the expected failure.
pub open spec fn hashed_is(outcome: Result<String, String>, expected: Result<Seq<char>, Seq<char>>) -> bool {
    match (outcome, expected) {
        (Ok(hash), Ok(text)) => hash@ == text,
        (Err(message), Err(wording)) => message@ == wording,
        _ => false,
    }
}

/// Hashes a password for storage under the given salt: the result is the
/// Argon2 PHC string of the password's bytes under that salt, and the
/// failure where the salt is none that Argon2 takes.
pub fn hash_password_with_salt(password: &str, salt: &str) -> (hashed: Result<String, String>)
    ensures
        hashed_is(hashed, spec_hash_password(password@, salt@)),
{
    match argon2_hash(password.as_bytes(), salt) {
        Ok(hash) => Ok(hash),
        Err(_) => Err(String::from_str("Password hashing failed")),
    }
}

/// Hashes a password for storage, under a fresh random salt.
///
/// Whatever the salt turns out to be, the outcome is what
/// `hash_password_with_salt` gives for the password and that salt: the
/// Argon2 PHC string of the password's bytes, or the failure where Argon2
/// makes none.
pub fn hash_password(password: &str) -> (hashed: Result<String, String>)
    ensures
        exists|salt: Seq<char>| hashed_is(hashed, #[trigger] spec_hash_password(password@, salt)),
        hashed matches Err(message) ==> message@ == "Password hashing failed"@,
{
    let salt = fresh_salt();
    hash_password_with_salt(password, salt.as_str())
}

/// Whether a password is the one that a stored hash was made of. A stored
/// hash that is no PHC string matches no password.
pub fn verify_password(password: &str, hash: &str) -> (matches: bool)
    ensures
        matches == argon2_accepts(encode_utf8(password@), hash@),
{
    match argon2_verify(password.as_bytes(), hash) {
        Ok(_) => true,
        Err(_) => false,
    }
}

/// When a token issued at `now` expires: the lifetime is counted in hours,
/// the moment in seconds since the Unix epoch. There is no answer where the
/// lifetime in seconds does not fit 64 bits, or the moment lies before the
/// epoch or beyond what the machine can count.
pub open spec fn spec_expiry(now: i64, lifetime_hours: i64) -> Option<usize> {
    let seconds = lifetime_hours * 3600;
    let at = now + seconds;
    if i64::MIN <= seconds <= i64::MAX && 0 <= at <= i64::MAX && at <= usize::MAX {
        Some(at as usize)
    } else {
        None
    }
}

/// When a token issued at `now` expires.
pub fn expiry(now: i64, lifetime_hours: i64) -> (at: Option<usize>)
    ensures
        at == spec_expiry(now, lifetime_hours),
{
    let seconds = match lifetime_hours.checked_mul(3600) {
        Some(seconds) => seconds,
        None => {
            return None;
        },
    };
    let at = match now.checked_add(seconds) {
        Some(at) => at,
        None => {
            return None;
        },
    };
    if at < 0 {
        return None;
    }
    if at as u64 > usize::MAX as u64 {
        return None;
    }
    Some(at as usize)
}

/// The claims of a token for a user and a role that expires at `exp`.
pub fn claims_for(user_id: &str, role: &str, exp: usize) -> (claims: Claims)
    ensures
        claims@ == (ClaimsView { sub: user_id@, exp, role: role@ }),
{
    Claims { sub: user_id.to_owned(), exp, role: role.to_owned() }
}

} // verus!
