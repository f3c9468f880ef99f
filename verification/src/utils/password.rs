//! Password hashing: the limits on a password, and Argon2 behind them.

use vstd::prelude::*;
use vstd::string::*;
use vstd::utf8::encode_utf8;

verus! {

/// The longest password taken, in bytes.
pub const MAX_PASSWORD_LENGTH: usize = 64;

/// `argon2::password_hash::Error`: why a password could not be hashed or a
/// text is no password hash. It is carried to where it is turned into a
/// message; nothing is read from it.
#[verifier::external_type_specification]
#[verifier::external_body]
pub struct ExPasswordHashError(argon2::password_hash::Error);

/// Whether a text is a password hash in PHC string format, as
/// `PasswordHash::new` reads it.
pub uninterp spec fn phc_parses(hashed: Seq<char>) -> bool;

/// Whether Argon2, with the parameters and the salt that a password hash
/// names, computes that hash from a password.
pub uninterp spec fn argon2_accepts(password: Seq<u8>, hashed: Seq<char>) -> bool;

/// `Argon2::default().hash_password` under a salt from
/// `SaltString::generate` and the system's random source, written as a PHC
/// string. The salt differs from call to call; whatever it is, the hash that
/// comes back is well formed and accepts the password it was made from.
#[verifier::external_body]
fn argon2_hash(password: &[u8]) -> (hashed: Result<String, argon2::password_hash::Error>)
    ensures
        hashed matches Ok(h) ==> phc_parses(h@) && argon2_accepts(password@, h@),
{
    let salt = argon2::password_hash::SaltString::generate(
        &mut argon2::password_hash::rand_core::OsRng,
    );
    let hash = argon2::PasswordHasher::hash_password(&argon2::Argon2::default(), password, &salt)?;
    Ok(hash.to_string())
}

/// `PasswordHash::new`, then `Argon2::default().verify_password`. The call
/// fails exactly when the text is no password hash; otherwise it tells
/// whether the hash accepts the password.
#[verifier::external_body]
fn argon2_verify(password: &[u8], hashed: &str) -> (matches: Result<
    bool,
    argon2::password_hash::Error,
>)
    ensures
        matches is Ok <==> phc_parses(hashed@),
        matches matches Ok(b) ==> b == argon2_accepts(password@, hashed@),
{
    let parsed = argon2::PasswordHash::new(hashed)?;
    Ok(argon2::PasswordVerifier::verify_password(&argon2::Argon2::default(), password, &parsed).is_ok())
}

/// Why a password is not taken, where it is not.
pub open spec fn password_fault(password: Seq<char>) -> Option<Seq<char>> {
    if password.len() == 0 {
        Some("Password cannot be empty"@)
    } else if encode_utf8(password).len() > MAX_PASSWORD_LENGTH {
        Some("Password must not be more than 64 characters"@)
    } else {
        None
    }
}

/// Checks a password against the limits.
pub fn check_password(password: &str) -> (fault: Option<String>)
    ensures
        match fault {
            Some(f) => password_fault(password@) == Some(f@),
            None => password_fault(password@) is None,
        },
{
    if password.is_empty() {
        Some(String::from_str("Password cannot be empty"))
    } else if password.as_bytes().len() > MAX_PASSWORD_LENGTH {
        Some(String::from_str("Password must not be more than 64 characters"))
    } else {
        None
    }
}

/// What hashing gives. A password outside the limits is refused with the
/// reason. Otherwise a hash that comes back is well formed and accepts the
/// password; where none comes back, hashing failed.
pub open spec fn hashed_as(hashed: Result<String, String>, password: Seq<char>) -> bool {
    match hashed {
        Ok(h) => password_fault(password) is None && phc_parses(h@) && argon2_accepts(
            encode_utf8(password),
            h@,
        ),
        Err(e) => match password_fault(password) {
            Some(f) => e@ == f,
            None => e@ == "Error while hashing password"@,
        },
    }
}

/// Hashes a password under a fresh random salt. A password outside the
/// limits is refused with the reason; a hash that is returned accepts the
/// password.
pub fn hash(password: &str) -> (hashed: Result<String, String>)
    ensures
        hashed_as(hashed, password@),
{
    if let Some(fault) = check_password(password) {
        return Err(fault);
    }
    match argon2_hash(password.as_bytes()) {
        Ok(hashed) => Ok(hashed),
        Err(_) => Err(String::from_str("Error while hashing password")),
    }
}

/// What comparing a password with a hash gives, once it is known whether
/// the hash is well formed and whether it accepts the password.
pub open spec fn comparison(password: Seq<char>, well_formed: bool, accepted: bool) -> Result<
    bool,
    Seq<char>,
> {
    match password_fault(password) {
        Some(f) => Err(f),
        None => if well_formed {
            Ok(accepted)
        } else {
            Err("Invalid password hash format"@)
        },
    }
}

/// The view of a comparison's outcome.
pub open spec fn comparison_view(outcome: Result<bool, String>) -> Result<bool, Seq<char>> {
    match outcome {
        Ok(b) => Ok(b),
        Err(e) => Err(e@),
    }
}

/// Settles a comparison from what the hash function said: `None` where the
/// hash was not well formed, else whether it accepted the password.
pub fn settle_comparison(password: &str, said: Option<bool>) -> (outcome: Result<bool, String>)
    ensures
        comparison_view(outcome) == comparison(
            password@,
            said is Some,
            said is Some && said.unwrap(),
        ),
{
    if let Some(fault) = check_password(password) {
        return Err(fault);
    }
    match said {
        Some(accepted) => Ok(accepted),
        None => Err(String::from_str("Invalid password hash format")),
    }
}

/// Compares a password with a hash. A password outside the limits and a
/// text that is no hash are refused with the reason.
pub fn compare(password: &str, hashed_password: &str) -> (outcome: Result<bool, String>)
    ensures
        comparison_view(outcome) == comparison(
            password@,
            phc_parses(hashed_password@),
            argon2_accepts(encode_utf8(password@), hashed_password@),
        ),
{
    if let Some(fault) = check_password(password) {
        return Err(fault);
    }
    let said = match argon2_verify(password.as_bytes(), hashed_password) {
        Ok(accepted) => Some(accepted),
        Err(_) => None,
    };
    settle_comparison(password, said)
}

} // verus!
