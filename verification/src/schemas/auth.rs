//! What a client sends to register, to log in and to refresh, and what
//! makes it acceptable.

use vstd::prelude::*;
use vstd::string::*;

use crate::utils::codec::same_text;

verus! {

/// What is sent to register.
#[derive(Debug)]
pub struct RegisterUserSchema {
    pub name: String,
    pub email: String,
    pub password: String,
    pub password_confirm: String,
}

/// What is sent to log in.
#[derive(Debug)]
pub struct LoginUserSchema {
    pub email: String,
    pub password: String,
}

/// What is sent to have an access token issued anew.
#[derive(Debug)]
pub struct RefreshTokenSchema {
    pub refresh_token: String,
}

/// What is wrong with what was sent.
#[derive(Clone, Copy, Debug, PartialEq, Eq, Structural)]
pub enum AuthFault {
    NameRequired,
    EmailInvalid,
    PasswordRequired,
    PasswordMismatch,
    TokenRequired,
}

impl AuthFault {
    /// The words that report the fault.
    pub open spec fn text(self) -> Seq<char> {
        match self {
            AuthFault::NameRequired => "Name is required"@,
            AuthFault::EmailInvalid => "Email is invalid"@,
            AuthFault::PasswordRequired => "Password is required"@,
            AuthFault::PasswordMismatch => "Passwords do not match"@,
            AuthFault::TokenRequired => "Refresh token is required"@,
        }
    }

    /// The words that report the fault.
    pub fn message(&self) -> (text: &'static str)
        ensures
            text@ == self.text(),
    {
        match self {
            AuthFault::NameRequired => "Name is required",
            AuthFault::EmailInvalid => "Email is invalid",
            AuthFault::PasswordRequired => "Password is required",
            AuthFault::PasswordMismatch => "Passwords do not match",
            AuthFault::TokenRequired => "Refresh token is required",
        }
    }
}

/// Whether a text has the shape of an email address, as
/// `validator::validate_email` judges it.
pub uninterp spec fn email_shaped(text: Seq<char>) -> bool;

/// `validator::validate_email`: whether the text has the shape of an email
/// address. An empty text has not.
#[verifier::external_body]
fn is_email(text: &str) -> (shaped: bool)
    ensures
        shaped == email_shaped(text@),
        text@.len() == 0 ==> !shaped,
{
    validator::validate_email(text)
}

/// The first thing wrong with a login, given whether its email has the
/// shape of one.
pub open spec fn login_fault(body: LoginUserSchema, email_ok: bool) -> Option<AuthFault> {
    if !email_ok {
        Some(AuthFault::EmailInvalid)
    } else if body.password@.len() == 0 {
        Some(AuthFault::PasswordRequired)
    } else {
        None
    }
}

/// The first thing wrong with a registration, given whether its email has
/// the shape of one.
pub open spec fn register_fault(body: RegisterUserSchema, email_ok: bool) -> Option<AuthFault> {
    if body.name@.len() == 0 {
        Some(AuthFault::NameRequired)
    } else if !email_ok {
        Some(AuthFault::EmailInvalid)
    } else if body.password@.len() == 0 {
        Some(AuthFault::PasswordRequired)
    } else if body.password@ != body.password_confirm@ {
        Some(AuthFault::PasswordMismatch)
    } else {
        None
    }
}

/// An outcome of validation for a fault that was or was not found.
pub open spec fn outcome_of(fault: Option<AuthFault>) -> Result<(), AuthFault> {
    match fault {
        Some(f) => Err(f),
        None => Ok(()),
    }
}

impl LoginUserSchema {
    /// Judges a login once it is known whether its email has the shape of
    /// one.
    pub fn check(&self, email_ok: bool) -> (outcome: Result<(), AuthFault>)
        ensures
            outcome == outcome_of(login_fault(*self, email_ok)),
    {
        if !email_ok {
            Err(AuthFault::EmailInvalid)
        } else if self.password.as_str().is_empty() {
            Err(AuthFault::PasswordRequired)
        } else {
            Ok(())
        }
    }

    /// Accepts a login with an email address and a password.
    pub fn validate(&self) -> (outcome: Result<(), AuthFault>)
        ensures
            outcome == outcome_of(login_fault(*self, email_shaped(self.email@))),
    {
        self.check(is_email(self.email.as_str()))
    }
}

impl RegisterUserSchema {
    /// Judges a registration once it is known whether its email has the
    /// shape of one.
    pub fn check(&self, email_ok: bool) -> (outcome: Result<(), AuthFault>)
        ensures
            outcome == outcome_of(register_fault(*self, email_ok)),
    {
        if self.name.as_str().is_empty() {
            Err(AuthFault::NameRequired)
        } else if !email_ok {
            Err(AuthFault::EmailInvalid)
        } else if self.password.as_str().is_empty() {
            Err(AuthFault::PasswordRequired)
        } else if !same_text(self.password.as_str(), self.password_confirm.as_str()) {
            Err(AuthFault::PasswordMismatch)
        } else {
            Ok(())
        }
    }

    /// Accepts a registration with a name, an email address, and a password
    /// given twice alike.
    pub fn validate(&self) -> (outcome: Result<(), AuthFault>)
        ensures
            outcome == outcome_of(register_fault(*self, email_shaped(self.email@))),
    {
        self.check(is_email(self.email.as_str()))
    }
}

impl RefreshTokenSchema {
    /// Accepts a request that carries a token.
    pub fn validate(&self) -> (outcome: Result<(), AuthFault>)
        ensures
            outcome == (if self.refresh_token@.len() == 0 {
                Err::<(), AuthFault>(AuthFault::TokenRequired)
            } else {
                Ok::<(), AuthFault>(())
            }),
    {
        if self.refresh_token.as_str().is_empty() {
            Err(AuthFault::TokenRequired)
        } else {
            Ok(())
        }
    }
}

} // verus!
