//! Accounts as clients see them.

use vstd::prelude::*;
use vstd::std_specs::convert::FromSpecImpl;
use vstd::string::*;

use crate::models::user::{UserModel, UserRole};

verus! {

/// An account without its password.
#[derive(Debug)]
pub struct UserDto {
    pub id: String,
    pub name: String,
    pub email: String,
    pub role: UserRole,
    pub photo: String,
    pub verified: bool,
    /// Seconds since the epoch.
    pub created_at: Option<i64>,
    /// Seconds since the epoch.
    pub updated_at: Option<i64>,
}

/// What a client sees of an account: everything but the password, with the
/// verification flag as a truth value.
pub open spec fn shown(user: UserModel) -> UserDto {
    UserDto {
        id: user.id,
        name: user.name,
        email: user.email,
        role: user.role,
        photo: user.photo,
        verified: user.verified != 0,
        created_at: user.created_at,
        updated_at: user.updated_at,
    }
}

impl UserDto {
    /// Shows an account.
    pub fn filter(user: &UserModel) -> (dto: Self)
        ensures
            dto == shown(*user),
    {
        UserDto {
            id: user.id.clone(),
            name: user.name.clone(),
            email: user.email.clone(),
            role: user.role,
            photo: user.photo.clone(),
            verified: user.verified != 0,
            created_at: user.created_at,
            updated_at: user.updated_at,
        }
    }

    /// Shows accounts, each in its place.
    pub fn filter_iter(users: &[UserModel]) -> (dtos: Vec<UserDto>)
        ensures
            dtos@ == users@.map_values(|user: UserModel| shown(user)),
    {
        let mut dtos: Vec<UserDto> = Vec::new();
        let mut i: usize = 0;
        while i < users.len()
            invariant
                i <= users.len(),
                dtos@ == users@.take(i as int).map_values(|user: UserModel| shown(user)),
            decreases users.len() - i,
        {
            dtos.push(UserDto::filter(&users[i]));
            assert(dtos@ =~= users@.take(i + 1).map_values(|user: UserModel| shown(user)));
            i = i + 1;
        }
        assert(users@.take(i as int) =~= users@);
        dtos
    }

    /// The account that a client's view stands for: the password is empty
    /// and the verification flag is one or zero.
    pub fn into_model(self) -> (user: UserModel)
        ensures
            user.id == self.id,
            user.name == self.name,
            user.email == self.email,
            user.password@.len() == 0,
            user.role == self.role,
            user.photo == self.photo,
            user.verified == (if self.verified { 1i8 } else { 0i8 }),
            user.created_at == self.created_at,
            user.updated_at == self.updated_at,
    {
        UserModel {
            id: self.id,
            name: self.name,
            email: self.email,
            password: String::new(),
            role: self.role,
            photo: self.photo,
            verified: if self.verified { 1 } else { 0 },
            created_at: self.created_at,
            updated_at: self.updated_at,
        }
    }
}

impl From<UserModel> for UserDto {
    fn from(user: UserModel) -> (dto: UserDto) {
        UserDto {
            id: user.id,
            name: user.name,
            email: user.email,
            role: user.role,
            photo: user.photo,
            verified: user.verified != 0,
            created_at: user.created_at,
            updated_at: user.updated_at,
        }
    }
}

impl FromSpecImpl<UserModel> for UserDto {
    open spec fn obeys_from_spec() -> bool {
        true
    }

    open spec fn from_spec(user: UserModel) -> UserDto {
        shown(user)
    }
}

/// Showing an account and taking the view back keeps everything but the
/// password; the verification flag comes back as one or zero.
pub proof fn law_shown_account_keeps_its_identity(user: UserModel)
    ensures
        shown(user).id == user.id,
        shown(user).role == user.role,
        shown(user).verified <==> user.verified != 0,
{
}

/// The account of a reply.
#[derive(Debug)]
pub struct UserData {
    pub user: UserDto,
}

/// The body of a reply with an account.
#[derive(Debug)]
pub struct UserResponseDto {
    pub status: String,
    pub data: UserData,
}

/// The body of a reply to a login or a registration.
#[derive(Debug)]
pub struct UserLoginResponseDto {
    pub status: String,
    pub data: crate::dtos::token::TokenData,
}

/// The body that carries a single token, for clients that hold one token
/// and no refresh token.
#[derive(Debug)]
pub struct TokenData {
    pub token: String,
}

} // verus!
