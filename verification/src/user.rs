//! Users, permissions, and the subject attached to every authenticated
//! request.

use vstd::prelude::*;

use crate::game::Gender;
use crate::integration::IntegrationName;

verus! {

/// The closed vocabulary of permission tags a token can carry.
#[derive(Debug, Clone, Copy, PartialEq, Eq, Hash, Structural)]
pub enum Permission {
    ReadAdmin,
    WriteAdmin,
    WriteGame,
    WriteSystemLog,
}

/// Who a request speaks for: an anonymous guest, a registered user, or
/// a trusted peer service. Identifiers are carried as 128-bit values.
#[derive(Debug, Clone, Copy, PartialEq, Eq, Structural)]
pub enum SubjectId {
    PseudoUser(u128),
    BaseUser(u128),
    Integration(IntegrationName),
}

/// Query parameters of the user-listing endpoint.
#[derive(Debug, Clone, Copy)]
pub struct ListUsersQuery {
    pub page_num: u8,
}

/// Query parameters of the guest-registration endpoint.
#[derive(Debug, Clone, Copy)]
pub struct EnsureUserQuery {
    pub pseudo_id: Option<u128>,
}

/// A registered user's record. Identifiers are 128-bit values, times
/// seconds since the epoch, and the birth date a day number.
#[derive(Debug, Clone)]
pub struct BaseUser {
    pub id: u128,
    pub username: String,
    pub auth0_id: Option<String>,
    pub gender: Gender,
    pub email: Option<String>,
    pub email_verified: Option<bool>,
    pub updated_at: i64,
    pub family_name: Option<String>,
    pub given_name: Option<String>,
    pub created_at: i64,
    pub birth_date: Option<i64>,
}

/// A user as returned by the self-lookup endpoint, tagged with the role
/// the caller's permissions give them.
#[derive(Debug, Clone)]
pub enum UserRole {
    Admin(BaseUser),
    BaseUser(BaseUser),
}

/// What the identity provider reports about a freshly registered user.
#[derive(Debug, Clone)]
pub struct Auth0User {
    pub auth0_id: String,
    pub email: Option<String>,
    pub email_verified: Option<bool>,
    pub username: Option<String>,
    pub phone_number: Option<String>,
    pub phone_verified: Option<bool>,
    pub created_at: i64,
    pub updated_at: i64,
    pub name: Option<String>,
    pub nickname: Option<String>,
    pub given_name: Option<String>,
    pub family_name: Option<String>,
}

/// Body of a user-patch request; unset fields stay as they are.
#[derive(Debug, Clone)]
pub struct PatchUserRequest {
    pub username: Option<String>,
    pub gender: Option<Gender>,
    pub family_name: Option<String>,
    pub given_name: Option<String>,
    pub birth_date: Option<i64>,
}

impl PatchUserRequest {
    /// Whether the request patches nothing at all.
    pub fn is_empty(&self) -> (r: bool)
        ensures
            r == (self.username is None && self.gender is None && self.family_name is None
                && self.given_name is None && self.birth_date is None),
    {
        self.username.is_none() && self.gender.is_none() && self.family_name.is_none()
            && self.given_name.is_none() && self.birth_date.is_none()
    }
}

/// Counts of recently active users.
#[derive(Debug, Clone, Copy, PartialEq, Eq, Structural)]
pub struct RecentUserStats {
    pub this_month_users: i64,
    pub this_week_users: i64,
    pub todays_users: i64,
}

} // verus!
