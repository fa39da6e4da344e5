use vstd::prelude::*;

verus! {

/// A stored user record. `created_at` and `updated_at` are logical
/// timestamps assigned by the store at insert and at mutation time.
/// `password_hash` is write-only: it never appears in any outbound
/// response (see `UserResponse`).
#[derive(Debug, Clone, PartialEq, Eq)]
pub struct User {
    pub user_id: i32,
    pub username: String,
    pub email: String,
    pub password_hash: String,
    pub avatar_url: Option<String>,
    pub created_at: i64,
    pub updated_at: Option<i64>,
    pub status: String,
}

/// The fields a caller supplies when creating a user. The password
/// arrives already hashed: hashing is the handler's responsibility.
#[derive(Debug, Clone, PartialEq, Eq)]
pub struct NewUser {
    pub username: String,
    pub email: String,
    pub password_hash: String,
    pub avatar_url: Option<String>,
    pub status: String,
}

} // verus!
