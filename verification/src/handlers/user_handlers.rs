//! The user request handlers: each one decodes an already-parsed
//! request value, drives the user repository and the credential
//! component, and shapes the outcome into the uniform response
//! envelope with its status code. No raw store error text ever
//! reaches a client: only the classified, user-safe messages below.

use crate::credential::{digest_matches, digest_parses, hash_password, verify_password};
use crate::models::response_types::UserResponse;
use crate::models::user::{NewUser, User};
use crate::order::sort_by_key;
use crate::repositories::user_repository::{
    spec_user_response, username_key, UserRepository,
};
use crate::store::{dup_opt_string, dup_user, unchanged_except_users, KeyField, Store, StoreError};
use vstd::prelude::*;

verus! {

/// A request to create a user; the password arrives in plaintext and
/// is hashed here, never stored as given.
#[derive(Debug, Clone, PartialEq, Eq)]
pub struct CreateUserRequest {
    pub username: String,
    pub email: String,
    pub password: String,
    pub avatar_url: Option<String>,
}

/// A partial update: absent fields leave the stored record untouched.
#[derive(Debug, Clone, PartialEq, Eq)]
pub struct UpdateUserRequest {
    pub username: Option<String>,
    pub email: Option<String>,
    pub password: Option<String>,
    pub avatar_url: Option<String>,
    pub status: Option<String>,
}

/// A login attempt: a username and a plaintext password to verify.
#[derive(Debug, Clone, PartialEq, Eq)]
pub struct UserLoginRequest {
    pub username: String,
    pub password: String,
}

/// The uniform response envelope every endpoint answers with.
#[derive(Debug, Clone, PartialEq, Eq)]
pub struct ApiResponse<T> {
    pub success: bool,
    pub data: Option<T>,
    pub error: Option<String>,
}

/// The envelope of a successful outcome carrying `data`.
pub open spec fn ok_data<T>(resp: ApiResponse<T>, data: T) -> bool {
    &&& resp.success
    &&& resp.data == Some(data)
    &&& resp.error is None
}

/// The envelope of a failed outcome carrying the message `msg`.
pub open spec fn err_msg<T>(resp: ApiResponse<T>, msg: Seq<char>) -> bool {
    &&& !resp.success
    &&& resp.data is None
    &&& resp.error matches Some(m) && m@ == msg
}

/// The full user listing as the handler serves it: the
/// username-ordered table, projected to public views.
pub open spec fn spec_all_user_responses(s: Store) -> Seq<UserResponse> {
    sort_by_key(s.users@, username_key()).map_values(|u: User| spec_user_response(u))
}

/// Verifies a username/password pair. An unknown username answers
/// exactly as a wrong password does — 200 with the neutral
/// "Username or password incorrect." — so neither status nor response
/// shape reveals whether the username exists. Only a stored digest
/// that does not parse is an error, a 500.
pub fn login_attempt(repo: &UserRepository, store: &Store, payload: UserLoginRequest) -> (r: (
    u16,
    ApiResponse<UserResponse>,
))
    requires
        store.wf(),
    ensures
        ({
            if !store.username_taken(payload.username@) {
                r.0 == 200 && err_msg(r.1, "Username or password incorrect."@)
            } else {
                let u = store.user_with_username(payload.username@);
                if !digest_parses(u.password_hash@) {
                    r.0 == 500 && err_msg(r.1, "Error parsing password hash."@)
                } else if digest_matches(u.password_hash@, payload.password@) {
                    r.0 == 200 && ok_data(r.1, spec_user_response(u))
                } else {
                    r.0 == 200 && err_msg(r.1, "Username or password incorrect."@)
                }
            }
        }),
{
    let user = match repo.find_by_username(store, &payload.username) {
        Ok(Some(user)) => user,
        _ => {
            return (
                200,
                ApiResponse {
                    success: false,
                    data: None,
                    error: Some("Username or password incorrect.".to_owned()),
                },
            );
        },
    };
    let user_response = repo.to_response(dup_user(&user));
    match verify_password(payload.password.as_str(), user.password_hash.as_str()) {
        Ok(true) => (200, ApiResponse { success: true, data: Some(user_response), error: None }),
        Ok(false) => (
            200,
            ApiResponse {
                success: false,
                data: None,
                error: Some("Username or password incorrect.".to_owned()),
            },
        ),
        Err(_) => (
            500,
            ApiResponse {
                success: false,
                data: None,
                error: Some("Error parsing password hash.".to_owned()),
            },
        ),
    }
}

/// Hashes the given password and creates the user with status
/// "online". A hashing failure is a 500 with nothing stored; a taken
/// username or email is a 400 with the field-specific message; any
/// other store refusal is a 400.
pub fn create_user(repo: &UserRepository, store: &mut Store, payload: CreateUserRequest) -> (r: (
    u16,
    ApiResponse<UserResponse>,
))
    requires
        old(store).wf(),
    ensures
        final(store).wf(),
        ({
            let dup_name = old(store).username_taken(payload.username@);
            let dup_mail = old(store).email_taken(payload.email@);
            ||| (r.0 == 500 && *final(store) == *old(store) && err_msg(
                r.1,
                "Failed to hash password"@,
            ))
            ||| (r.0 == 201 && !dup_name && !dup_mail && old(store).can_insert_user() && ({
                let u = final(store).users@.last();
                &&& final(store).users@ == old(store).users@.push(u)
                &&& u.username == payload.username
                &&& u.email == payload.email
                &&& u.avatar_url == payload.avatar_url
                &&& u.status@ == "online"@
                &&& u.user_id == old(store).next_user_id
                &&& u.created_at == old(store).clock
                &&& u.updated_at is None
                &&& digest_parses(u.password_hash@)
                &&& digest_matches(u.password_hash@, payload.password@)
                &&& ok_data(r.1, spec_user_response(u))
                &&& final(store).next_user_id == old(store).next_user_id + 1
                &&& final(store).clock == old(store).clock + 1
                &&& unchanged_except_users(*old(store), *final(store))
            }))
            ||| (r.0 == 400 && *final(store) == *old(store) && dup_name && err_msg(
                r.1,
                "Username already taken"@,
            ))
            ||| (r.0 == 400 && *final(store) == *old(store) && !dup_name && dup_mail && err_msg(
                r.1,
                "Email already registered"@,
            ))
            ||| (r.0 == 400 && *final(store) == *old(store) && !dup_name && !dup_mail && !old(
                store,
            ).can_insert_user() && err_msg(r.1, "Failed to create user"@))
        }),
{
    let password_hash = match hash_password(payload.password.as_str()) {
        Ok(h) => h,
        Err(_) => {
            return (
                500,
                ApiResponse {
                    success: false,
                    data: None,
                    error: Some("Failed to hash password".to_owned()),
                },
            );
        },
    };
    let new_user = NewUser {
        username: payload.username,
        email: payload.email,
        password_hash,
        avatar_url: payload.avatar_url,
        status: "online".to_owned(),
    };
    match repo.create(store, new_user) {
        Ok(user) => {
            let user_response = repo.to_response(user);
            (201, ApiResponse { success: true, data: Some(user_response), error: None })
        },
        Err(e) => {
            let error_message: &str = match e {
                StoreError::DuplicateKey(KeyField::Username) => "Username already taken",
                StoreError::DuplicateKey(KeyField::Email) => "Email already registered",
                StoreError::DuplicateKey(_) => "Duplicate key violation",
                _ => "Failed to create user",
            };
            (
                400,
                ApiResponse {
                    success: false,
                    data: None,
                    error: Some(error_message.to_owned()),
                },
            )
        },
    }
}

/// Fetches one user by username: 200 with the public view, or 404.
pub fn get_user_by_username(repo: &UserRepository, store: &Store, username: String) -> (r: (
    u16,
    ApiResponse<UserResponse>,
))
    requires
        store.wf(),
    ensures
        ({
            if store.username_taken(username@) {
                r.0 == 200 && ok_data(
                    r.1,
                    spec_user_response(store.user_with_username(username@)),
                )
            } else {
                r.0 == 404 && err_msg(r.1, "User not found"@)
            }
        }),
{
    match repo.find_by_username(store, &username) {
        Ok(Some(user)) => {
            let user_response = repo.to_response(user);
            (200, ApiResponse { success: true, data: Some(user_response), error: None })
        },
        _ => (
            404,
            ApiResponse { success: false, data: None, error: Some("User not found".to_owned()) },
        ),
    }
}

/// Fetches one user by id: 200 with the public view, or 404.
pub fn get_user(repo: &UserRepository, store: &Store, user_id: i32) -> (r: (
    u16,
    ApiResponse<UserResponse>,
))
    requires
        store.wf(),
    ensures
        ({
            if store.contains_user(user_id) {
                r.0 == 200 && ok_data(r.1, spec_user_response(store.user_with_id(user_id)))
            } else {
                r.0 == 404 && err_msg(r.1, "User not found"@)
            }
        }),
{
    match repo.find_by_id(store, user_id) {
        Ok(Some(user)) => {
            let user_response = repo.to_response(user);
            (200, ApiResponse { success: true, data: Some(user_response), error: None })
        },
        _ => (
            404,
            ApiResponse { success: false, data: None, error: Some("User not found".to_owned()) },
        ),
    }
}

/// The pure partial-update merge: each present patch field replaces
/// the stored one, each absent field leaves it untouched, and the
/// credential is replaced only when a freshly hashed password is
/// handed in. Identity and creation time are never touched.
pub fn merge_user_update(
    current: User,
    patch: UpdateUserRequest,
    hashed_password: Option<String>,
) -> (u: User)
    ensures
        u.user_id == current.user_id,
        u.created_at == current.created_at,
        u.updated_at == current.updated_at,
        match patch.username {
            Some(n) => u.username == n,
            None => u.username == current.username,
        },
        match patch.email {
            Some(e) => u.email == e,
            None => u.email == current.email,
        },
        match hashed_password {
            Some(h) => u.password_hash == h,
            None => u.password_hash == current.password_hash,
        },
        match patch.avatar_url {
            Some(a) => u.avatar_url == Some(a),
            None => u.avatar_url == current.avatar_url,
        },
        match patch.status {
            Some(s) => u.status == s,
            None => u.status == current.status,
        },
{
    let mut updated = current;
    if let Some(username) = patch.username {
        updated.username = username;
    }
    if let Some(email) = patch.email {
        updated.email = email;
    }
    if let Some(h) = hashed_password {
        updated.password_hash = h;
    }
    if let Some(avatar_url) = patch.avatar_url {
        updated.avatar_url = Some(avatar_url);
    }
    if let Some(status) = patch.status {
        updated.status = status;
    }
    updated
}

/// Applies a partial update: the stored record is fetched, the patch
/// is merged onto it, a present password is hashed, and the merged
/// record replaces the stored one. Untouched fields survive. An
/// unknown id is a 404; a hashing failure is a 500; a collision with
/// another user's name or email is a 400 with the field-specific
/// message; any other store refusal is a 400.
pub fn update_user(
    repo: &UserRepository,
    store: &mut Store,
    user_id: i32,
    payload: UpdateUserRequest,
) -> (r: (u16, ApiResponse<UserResponse>))
    requires
        old(store).wf(),
    ensures
        final(store).wf(),
        !old(store).contains_user(user_id) ==> r.0 == 404 && err_msg(r.1, "User not found"@)
            && *final(store) == *old(store),
        old(store).contains_user(user_id) ==> ({
            let cur = old(store).user_with_id(user_id);
            let new_name = match payload.username {
                Some(n) => n,
                None => cur.username,
            };
            let new_mail = match payload.email {
                Some(e) => e,
                None => cur.email,
            };
            let dup_name = old(store).username_taken_by_other(new_name@, user_id);
            let dup_mail = old(store).email_taken_by_other(new_mail@, user_id);
            ||| (r.0 == 500 && *final(store) == *old(store) && payload.password is Some
                && err_msg(r.1, "Failed to hash password"@))
            ||| (r.0 == 200 && !dup_name && !dup_mail && old(store).can_touch() && ({
                let u = final(store).users@[old(store).user_index(user_id)];
                &&& final(store).users@ == old(store).users@.update(
                    old(store).user_index(user_id),
                    u,
                )
                &&& u.user_id == user_id
                &&& u.username == new_name
                &&& u.email == new_mail
                &&& u.avatar_url == (match payload.avatar_url {
                    Some(a) => Some(a),
                    None => cur.avatar_url,
                })
                &&& u.status == (match payload.status {
                    Some(s) => s,
                    None => cur.status,
                })
                &&& (payload.password is None ==> u.password_hash == cur.password_hash)
                &&& (payload.password matches Some(p) ==> digest_parses(u.password_hash@)
                    && digest_matches(u.password_hash@, p@))
                &&& u.created_at == cur.created_at
                &&& u.updated_at == Some(old(store).clock)
                &&& ok_data(r.1, spec_user_response(u))
                &&& final(store).clock == old(store).clock + 1
                &&& unchanged_except_users(*old(store), *final(store))
                &&& final(store).next_user_id == old(store).next_user_id
            }))
            ||| (r.0 == 400 && *final(store) == *old(store) && dup_name && err_msg(
                r.1,
                "Username already taken"@,
            ))
            ||| (r.0 == 400 && *final(store) == *old(store) && !dup_name && dup_mail && err_msg(
                r.1,
                "Email already registered"@,
            ))
            ||| (r.0 == 400 && *final(store) == *old(store) && !dup_name && !dup_mail && !old(
                store,
            ).can_touch() && err_msg(r.1, "Failed to update user"@))
        }),
{
    let current_user = match repo.find_by_id(store, user_id) {
        Ok(Some(user)) => user,
        _ => {
            return (
                404,
                ApiResponse {
                    success: false,
                    data: None,
                    error: Some("User not found".to_owned()),
                },
            );
        },
    };
    let hashed_password: Option<String> = match &payload.password {
        Some(p) => {
            match hash_password(p.as_str()) {
                Ok(h) => Some(h),
                Err(_) => {
                    return (
                        500,
                        ApiResponse {
                            success: false,
                            data: None,
                            error: Some("Failed to hash password".to_owned()),
                        },
                    );
                },
            }
        },
        None => None,
    };
    let updated_user = merge_user_update(current_user, payload, hashed_password);
    match repo.update(store, user_id, updated_user) {
        Ok(user) => {
            let user_response = repo.to_response(user);
            (200, ApiResponse { success: true, data: Some(user_response), error: None })
        },
        Err(e) => {
            let error_message: &str = match e {
                StoreError::DuplicateKey(KeyField::Username) => "Username already taken",
                StoreError::DuplicateKey(KeyField::Email) => "Email already registered",
                StoreError::DuplicateKey(_) => "Duplicate key violation",
                _ => "Failed to update user",
            };
            (
                400,
                ApiResponse {
                    success: false,
                    data: None,
                    error: Some(error_message.to_owned()),
                },
            )
        },
    }
}

/// Deletes one user by id: 200 when a row was removed, 404 when the
/// id was unknown, and a second delete of the same id is a plain 404,
/// never an error.
pub fn delete_user(repo: &UserRepository, store: &mut Store, user_id: i32) -> (r: (
    u16,
    ApiResponse<String>,
))
    requires
        old(store).wf(),
    ensures
        final(store).wf(),
        ({
            if old(store).contains_user(user_id) {
                &&& r.0 == 200
                &&& r.1.success
                &&& r.1.data matches Some(m) && m@ == "User deleted successfully"@
                &&& r.1.error is None
                &&& final(store).users@ == old(store).users@.remove(
                    old(store).user_index(user_id),
                )
                &&& final(store).clock == old(store).clock
                &&& unchanged_except_users(*old(store), *final(store))
                &&& final(store).next_user_id == old(store).next_user_id
            } else {
                r.0 == 404 && err_msg(r.1, "User not found"@) && *final(store) == *old(store)
            }
        }),
{
    match repo.delete(store, user_id) {
        Ok(true) => (
            200,
            ApiResponse {
                success: true,
                data: Some("User deleted successfully".to_owned()),
                error: None,
            },
        ),
        _ => (
            404,
            ApiResponse { success: false, data: None, error: Some("User not found".to_owned()) },
        ),
    }
}

/// Lists every user, ordered by username ascending, projected to
/// public views. Always a 200.
pub fn get_all_users(repo: &UserRepository, store: &Store) -> (r: (
    u16,
    ApiResponse<Vec<UserResponse>>,
))
    requires
        store.wf(),
    ensures
        r.0 == 200,
        r.1.success,
        r.1.error is None,
        r.1.data matches Some(v) && v@ == spec_all_user_responses(*store),
{
    let users = match repo.find_all(store) {
        Ok(users) => users,
        Err(_) => Vec::new(),
    };
    let ghost sorted = sort_by_key(store.users@, username_key());
    let mut user_responses: Vec<UserResponse> = Vec::new();
    let mut i: usize = 0;
    proof {
        assert(spec_all_user_responses(*store).take(0) =~= Seq::<UserResponse>::empty());
    }
    while i < users.len()
        invariant
            i <= users@.len(),
            users@ == sorted,
            sorted.map_values(|u: User| spec_user_response(u)) == spec_all_user_responses(*store),
            user_responses@ == spec_all_user_responses(*store).take(i as int),
        decreases users@.len() - i,
    {
        let u = &users[i];
        user_responses.push(
            UserResponse {
                user_id: u.user_id,
                username: u.username.clone(),
                email: u.email.clone(),
                avatar_url: dup_opt_string(&u.avatar_url),
                status: u.status.clone(),
                created_at: u.created_at,
            },
        );
        proof {
            assert(spec_all_user_responses(*store)[i as int] == spec_user_response(
                sorted[i as int],
            ));
            assert(spec_all_user_responses(*store).take(i + 1) =~= spec_all_user_responses(
                *store,
            ).take(i as int).push(spec_user_response(sorted[i as int])));
        }
        i = i + 1;
    }
    proof {
        assert(spec_all_user_responses(*store).take(users@.len() as int) =~= spec_all_user_responses(
            *store,
        ));
    }
    (200, ApiResponse { success: true, data: Some(user_responses), error: None })
}

} // verus!
