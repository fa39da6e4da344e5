//! Persistence for the user entity: creation with uniqueness checks,
//! lookups by id, username and email, the username-ordered listing,
//! full-record replacement, and deletion.

use crate::models::response_types::UserResponse;
use crate::models::user::{NewUser, User};
use crate::order::{
    insert_sorted, lemma_insert_sorted_at, lex_le, sort_by_key, str_le,
};
use crate::store::{
    dup_user, find_other_user_by_email, find_other_user_by_username, find_user_by_email,
    find_user_by_id, find_user_by_username, lemma_user_at_index, lemma_user_at_index_email,
    lemma_user_at_index_username, unchanged_except_users, KeyField, Store, StoreError,
};
use vstd::pervasive::VecAdditionalExecFns;
use vstd::prelude::*;
use vstd::utf8::encode_utf8;

verus! {

/// The UTF-8 bytes of a user's username, the sort key of `find_all`.
pub open spec fn username_bytes(u: User) -> Seq<u8> {
    encode_utf8(u.username@)
}

/// `username_bytes` as a key function for the ordering machinery.
pub open spec fn username_key() -> spec_fn(User) -> Seq<u8> {
    |u: User| username_bytes(u)
}

/// The public projection of a user record: every stored field except
/// the password credential and the update timestamp.
pub open spec fn spec_user_response(u: User) -> UserResponse {
    UserResponse {
        user_id: u.user_id,
        username: u.username,
        email: u.email,
        avatar_url: u.avatar_url,
        status: u.status,
        created_at: u.created_at,
    }
}

/// The public view of a user is independent of the stored credential:
/// two records that agree on the projected fields project to the same
/// view whatever their password digests hold.
pub proof fn lemma_user_response_no_credential(a: User, b: User)
    requires
        a.user_id == b.user_id,
        a.username == b.username,
        a.email == b.email,
        a.avatar_url == b.avatar_url,
        a.status == b.status,
        a.created_at == b.created_at,
    ensures
        spec_user_response(a) == spec_user_response(b),
{
}

#[derive(Clone)]
pub struct UserRepository {}

impl UserRepository {
    pub fn new() -> (r: UserRepository) {
        UserRepository {}
    }

    /// Inserts a user with a fresh id and creation timestamp. The
    /// username and the email must each be unused; the violated key is
    /// reported otherwise, username first, and the store is untouched
    /// on any failure.
    pub fn create(&self, store: &mut Store, new_user: NewUser) -> (r: Result<User, StoreError>)
        requires
            old(store).wf(),
        ensures
            final(store).wf(),
            match r {
                Ok(user) => {
                    &&& !old(store).username_taken(new_user.username@)
                    &&& !old(store).email_taken(new_user.email@)
                    &&& old(store).can_insert_user()
                    &&& user == (User {
                        user_id: old(store).next_user_id,
                        username: new_user.username,
                        email: new_user.email,
                        password_hash: new_user.password_hash,
                        avatar_url: new_user.avatar_url,
                        created_at: old(store).clock,
                        updated_at: None,
                        status: new_user.status,
                    })
                    &&& final(store).users@ == old(store).users@.push(user)
                    &&& final(store).next_user_id == old(store).next_user_id + 1
                    &&& final(store).clock == old(store).clock + 1
                    &&& unchanged_except_users(*old(store), *final(store))
                },
                Err(e) => {
                    &&& *final(store) == *old(store)
                    &&& match e {
                        StoreError::DuplicateKey(KeyField::Username) => old(store).username_taken(
                            new_user.username@,
                        ),
                        StoreError::DuplicateKey(KeyField::Email) => !old(store).username_taken(
                            new_user.username@,
                        ) && old(store).email_taken(new_user.email@),
                        StoreError::StoreFailure => {
                            &&& !old(store).username_taken(new_user.username@)
                            &&& !old(store).email_taken(new_user.email@)
                            &&& !old(store).can_insert_user()
                        },
                        _ => false,
                    }
                },
            },
    {
        if find_user_by_username(&store.users, &new_user.username).is_some() {
            return Err(StoreError::DuplicateKey(KeyField::Username));
        }
        if find_user_by_email(&store.users, &new_user.email).is_some() {
            return Err(StoreError::DuplicateKey(KeyField::Email));
        }
        if store.next_user_id == i32::MAX || store.clock == i64::MAX {
            return Err(StoreError::StoreFailure);
        }
        let user = User {
            user_id: store.next_user_id,
            username: new_user.username,
            email: new_user.email,
            password_hash: new_user.password_hash,
            avatar_url: new_user.avatar_url,
            created_at: store.clock,
            updated_at: None,
            status: new_user.status,
        };
        let created = dup_user(&user);
        store.users.push(user);
        store.next_user_id = store.next_user_id + 1;
        store.clock = store.clock + 1;
        Ok(created)
    }

    /// The user carrying `user_id`, if any. Never fails.
    pub fn find_by_id(&self, store: &Store, user_id: i32) -> (r: Result<Option<User>, StoreError>)
        requires
            store.wf(),
        ensures
            match r {
                Ok(Some(u)) => store.contains_user(user_id) && u == store.user_with_id(user_id),
                Ok(None) => !store.contains_user(user_id),
                Err(_) => false,
            },
    {
        match find_user_by_id(&store.users, user_id) {
            Some(i) => {
                proof {
                    lemma_user_at_index(*store, i as int);
                }
                Ok(Some(dup_user(&store.users[i])))
            },
            None => Ok(None),
        }
    }

    /// The user carrying `username`, if any. Never fails.
    pub fn find_by_username(&self, store: &Store, username: &String) -> (r: Result<
        Option<User>,
        StoreError,
    >)
        requires
            store.wf(),
        ensures
            match r {
                Ok(Some(u)) => store.username_taken(username@) && u == store.user_with_username(
                    username@,
                ),
                Ok(None) => !store.username_taken(username@),
                Err(_) => false,
            },
    {
        match find_user_by_username(&store.users, username) {
            Some(i) => {
                proof {
                    lemma_user_at_index_username(*store, i as int);
                }
                Ok(Some(dup_user(&store.users[i])))
            },
            None => Ok(None),
        }
    }

    /// The user carrying `email`, if any. Never fails.
    pub fn find_by_email(&self, store: &Store, email: &String) -> (r: Result<
        Option<User>,
        StoreError,
    >)
        requires
            store.wf(),
        ensures
            match r {
                Ok(Some(u)) => store.email_taken(email@) && u == store.user_with_email(email@),
                Ok(None) => !store.email_taken(email@),
                Err(_) => false,
            },
    {
        match find_user_by_email(&store.users, email) {
            Some(i) => {
                proof {
                    lemma_user_at_index_email(*store, i as int);
                }
                Ok(Some(dup_user(&store.users[i])))
            },
            None => Ok(None),
        }
    }

    /// Every user, ordered by username ascending (byte-wise on the
    /// UTF-8 encoding). Never fails.
    pub fn find_all(&self, store: &Store) -> (r: Result<Vec<User>, StoreError>)
        requires
            store.wf(),
        ensures
            match r {
                Ok(v) => v@ == sort_by_key(store.users@, username_key()),
                Err(_) => false,
            },
    {
        let mut out: Vec<User> = Vec::new();
        let mut i: usize = 0;
        proof {
            assert(store.users@.take(0) =~= Seq::<User>::empty());
        }
        while i < store.users.len()
            invariant
                i <= store.users@.len(),
                out@ == sort_by_key(store.users@.take(i as int), username_key()),
            decreases store.users@.len() - i,
        {
            let u = dup_user(&store.users[i]);
            insert_user_sorted(&mut out, u);
            proof {
                assert(store.users@.take(i + 1).drop_last() =~= store.users@.take(i as int));
                assert(store.users@.take(i + 1).last() == store.users@[i as int]);
            }
            i = i + 1;
        }
        proof {
            assert(store.users@.take(store.users@.len() as int) =~= store.users@);
        }
        Ok(out)
    }

    /// Replaces every mutable field of the user carrying `user_id`
    /// with the fields of `user` and stamps a fresh `updated_at`; the
    /// id and the creation timestamp are kept. The new username and
    /// email must not collide with any other user. The store is
    /// untouched on any failure.
    pub fn update(&self, store: &mut Store, user_id: i32, user: User) -> (r: Result<
        User,
        StoreError,
    >)
        requires
            old(store).wf(),
        ensures
            final(store).wf(),
            match r {
                Ok(updated) => {
                    &&& old(store).contains_user(user_id)
                    &&& !old(store).username_taken_by_other(user.username@, user_id)
                    &&& !old(store).email_taken_by_other(user.email@, user_id)
                    &&& old(store).can_touch()
                    &&& updated == (User {
                        user_id,
                        username: user.username,
                        email: user.email,
                        password_hash: user.password_hash,
                        avatar_url: user.avatar_url,
                        created_at: old(store).user_with_id(user_id).created_at,
                        updated_at: Some(old(store).clock),
                        status: user.status,
                    })
                    &&& final(store).users@ == old(store).users@.update(
                        old(store).user_index(user_id),
                        updated,
                    )
                    &&& final(store).next_user_id == old(store).next_user_id
                    &&& final(store).clock == old(store).clock + 1
                    &&& unchanged_except_users(*old(store), *final(store))
                },
                Err(e) => {
                    &&& *final(store) == *old(store)
                    &&& match e {
                        StoreError::NotFound => !old(store).contains_user(user_id),
                        StoreError::DuplicateKey(KeyField::Username) => old(store).contains_user(
                            user_id,
                        ) && old(store).username_taken_by_other(user.username@, user_id),
                        StoreError::DuplicateKey(KeyField::Email) => {
                            &&& old(store).contains_user(user_id)
                            &&& !old(store).username_taken_by_other(user.username@, user_id)
                            &&& old(store).email_taken_by_other(user.email@, user_id)
                        },
                        StoreError::StoreFailure => {
                            &&& old(store).contains_user(user_id)
                            &&& !old(store).username_taken_by_other(user.username@, user_id)
                            &&& !old(store).email_taken_by_other(user.email@, user_id)
                            &&& !old(store).can_touch()
                        },
                        _ => false,
                    }
                },
            },
    {
        let idx = match find_user_by_id(&store.users, user_id) {
            Some(i) => i,
            None => {
                return Err(StoreError::NotFound);
            },
        };
        if find_other_user_by_username(&store.users, &user.username, user_id).is_some() {
            return Err(StoreError::DuplicateKey(KeyField::Username));
        }
        if find_other_user_by_email(&store.users, &user.email, user_id).is_some() {
            return Err(StoreError::DuplicateKey(KeyField::Email));
        }
        if store.clock == i64::MAX {
            return Err(StoreError::StoreFailure);
        }
        proof {
            lemma_user_at_index(*store, idx as int);
        }
        let updated = User {
            user_id,
            username: user.username,
            email: user.email,
            password_hash: user.password_hash,
            avatar_url: user.avatar_url,
            created_at: store.users[idx].created_at,
            updated_at: Some(store.clock),
            status: user.status,
        };
        let returned = dup_user(&updated);
        store.users.set(idx, updated);
        store.clock = store.clock + 1;
        proof {
            assert forall|i: int, j: int|
                0 <= i < j < store.users@.len() implies #[trigger] store.users@[i].user_id
                != #[trigger] store.users@[j].user_id && store.users@[i].username@
                != store.users@[j].username@ && store.users@[i].email@
                != store.users@[j].email@ by {
                assert(old(store).users@[i].user_id == user_id ==> i == idx);
                assert(old(store).users@[j].user_id == user_id ==> j == idx);
            }
        }
        Ok(returned)
    }

    /// Removes the user carrying `user_id` and says whether a row was
    /// actually removed; absence is `Ok(false)`, never an error, so a
    /// second delete of the same id is harmless.
    pub fn delete(&self, store: &mut Store, user_id: i32) -> (r: Result<bool, StoreError>)
        requires
            old(store).wf(),
        ensures
            final(store).wf(),
            match r {
                Ok(true) => {
                    &&& old(store).contains_user(user_id)
                    &&& final(store).users@ == old(store).users@.remove(
                        old(store).user_index(user_id),
                    )
                    &&& final(store).next_user_id == old(store).next_user_id
                    &&& final(store).clock == old(store).clock
                    &&& unchanged_except_users(*old(store), *final(store))
                },
                Ok(false) => !old(store).contains_user(user_id) && *final(store) == *old(store),
                Err(_) => false,
            },
    {
        match find_user_by_id(&store.users, user_id) {
            Some(i) => {
                proof {
                    lemma_user_at_index(*store, i as int);
                }
                store.users.remove(i);
                Ok(true)
            },
            None => Ok(false),
        }
    }

    /// The public projection of `user`: every field except the
    /// password credential and the update timestamp.
    pub fn to_response(&self, user: User) -> (r: UserResponse)
        ensures
            r == spec_user_response(user),
    {
        UserResponse {
            user_id: user.user_id,
            username: user.username,
            email: user.email,
            avatar_url: user.avatar_url,
            status: user.status,
            created_at: user.created_at,
        }
    }
}

/// Places `u` into the username-sorted vector `v` at the position the
/// insertion-sort specification prescribes.
fn insert_user_sorted(v: &mut Vec<User>, u: User)
    ensures
        final(v)@ == insert_sorted(old(v)@, u, username_key()),
{
    let mut p: usize = 0;
    while p < v.len()
        invariant_except_break
            p <= v@.len(),
            v@ == old(v)@,
            forall|j: int| 0 <= j < p ==> !lex_le(username_bytes(u), username_bytes(v@[j])),
        ensures
            p <= v@.len(),
            v@ == old(v)@,
            forall|j: int| 0 <= j < p ==> !lex_le(username_bytes(u), username_bytes(v@[j])),
            p < v@.len() ==> lex_le(username_bytes(u), username_bytes(v@[p as int])),
        decreases v@.len() - p,
    {
        if str_le(u.username.as_str(), v[p].username.as_str()) {
            break ;
        }
        p = p + 1;
    }
    proof {
        lemma_insert_sorted_at(v@, u, username_key(), p as int);
    }
    v.insert(p, u);
}

} // verus!
