//! Persistence for the server (guild) entity: creation with a unique
//! name and an existing owner, lookups, listings, full-record
//! replacement, deletion, and the member projections that join users
//! through the membership table.

use crate::models::response_types::{ServerWithMembersResponse, UserResponse};
use crate::models::server::{NewServer, Server};
use crate::models::server_member::ServerMember;
use crate::models::user::User;
use crate::repositories::user_repository::{spec_user_response, UserRepository};
use crate::store::{
    dup_opt_string, dup_server, find_other_server_by_name, find_server_by_id, find_server_by_name,
    find_server_member, find_user_by_id, lemma_filter_push, lemma_server_at_index,
    unchanged_except_servers, KeyField, Store, StoreError,
};
use vstd::pervasive::VecAdditionalExecFns;
use vstd::prelude::*;

verus! {

/// The servers owned by `owner_user_id`, as a predicate on rows.
pub open spec fn owned_by(owner_user_id: i32) -> spec_fn(Server) -> bool {
    |s: Server| s.owner_user_id == owner_user_id
}

/// The servers that `user_id` belongs to through `members`, as a
/// predicate on rows.
pub open spec fn joined_through(members: Seq<ServerMember>, user_id: i32) -> spec_fn(
    Server,
) -> bool {
    |s: Server|
        exists|k: int|
            0 <= k < members.len() && members[k].server_id == s.server_id && members[k].user_id
                == user_id
}

/// The users that belong to `server_id` through `members`, as a
/// predicate on rows.
pub open spec fn belongs_to(members: Seq<ServerMember>, server_id: i32) -> spec_fn(User) -> bool {
    |u: User|
        exists|k: int|
            0 <= k < members.len() && members[k].server_id == server_id && members[k].user_id
                == u.user_id
}

/// The member listing of `server_id`: the users joined through the
/// membership table, in user-table order, projected to their public
/// views.
pub open spec fn spec_server_members(s: Store, server_id: i32) -> Seq<UserResponse> {
    s.users@.filter(belongs_to(s.server_members@, server_id)).map_values(
        |u: User| spec_user_response(u),
    )
}

#[derive(Clone)]
pub struct ServerRepository {
    pub user_repository: UserRepository,
}

impl ServerRepository {
    pub fn new(user_repository: UserRepository) -> (r: ServerRepository) {
        ServerRepository { user_repository }
    }

    /// Inserts a server with a fresh id and creation timestamp. The
    /// name must be unused and the owner must exist; the store is
    /// untouched on any failure.
    pub fn create(&self, store: &mut Store, new_server: NewServer) -> (r: Result<
        Server,
        StoreError,
    >)
        requires
            old(store).wf(),
        ensures
            final(store).wf(),
            match r {
                Ok(server) => {
                    &&& !old(store).server_name_taken(new_server.server_name@)
                    &&& old(store).contains_user(new_server.owner_user_id)
                    &&& old(store).can_insert_server()
                    &&& server == (Server {
                        server_id: old(store).next_server_id,
                        server_name: new_server.server_name,
                        owner_user_id: new_server.owner_user_id,
                        icon_url: new_server.icon_url,
                        created_at: old(store).clock,
                        updated_at: None,
                    })
                    &&& final(store).servers@ == old(store).servers@.push(server)
                    &&& final(store).next_server_id == old(store).next_server_id + 1
                    &&& final(store).clock == old(store).clock + 1
                    &&& unchanged_except_servers(*old(store), *final(store))
                },
                Err(e) => {
                    &&& *final(store) == *old(store)
                    &&& match e {
                        StoreError::DuplicateKey(KeyField::ServerName) => old(
                            store,
                        ).server_name_taken(new_server.server_name@),
                        StoreError::StoreFailure => {
                            &&& !old(store).server_name_taken(new_server.server_name@)
                            &&& (!old(store).contains_user(new_server.owner_user_id) || !old(
                                store,
                            ).can_insert_server())
                        },
                        _ => false,
                    }
                },
            },
    {
        if find_server_by_name(&store.servers, &new_server.server_name).is_some() {
            return Err(StoreError::DuplicateKey(KeyField::ServerName));
        }
        if find_user_by_id(&store.users, new_server.owner_user_id).is_none() {
            return Err(StoreError::StoreFailure);
        }
        if store.next_server_id == i32::MAX || store.clock == i64::MAX {
            return Err(StoreError::StoreFailure);
        }
        let server = Server {
            server_id: store.next_server_id,
            server_name: new_server.server_name,
            owner_user_id: new_server.owner_user_id,
            icon_url: new_server.icon_url,
            created_at: store.clock,
            updated_at: None,
        };
        let created = dup_server(&server);
        store.servers.push(server);
        store.next_server_id = store.next_server_id + 1;
        store.clock = store.clock + 1;
        Ok(created)
    }

    /// The server carrying `server_id`, if any. Never fails.
    pub fn find_by_id(&self, store: &Store, server_id: i32) -> (r: Result<
        Option<Server>,
        StoreError,
    >)
        requires
            store.wf(),
        ensures
            match r {
                Ok(Some(s)) => store.contains_server(server_id) && s == store.server_with_id(
                    server_id,
                ),
                Ok(None) => !store.contains_server(server_id),
                Err(_) => false,
            },
    {
        match find_server_by_id(&store.servers, server_id) {
            Some(i) => {
                proof {
                    lemma_server_at_index(*store, i as int);
                }
                Ok(Some(dup_server(&store.servers[i])))
            },
            None => Ok(None),
        }
    }

    /// The servers owned by `owner_user_id`, in table order. Never
    /// fails.
    pub fn find_by_owner(&self, store: &Store, owner_user_id: i32) -> (r: Result<
        Vec<Server>,
        StoreError,
    >)
        requires
            store.wf(),
        ensures
            match r {
                Ok(v) => v@ == store.servers@.filter(owned_by(owner_user_id)),
                Err(_) => false,
            },
    {
        let mut out: Vec<Server> = Vec::new();
        let mut i: usize = 0;
        proof {
            assert(store.servers@.take(0) =~= Seq::<Server>::empty());
            reveal(Seq::filter);
        }
        while i < store.servers.len()
            invariant
                i <= store.servers@.len(),
                out@ == store.servers@.take(i as int).filter(owned_by(owner_user_id)),
            decreases store.servers@.len() - i,
        {
            proof {
                assert(store.servers@.take(i + 1) =~= store.servers@.take(i as int).push(
                    store.servers@[i as int],
                ));
                lemma_filter_push(
                    store.servers@.take(i as int),
                    owned_by(owner_user_id),
                    store.servers@[i as int],
                );
            }
            if store.servers[i].owner_user_id == owner_user_id {
                out.push(dup_server(&store.servers[i]));
            }
            i = i + 1;
        }
        proof {
            assert(store.servers@.take(store.servers@.len() as int) =~= store.servers@);
        }
        Ok(out)
    }

    /// Every server, in table order. Never fails.
    pub fn find_all(&self, store: &Store) -> (r: Result<Vec<Server>, StoreError>)
        requires
            store.wf(),
        ensures
            match r {
                Ok(v) => v@ == store.servers@,
                Err(_) => false,
            },
    {
        let mut out: Vec<Server> = Vec::new();
        let mut i: usize = 0;
        while i < store.servers.len()
            invariant
                i <= store.servers@.len(),
                out@ == store.servers@.take(i as int),
            decreases store.servers@.len() - i,
        {
            out.push(dup_server(&store.servers[i]));
            proof {
                assert(store.servers@.take(i + 1) =~= store.servers@.take(i as int).push(
                    store.servers@[i as int],
                ));
            }
            i = i + 1;
        }
        proof {
            assert(store.servers@.take(store.servers@.len() as int) =~= store.servers@);
        }
        Ok(out)
    }

    /// The servers `user_id` belongs to through membership, in table
    /// order. Never fails.
    pub fn find_servers_for_user(&self, store: &Store, user_id: i32) -> (r: Result<
        Vec<Server>,
        StoreError,
    >)
        requires
            store.wf(),
        ensures
            match r {
                Ok(v) => v@ == store.servers@.filter(
                    joined_through(store.server_members@, user_id),
                ),
                Err(_) => false,
            },
    {
        let mut out: Vec<Server> = Vec::new();
        let mut i: usize = 0;
        proof {
            assert(store.servers@.take(0) =~= Seq::<Server>::empty());
            reveal(Seq::filter);
        }
        while i < store.servers.len()
            invariant
                i <= store.servers@.len(),
                out@ == store.servers@.take(i as int).filter(
                    joined_through(store.server_members@, user_id),
                ),
            decreases store.servers@.len() - i,
        {
            proof {
                assert(store.servers@.take(i + 1) =~= store.servers@.take(i as int).push(
                    store.servers@[i as int],
                ));
                lemma_filter_push(
                    store.servers@.take(i as int),
                    joined_through(store.server_members@, user_id),
                    store.servers@[i as int],
                );
            }
            if find_server_member(
                &store.server_members,
                store.servers[i].server_id,
                user_id,
            ).is_some() {
                out.push(dup_server(&store.servers[i]));
            }
            i = i + 1;
        }
        proof {
            assert(store.servers@.take(store.servers@.len() as int) =~= store.servers@);
        }
        Ok(out)
    }

    /// Replaces every mutable field of the server carrying `server_id`
    /// with the fields of `server` and stamps a fresh `updated_at`;
    /// the id and the creation timestamp are kept. The new name must
    /// not collide with any other server and the new owner must exist.
    /// The store is untouched on any failure.
    pub fn update(&self, store: &mut Store, server_id: i32, server: Server) -> (r: Result<
        Server,
        StoreError,
    >)
        requires
            old(store).wf(),
        ensures
            final(store).wf(),
            match r {
                Ok(updated) => {
                    &&& old(store).contains_server(server_id)
                    &&& !old(store).server_name_taken_by_other(server.server_name@, server_id)
                    &&& old(store).contains_user(server.owner_user_id)
                    &&& old(store).can_touch()
                    &&& updated == (Server {
                        server_id,
                        server_name: server.server_name,
                        owner_user_id: server.owner_user_id,
                        icon_url: server.icon_url,
                        created_at: old(store).server_with_id(server_id).created_at,
                        updated_at: Some(old(store).clock),
                    })
                    &&& final(store).servers@ == old(store).servers@.update(
                        old(store).server_index(server_id),
                        updated,
                    )
                    &&& final(store).next_server_id == old(store).next_server_id
                    &&& final(store).clock == old(store).clock + 1
                    &&& unchanged_except_servers(*old(store), *final(store))
                },
                Err(e) => {
                    &&& *final(store) == *old(store)
                    &&& match e {
                        StoreError::NotFound => !old(store).contains_server(server_id),
                        StoreError::DuplicateKey(KeyField::ServerName) => {
                            &&& old(store).contains_server(server_id)
                            &&& old(store).server_name_taken_by_other(
                                server.server_name@,
                                server_id,
                            )
                        },
                        StoreError::StoreFailure => {
                            &&& old(store).contains_server(server_id)
                            &&& !old(store).server_name_taken_by_other(
                                server.server_name@,
                                server_id,
                            )
                            &&& (!old(store).contains_user(server.owner_user_id) || !old(
                                store,
                            ).can_touch())
                        },
                        _ => false,
                    }
                },
            },
    {
        let idx = match find_server_by_id(&store.servers, server_id) {
            Some(i) => i,
            None => {
                return Err(StoreError::NotFound);
            },
        };
        if find_other_server_by_name(&store.servers, &server.server_name, server_id).is_some() {
            return Err(StoreError::DuplicateKey(KeyField::ServerName));
        }
        if find_user_by_id(&store.users, server.owner_user_id).is_none() {
            return Err(StoreError::StoreFailure);
        }
        if store.clock == i64::MAX {
            return Err(StoreError::StoreFailure);
        }
        proof {
            lemma_server_at_index(*store, idx as int);
        }
        let updated = Server {
            server_id,
            server_name: server.server_name,
            owner_user_id: server.owner_user_id,
            icon_url: server.icon_url,
            created_at: store.servers[idx].created_at,
            updated_at: Some(store.clock),
        };
        let returned = dup_server(&updated);
        store.servers.set(idx, updated);
        store.clock = store.clock + 1;
        proof {
            assert forall|i: int, j: int|
                0 <= i < j < store.servers@.len() implies #[trigger] store.servers@[i].server_id
                != #[trigger] store.servers@[j].server_id && store.servers@[i].server_name@
                != store.servers@[j].server_name@ by {
                assert(old(store).servers@[i].server_id == server_id ==> i == idx);
                assert(old(store).servers@[j].server_id == server_id ==> j == idx);
            }
        }
        Ok(returned)
    }

    /// Removes the server carrying `server_id` and says whether a row
    /// was actually removed; absence is `Ok(false)`, never an error.
    pub fn delete(&self, store: &mut Store, server_id: i32) -> (r: Result<bool, StoreError>)
        requires
            old(store).wf(),
        ensures
            final(store).wf(),
            match r {
                Ok(true) => {
                    &&& old(store).contains_server(server_id)
                    &&& final(store).servers@ == old(store).servers@.remove(
                        old(store).server_index(server_id),
                    )
                    &&& final(store).next_server_id == old(store).next_server_id
                    &&& final(store).clock == old(store).clock
                    &&& unchanged_except_servers(*old(store), *final(store))
                },
                Ok(false) => !old(store).contains_server(server_id) && *final(store) == *old(
                    store,
                ),
                Err(_) => false,
            },
    {
        match find_server_by_id(&store.servers, server_id) {
            Some(i) => {
                proof {
                    lemma_server_at_index(*store, i as int);
                }
                store.servers.remove(i);
                Ok(true)
            },
            None => Ok(false),
        }
    }

    /// The public views of the users that belong to `server_id`, in
    /// user-table order. An unknown server id simply has no members.
    /// Never fails.
    pub fn get_server_members(&self, store: &Store, server_id: i32) -> (r: Result<
        Vec<UserResponse>,
        StoreError,
    >)
        requires
            store.wf(),
        ensures
            match r {
                Ok(v) => v@ == spec_server_members(*store, server_id),
                Err(_) => false,
            },
    {
        let mut out: Vec<UserResponse> = Vec::new();
        let mut i: usize = 0;
        proof {
            assert(store.users@.take(0) =~= Seq::<User>::empty());
            reveal(Seq::filter);
            assert(store.users@.take(0).filter(belongs_to(store.server_members@, server_id))
                .map_values(|u: User| spec_user_response(u)) =~= Seq::<UserResponse>::empty());
        }
        while i < store.users.len()
            invariant
                i <= store.users@.len(),
                out@ == store.users@.take(i as int).filter(
                    belongs_to(store.server_members@, server_id),
                ).map_values(|u: User| spec_user_response(u)),
            decreases store.users@.len() - i,
        {
            proof {
                assert(store.users@.take(i + 1) =~= store.users@.take(i as int).push(
                    store.users@[i as int],
                ));
                lemma_filter_push(
                    store.users@.take(i as int),
                    belongs_to(store.server_members@, server_id),
                    store.users@[i as int],
                );
                if belongs_to(store.server_members@, server_id)(store.users@[i as int]) {
                    assert(store.users@.take(i as int).filter(
                        belongs_to(store.server_members@, server_id),
                    ).push(store.users@[i as int]).map_values(|u: User| spec_user_response(u))
                        =~= store.users@.take(i as int).filter(
                        belongs_to(store.server_members@, server_id),
                    ).map_values(|u: User| spec_user_response(u)).push(
                        spec_user_response(store.users@[i as int]),
                    ));
                }
            }
            if find_server_member(&store.server_members, server_id, store.users[i].user_id)
                .is_some() {
                let u = &store.users[i];
                out.push(
                    UserResponse {
                        user_id: u.user_id,
                        username: u.username.clone(),
                        email: u.email.clone(),
                        avatar_url: dup_opt_string(&u.avatar_url),
                        status: u.status.clone(),
                        created_at: u.created_at,
                    },
                );
            }
            i = i + 1;
        }
        proof {
            assert(store.users@.take(store.users@.len() as int) =~= store.users@);
        }
        Ok(out)
    }

    /// The server carrying `server_id` together with its member views.
    /// Absence of the server is `Ok(None)`; a server with zero members
    /// is present with an empty member list, not absent. Never fails.
    pub fn get_server_with_members(&self, store: &Store, server_id: i32) -> (r: Result<
        Option<ServerWithMembersResponse>,
        StoreError,
    >)
        requires
            store.wf(),
        ensures
            match r {
                Ok(Some(resp)) => {
                    &&& store.contains_server(server_id)
                    &&& resp.server == store.server_with_id(server_id)
                    &&& resp.members@ == spec_server_members(*store, server_id)
                },
                Ok(None) => !store.contains_server(server_id),
                Err(_) => false,
            },
    {
        let server = match self.find_by_id(store, server_id) {
            Ok(Some(s)) => s,
            Ok(None) => {
                return Ok(None);
            },
            Err(e) => {
                return Err(e);
            },
        };
        match self.get_server_members(store, server_id) {
            Ok(members) => Ok(Some(ServerWithMembersResponse { server, members })),
            Err(e) => Err(e),
        }
    }
}

} // verus!
