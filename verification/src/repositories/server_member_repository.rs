//! Persistence for server memberships: rows keyed by the composite
//! `(server_id, user_id)`, with both sides required to exist at insert
//! time, nickname updates, and membership queries.

use crate::models::server_member::{NewServerMember, ServerMember};
use crate::store::{
    dup_server_member, find_server_by_id, find_server_member, find_user_by_id, lemma_filter_push,
    lemma_server_member_at_index, unchanged_except_server_members, KeyField, Store, StoreError,
};
use vstd::pervasive::VecAdditionalExecFns;
use vstd::prelude::*;

verus! {

/// The membership rows of `server_id`, as a predicate on rows.
pub open spec fn member_of_server(server_id: i32) -> spec_fn(ServerMember) -> bool {
    |m: ServerMember| m.server_id == server_id
}

/// The membership rows of `user_id`, as a predicate on rows.
pub open spec fn memberships_of_user(user_id: i32) -> spec_fn(ServerMember) -> bool {
    |m: ServerMember| m.user_id == user_id
}

#[derive(Clone)]
pub struct ServerMemberRepository {}

impl ServerMemberRepository {
    pub fn new() -> (r: ServerMemberRepository) {
        ServerMemberRepository {}
    }

    /// Inserts a membership row with a fresh join timestamp. The pair
    /// must be new and both the server and the user must exist; the
    /// store is untouched on any failure.
    pub fn create(&self, store: &mut Store, new_server_member: NewServerMember) -> (r: Result<
        ServerMember,
        StoreError,
    >)
        requires
            old(store).wf(),
        ensures
            final(store).wf(),
            match r {
                Ok(member) => {
                    &&& !old(store).is_server_member(
                        new_server_member.server_id,
                        new_server_member.user_id,
                    )
                    &&& old(store).contains_server(new_server_member.server_id)
                    &&& old(store).contains_user(new_server_member.user_id)
                    &&& old(store).can_insert_server_member()
                    &&& member == (ServerMember {
                        server_id: new_server_member.server_id,
                        user_id: new_server_member.user_id,
                        nickname: new_server_member.nickname,
                        joined_at: old(store).clock,
                    })
                    &&& final(store).server_members@ == old(store).server_members@.push(member)
                    &&& final(store).clock == old(store).clock + 1
                    &&& unchanged_except_server_members(*old(store), *final(store))
                },
                Err(e) => {
                    &&& *final(store) == *old(store)
                    &&& match e {
                        StoreError::DuplicateKey(KeyField::Composite) => old(
                            store,
                        ).is_server_member(new_server_member.server_id, new_server_member.user_id),
                        StoreError::StoreFailure => {
                            &&& !old(store).is_server_member(
                                new_server_member.server_id,
                                new_server_member.user_id,
                            )
                            &&& (!old(store).contains_server(new_server_member.server_id) || !old(
                                store,
                            ).contains_user(new_server_member.user_id) || !old(
                                store,
                            ).can_insert_server_member())
                        },
                        _ => false,
                    }
                },
            },
    {
        if find_server_member(
            &store.server_members,
            new_server_member.server_id,
            new_server_member.user_id,
        ).is_some() {
            return Err(StoreError::DuplicateKey(KeyField::Composite));
        }
        if find_server_by_id(&store.servers, new_server_member.server_id).is_none() {
            return Err(StoreError::StoreFailure);
        }
        if find_user_by_id(&store.users, new_server_member.user_id).is_none() {
            return Err(StoreError::StoreFailure);
        }
        if store.clock == i64::MAX || store.server_members.len() + 1 >= (i32::MAX as usize) {
            return Err(StoreError::StoreFailure);
        }
        let member = ServerMember {
            server_id: new_server_member.server_id,
            user_id: new_server_member.user_id,
            nickname: new_server_member.nickname,
            joined_at: store.clock,
        };
        let created = dup_server_member(&member);
        store.server_members.push(member);
        store.clock = store.clock + 1;
        Ok(created)
    }

    /// The membership row for `(server_id, user_id)`, if any. Never
    /// fails.
    pub fn find_by_id(&self, store: &Store, server_id: i32, user_id: i32) -> (r: Result<
        Option<ServerMember>,
        StoreError,
    >)
        requires
            store.wf(),
        ensures
            match r {
                Ok(Some(m)) => store.is_server_member(server_id, user_id) && m
                    == store.server_member_row(server_id, user_id),
                Ok(None) => !store.is_server_member(server_id, user_id),
                Err(_) => false,
            },
    {
        match find_server_member(&store.server_members, server_id, user_id) {
            Some(i) => {
                proof {
                    lemma_server_member_at_index(*store, i as int);
                }
                Ok(Some(dup_server_member(&store.server_members[i])))
            },
            None => Ok(None),
        }
    }

    /// The membership rows of `server_id`, in table order. Never fails.
    pub fn find_by_server(&self, store: &Store, server_id: i32) -> (r: Result<
        Vec<ServerMember>,
        StoreError,
    >)
        requires
            store.wf(),
        ensures
            match r {
                Ok(v) => v@ == store.server_members@.filter(member_of_server(server_id)),
                Err(_) => false,
            },
    {
        let mut out: Vec<ServerMember> = Vec::new();
        let mut i: usize = 0;
        proof {
            assert(store.server_members@.take(0) =~= Seq::<ServerMember>::empty());
            reveal(Seq::filter);
        }
        while i < store.server_members.len()
            invariant
                i <= store.server_members@.len(),
                out@ == store.server_members@.take(i as int).filter(member_of_server(server_id)),
            decreases store.server_members@.len() - i,
        {
            proof {
                assert(store.server_members@.take(i + 1) =~= store.server_members@.take(
                    i as int,
                ).push(store.server_members@[i as int]));
                lemma_filter_push(
                    store.server_members@.take(i as int),
                    member_of_server(server_id),
                    store.server_members@[i as int],
                );
            }
            if store.server_members[i].server_id == server_id {
                out.push(dup_server_member(&store.server_members[i]));
            }
            i = i + 1;
        }
        proof {
            assert(store.server_members@.take(store.server_members@.len() as int)
                =~= store.server_members@);
        }
        Ok(out)
    }

    /// The membership rows of `user_id`, in table order. Never fails.
    pub fn find_by_user(&self, store: &Store, user_id: i32) -> (r: Result<
        Vec<ServerMember>,
        StoreError,
    >)
        requires
            store.wf(),
        ensures
            match r {
                Ok(v) => v@ == store.server_members@.filter(memberships_of_user(user_id)),
                Err(_) => false,
            },
    {
        let mut out: Vec<ServerMember> = Vec::new();
        let mut i: usize = 0;
        proof {
            assert(store.server_members@.take(0) =~= Seq::<ServerMember>::empty());
            reveal(Seq::filter);
        }
        while i < store.server_members.len()
            invariant
                i <= store.server_members@.len(),
                out@ == store.server_members@.take(i as int).filter(memberships_of_user(user_id)),
            decreases store.server_members@.len() - i,
        {
            proof {
                assert(store.server_members@.take(i + 1) =~= store.server_members@.take(
                    i as int,
                ).push(store.server_members@[i as int]));
                lemma_filter_push(
                    store.server_members@.take(i as int),
                    memberships_of_user(user_id),
                    store.server_members@[i as int],
                );
            }
            if store.server_members[i].user_id == user_id {
                out.push(dup_server_member(&store.server_members[i]));
            }
            i = i + 1;
        }
        proof {
            assert(store.server_members@.take(store.server_members@.len() as int)
                =~= store.server_members@);
        }
        Ok(out)
    }

    /// Replaces the nickname of the membership row for
    /// `(server_id, user_id)`; the join timestamp is kept and no
    /// update timestamp exists on this table. The store is untouched
    /// when the row is missing.
    pub fn update_nickname(
        &self,
        store: &mut Store,
        server_id: i32,
        user_id: i32,
        nickname: Option<String>,
    ) -> (r: Result<ServerMember, StoreError>)
        requires
            old(store).wf(),
        ensures
            final(store).wf(),
            match r {
                Ok(updated) => {
                    &&& old(store).is_server_member(server_id, user_id)
                    &&& updated == (ServerMember {
                        server_id,
                        user_id,
                        nickname,
                        joined_at: old(store).server_member_row(server_id, user_id).joined_at,
                    })
                    &&& final(store).server_members@ == old(store).server_members@.update(
                        old(store).server_member_index(server_id, user_id),
                        updated,
                    )
                    &&& final(store).clock == old(store).clock
                    &&& unchanged_except_server_members(*old(store), *final(store))
                },
                Err(e) => {
                    &&& *final(store) == *old(store)
                    &&& e == StoreError::NotFound
                    &&& !old(store).is_server_member(server_id, user_id)
                },
            },
    {
        let idx = match find_server_member(&store.server_members, server_id, user_id) {
            Some(i) => i,
            None => {
                return Err(StoreError::NotFound);
            },
        };
        proof {
            lemma_server_member_at_index(*store, idx as int);
        }
        let updated = ServerMember {
            server_id,
            user_id,
            nickname,
            joined_at: store.server_members[idx].joined_at,
        };
        let returned = dup_server_member(&updated);
        store.server_members.set(idx, updated);
        proof {
            assert forall|i: int, j: int|
                0 <= i < j < store.server_members@.len() implies !(
            #[trigger] store.server_members@[i].server_id == #[trigger] store.server_members@[j].server_id
                && store.server_members@[i].user_id == store.server_members@[j].user_id) by {
                assert((old(store).server_members@[i].server_id == server_id && old(
                    store,
                ).server_members@[i].user_id == user_id) ==> i == idx);
                assert((old(store).server_members@[j].server_id == server_id && old(
                    store,
                ).server_members@[j].user_id == user_id) ==> j == idx);
            }
        }
        Ok(returned)
    }

    /// Removes the membership row for `(server_id, user_id)` and says
    /// whether a row was actually removed; absence is `Ok(false)`,
    /// never an error.
    pub fn delete(&self, store: &mut Store, server_id: i32, user_id: i32) -> (r: Result<
        bool,
        StoreError,
    >)
        requires
            old(store).wf(),
        ensures
            final(store).wf(),
            match r {
                Ok(true) => {
                    &&& old(store).is_server_member(server_id, user_id)
                    &&& final(store).server_members@ == old(store).server_members@.remove(
                        old(store).server_member_index(server_id, user_id),
                    )
                    &&& final(store).clock == old(store).clock
                    &&& unchanged_except_server_members(*old(store), *final(store))
                },
                Ok(false) => !old(store).is_server_member(server_id, user_id) && *final(store)
                    == *old(store),
                Err(_) => false,
            },
    {
        match find_server_member(&store.server_members, server_id, user_id) {
            Some(i) => {
                proof {
                    lemma_server_member_at_index(*store, i as int);
                }
                store.server_members.remove(i);
                Ok(true)
            },
            None => Ok(false),
        }
    }

    /// Whether `(server_id, user_id)` is a membership row. Never fails.
    pub fn is_member(&self, store: &Store, server_id: i32, user_id: i32) -> (r: Result<
        bool,
        StoreError,
    >)
        requires
            store.wf(),
        ensures
            r == Ok::<bool, StoreError>(store.is_server_member(server_id, user_id)),
    {
        Ok(find_server_member(&store.server_members, server_id, user_id).is_some())
    }

    /// How many membership rows `server_id` has. Never fails.
    pub fn count_members(&self, store: &Store, server_id: i32) -> (r: Result<i64, StoreError>)
        requires
            store.wf(),
        ensures
            match r {
                Ok(n) => n == store.server_members@.filter(member_of_server(server_id)).len(),
                Err(_) => false,
            },
    {
        let mut count: usize = 0;
        let mut i: usize = 0;
        proof {
            assert(store.server_members@.take(0) =~= Seq::<ServerMember>::empty());
            reveal(Seq::filter);
        }
        while i < store.server_members.len()
            invariant
                i <= store.server_members@.len(),
                count <= i,
                count == store.server_members@.take(i as int).filter(
                    member_of_server(server_id),
                ).len(),
            decreases store.server_members@.len() - i,
        {
            proof {
                assert(store.server_members@.take(i + 1) =~= store.server_members@.take(
                    i as int,
                ).push(store.server_members@[i as int]));
                lemma_filter_push(
                    store.server_members@.take(i as int),
                    member_of_server(server_id),
                    store.server_members@[i as int],
                );
            }
            if store.server_members[i].server_id == server_id {
                count = count + 1;
            }
            i = i + 1;
        }
        proof {
            assert(store.server_members@.take(store.server_members@.len() as int)
                =~= store.server_members@);
        }
        Ok(count as i64)
    }
}

} // verus!
