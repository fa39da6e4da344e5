//! Persistence for channels: creation under the type/column rules,
//! lookups, the name-ordered listing per server, the direct-message
//! channel listing per user, renames, deletion, the message-joined
//! projection, and the standalone direct-message membership
//! operations.

use crate::models::channel::{Channel, NewChannel};
use crate::models::direct_message_member::DirectMessageMember;
use crate::models::response_types::ChannelWithMessagesResponse;
use crate::order::{insert_sorted, lemma_insert_sorted_at, lex_le, sort_by_key, str_le};
use crate::repositories::message_repository::{recent_messages_with_authors, MessageRepository};
use crate::store::{
    dm_channel_type, dup_channel, find_channel_by_id, find_dm_member_row, find_server_by_id,
    find_user_by_id, is_dm_type, is_standard_type, lemma_channel_at_index,
    lemma_channel_types_distinct, lemma_filter_push, standard_channel_type,
    unchanged_except_channels, unchanged_except_dm_members, Store, StoreError,
};
use vstd::pervasive::VecAdditionalExecFns;
use vstd::prelude::*;
use vstd::utf8::encode_utf8;

verus! {

/// The UTF-8 bytes of a channel's name, the sort key of
/// `find_by_server`.
pub open spec fn channel_name_bytes(c: Channel) -> Seq<u8> {
    encode_utf8(c.name@)
}

/// `channel_name_bytes` as a key function for the ordering machinery.
pub open spec fn channel_name_key() -> spec_fn(Channel) -> Seq<u8> {
    |c: Channel| channel_name_bytes(c)
}

/// The channels attached to `server_id`, as a predicate on rows.
pub open spec fn in_server(server_id: i32) -> spec_fn(Channel) -> bool {
    |c: Channel| c.server_id == Some(server_id)
}

/// The dm-typed channels that `user_id` belongs to through `members`,
/// as a predicate on rows.
pub open spec fn dm_of_user(members: Seq<DirectMessageMember>, user_id: i32) -> spec_fn(
    Channel,
) -> bool {
    |c: Channel|
        c.channel_type@ == dm_channel_type() && exists|k: int|
            0 <= k < members.len() && members[k].channel_id == c.channel_id && members[k].user_id
                == user_id
}

/// What the store demands of a new channel row: a known type value,
/// `server_id` absent exactly on the dm type, and an existing server
/// otherwise.
pub open spec fn new_channel_ok(s: Store, nc: NewChannel) -> bool {
    &&& (nc.channel_type@ == dm_channel_type() || nc.channel_type@ == standard_channel_type())
    &&& (nc.server_id is None <==> nc.channel_type@ == dm_channel_type())
    &&& (nc.server_id matches Some(sid) ==> s.contains_server(sid))
}

pub struct ChannelRepository {
    pub message_repository: Option<MessageRepository>,
}

impl ChannelRepository {
    pub fn new() -> (r: ChannelRepository)
        ensures
            r.message_repository is None,
    {
        ChannelRepository { message_repository: None }
    }

    pub fn with_message_repository(message_repository: MessageRepository) -> (r: ChannelRepository)
        ensures
            r.message_repository is Some,
    {
        ChannelRepository { message_repository: Some(message_repository) }
    }

    /// Inserts a channel with a fresh id and creation timestamp. The
    /// row must satisfy the type rules and reference an existing
    /// server when it has one; the store is untouched on any failure.
    pub fn create(&self, store: &mut Store, new_channel: NewChannel) -> (r: Result<
        Channel,
        StoreError,
    >)
        requires
            old(store).wf(),
        ensures
            final(store).wf(),
            match r {
                Ok(channel) => {
                    &&& new_channel_ok(*old(store), new_channel)
                    &&& old(store).can_insert_channel()
                    &&& channel == (Channel {
                        channel_id: old(store).next_channel_id,
                        server_id: new_channel.server_id,
                        name: new_channel.name,
                        channel_type: new_channel.channel_type,
                        created_at: old(store).clock,
                        updated_at: None,
                    })
                    &&& final(store).channels@ == old(store).channels@.push(channel)
                    &&& final(store).next_channel_id == old(store).next_channel_id + 1
                    &&& final(store).clock == old(store).clock + 1
                    &&& unchanged_except_channels(*old(store), *final(store))
                },
                Err(e) => {
                    &&& *final(store) == *old(store)
                    &&& e == StoreError::StoreFailure
                    &&& (!new_channel_ok(*old(store), new_channel) || !old(
                        store,
                    ).can_insert_channel())
                },
            },
    {
        let is_dm = is_dm_type(&new_channel.channel_type);
        if !is_dm && !is_standard_type(&new_channel.channel_type) {
            return Err(StoreError::StoreFailure);
        }
        match new_channel.server_id {
            None => {
                if !is_dm {
                    return Err(StoreError::StoreFailure);
                }
            },
            Some(sid) => {
                if is_dm {
                    proof {
                        lemma_channel_types_distinct();
                    }
                    return Err(StoreError::StoreFailure);
                }
                if find_server_by_id(&store.servers, sid).is_none() {
                    return Err(StoreError::StoreFailure);
                }
            },
        }
        if store.next_channel_id == i32::MAX || store.clock == i64::MAX {
            return Err(StoreError::StoreFailure);
        }
        let channel = Channel {
            channel_id: store.next_channel_id,
            server_id: new_channel.server_id,
            name: new_channel.name,
            channel_type: new_channel.channel_type,
            created_at: store.clock,
            updated_at: None,
        };
        let created = dup_channel(&channel);
        store.channels.push(channel);
        store.next_channel_id = store.next_channel_id + 1;
        store.clock = store.clock + 1;
        Ok(created)
    }

    /// The channel carrying `channel_id`, if any. Never fails.
    pub fn find_by_id(&self, store: &Store, channel_id: i32) -> (r: Result<
        Option<Channel>,
        StoreError,
    >)
        requires
            store.wf(),
        ensures
            match r {
                Ok(Some(c)) => store.contains_channel(channel_id) && c == store.channel_with_id(
                    channel_id,
                ),
                Ok(None) => !store.contains_channel(channel_id),
                Err(_) => false,
            },
    {
        match find_channel_by_id(&store.channels, channel_id) {
            Some(i) => {
                proof {
                    lemma_channel_at_index(*store, i as int);
                }
                Ok(Some(dup_channel(&store.channels[i])))
            },
            None => Ok(None),
        }
    }

    /// The channels of `server_id`, ordered by name ascending
    /// (byte-wise on the UTF-8 encoding). Never fails.
    pub fn find_by_server(&self, store: &Store, server_id: i32) -> (r: Result<
        Vec<Channel>,
        StoreError,
    >)
        requires
            store.wf(),
        ensures
            match r {
                Ok(v) => v@ == sort_by_key(
                    store.channels@.filter(in_server(server_id)),
                    channel_name_key(),
                ),
                Err(_) => false,
            },
    {
        let mut out: Vec<Channel> = Vec::new();
        let mut i: usize = 0;
        proof {
            assert(store.channels@.take(0) =~= Seq::<Channel>::empty());
            reveal(Seq::filter);
        }
        while i < store.channels.len()
            invariant
                i <= store.channels@.len(),
                out@ == sort_by_key(
                    store.channels@.take(i as int).filter(in_server(server_id)),
                    channel_name_key(),
                ),
            decreases store.channels@.len() - i,
        {
            proof {
                assert(store.channels@.take(i + 1) =~= store.channels@.take(i as int).push(
                    store.channels@[i as int],
                ));
                lemma_filter_push(
                    store.channels@.take(i as int),
                    in_server(server_id),
                    store.channels@[i as int],
                );
                let f = store.channels@.take(i as int).filter(in_server(server_id));
                if in_server(server_id)(store.channels@[i as int]) {
                    assert(f.push(store.channels@[i as int]).drop_last() =~= f);
                    assert(f.push(store.channels@[i as int]).last() == store.channels@[i as int]);
                }
            }
            let keep = match store.channels[i].server_id {
                Some(sid) => sid == server_id,
                None => false,
            };
            if keep {
                let c = dup_channel(&store.channels[i]);
                insert_channel_sorted(&mut out, c);
            }
            i = i + 1;
        }
        proof {
            assert(store.channels@.take(store.channels@.len() as int) =~= store.channels@);
        }
        Ok(out)
    }

    /// The dm-typed channels `user_id` belongs to, in table order.
    /// Never fails.
    pub fn find_direct_message_channels(&self, store: &Store, user_id: i32) -> (r: Result<
        Vec<Channel>,
        StoreError,
    >)
        requires
            store.wf(),
        ensures
            match r {
                Ok(v) => v@ == store.channels@.filter(dm_of_user(store.dm_members@, user_id)),
                Err(_) => false,
            },
    {
        let mut out: Vec<Channel> = Vec::new();
        let mut i: usize = 0;
        proof {
            assert(store.channels@.take(0) =~= Seq::<Channel>::empty());
            reveal(Seq::filter);
        }
        while i < store.channels.len()
            invariant
                i <= store.channels@.len(),
                out@ == store.channels@.take(i as int).filter(
                    dm_of_user(store.dm_members@, user_id),
                ),
            decreases store.channels@.len() - i,
        {
            proof {
                assert(store.channels@.take(i + 1) =~= store.channels@.take(i as int).push(
                    store.channels@[i as int],
                ));
                lemma_filter_push(
                    store.channels@.take(i as int),
                    dm_of_user(store.dm_members@, user_id),
                    store.channels@[i as int],
                );
            }
            if is_dm_type(&store.channels[i].channel_type) && find_dm_member_row(
                &store.dm_members,
                store.channels[i].channel_id,
                user_id,
            ).is_some() {
                out.push(dup_channel(&store.channels[i]));
            }
            i = i + 1;
        }
        proof {
            assert(store.channels@.take(store.channels@.len() as int) =~= store.channels@);
        }
        Ok(out)
    }

    /// Renames the channel carrying `channel_id` and stamps a fresh
    /// `updated_at`; everything else is kept. The store is untouched
    /// on any failure.
    pub fn update(&self, store: &mut Store, channel_id: i32, name: String) -> (r: Result<
        Channel,
        StoreError,
    >)
        requires
            old(store).wf(),
        ensures
            final(store).wf(),
            match r {
                Ok(updated) => {
                    &&& old(store).contains_channel(channel_id)
                    &&& old(store).can_touch()
                    &&& updated == (Channel {
                        channel_id,
                        server_id: old(store).channel_with_id(channel_id).server_id,
                        name,
                        channel_type: old(store).channel_with_id(channel_id).channel_type,
                        created_at: old(store).channel_with_id(channel_id).created_at,
                        updated_at: Some(old(store).clock),
                    })
                    &&& final(store).channels@ == old(store).channels@.update(
                        old(store).channel_index(channel_id),
                        updated,
                    )
                    &&& final(store).next_channel_id == old(store).next_channel_id
                    &&& final(store).clock == old(store).clock + 1
                    &&& unchanged_except_channels(*old(store), *final(store))
                },
                Err(e) => {
                    &&& *final(store) == *old(store)
                    &&& match e {
                        StoreError::NotFound => !old(store).contains_channel(channel_id),
                        StoreError::StoreFailure => old(store).contains_channel(channel_id)
                            && !old(store).can_touch(),
                        _ => false,
                    }
                },
            },
    {
        let idx = match find_channel_by_id(&store.channels, channel_id) {
            Some(i) => i,
            None => {
                return Err(StoreError::NotFound);
            },
        };
        if store.clock == i64::MAX {
            return Err(StoreError::StoreFailure);
        }
        proof {
            lemma_channel_at_index(*store, idx as int);
        }
        let updated = Channel {
            channel_id,
            server_id: store.channels[idx].server_id,
            name,
            channel_type: store.channels[idx].channel_type.clone(),
            created_at: store.channels[idx].created_at,
            updated_at: Some(store.clock),
        };
        let returned = dup_channel(&updated);
        store.channels.set(idx, updated);
        store.clock = store.clock + 1;
        proof {
            assert forall|i: int, j: int|
                0 <= i < j < store.channels@.len() implies #[trigger] store.channels@[i].channel_id
                != #[trigger] store.channels@[j].channel_id by {
                assert(old(store).channels@[i].channel_id == channel_id ==> i == idx);
                assert(old(store).channels@[j].channel_id == channel_id ==> j == idx);
            }
        }
        Ok(returned)
    }

    /// Removes the channel carrying `channel_id` and says whether a
    /// row was actually removed; absence is `Ok(false)`, never an
    /// error. Membership and message rows are left to their own
    /// lifecycle.
    pub fn delete(&self, store: &mut Store, channel_id: i32) -> (r: Result<bool, StoreError>)
        requires
            old(store).wf(),
        ensures
            final(store).wf(),
            match r {
                Ok(true) => {
                    &&& old(store).contains_channel(channel_id)
                    &&& final(store).channels@ == old(store).channels@.remove(
                        old(store).channel_index(channel_id),
                    )
                    &&& final(store).next_channel_id == old(store).next_channel_id
                    &&& final(store).clock == old(store).clock
                    &&& unchanged_except_channels(*old(store), *final(store))
                },
                Ok(false) => !old(store).contains_channel(channel_id) && *final(store) == *old(
                    store,
                ),
                Err(_) => false,
            },
    {
        match find_channel_by_id(&store.channels, channel_id) {
            Some(i) => {
                proof {
                    lemma_channel_at_index(*store, i as int);
                }
                store.channels.remove(i);
                Ok(true)
            },
            None => Ok(false),
        }
    }

    /// The channel carrying `channel_id` together with its most recent
    /// messages and their authors. A repository constructed without a
    /// message sub-component reports `Unconfigured`, which is distinct
    /// from the absence of the channel (`Ok(None)`).
    pub fn get_channel_with_messages(&self, store: &Store, channel_id: i32, limit: i64) -> (r:
        Result<Option<ChannelWithMessagesResponse>, StoreError>)
        requires
            store.wf(),
        ensures
            match r {
                Ok(Some(resp)) => {
                    &&& self.message_repository is Some
                    &&& store.contains_channel(channel_id)
                    &&& limit >= 0
                    &&& resp.channel == store.channel_with_id(channel_id)
                    &&& resp.messages@ == recent_messages_with_authors(
                        store.messages@,
                        *store,
                        channel_id,
                        limit as int,
                    )
                },
                Ok(None) => self.message_repository is Some && !store.contains_channel(channel_id),
                Err(StoreError::Unconfigured) => self.message_repository is None,
                Err(StoreError::StoreFailure) => {
                    &&& self.message_repository is Some
                    &&& store.contains_channel(channel_id)
                    &&& limit < 0
                },
                Err(_) => false,
            },
    {
        let message_repository = match &self.message_repository {
            Some(m) => m,
            None => {
                return Err(StoreError::Unconfigured);
            },
        };
        let channel = match self.find_by_id(store, channel_id) {
            Ok(Some(c)) => c,
            Ok(None) => {
                return Ok(None);
            },
            Err(e) => {
                return Err(e);
            },
        };
        match message_repository.find_by_channel_with_authors(store, channel_id, limit) {
            Ok(messages) => Ok(Some(ChannelWithMessagesResponse { channel, messages })),
            Err(e) => Err(e),
        }
    }

    /// Whether `(channel_id, user_id)` is a direct-message membership
    /// row. Never fails.
    pub fn is_direct_message_member(&self, store: &Store, channel_id: i32, user_id: i32) -> (r:
        Result<bool, StoreError>)
        requires
            store.wf(),
        ensures
            r == Ok::<bool, StoreError>(store.is_dm_member(channel_id, user_id)),
    {
        Ok(find_dm_member_row(&store.dm_members, channel_id, user_id).is_some())
    }

    /// Inserts the direct-message membership row
    /// `(channel_id, user_id)` unless it is already there; an existing
    /// row is left alone and reported as `Ok(false)`. Both sides must
    /// exist for a fresh insert. The store is untouched except for the
    /// inserted row.
    pub fn add_direct_message_member(&self, store: &mut Store, channel_id: i32, user_id: i32) -> (r:
        Result<bool, StoreError>)
        requires
            old(store).wf(),
        ensures
            final(store).wf(),
            match r {
                Ok(true) => {
                    &&& !old(store).is_dm_member(channel_id, user_id)
                    &&& old(store).contains_channel(channel_id)
                    &&& old(store).contains_user(user_id)
                    &&& old(store).can_insert_dm_member()
                    &&& final(store).dm_members@ == old(store).dm_members@.push(
                        (DirectMessageMember { channel_id, user_id }),
                    )
                    &&& final(store).clock == old(store).clock
                    &&& unchanged_except_dm_members(*old(store), *final(store))
                },
                Ok(false) => old(store).is_dm_member(channel_id, user_id) && *final(store) == *old(
                    store,
                ),
                Err(e) => {
                    &&& *final(store) == *old(store)
                    &&& e == StoreError::StoreFailure
                    &&& !old(store).is_dm_member(channel_id, user_id)
                    &&& (!old(store).contains_channel(channel_id) || !old(store).contains_user(
                        user_id,
                    ) || !old(store).can_insert_dm_member())
                },
            },
    {
        if find_dm_member_row(&store.dm_members, channel_id, user_id).is_some() {
            return Ok(false);
        }
        if find_channel_by_id(&store.channels, channel_id).is_none() {
            return Err(StoreError::StoreFailure);
        }
        if find_user_by_id(&store.users, user_id).is_none() {
            return Err(StoreError::StoreFailure);
        }
        if store.dm_members.len() + 1 >= (i32::MAX as usize) {
            return Err(StoreError::StoreFailure);
        }
        store.dm_members.push(DirectMessageMember { channel_id, user_id });
        Ok(true)
    }

    /// Removes the direct-message membership row
    /// `(channel_id, user_id)` and says whether a row was actually
    /// removed; absence is `Ok(false)`, never an error.
    pub fn remove_direct_message_member(
        &self,
        store: &mut Store,
        channel_id: i32,
        user_id: i32,
    ) -> (r: Result<bool, StoreError>)
        requires
            old(store).wf(),
        ensures
            final(store).wf(),
            match r {
                Ok(true) => {
                    &&& old(store).is_dm_member(channel_id, user_id)
                    &&& exists|i: int|
                        {
                            &&& 0 <= i < old(store).dm_members@.len()
                            &&& old(store).dm_members@[i].channel_id == channel_id
                            &&& old(store).dm_members@[i].user_id == user_id
                            &&& final(store).dm_members@ == old(store).dm_members@.remove(i)
                        }
                    &&& final(store).clock == old(store).clock
                    &&& unchanged_except_dm_members(*old(store), *final(store))
                },
                Ok(false) => !old(store).is_dm_member(channel_id, user_id) && *final(store)
                    == *old(store),
                Err(_) => false,
            },
    {
        match find_dm_member_row(&store.dm_members, channel_id, user_id) {
            Some(i) => {
                store.dm_members.remove(i);
                Ok(true)
            },
            None => Ok(false),
        }
    }
}

/// Places `c` into the name-sorted vector `v` at the position the
/// insertion-sort specification prescribes.
fn insert_channel_sorted(v: &mut Vec<Channel>, c: Channel)
    ensures
        final(v)@ == insert_sorted(old(v)@, c, channel_name_key()),
{
    let mut p: usize = 0;
    while p < v.len()
        invariant_except_break
            p <= v@.len(),
            v@ == old(v)@,
            forall|j: int| 0 <= j < p ==> !lex_le(channel_name_bytes(c), channel_name_bytes(v@[j])),
        ensures
            p <= v@.len(),
            v@ == old(v)@,
            forall|j: int| 0 <= j < p ==> !lex_le(channel_name_bytes(c), channel_name_bytes(v@[j])),
            p < v@.len() ==> lex_le(channel_name_bytes(c), channel_name_bytes(v@[p as int])),
        decreases v@.len() - p,
    {
        if str_le(c.name.as_str(), v[p].name.as_str()) {
            break ;
        }
        p = p + 1;
    }
    proof {
        lemma_insert_sorted_at(v@, c, channel_name_key(), p as int);
    }
    v.insert(p, c);
}

} // verus!
