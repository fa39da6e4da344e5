//! The relational state that the repositories read and write, together
//! with its well-formedness invariant and the outcome type shared by
//! every repository operation.
//!
//! The store owns all lifecycle timestamps: `clock` is a logical time
//! that advances on every mutating statement, and `created_at`,
//! `updated_at`, `joined_at` and `edited_at` values are drawn from it.
//! Row identifiers are store-assigned from the `next_*` counters.

use crate::models::channel::Channel;
use crate::models::direct_message_member::DirectMessageMember;
use crate::models::message::Message;
use crate::models::server::Server;
use crate::models::server_member::ServerMember;
use crate::models::user::User;
use vstd::prelude::*;

verus! {

/// Which unique key a `DuplicateKey` outcome violated, so that a
/// handler can choose a field-specific message without inspecting
/// driver error text.
#[derive(Debug, Clone, Copy, PartialEq, Eq, Structural)]
pub enum KeyField {
    Username,
    Email,
    ServerName,
    Composite,
}

/// The outcome taxonomy of a repository operation.
///
/// `NotFound` is expected absence; `DuplicateKey` is a unique-key
/// violation naming the violated key; `StoreFailure` is any other
/// constraint or resource failure that no caller special-cases;
/// `Unconfigured` means a repository was used without a sub-component
/// it needs, which is a caller error, not a runtime error.
#[derive(Debug, Clone, Copy, PartialEq, Eq, Structural)]
pub enum StoreError {
    NotFound,
    DuplicateKey(KeyField),
    StoreFailure,
    Unconfigured,
}

/// The channel type value of a direct-message channel.
pub open spec fn dm_channel_type() -> Seq<char> {
    "dm"@
}

/// The channel type value of an ordinary server channel.
pub open spec fn standard_channel_type() -> Seq<char> {
    "standard"@
}

/// The six tables, the id counters and the logical clock.
pub struct Store {
    pub users: Vec<User>,
    pub servers: Vec<Server>,
    pub server_members: Vec<ServerMember>,
    pub channels: Vec<Channel>,
    pub messages: Vec<Message>,
    pub dm_members: Vec<DirectMessageMember>,
    pub next_user_id: i32,
    pub next_server_id: i32,
    pub next_channel_id: i32,
    pub next_message_id: i32,
    pub clock: i64,
}

impl Store {
    /// Users: ids, usernames and emails are pairwise distinct; every id
    /// was assigned from the counter.
    pub open spec fn users_wf(self) -> bool {
        &&& forall|i: int, j: int|
            #![trigger self.users@[i], self.users@[j]]
            0 <= i < j < self.users@.len() ==> {
                &&& self.users@[i].user_id != self.users@[j].user_id
                &&& self.users@[i].username@ != self.users@[j].username@
                &&& self.users@[i].email@ != self.users@[j].email@
            }
        &&& forall|i: int|
            #![trigger self.users@[i]]
            0 <= i < self.users@.len() ==> 0 < self.users@[i].user_id < self.next_user_id
        &&& self.users@.len() < self.next_user_id
        &&& 0 < self.next_user_id
    }

    /// Servers: ids and names are pairwise distinct; every id was
    /// assigned from the counter.
    pub open spec fn servers_wf(self) -> bool {
        &&& forall|i: int, j: int|
            #![trigger self.servers@[i], self.servers@[j]]
            0 <= i < j < self.servers@.len() ==> {
                &&& self.servers@[i].server_id != self.servers@[j].server_id
                &&& self.servers@[i].server_name@ != self.servers@[j].server_name@
            }
        &&& forall|i: int|
            #![trigger self.servers@[i]]
            0 <= i < self.servers@.len() ==> 0 < self.servers@[i].server_id < self.next_server_id
        &&& self.servers@.len() < self.next_server_id
        &&& 0 < self.next_server_id
    }

    /// Server memberships: the composite key `(server_id, user_id)` is
    /// unique, and the table stays within the store's row budget.
    pub open spec fn server_members_wf(self) -> bool {
        &&& forall|i: int, j: int|
            #![trigger self.server_members@[i], self.server_members@[j]]
            0 <= i < j < self.server_members@.len() ==> !(self.server_members@[i].server_id
                == self.server_members@[j].server_id && self.server_members@[i].user_id
                == self.server_members@[j].user_id)
        &&& self.server_members@.len() < i32::MAX
    }

    /// Channels: ids are pairwise distinct and counter-assigned; the
    /// type column holds one of the two channel types, and `server_id`
    /// is absent exactly on direct-message channels.
    pub open spec fn channels_wf(self) -> bool {
        &&& forall|i: int, j: int|
            #![trigger self.channels@[i], self.channels@[j]]
            0 <= i < j < self.channels@.len() ==> self.channels@[i].channel_id
                != self.channels@[j].channel_id
        &&& forall|i: int|
            #![trigger self.channels@[i]]
            0 <= i < self.channels@.len() ==> {
                &&& 0 < self.channels@[i].channel_id < self.next_channel_id
                &&& (self.channels@[i].channel_type@ == dm_channel_type()
                    || self.channels@[i].channel_type@ == standard_channel_type())
                &&& (self.channels@[i].server_id is None <==> self.channels@[i].channel_type@
                    == dm_channel_type())
            }
        &&& self.channels@.len() < self.next_channel_id
        &&& 0 < self.next_channel_id
    }

    /// Messages: ids are pairwise distinct and counter-assigned, and
    /// the table is strictly ordered by creation time, which is always
    /// in the clock's past.
    pub open spec fn messages_wf(self) -> bool {
        &&& forall|i: int, j: int|
            #![trigger self.messages@[i], self.messages@[j]]
            0 <= i < j < self.messages@.len() ==> {
                &&& self.messages@[i].message_id != self.messages@[j].message_id
                &&& self.messages@[i].created_at < self.messages@[j].created_at
            }
        &&& forall|i: int|
            #![trigger self.messages@[i]]
            0 <= i < self.messages@.len() ==> {
                &&& 0 < self.messages@[i].message_id < self.next_message_id
                &&& self.messages@[i].created_at < self.clock
            }
        &&& self.messages@.len() < self.next_message_id
        &&& 0 < self.next_message_id
    }

    /// Direct-message memberships: the composite key
    /// `(channel_id, user_id)` is unique, every referenced channel id
    /// was assigned from the channel counter, and the table stays
    /// within the store's row budget.
    pub open spec fn dm_members_wf(self) -> bool {
        &&& forall|i: int, j: int|
            #![trigger self.dm_members@[i], self.dm_members@[j]]
            0 <= i < j < self.dm_members@.len() ==> !(self.dm_members@[i].channel_id
                == self.dm_members@[j].channel_id && self.dm_members@[i].user_id
                == self.dm_members@[j].user_id)
        &&& forall|i: int|
            #![trigger self.dm_members@[i]]
            0 <= i < self.dm_members@.len() ==> 0 < self.dm_members@[i].channel_id
                < self.next_channel_id
        &&& self.dm_members@.len() < i32::MAX
    }

    /// Well-formedness of the whole store. Every repository operation
    /// requires it and preserves it.
    pub open spec fn wf(self) -> bool {
        &&& self.users_wf()
        &&& self.servers_wf()
        &&& self.server_members_wf()
        &&& self.channels_wf()
        &&& self.messages_wf()
        &&& self.dm_members_wf()
        &&& 0 <= self.clock
    }

    /// A fresh user id and a fresh timestamp are available.
    pub open spec fn can_insert_user(self) -> bool {
        self.next_user_id < i32::MAX && self.clock < i64::MAX
    }

    /// A fresh server id and a fresh timestamp are available.
    pub open spec fn can_insert_server(self) -> bool {
        self.next_server_id < i32::MAX && self.clock < i64::MAX
    }

    /// A fresh channel id and a fresh timestamp are available.
    pub open spec fn can_insert_channel(self) -> bool {
        self.next_channel_id < i32::MAX && self.clock < i64::MAX
    }

    /// A fresh message id and a fresh timestamp are available.
    pub open spec fn can_insert_message(self) -> bool {
        self.next_message_id < i32::MAX && self.clock < i64::MAX
    }

    /// A fresh timestamp is available for a mutation of existing rows.
    pub open spec fn can_touch(self) -> bool {
        self.clock < i64::MAX
    }

    /// A membership row and its timestamp can still be inserted.
    pub open spec fn can_insert_server_member(self) -> bool {
        self.clock < i64::MAX && self.server_members@.len() + 1 < i32::MAX
    }

    /// One more direct-message membership row can still be inserted.
    pub open spec fn can_insert_dm_member(self) -> bool {
        self.dm_members@.len() + 1 < i32::MAX
    }

    /// A direct-message channel and its two membership rows can still
    /// be inserted.
    pub open spec fn can_insert_dm_channel(self) -> bool {
        self.next_channel_id < i32::MAX && self.clock < i64::MAX && self.dm_members@.len() + 2
            < i32::MAX
    }

    pub open spec fn contains_user(self, user_id: i32) -> bool {
        exists|i: int| 0 <= i < self.users@.len() && self.users@[i].user_id == user_id
    }

    /// The index of the user carrying `user_id`; meaningful only when
    /// `contains_user(user_id)` holds of a well-formed store.
    pub open spec fn user_index(self, user_id: i32) -> int {
        choose|i: int| 0 <= i < self.users@.len() && self.users@[i].user_id == user_id
    }

    /// The unique user carrying `user_id`; meaningful only when
    /// `contains_user(user_id)` holds of a well-formed store.
    pub open spec fn user_with_id(self, user_id: i32) -> User {
        self.users@[self.user_index(user_id)]
    }

    pub open spec fn username_taken(self, username: Seq<char>) -> bool {
        exists|i: int| 0 <= i < self.users@.len() && self.users@[i].username@ == username
    }

    /// The unique user carrying `username`; meaningful only when
    /// `username_taken(username)` holds of a well-formed store.
    pub open spec fn user_with_username(self, username: Seq<char>) -> User {
        self.users@[choose|i: int|
            0 <= i < self.users@.len() && self.users@[i].username@ == username]
    }

    pub open spec fn email_taken(self, email: Seq<char>) -> bool {
        exists|i: int| 0 <= i < self.users@.len() && self.users@[i].email@ == email
    }

    /// The unique user carrying `email`; meaningful only when
    /// `email_taken(email)` holds of a well-formed store.
    pub open spec fn user_with_email(self, email: Seq<char>) -> User {
        self.users@[choose|i: int|
            0 <= i < self.users@.len() && self.users@[i].email@ == email]
    }

    /// Some user other than `user_id` already carries `username`.
    pub open spec fn username_taken_by_other(self, username: Seq<char>, user_id: i32) -> bool {
        exists|i: int|
            0 <= i < self.users@.len() && self.users@[i].username@ == username
                && self.users@[i].user_id != user_id
    }

    /// Some user other than `user_id` already carries `email`.
    pub open spec fn email_taken_by_other(self, email: Seq<char>, user_id: i32) -> bool {
        exists|i: int|
            0 <= i < self.users@.len() && self.users@[i].email@ == email && self.users@[i].user_id
                != user_id
    }

    pub open spec fn contains_server(self, server_id: i32) -> bool {
        exists|i: int| 0 <= i < self.servers@.len() && self.servers@[i].server_id == server_id
    }

    /// The index of the server carrying `server_id`; meaningful only
    /// when `contains_server(server_id)` holds of a well-formed store.
    pub open spec fn server_index(self, server_id: i32) -> int {
        choose|i: int| 0 <= i < self.servers@.len() && self.servers@[i].server_id == server_id
    }

    /// The unique server carrying `server_id`; meaningful only when
    /// `contains_server(server_id)` holds of a well-formed store.
    pub open spec fn server_with_id(self, server_id: i32) -> Server {
        self.servers@[self.server_index(server_id)]
    }

    pub open spec fn server_name_taken(self, server_name: Seq<char>) -> bool {
        exists|i: int| 0 <= i < self.servers@.len() && self.servers@[i].server_name@ == server_name
    }

    /// Some server other than `server_id` already carries `server_name`.
    pub open spec fn server_name_taken_by_other(
        self,
        server_name: Seq<char>,
        server_id: i32,
    ) -> bool {
        exists|i: int|
            0 <= i < self.servers@.len() && self.servers@[i].server_name@ == server_name
                && self.servers@[i].server_id != server_id
    }

    pub open spec fn contains_channel(self, channel_id: i32) -> bool {
        exists|i: int| 0 <= i < self.channels@.len() && self.channels@[i].channel_id == channel_id
    }

    /// The index of the channel carrying `channel_id`; meaningful only
    /// when `contains_channel(channel_id)` holds of a well-formed store.
    pub open spec fn channel_index(self, channel_id: i32) -> int {
        choose|i: int| 0 <= i < self.channels@.len() && self.channels@[i].channel_id == channel_id
    }

    /// The unique channel carrying `channel_id`; meaningful only when
    /// `contains_channel(channel_id)` holds of a well-formed store.
    pub open spec fn channel_with_id(self, channel_id: i32) -> Channel {
        self.channels@[self.channel_index(channel_id)]
    }

    /// A dm-typed channel carrying `channel_id` exists.
    pub open spec fn contains_dm_channel(self, channel_id: i32) -> bool {
        exists|i: int|
            0 <= i < self.channels@.len() && self.channels@[i].channel_id == channel_id
                && self.channels@[i].channel_type@ == dm_channel_type()
    }

    pub open spec fn contains_message(self, message_id: i32) -> bool {
        exists|i: int| 0 <= i < self.messages@.len() && self.messages@[i].message_id == message_id
    }

    /// The index of the message carrying `message_id`; meaningful only
    /// when `contains_message(message_id)` holds of a well-formed store.
    pub open spec fn message_index(self, message_id: i32) -> int {
        choose|i: int| 0 <= i < self.messages@.len() && self.messages@[i].message_id == message_id
    }

    /// The unique message carrying `message_id`; meaningful only when
    /// `contains_message(message_id)` holds of a well-formed store.
    pub open spec fn message_with_id(self, message_id: i32) -> Message {
        self.messages@[self.message_index(message_id)]
    }

    pub open spec fn is_server_member(self, server_id: i32, user_id: i32) -> bool {
        exists|i: int|
            0 <= i < self.server_members@.len() && self.server_members@[i].server_id == server_id
                && self.server_members@[i].user_id == user_id
    }

    /// The index of the membership row for `(server_id, user_id)`;
    /// meaningful only when `is_server_member` holds of a well-formed
    /// store.
    pub open spec fn server_member_index(self, server_id: i32, user_id: i32) -> int {
        choose|i: int|
            0 <= i < self.server_members@.len() && self.server_members@[i].server_id == server_id
                && self.server_members@[i].user_id == user_id
    }

    /// The unique membership row for `(server_id, user_id)`; meaningful
    /// only when `is_server_member` holds of a well-formed store.
    pub open spec fn server_member_row(self, server_id: i32, user_id: i32) -> ServerMember {
        self.server_members@[self.server_member_index(server_id, user_id)]
    }

    pub open spec fn is_dm_member(self, channel_id: i32, user_id: i32) -> bool {
        exists|i: int|
            0 <= i < self.dm_members@.len() && self.dm_members@[i].channel_id == channel_id
                && self.dm_members@[i].user_id == user_id
    }

    /// An empty store: no rows, counters at one, clock at zero.
    pub fn new() -> (s: Store)
        ensures
            s.wf(),
            s.users@.len() == 0,
            s.servers@.len() == 0,
            s.server_members@.len() == 0,
            s.channels@.len() == 0,
            s.messages@.len() == 0,
            s.dm_members@.len() == 0,
            s.next_user_id == 1,
            s.next_server_id == 1,
            s.next_channel_id == 1,
            s.next_message_id == 1,
            s.clock == 0,
    {
        Store {
            users: Vec::new(),
            servers: Vec::new(),
            server_members: Vec::new(),
            channels: Vec::new(),
            messages: Vec::new(),
            dm_members: Vec::new(),
            next_user_id: 1,
            next_server_id: 1,
            next_channel_id: 1,
            next_message_id: 1,
            clock: 0,
        }
    }
}

/// Everything is unchanged except possibly the users table, its id
/// counter and the clock.
pub open spec fn unchanged_except_users(pre: Store, post: Store) -> bool {
    &&& post.servers == pre.servers
    &&& post.server_members == pre.server_members
    &&& post.channels == pre.channels
    &&& post.messages == pre.messages
    &&& post.dm_members == pre.dm_members
    &&& post.next_server_id == pre.next_server_id
    &&& post.next_channel_id == pre.next_channel_id
    &&& post.next_message_id == pre.next_message_id
}

/// Everything is unchanged except possibly the servers table, its id
/// counter and the clock.
pub open spec fn unchanged_except_servers(pre: Store, post: Store) -> bool {
    &&& post.users == pre.users
    &&& post.server_members == pre.server_members
    &&& post.channels == pre.channels
    &&& post.messages == pre.messages
    &&& post.dm_members == pre.dm_members
    &&& post.next_user_id == pre.next_user_id
    &&& post.next_channel_id == pre.next_channel_id
    &&& post.next_message_id == pre.next_message_id
}

/// Everything is unchanged except possibly the membership table and
/// the clock.
pub open spec fn unchanged_except_server_members(pre: Store, post: Store) -> bool {
    &&& post.users == pre.users
    &&& post.servers == pre.servers
    &&& post.channels == pre.channels
    &&& post.messages == pre.messages
    &&& post.dm_members == pre.dm_members
    &&& post.next_user_id == pre.next_user_id
    &&& post.next_server_id == pre.next_server_id
    &&& post.next_channel_id == pre.next_channel_id
    &&& post.next_message_id == pre.next_message_id
}

/// Everything is unchanged except possibly the channels table, its id
/// counter and the clock.
pub open spec fn unchanged_except_channels(pre: Store, post: Store) -> bool {
    &&& post.users == pre.users
    &&& post.servers == pre.servers
    &&& post.server_members == pre.server_members
    &&& post.messages == pre.messages
    &&& post.dm_members == pre.dm_members
    &&& post.next_user_id == pre.next_user_id
    &&& post.next_server_id == pre.next_server_id
    &&& post.next_message_id == pre.next_message_id
}

/// Everything is unchanged except possibly the messages table, its id
/// counter and the clock.
pub open spec fn unchanged_except_messages(pre: Store, post: Store) -> bool {
    &&& post.users == pre.users
    &&& post.servers == pre.servers
    &&& post.server_members == pre.server_members
    &&& post.channels == pre.channels
    &&& post.dm_members == pre.dm_members
    &&& post.next_user_id == pre.next_user_id
    &&& post.next_server_id == pre.next_server_id
    &&& post.next_channel_id == pre.next_channel_id
}

/// Everything is unchanged except possibly the direct-message
/// membership table and the clock.
pub open spec fn unchanged_except_dm_members(pre: Store, post: Store) -> bool {
    &&& post.users == pre.users
    &&& post.servers == pre.servers
    &&& post.server_members == pre.server_members
    &&& post.channels == pre.channels
    &&& post.messages == pre.messages
    &&& post.next_user_id == pre.next_user_id
    &&& post.next_server_id == pre.next_server_id
    &&& post.next_channel_id == pre.next_channel_id
    &&& post.next_message_id == pre.next_message_id
}

/// In a well-formed store, the user at index `i` is the one that
/// `user_with_id` denotes for its id.
pub proof fn lemma_user_at_index(s: Store, i: int)
    requires
        s.wf(),
        0 <= i < s.users@.len(),
    ensures
        s.contains_user(s.users@[i].user_id),
        s.user_index(s.users@[i].user_id) == i,
        s.user_with_id(s.users@[i].user_id) == s.users@[i],
{
    let id = s.users@[i].user_id;
    assert(s.contains_user(id));
    let j = choose|j: int| 0 <= j < s.users@.len() && s.users@[j].user_id == id;
    if i < j {
        assert(s.users@[i].user_id != s.users@[j].user_id);
    } else if j < i {
        assert(s.users@[j].user_id != s.users@[i].user_id);
    }
}

/// In a well-formed store, the user at index `i` is the one that
/// `user_with_username` denotes for its username.
pub proof fn lemma_user_at_index_username(s: Store, i: int)
    requires
        s.wf(),
        0 <= i < s.users@.len(),
    ensures
        s.username_taken(s.users@[i].username@),
        s.user_with_username(s.users@[i].username@) == s.users@[i],
{
    let name = s.users@[i].username@;
    assert(s.username_taken(name));
    let j = choose|j: int| 0 <= j < s.users@.len() && s.users@[j].username@ == name;
    if i < j {
        assert(s.users@[i].username@ != s.users@[j].username@);
    } else if j < i {
        assert(s.users@[j].username@ != s.users@[i].username@);
    }
}

/// In a well-formed store, the user at index `i` is the one that
/// `user_with_email` denotes for its email.
pub proof fn lemma_user_at_index_email(s: Store, i: int)
    requires
        s.wf(),
        0 <= i < s.users@.len(),
    ensures
        s.email_taken(s.users@[i].email@),
        s.user_with_email(s.users@[i].email@) == s.users@[i],
{
    let email = s.users@[i].email@;
    assert(s.email_taken(email));
    let j = choose|j: int| 0 <= j < s.users@.len() && s.users@[j].email@ == email;
    if i < j {
        assert(s.users@[i].email@ != s.users@[j].email@);
    } else if j < i {
        assert(s.users@[j].email@ != s.users@[i].email@);
    }
}

/// In a well-formed store, the server at index `i` is the one that
/// `server_with_id` denotes for its id.
pub proof fn lemma_server_at_index(s: Store, i: int)
    requires
        s.wf(),
        0 <= i < s.servers@.len(),
    ensures
        s.contains_server(s.servers@[i].server_id),
        s.server_index(s.servers@[i].server_id) == i,
        s.server_with_id(s.servers@[i].server_id) == s.servers@[i],
{
    let id = s.servers@[i].server_id;
    assert(s.contains_server(id));
    let j = choose|j: int| 0 <= j < s.servers@.len() && s.servers@[j].server_id == id;
    if i < j {
        assert(s.servers@[i].server_id != s.servers@[j].server_id);
    } else if j < i {
        assert(s.servers@[j].server_id != s.servers@[i].server_id);
    }
}

/// In a well-formed store, the channel at index `i` is the one that
/// `channel_with_id` denotes for its id.
pub proof fn lemma_channel_at_index(s: Store, i: int)
    requires
        s.wf(),
        0 <= i < s.channels@.len(),
    ensures
        s.contains_channel(s.channels@[i].channel_id),
        s.channel_index(s.channels@[i].channel_id) == i,
        s.channel_with_id(s.channels@[i].channel_id) == s.channels@[i],
{
    let id = s.channels@[i].channel_id;
    assert(s.contains_channel(id));
    let j = choose|j: int| 0 <= j < s.channels@.len() && s.channels@[j].channel_id == id;
    if i < j {
        assert(s.channels@[i].channel_id != s.channels@[j].channel_id);
    } else if j < i {
        assert(s.channels@[j].channel_id != s.channels@[i].channel_id);
    }
}

/// In a well-formed store, the message at index `i` is the one that
/// `message_with_id` denotes for its id.
pub proof fn lemma_message_at_index(s: Store, i: int)
    requires
        s.wf(),
        0 <= i < s.messages@.len(),
    ensures
        s.contains_message(s.messages@[i].message_id),
        s.message_index(s.messages@[i].message_id) == i,
        s.message_with_id(s.messages@[i].message_id) == s.messages@[i],
{
    let id = s.messages@[i].message_id;
    assert(s.contains_message(id));
    let j = choose|j: int| 0 <= j < s.messages@.len() && s.messages@[j].message_id == id;
    if i < j {
        assert(s.messages@[i].message_id != s.messages@[j].message_id);
    } else if j < i {
        assert(s.messages@[j].message_id != s.messages@[i].message_id);
    }
}

/// In a well-formed store, the membership row at index `i` is the one
/// that `server_member_row` denotes for its composite key.
pub proof fn lemma_server_member_at_index(s: Store, i: int)
    requires
        s.wf(),
        0 <= i < s.server_members@.len(),
    ensures
        s.is_server_member(s.server_members@[i].server_id, s.server_members@[i].user_id),
        s.server_member_index(s.server_members@[i].server_id, s.server_members@[i].user_id) == i,
        s.server_member_row(s.server_members@[i].server_id, s.server_members@[i].user_id)
            == s.server_members@[i],
{
    let sid = s.server_members@[i].server_id;
    let uid = s.server_members@[i].user_id;
    assert(s.is_server_member(sid, uid));
    let j = choose|j: int|
        0 <= j < s.server_members@.len() && s.server_members@[j].server_id == sid
            && s.server_members@[j].user_id == uid;
    if i < j {
        assert(!(s.server_members@[i].server_id == s.server_members@[j].server_id
            && s.server_members@[i].user_id == s.server_members@[j].user_id));
    } else if j < i {
        assert(!(s.server_members@[j].server_id == s.server_members@[i].server_id
            && s.server_members@[j].user_id == s.server_members@[i].user_id));
    }
}

/// The two channel type values are distinct.
pub proof fn lemma_channel_types_distinct()
    ensures
        dm_channel_type() != standard_channel_type(),
{
    reveal_strlit("dm");
    reveal_strlit("standard");
    assert(dm_channel_type().len() == 2);
    assert(standard_channel_type().len() == 8);
}

/// Whether `s` holds the direct-message channel type value.
pub(crate) fn is_dm_type(s: &String) -> (r: bool)
    ensures
        r == (s@ == dm_channel_type()),
{
    let t: String = "dm".to_owned();
    *s == t
}

/// Whether `s` holds the standard channel type value.
pub(crate) fn is_standard_type(s: &String) -> (r: bool)
    ensures
        r == (s@ == standard_channel_type()),
{
    let t: String = "standard".to_owned();
    *s == t
}

/// One step of `Seq::filter`: filtering after a push appends the
/// pushed row exactly when it satisfies the predicate. The filtering
/// listings walk their table with this.
pub proof fn lemma_filter_push<A>(s: Seq<A>, pred: spec_fn(A) -> bool, x: A)
    ensures
        s.push(x).filter(pred) == if pred(x) {
            s.filter(pred).push(x)
        } else {
            s.filter(pred)
        },
{
    reveal(Seq::filter);
    assert(s.push(x).drop_last() =~= s);
    assert(s.push(x).last() == x);
}

/// The index of the user carrying `user_id`, if any.
pub(crate) fn find_user_by_id(users: &Vec<User>, user_id: i32) -> (r: Option<usize>)
    ensures
        match r {
            Some(i) => i < users@.len() && users@[i as int].user_id == user_id,
            None => forall|i: int| 0 <= i < users@.len() ==> users@[i].user_id != user_id,
        },
{
    let mut i: usize = 0;
    while i < users.len()
        invariant
            i <= users@.len(),
            forall|j: int| 0 <= j < i ==> users@[j].user_id != user_id,
        decreases users@.len() - i,
    {
        if users[i].user_id == user_id {
            return Some(i);
        }
        i = i + 1;
    }
    None
}

/// The index of the user carrying `username`, if any.
pub(crate) fn find_user_by_username(users: &Vec<User>, username: &String) -> (r: Option<usize>)
    ensures
        match r {
            Some(i) => i < users@.len() && users@[i as int].username@ == username@,
            None => forall|i: int| 0 <= i < users@.len() ==> users@[i].username@ != username@,
        },
{
    let mut i: usize = 0;
    while i < users.len()
        invariant
            i <= users@.len(),
            forall|j: int| 0 <= j < i ==> users@[j].username@ != username@,
        decreases users@.len() - i,
    {
        if users[i].username == *username {
            return Some(i);
        }
        i = i + 1;
    }
    None
}

/// The index of the user carrying `email`, if any.
pub(crate) fn find_user_by_email(users: &Vec<User>, email: &String) -> (r: Option<usize>)
    ensures
        match r {
            Some(i) => i < users@.len() && users@[i as int].email@ == email@,
            None => forall|i: int| 0 <= i < users@.len() ==> users@[i].email@ != email@,
        },
{
    let mut i: usize = 0;
    while i < users.len()
        invariant
            i <= users@.len(),
            forall|j: int| 0 <= j < i ==> users@[j].email@ != email@,
        decreases users@.len() - i,
    {
        if users[i].email == *email {
            return Some(i);
        }
        i = i + 1;
    }
    None
}

/// The index of a user other than `exclude_id` carrying `username`.
pub(crate) fn find_other_user_by_username(
    users: &Vec<User>,
    username: &String,
    exclude_id: i32,
) -> (r: Option<usize>)
    ensures
        match r {
            Some(i) => i < users@.len() && users@[i as int].username@ == username@
                && users@[i as int].user_id != exclude_id,
            None => forall|i: int|
                0 <= i < users@.len() ==> !(users@[i].username@ == username@
                    && users@[i].user_id != exclude_id),
        },
{
    let mut i: usize = 0;
    while i < users.len()
        invariant
            i <= users@.len(),
            forall|j: int|
                0 <= j < i ==> !(users@[j].username@ == username@ && users@[j].user_id
                    != exclude_id),
        decreases users@.len() - i,
    {
        if users[i].user_id != exclude_id && users[i].username == *username {
            return Some(i);
        }
        i = i + 1;
    }
    None
}

/// The index of a user other than `exclude_id` carrying `email`.
pub(crate) fn find_other_user_by_email(
    users: &Vec<User>,
    email: &String,
    exclude_id: i32,
) -> (r: Option<usize>)
    ensures
        match r {
            Some(i) => i < users@.len() && users@[i as int].email@ == email@
                && users@[i as int].user_id != exclude_id,
            None => forall|i: int|
                0 <= i < users@.len() ==> !(users@[i].email@ == email@ && users@[i].user_id
                    != exclude_id),
        },
{
    let mut i: usize = 0;
    while i < users.len()
        invariant
            i <= users@.len(),
            forall|j: int|
                0 <= j < i ==> !(users@[j].email@ == email@ && users@[j].user_id != exclude_id),
        decreases users@.len() - i,
    {
        if users[i].user_id != exclude_id && users[i].email == *email {
            return Some(i);
        }
        i = i + 1;
    }
    None
}

/// The index of the server carrying `server_id`, if any.
pub(crate) fn find_server_by_id(servers: &Vec<Server>, server_id: i32) -> (r: Option<usize>)
    ensures
        match r {
            Some(i) => i < servers@.len() && servers@[i as int].server_id == server_id,
            None => forall|i: int| 0 <= i < servers@.len() ==> servers@[i].server_id != server_id,
        },
{
    let mut i: usize = 0;
    while i < servers.len()
        invariant
            i <= servers@.len(),
            forall|j: int| 0 <= j < i ==> servers@[j].server_id != server_id,
        decreases servers@.len() - i,
    {
        if servers[i].server_id == server_id {
            return Some(i);
        }
        i = i + 1;
    }
    None
}

/// The index of the server carrying `server_name`, if any.
pub(crate) fn find_server_by_name(servers: &Vec<Server>, server_name: &String) -> (r: Option<
    usize,
>)
    ensures
        match r {
            Some(i) => i < servers@.len() && servers@[i as int].server_name@ == server_name@,
            None => forall|i: int|
                0 <= i < servers@.len() ==> servers@[i].server_name@ != server_name@,
        },
{
    let mut i: usize = 0;
    while i < servers.len()
        invariant
            i <= servers@.len(),
            forall|j: int| 0 <= j < i ==> servers@[j].server_name@ != server_name@,
        decreases servers@.len() - i,
    {
        if servers[i].server_name == *server_name {
            return Some(i);
        }
        i = i + 1;
    }
    None
}

/// The index of a server other than `exclude_id` carrying `server_name`.
pub(crate) fn find_other_server_by_name(
    servers: &Vec<Server>,
    server_name: &String,
    exclude_id: i32,
) -> (r: Option<usize>)
    ensures
        match r {
            Some(i) => i < servers@.len() && servers@[i as int].server_name@ == server_name@
                && servers@[i as int].server_id != exclude_id,
            None => forall|i: int|
                0 <= i < servers@.len() ==> !(servers@[i].server_name@ == server_name@
                    && servers@[i].server_id != exclude_id),
        },
{
    let mut i: usize = 0;
    while i < servers.len()
        invariant
            i <= servers@.len(),
            forall|j: int|
                0 <= j < i ==> !(servers@[j].server_name@ == server_name@ && servers@[j].server_id
                    != exclude_id),
        decreases servers@.len() - i,
    {
        if servers[i].server_id != exclude_id && servers[i].server_name == *server_name {
            return Some(i);
        }
        i = i + 1;
    }
    None
}

/// The index of the channel carrying `channel_id`, if any.
pub(crate) fn find_channel_by_id(channels: &Vec<Channel>, channel_id: i32) -> (r: Option<usize>)
    ensures
        match r {
            Some(i) => i < channels@.len() && channels@[i as int].channel_id == channel_id,
            None => forall|i: int|
                0 <= i < channels@.len() ==> channels@[i].channel_id != channel_id,
        },
{
    let mut i: usize = 0;
    while i < channels.len()
        invariant
            i <= channels@.len(),
            forall|j: int| 0 <= j < i ==> channels@[j].channel_id != channel_id,
        decreases channels@.len() - i,
    {
        if channels[i].channel_id == channel_id {
            return Some(i);
        }
        i = i + 1;
    }
    None
}

/// The index of the message carrying `message_id`, if any.
pub(crate) fn find_message_by_id(messages: &Vec<Message>, message_id: i32) -> (r: Option<usize>)
    ensures
        match r {
            Some(i) => i < messages@.len() && messages@[i as int].message_id == message_id,
            None => forall|i: int|
                0 <= i < messages@.len() ==> messages@[i].message_id != message_id,
        },
{
    let mut i: usize = 0;
    while i < messages.len()
        invariant
            i <= messages@.len(),
            forall|j: int| 0 <= j < i ==> messages@[j].message_id != message_id,
        decreases messages@.len() - i,
    {
        if messages[i].message_id == message_id {
            return Some(i);
        }
        i = i + 1;
    }
    None
}

/// The index of the membership row `(server_id, user_id)`, if any.
pub(crate) fn find_server_member(
    members: &Vec<ServerMember>,
    server_id: i32,
    user_id: i32,
) -> (r: Option<usize>)
    ensures
        match r {
            Some(i) => i < members@.len() && members@[i as int].server_id == server_id
                && members@[i as int].user_id == user_id,
            None => forall|i: int|
                0 <= i < members@.len() ==> !(members@[i].server_id == server_id
                    && members@[i].user_id == user_id),
        },
{
    let mut i: usize = 0;
    while i < members.len()
        invariant
            i <= members@.len(),
            forall|j: int|
                0 <= j < i ==> !(members@[j].server_id == server_id && members@[j].user_id
                    == user_id),
        decreases members@.len() - i,
    {
        if members[i].server_id == server_id && members[i].user_id == user_id {
            return Some(i);
        }
        i = i + 1;
    }
    None
}

/// The index of the direct-message membership row `(channel_id, user_id)`.
pub(crate) fn find_dm_member_row(
    members: &Vec<DirectMessageMember>,
    channel_id: i32,
    user_id: i32,
) -> (r: Option<usize>)
    ensures
        match r {
            Some(i) => i < members@.len() && members@[i as int].channel_id == channel_id
                && members@[i as int].user_id == user_id,
            None => forall|i: int|
                0 <= i < members@.len() ==> !(members@[i].channel_id == channel_id
                    && members@[i].user_id == user_id),
        },
{
    let mut i: usize = 0;
    while i < members.len()
        invariant
            i <= members@.len(),
            forall|j: int|
                0 <= j < i ==> !(members@[j].channel_id == channel_id && members@[j].user_id
                    == user_id),
        decreases members@.len() - i,
    {
        if members[i].channel_id == channel_id && members[i].user_id == user_id {
            return Some(i);
        }
        i = i + 1;
    }
    None
}

/// A copy of an optional string, equal to the original.
pub(crate) fn dup_opt_string(o: &Option<String>) -> (r: Option<String>)
    ensures
        r == *o,
{
    match o {
        Some(s) => Some(s.clone()),
        None => None,
    }
}

/// A copy of a user row, equal to the original.
pub(crate) fn dup_user(u: &User) -> (r: User)
    ensures
        r == *u,
{
    User {
        user_id: u.user_id,
        username: u.username.clone(),
        email: u.email.clone(),
        password_hash: u.password_hash.clone(),
        avatar_url: dup_opt_string(&u.avatar_url),
        created_at: u.created_at,
        updated_at: u.updated_at,
        status: u.status.clone(),
    }
}

/// A copy of a server row, equal to the original.
pub(crate) fn dup_server(s: &Server) -> (r: Server)
    ensures
        r == *s,
{
    Server {
        server_id: s.server_id,
        server_name: s.server_name.clone(),
        owner_user_id: s.owner_user_id,
        icon_url: dup_opt_string(&s.icon_url),
        created_at: s.created_at,
        updated_at: s.updated_at,
    }
}

/// A copy of a channel row, equal to the original.
pub(crate) fn dup_channel(c: &Channel) -> (r: Channel)
    ensures
        r == *c,
{
    Channel {
        channel_id: c.channel_id,
        server_id: c.server_id,
        name: c.name.clone(),
        channel_type: c.channel_type.clone(),
        created_at: c.created_at,
        updated_at: c.updated_at,
    }
}

/// A copy of a message row, equal to the original.
pub(crate) fn dup_message(m: &Message) -> (r: Message)
    ensures
        r == *m,
{
    Message {
        message_id: m.message_id,
        channel_id: m.channel_id,
        author_user_id: m.author_user_id,
        content: m.content.clone(),
        created_at: m.created_at,
        updated_at: m.updated_at,
        edited_at: m.edited_at,
    }
}

/// A copy of a membership row, equal to the original.
pub(crate) fn dup_server_member(m: &ServerMember) -> (r: ServerMember)
    ensures
        r == *m,
{
    ServerMember {
        server_id: m.server_id,
        user_id: m.user_id,
        nickname: dup_opt_string(&m.nickname),
        joined_at: m.joined_at,
    }
}

} // verus!
