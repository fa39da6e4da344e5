//! The direct-message workflow: the one multi-statement operation of
//! the system. Creating a direct-message channel inserts the channel
//! row and exactly two membership rows as a unit: either all three
//! rows land, or the store is exactly as it was, so no partial
//! channel/membership state is ever observable. Deleting one removes
//! memberships, messages and the channel row as a unit.
//!
//! `find_or_create_dm_channel` is a check-then-act sequence: under
//! concurrent callers on a shared store it can create duplicate
//! channels for the same pair, and no uniqueness constraint over the
//! unordered pair closes that gap here, matching the persisted schema.

use crate::models::channel::Channel;
use crate::models::direct_message_member::DirectMessageMember;
use crate::models::message::Message;
use crate::repositories::channel_repository::ChannelRepository;
use crate::store::{
    dm_channel_type, dup_channel, dup_message, find_channel_by_id, find_dm_member_row,
    find_user_by_id, is_dm_type, lemma_channel_at_index, lemma_filter_push,
    unchanged_except_dm_members, KeyField, Store, StoreError,
};
use vstd::prelude::*;
use vstd::string::StringExecFns;

verus! {

/// The decimal digit `d` as a character.
pub open spec fn digit_char(d: int) -> char {
    if d == 0 {
        '0'
    } else if d == 1 {
        '1'
    } else if d == 2 {
        '2'
    } else if d == 3 {
        '3'
    } else if d == 4 {
        '4'
    } else if d == 5 {
        '5'
    } else if d == 6 {
        '6'
    } else if d == 7 {
        '7'
    } else if d == 8 {
        '8'
    } else {
        '9'
    }
}

/// The decimal digits of a nonnegative number, most significant
/// first.
pub open spec fn dec_seq(n: int) -> Seq<char>
    decreases n,
{
    if n < 10 {
        seq![digit_char(n)]
    } else {
        dec_seq(n / 10).push(digit_char(n % 10))
    }
}

/// The decimal rendering of `n`, with a leading minus sign when
/// negative.
pub open spec fn int_seq(n: int) -> Seq<char> {
    if n < 0 {
        seq!['-'] + dec_seq(-n)
    } else {
        dec_seq(n)
    }
}

/// The deterministic name a freshly created direct-message channel
/// gets for the pair `(a, b)`.
pub open spec fn dm_name(a: i32, b: i32) -> Seq<char> {
    "dm_"@ + int_seq(a as int) + "_"@ + int_seq(b as int)
}

/// The membership rows of `channel_id`, as a predicate on rows.
pub open spec fn dm_member_of(channel_id: i32) -> spec_fn(DirectMessageMember) -> bool {
    |m: DirectMessageMember| m.channel_id == channel_id
}

/// The membership rows that survive deleting `channel_id`.
pub open spec fn dm_member_elsewhere(channel_id: i32) -> spec_fn(DirectMessageMember) -> bool {
    |m: DirectMessageMember| m.channel_id != channel_id
}

/// The messages that survive deleting `channel_id`.
pub open spec fn message_elsewhere(channel_id: i32) -> spec_fn(Message) -> bool {
    |m: Message| m.channel_id != channel_id
}

/// A dm-typed channel holding both `user_id1` and `user_id2`, as a
/// predicate on rows.
pub open spec fn dm_pair_channel(
    members: Seq<DirectMessageMember>,
    user_id1: i32,
    user_id2: i32,
) -> spec_fn(Channel) -> bool {
    |c: Channel|
        {
            &&& c.channel_type@ == dm_channel_type()
            &&& exists|k: int|
                0 <= k < members.len() && members[k].channel_id == c.channel_id
                    && members[k].user_id == user_id1
            &&& exists|k: int|
                0 <= k < members.len() && members[k].channel_id == c.channel_id
                    && members[k].user_id == user_id2
        }
}

/// The single decimal digit `d` as a string slice.
fn digit_str(d: u32) -> (r: &'static str)
    requires
        d < 10,
    ensures
        r@ == seq![digit_char(d as int)],
{
    proof {
        reveal_strlit("0");
        reveal_strlit("1");
        reveal_strlit("2");
        reveal_strlit("3");
        reveal_strlit("4");
        reveal_strlit("5");
        reveal_strlit("6");
        reveal_strlit("7");
        reveal_strlit("8");
        reveal_strlit("9");
    }
    match d {
        0 => "0",
        1 => "1",
        2 => "2",
        3 => "3",
        4 => "4",
        5 => "5",
        6 => "6",
        7 => "7",
        8 => "8",
        _ => "9",
    }
}

/// The decimal rendering of a nonnegative number.
fn dec_string(n: u32) -> (s: String)
    ensures
        s@ == dec_seq(n as int),
    decreases n,
{
    if n < 10 {
        digit_str(n).to_owned()
    } else {
        let mut s = dec_string(n / 10);
        s.append(digit_str(n % 10));
        proof {
            assert(dec_seq((n / 10) as int) + seq![digit_char((n % 10) as int)] =~= dec_seq(
                (n / 10) as int,
            ).push(digit_char((n % 10) as int)));
        }
        s
    }
}

/// The decimal rendering of `n`, with a leading minus sign when
/// negative.
fn int_string(n: i32) -> (s: String)
    ensures
        s@ == int_seq(n as int),
{
    if n >= 0 {
        dec_string(n as u32)
    } else {
        let m: u32 = (-(n as i64)) as u32;
        let mut s: String = "-".to_owned();
        s.append(dec_string(m).as_str());
        proof {
            reveal_strlit("-");
            assert("-"@ =~= seq!['-']);
        }
        s
    }
}

/// The generated name of a fresh direct-message channel for `(a, b)`.
fn dm_channel_name(a: i32, b: i32) -> (s: String)
    ensures
        s@ == dm_name(a, b),
{
    let mut s: String = "dm_".to_owned();
    s.append(int_string(a).as_str());
    s.append("_");
    s.append(int_string(b).as_str());
    s
}

pub struct DirectMessageRepository {
    pub channel_repository: ChannelRepository,
}

impl DirectMessageRepository {
    pub fn new(channel_repository: ChannelRepository) -> (r: DirectMessageRepository) {
        DirectMessageRepository { channel_repository }
    }

    /// Creates a direct-message channel named `name` holding exactly
    /// `user_id1` and `user_id2`, as one atomic unit: the channel row
    /// and both membership rows land together, and on any failure,
    /// including a failure of the second membership insert, the store
    /// is exactly as it was.
    pub fn create_dm_channel(
        &self,
        store: &mut Store,
        user_id1: i32,
        user_id2: i32,
        name: String,
    ) -> (r: Result<Channel, StoreError>)
        requires
            old(store).wf(),
        ensures
            final(store).wf(),
            match r {
                Ok(ch) => {
                    &&& old(store).contains_user(user_id1)
                    &&& old(store).contains_user(user_id2)
                    &&& user_id1 != user_id2
                    &&& old(store).can_insert_dm_channel()
                    &&& ch.channel_id == old(store).next_channel_id
                    &&& ch.server_id is None
                    &&& ch.name == name
                    &&& ch.channel_type@ == dm_channel_type()
                    &&& ch.created_at == old(store).clock
                    &&& ch.updated_at == Some(old(store).clock)
                    &&& final(store).channels@ == old(store).channels@.push(ch)
                    &&& final(store).dm_members@ == old(store).dm_members@ + seq![
                        (DirectMessageMember { channel_id: ch.channel_id, user_id: user_id1 }),
                        (DirectMessageMember { channel_id: ch.channel_id, user_id: user_id2 }),
                    ]
                    &&& final(store).users == old(store).users
                    &&& final(store).servers == old(store).servers
                    &&& final(store).server_members == old(store).server_members
                    &&& final(store).messages == old(store).messages
                    &&& final(store).next_user_id == old(store).next_user_id
                    &&& final(store).next_server_id == old(store).next_server_id
                    &&& final(store).next_channel_id == old(store).next_channel_id + 1
                    &&& final(store).next_message_id == old(store).next_message_id
                    &&& final(store).clock == old(store).clock + 1
                },
                Err(e) => {
                    &&& *final(store) == *old(store)
                    &&& match e {
                        StoreError::DuplicateKey(KeyField::Composite) => {
                            &&& old(store).can_insert_dm_channel()
                            &&& old(store).contains_user(user_id1)
                            &&& user_id2 == user_id1
                        },
                        StoreError::StoreFailure => {
                            ||| !old(store).can_insert_dm_channel()
                            ||| (old(store).can_insert_dm_channel() && !old(store).contains_user(
                                user_id1,
                            ))
                            ||| (old(store).can_insert_dm_channel() && old(store).contains_user(
                                user_id1,
                            ) && user_id2 != user_id1 && !old(store).contains_user(user_id2))
                        },
                        _ => false,
                    }
                },
            },
    {
        if store.next_channel_id == i32::MAX || store.clock == i64::MAX
            || store.dm_members.len() + 2 >= (i32::MAX as usize) {
            return Err(StoreError::StoreFailure);
        }
        if find_user_by_id(&store.users, user_id1).is_none() {
            return Err(StoreError::StoreFailure);
        }
        if user_id2 == user_id1 {
            return Err(StoreError::DuplicateKey(KeyField::Composite));
        }
        if find_user_by_id(&store.users, user_id2).is_none() {
            return Err(StoreError::StoreFailure);
        }
        let channel = Channel {
            channel_id: store.next_channel_id,
            server_id: None,
            name,
            channel_type: "dm".to_owned(),
            created_at: store.clock,
            updated_at: Some(store.clock),
        };
        let created = dup_channel(&channel);
        let channel_id = channel.channel_id;
        store.channels.push(channel);
        store.dm_members.push(DirectMessageMember { channel_id, user_id: user_id1 });
        store.dm_members.push(DirectMessageMember { channel_id, user_id: user_id2 });
        store.next_channel_id = store.next_channel_id + 1;
        store.clock = store.clock + 1;
        proof {
            assert(final(store).dm_members@ =~= old(store).dm_members@ + seq![
                (DirectMessageMember { channel_id, user_id: user_id1 }),
                (DirectMessageMember { channel_id, user_id: user_id2 }),
            ]);
        }
        Ok(created)
    }

    /// Inserts the membership row `(channel_id, user_id)`. The pair
    /// must be new and both sides must exist; no cap on the number of
    /// members of a channel is enforced here. The store is untouched
    /// on any failure.
    pub fn add_dm_member(&self, store: &mut Store, channel_id: i32, user_id: i32) -> (r: Result<
        DirectMessageMember,
        StoreError,
    >)
        requires
            old(store).wf(),
        ensures
            final(store).wf(),
            match r {
                Ok(member) => {
                    &&& !old(store).is_dm_member(channel_id, user_id)
                    &&& old(store).contains_channel(channel_id)
                    &&& old(store).contains_user(user_id)
                    &&& old(store).can_insert_dm_member()
                    &&& member == (DirectMessageMember { channel_id, user_id })
                    &&& final(store).dm_members@ == old(store).dm_members@.push(member)
                    &&& final(store).clock == old(store).clock
                    &&& unchanged_except_dm_members(*old(store), *final(store))
                },
                Err(e) => {
                    &&& *final(store) == *old(store)
                    &&& match e {
                        StoreError::DuplicateKey(KeyField::Composite) => old(
                            store,
                        ).is_dm_member(channel_id, user_id),
                        StoreError::StoreFailure => {
                            &&& !old(store).is_dm_member(channel_id, user_id)
                            &&& (!old(store).contains_channel(channel_id) || !old(
                                store,
                            ).contains_user(user_id) || !old(store).can_insert_dm_member())
                        },
                        _ => false,
                    }
                },
            },
    {
        if find_dm_member_row(&store.dm_members, channel_id, user_id).is_some() {
            return Err(StoreError::DuplicateKey(KeyField::Composite));
        }
        if find_channel_by_id(&store.channels, channel_id).is_none() {
            return Err(StoreError::StoreFailure);
        }
        if find_user_by_id(&store.users, user_id).is_none() {
            return Err(StoreError::StoreFailure);
        }
        if store.dm_members.len() + 1 >= (i32::MAX as usize) {
            return Err(StoreError::StoreFailure);
        }
        let member = DirectMessageMember { channel_id, user_id };
        store.dm_members.push(member);
        Ok(member)
    }

    /// Removes the membership row `(channel_id, user_id)` and says
    /// whether a row was actually removed; absence is `Ok(false)`,
    /// never an error.
    pub fn remove_dm_member(&self, store: &mut Store, channel_id: i32, user_id: i32) -> (r: Result<
        bool,
        StoreError,
    >)
        requires
            old(store).wf(),
        ensures
            final(store).wf(),
            match r {
                Ok(true) => {
                    &&& old(store).is_dm_member(channel_id, user_id)
                    &&& exists|i: int|
                        {
                            &&& 0 <= i < old(store).dm_members@.len()
                            &&& old(store).dm_members@[i].channel_id == channel_id
                            &&& old(store).dm_members@[i].user_id == user_id
                            &&& final(store).dm_members@ == old(store).dm_members@.remove(i)
                        }
                    &&& final(store).clock == old(store).clock
                    &&& unchanged_except_dm_members(*old(store), *final(store))
                },
                Ok(false) => !old(store).is_dm_member(channel_id, user_id) && *final(store)
                    == *old(store),
                Err(_) => false,
            },
    {
        match find_dm_member_row(&store.dm_members, channel_id, user_id) {
            Some(i) => {
                store.dm_members.remove(i);
                Ok(true)
            },
            None => Ok(false),
        }
    }

    /// The membership rows of `channel_id`, in table order. Never
    /// fails.
    pub fn find_dm_members(&self, store: &Store, channel_id: i32) -> (r: Result<
        Vec<DirectMessageMember>,
        StoreError,
    >)
        requires
            store.wf(),
        ensures
            match r {
                Ok(v) => v@ == store.dm_members@.filter(dm_member_of(channel_id)),
                Err(_) => false,
            },
    {
        let mut out: Vec<DirectMessageMember> = Vec::new();
        let mut i: usize = 0;
        proof {
            assert(store.dm_members@.take(0) =~= Seq::<DirectMessageMember>::empty());
            reveal(Seq::filter);
        }
        while i < store.dm_members.len()
            invariant
                i <= store.dm_members@.len(),
                out@ == store.dm_members@.take(i as int).filter(dm_member_of(channel_id)),
            decreases store.dm_members@.len() - i,
        {
            proof {
                assert(store.dm_members@.take(i + 1) =~= store.dm_members@.take(i as int).push(
                    store.dm_members@[i as int],
                ));
                lemma_filter_push(
                    store.dm_members@.take(i as int),
                    dm_member_of(channel_id),
                    store.dm_members@[i as int],
                );
            }
            if store.dm_members[i].channel_id == channel_id {
                out.push(store.dm_members[i]);
            }
            i = i + 1;
        }
        proof {
            assert(store.dm_members@.take(store.dm_members@.len() as int) =~= store.dm_members@);
        }
        Ok(out)
    }

    /// The membership row `(channel_id, user_id)`, if any. Never
    /// fails.
    pub fn find_dm_member(&self, store: &Store, channel_id: i32, user_id: i32) -> (r: Result<
        Option<DirectMessageMember>,
        StoreError,
    >)
        requires
            store.wf(),
        ensures
            match r {
                Ok(Some(m)) => store.is_dm_member(channel_id, user_id) && m
                    == (DirectMessageMember { channel_id, user_id }),
                Ok(None) => !store.is_dm_member(channel_id, user_id),
                Err(_) => false,
            },
    {
        match find_dm_member_row(&store.dm_members, channel_id, user_id) {
            Some(_) => Ok(Some(DirectMessageMember { channel_id, user_id })),
            None => Ok(None),
        }
    }

    /// The first dm-typed channel holding both users, in table order;
    /// when none exists, a fresh one is created under the generated
    /// pair name. This check-then-act is not race-free across
    /// concurrent callers of a shared store.
    pub fn find_or_create_dm_channel(&self, store: &mut Store, user_id1: i32, user_id2: i32) -> (r:
        Result<Channel, StoreError>)
        requires
            old(store).wf(),
        ensures
            final(store).wf(),
            match r {
                Ok(ch) => {
                    ||| exists|i: int|
                        {
                            &&& 0 <= i < old(store).channels@.len()
                            &&& dm_pair_channel(old(store).dm_members@, user_id1, user_id2)(
                                old(store).channels@[i],
                            )
                            &&& forall|j: int|
                                0 <= j < i ==> !dm_pair_channel(
                                    old(store).dm_members@,
                                    user_id1,
                                    user_id2,
                                )(old(store).channels@[j])
                            &&& ch == old(store).channels@[i]
                            &&& *final(store) == *old(store)
                        }
                    ||| {
                        &&& forall|j: int|
                            0 <= j < old(store).channels@.len() ==> !dm_pair_channel(
                                old(store).dm_members@,
                                user_id1,
                                user_id2,
                            )(old(store).channels@[j])
                        &&& old(store).contains_user(user_id1)
                        &&& old(store).contains_user(user_id2)
                        &&& user_id1 != user_id2
                        &&& old(store).can_insert_dm_channel()
                        &&& ch.channel_id == old(store).next_channel_id
                        &&& ch.server_id is None
                        &&& ch.name@ == dm_name(user_id1, user_id2)
                        &&& ch.channel_type@ == dm_channel_type()
                        &&& ch.created_at == old(store).clock
                        &&& ch.updated_at == Some(old(store).clock)
                        &&& final(store).channels@ == old(store).channels@.push(ch)
                        &&& final(store).dm_members@ == old(store).dm_members@ + seq![
                            (DirectMessageMember { channel_id: ch.channel_id, user_id: user_id1 }),
                            (DirectMessageMember { channel_id: ch.channel_id, user_id: user_id2 }),
                        ]
                        &&& final(store).next_channel_id == old(store).next_channel_id + 1
                        &&& final(store).clock == old(store).clock + 1
                    }
                },
                Err(e) => {
                    &&& *final(store) == *old(store)
                    &&& forall|j: int|
                        0 <= j < old(store).channels@.len() ==> !dm_pair_channel(
                            old(store).dm_members@,
                            user_id1,
                            user_id2,
                        )(old(store).channels@[j])
                    &&& match e {
                        StoreError::DuplicateKey(KeyField::Composite) => {
                            &&& old(store).can_insert_dm_channel()
                            &&& old(store).contains_user(user_id1)
                            &&& user_id2 == user_id1
                        },
                        StoreError::StoreFailure => {
                            ||| !old(store).can_insert_dm_channel()
                            ||| (old(store).can_insert_dm_channel() && !old(store).contains_user(
                                user_id1,
                            ))
                            ||| (old(store).can_insert_dm_channel() && old(store).contains_user(
                                user_id1,
                            ) && user_id2 != user_id1 && !old(store).contains_user(user_id2))
                        },
                        _ => false,
                    }
                },
            },
    {
        let mut i: usize = 0;
        while i < store.channels.len()
            invariant
                old(store).wf(),
                *store == *old(store),
                i <= store.channels@.len(),
                forall|j: int|
                    0 <= j < i ==> !dm_pair_channel(store.dm_members@, user_id1, user_id2)(
                        store.channels@[j],
                    ),
            decreases store.channels@.len() - i,
        {
            if is_dm_type(&store.channels[i].channel_type) && find_dm_member_row(
                &store.dm_members,
                store.channels[i].channel_id,
                user_id1,
            ).is_some() && find_dm_member_row(
                &store.dm_members,
                store.channels[i].channel_id,
                user_id2,
            ).is_some() {
                return Ok(dup_channel(&store.channels[i]));
            }
            i = i + 1;
        }
        let channel_name = dm_channel_name(user_id1, user_id2);
        self.create_dm_channel(store, user_id1, user_id2, channel_name)
    }

    /// The dm-typed channels `user_id` belongs to; delegates to the
    /// channel repository. Never fails.
    pub fn get_dm_channels_for_user(&self, store: &Store, user_id: i32) -> (r: Result<
        Vec<Channel>,
        StoreError,
    >)
        requires
            store.wf(),
        ensures
            match r {
                Ok(v) => v@ == store.channels@.filter(
                    crate::repositories::channel_repository::dm_of_user(
                        store.dm_members@,
                        user_id,
                    ),
                ),
                Err(_) => false,
            },
    {
        self.channel_repository.find_direct_message_channels(store, user_id)
    }

    /// Deletes a direct-message channel as one atomic unit: every
    /// membership row of the channel, every message of the channel,
    /// and then the channel row itself, the last scoped to the dm type
    /// so a standard channel's row is never deleted. Says whether the
    /// channel row was actually deleted. Never fails.
    pub fn delete_dm_channel(&self, store: &mut Store, channel_id: i32) -> (r: Result<
        bool,
        StoreError,
    >)
        requires
            old(store).wf(),
        ensures
            final(store).wf(),
            final(store).dm_members@ == old(store).dm_members@.filter(
                dm_member_elsewhere(channel_id),
            ),
            final(store).messages@ == old(store).messages@.filter(message_elsewhere(channel_id)),
            final(store).users == old(store).users,
            final(store).servers == old(store).servers,
            final(store).server_members == old(store).server_members,
            final(store).next_user_id == old(store).next_user_id,
            final(store).next_server_id == old(store).next_server_id,
            final(store).next_channel_id == old(store).next_channel_id,
            final(store).next_message_id == old(store).next_message_id,
            final(store).clock == old(store).clock,
            match r {
                Ok(true) => old(store).contains_dm_channel(channel_id) && final(store).channels@
                    == old(store).channels@.remove(old(store).channel_index(channel_id)),
                Ok(false) => !old(store).contains_dm_channel(channel_id) && final(store).channels
                    == old(store).channels,
                Err(_) => false,
            },
    {
        let ghost pre = *store;
        let mut kept_members: Vec<DirectMessageMember> = Vec::new();
        let mut i: usize = 0;
        proof {
            assert(store.dm_members@.take(0) =~= Seq::<DirectMessageMember>::empty());
            reveal(Seq::filter);
        }
        while i < store.dm_members.len()
            invariant
                i <= store.dm_members@.len(),
                kept_members@ == store.dm_members@.take(i as int).filter(
                    dm_member_elsewhere(channel_id),
                ),
                forall|a: int, b: int|
                    #![trigger kept_members@[a], kept_members@[b]]
                    0 <= a < b < kept_members@.len() ==> !(kept_members@[a].channel_id
                        == kept_members@[b].channel_id && kept_members@[a].user_id
                        == kept_members@[b].user_id),
                forall|a: int, j: int|
                    #![trigger kept_members@[a], store.dm_members@[j]]
                    0 <= a < kept_members@.len() && i <= j < store.dm_members@.len() ==> !(
                    kept_members@[a].channel_id == store.dm_members@[j].channel_id
                        && kept_members@[a].user_id == store.dm_members@[j].user_id),
                forall|a: int|
                    #![trigger kept_members@[a]]
                    0 <= a < kept_members@.len() ==> 0 < kept_members@[a].channel_id
                        < store.next_channel_id,
                kept_members@.len() <= i,
                store.wf(),
            decreases store.dm_members@.len() - i,
        {
            proof {
                assert(store.dm_members@.take(i + 1) =~= store.dm_members@.take(i as int).push(
                    store.dm_members@[i as int],
                ));
                lemma_filter_push(
                    store.dm_members@.take(i as int),
                    dm_member_elsewhere(channel_id),
                    store.dm_members@[i as int],
                );
            }
            if store.dm_members[i].channel_id != channel_id {
                kept_members.push(store.dm_members[i]);
            }
            i = i + 1;
        }
        proof {
            assert(store.dm_members@.take(store.dm_members@.len() as int) =~= store.dm_members@);
        }
        store.dm_members = kept_members;

        let mut kept_messages: Vec<Message> = Vec::new();
        let mut k: usize = 0;
        proof {
            assert(store.messages@.take(0) =~= Seq::<Message>::empty());
        }
        while k < store.messages.len()
            invariant
                k <= store.messages@.len(),
                kept_messages@ == store.messages@.take(k as int).filter(
                    message_elsewhere(channel_id),
                ),
                forall|a: int, b: int|
                    #![trigger kept_messages@[a], kept_messages@[b]]
                    0 <= a < b < kept_messages@.len() ==> kept_messages@[a].message_id
                        != kept_messages@[b].message_id && kept_messages@[a].created_at
                        < kept_messages@[b].created_at,
                forall|a: int, j: int|
                    #![trigger kept_messages@[a], store.messages@[j]]
                    0 <= a < kept_messages@.len() && k <= j < store.messages@.len() ==> (
                    kept_messages@[a].message_id != store.messages@[j].message_id
                        && kept_messages@[a].created_at < store.messages@[j].created_at),
                forall|a: int|
                    #![trigger kept_messages@[a]]
                    0 <= a < kept_messages@.len() ==> 0 < kept_messages@[a].message_id
                        < store.next_message_id && kept_messages@[a].created_at < store.clock,
                kept_messages@.len() <= k,
                store.wf(),
            decreases store.messages@.len() - k,
        {
            proof {
                assert(store.messages@.take(k + 1) =~= store.messages@.take(k as int).push(
                    store.messages@[k as int],
                ));
                lemma_filter_push(
                    store.messages@.take(k as int),
                    message_elsewhere(channel_id),
                    store.messages@[k as int],
                );
            }
            if store.messages[k].channel_id != channel_id {
                kept_messages.push(dup_message(&store.messages[k]));
            }
            k = k + 1;
        }
        proof {
            assert(store.messages@.take(store.messages@.len() as int) =~= store.messages@);
        }
        store.messages = kept_messages;

        match find_channel_by_id(&store.channels, channel_id) {
            Some(c) => {
                proof {
                    lemma_channel_at_index(*store, c as int);
                    assert(store.channel_index(channel_id) == pre.channel_index(channel_id));
                }
                if is_dm_type(&store.channels[c].channel_type) {
                    store.channels.remove(c);
                    Ok(true)
                } else {
                    proof {
                        if pre.contains_dm_channel(channel_id) {
                            let w = choose|w: int|
                                0 <= w < pre.channels@.len() && pre.channels@[w].channel_id
                                    == channel_id && pre.channels@[w].channel_type@
                                    == dm_channel_type();
                            lemma_channel_at_index(pre, w);
                        }
                    }
                    Ok(false)
                }
            },
            None => Ok(false),
        }
    }
}

} // verus!
