//! Persistence for messages: creation against an existing channel and
//! author, lookups, the newest-first bounded listings (plain and
//! joined with author views), content edits, deletion and counts.

use crate::models::message::{Message, NewMessage};
use crate::models::response_types::{MessageWithAuthorResponse, UserResponse};
use crate::models::user::User;
use crate::repositories::user_repository::spec_user_response;
use crate::store::{
    dup_message, dup_opt_string, find_channel_by_id, find_message_by_id, find_user_by_id,
    lemma_filter_push, lemma_message_at_index, lemma_user_at_index, unchanged_except_messages,
    Store, StoreError,
};
use vstd::pervasive::VecAdditionalExecFns;
use vstd::prelude::*;

verus! {

/// The messages of `channel_id`, as a predicate on rows.
pub open spec fn in_channel(channel_id: i32) -> spec_fn(Message) -> bool {
    |m: Message| m.channel_id == channel_id
}

/// The messages written by `user_id`, as a predicate on rows.
pub open spec fn by_author(user_id: i32) -> spec_fn(Message) -> bool {
    |m: Message| m.author_user_id == user_id
}

/// The newest-first listing of `channel_id`: walking the table from
/// its youngest row down, the messages of the channel, at most `limit`
/// of them.
pub open spec fn recent_messages(msgs: Seq<Message>, channel_id: i32, limit: int) -> Seq<Message>
    decreases msgs.len(),
{
    if msgs.len() == 0 || limit <= 0 {
        Seq::empty()
    } else if msgs.last().channel_id == channel_id {
        seq![msgs.last()] + recent_messages(msgs.drop_last(), channel_id, limit - 1)
    } else {
        recent_messages(msgs.drop_last(), channel_id, limit)
    }
}

/// A message joined with the public view of its author.
pub open spec fn spec_message_with_author(m: Message, u: User) -> MessageWithAuthorResponse {
    MessageWithAuthorResponse {
        message_id: m.message_id,
        content: m.content,
        author: spec_user_response(u),
        created_at: m.created_at,
        edited_at: m.edited_at,
    }
}

/// The newest-first listing of `channel_id` joined with author views:
/// like `recent_messages`, but a message whose author no longer exists
/// is left out before the limit is applied, as an inner join leaves it
/// out.
pub open spec fn recent_messages_with_authors(
    msgs: Seq<Message>,
    s: Store,
    channel_id: i32,
    limit: int,
) -> Seq<MessageWithAuthorResponse>
    decreases msgs.len(),
{
    if msgs.len() == 0 || limit <= 0 {
        Seq::empty()
    } else if msgs.last().channel_id == channel_id && s.contains_user(
        msgs.last().author_user_id,
    ) {
        seq![spec_message_with_author(msgs.last(), s.user_with_id(msgs.last().author_user_id))]
            + recent_messages_with_authors(msgs.drop_last(), s, channel_id, limit - 1)
    } else {
        recent_messages_with_authors(msgs.drop_last(), s, channel_id, limit)
    }
}

/// The general shape of the newest-first listing: over a table whose
/// creation times strictly ascend, the listing holds only messages of
/// the channel, strictly descending in creation time, and exactly
/// `limit` of them unless the channel has fewer.
pub proof fn lemma_recent_messages_newest_first(msgs: Seq<Message>, channel_id: i32, limit: int)
    requires
        forall|i: int, j: int|
            #![trigger msgs[i], msgs[j]]
            0 <= i < j < msgs.len() ==> msgs[i].created_at < msgs[j].created_at,
    ensures
        ({
            let r = recent_messages(msgs, channel_id, limit);
            let full = msgs.filter(in_channel(channel_id)).len() as int;
            &&& forall|i: int, j: int|
                #![trigger r[i], r[j]]
                0 <= i < j < r.len() ==> r[i].created_at > r[j].created_at
            &&& forall|i: int| #![trigger r[i]] 0 <= i < r.len() ==> r[i].channel_id == channel_id
            &&& forall|i: int|
                #![trigger r[i]]
                0 <= i < r.len() ==> exists|k: int| 0 <= k < msgs.len() && r[i] == msgs[k]
            &&& r.len() == if limit <= 0 {
                0
            } else if limit <= full {
                limit
            } else {
                full
            }
        }),
    decreases msgs.len(),
{
    reveal(Seq::filter);
    let r = recent_messages(msgs, channel_id, limit);
    if msgs.len() == 0 || limit <= 0 {
    } else {
        let rest = msgs.drop_last();
        assert(rest.push(msgs.last()) =~= msgs);
        lemma_filter_push(rest, in_channel(channel_id), msgs.last());
        if msgs.last().channel_id == channel_id {
            lemma_recent_messages_newest_first(rest, channel_id, limit - 1);
            let rr = recent_messages(rest, channel_id, limit - 1);
            assert(r =~= seq![msgs.last()] + rr);
            assert forall|i: int, j: int| 0 <= i < j < r.len() implies #[trigger] r[i].created_at
                > #[trigger] r[j].created_at by {
                if i == 0 {
                    let k = choose|k: int| 0 <= k < rest.len() && rr[j - 1] == rest[k];
                    assert(msgs[k].created_at < msgs.last().created_at);
                } else {
                    assert(r[i] == rr[i - 1] && r[j] == rr[j - 1]);
                }
            }
            assert forall|i: int| 0 <= i < r.len() implies exists|k: int|
                0 <= k < msgs.len() && #[trigger] r[i] == msgs[k] by {
                if i == 0 {
                    assert(r[0] == msgs[msgs.len() - 1]);
                } else {
                    let k = choose|k: int| 0 <= k < rest.len() && rr[i - 1] == rest[k];
                    assert(r[i] == msgs[k]);
                }
            }
        } else {
            lemma_recent_messages_newest_first(rest, channel_id, limit);
            let rr = recent_messages(rest, channel_id, limit);
            assert forall|i: int| 0 <= i < r.len() implies exists|k: int|
                0 <= k < msgs.len() && #[trigger] r[i] == msgs[k] by {
                let k = choose|k: int| 0 <= k < rest.len() && rr[i] == rest[k];
                assert(r[i] == msgs[k]);
            }
        }
    }
}

#[derive(Clone)]
pub struct MessageRepository {}

impl MessageRepository {
    pub fn new() -> (r: MessageRepository) {
        MessageRepository {}
    }

    /// Inserts a message with a fresh id and creation timestamp. The
    /// channel and the author must exist; the store is untouched on
    /// any failure.
    pub fn create(&self, store: &mut Store, new_message: NewMessage) -> (r: Result<
        Message,
        StoreError,
    >)
        requires
            old(store).wf(),
        ensures
            final(store).wf(),
            match r {
                Ok(message) => {
                    &&& old(store).contains_channel(new_message.channel_id)
                    &&& old(store).contains_user(new_message.author_user_id)
                    &&& old(store).can_insert_message()
                    &&& message == (Message {
                        message_id: old(store).next_message_id,
                        channel_id: new_message.channel_id,
                        author_user_id: new_message.author_user_id,
                        content: new_message.content,
                        created_at: old(store).clock,
                        updated_at: None,
                        edited_at: None,
                    })
                    &&& final(store).messages@ == old(store).messages@.push(message)
                    &&& final(store).next_message_id == old(store).next_message_id + 1
                    &&& final(store).clock == old(store).clock + 1
                    &&& unchanged_except_messages(*old(store), *final(store))
                },
                Err(e) => {
                    &&& *final(store) == *old(store)
                    &&& e == StoreError::StoreFailure
                    &&& (!old(store).contains_channel(new_message.channel_id) || !old(
                        store,
                    ).contains_user(new_message.author_user_id) || !old(
                        store,
                    ).can_insert_message())
                },
            },
    {
        if find_channel_by_id(&store.channels, new_message.channel_id).is_none() {
            return Err(StoreError::StoreFailure);
        }
        if find_user_by_id(&store.users, new_message.author_user_id).is_none() {
            return Err(StoreError::StoreFailure);
        }
        if store.next_message_id == i32::MAX || store.clock == i64::MAX {
            return Err(StoreError::StoreFailure);
        }
        let message = Message {
            message_id: store.next_message_id,
            channel_id: new_message.channel_id,
            author_user_id: new_message.author_user_id,
            content: new_message.content,
            created_at: store.clock,
            updated_at: None,
            edited_at: None,
        };
        let created = dup_message(&message);
        store.messages.push(message);
        store.next_message_id = store.next_message_id + 1;
        store.clock = store.clock + 1;
        Ok(created)
    }

    /// The message carrying `message_id`, if any. Never fails.
    pub fn find_by_id(&self, store: &Store, message_id: i32) -> (r: Result<
        Option<Message>,
        StoreError,
    >)
        requires
            store.wf(),
        ensures
            match r {
                Ok(Some(m)) => store.contains_message(message_id) && m == store.message_with_id(
                    message_id,
                ),
                Ok(None) => !store.contains_message(message_id),
                Err(_) => false,
            },
    {
        match find_message_by_id(&store.messages, message_id) {
            Some(i) => {
                proof {
                    lemma_message_at_index(*store, i as int);
                }
                Ok(Some(dup_message(&store.messages[i])))
            },
            None => Ok(None),
        }
    }

    /// The messages of `channel_id`, newest first, at most `limit` of
    /// them. A negative limit is a store failure, as it is for the
    /// underlying row limit of a query.
    pub fn find_by_channel(&self, store: &Store, channel_id: i32, limit: i64) -> (r: Result<
        Vec<Message>,
        StoreError,
    >)
        requires
            store.wf(),
        ensures
            match r {
                Ok(v) => limit >= 0 && v@ == recent_messages(
                    store.messages@,
                    channel_id,
                    limit as int,
                ),
                Err(e) => e == StoreError::StoreFailure && limit < 0,
            },
    {
        if limit < 0 {
            return Err(StoreError::StoreFailure);
        }
        let mut out: Vec<Message> = Vec::new();
        let mut i: usize = store.messages.len();
        proof {
            assert(store.messages@.take(i as int) =~= store.messages@);
            assert(Seq::<Message>::empty() + recent_messages(
                store.messages@,
                channel_id,
                limit as int,
            ) =~= recent_messages(store.messages@, channel_id, limit as int));
        }
        while i > 0 && (out.len() as i64) < limit
            invariant
                i <= store.messages@.len(),
                out@.len() + i <= store.messages@.len(),
                store.wf(),
                limit >= 0,
                out@.len() <= limit,
                recent_messages(store.messages@, channel_id, limit as int) == out@
                    + recent_messages(
                    store.messages@.take(i as int),
                    channel_id,
                    limit - out@.len(),
                ),
            decreases i,
        {
            i = i - 1;
            proof {
                assert(store.messages@.take(i + 1).drop_last() =~= store.messages@.take(i as int));
                assert(store.messages@.take(i + 1).last() == store.messages@[i as int]);
            }
            if store.messages[i].channel_id == channel_id {
                out.push(dup_message(&store.messages[i]));
                proof {
                    assert(out@.drop_last() + (seq![store.messages@[i as int]]
                        + recent_messages(
                        store.messages@.take(i as int),
                        channel_id,
                        limit - out@.len(),
                    )) =~= out@ + recent_messages(
                        store.messages@.take(i as int),
                        channel_id,
                        limit - out@.len(),
                    ));
                }
            }
        }
        proof {
            if i == 0 {
                assert(store.messages@.take(0) =~= Seq::<Message>::empty());
            }
            assert(out@ + Seq::<Message>::empty() =~= out@);
        }
        Ok(out)
    }

    /// The messages of `channel_id` joined with their authors' public
    /// views, newest first, at most `limit` of them; a message whose
    /// author is gone is left out. A negative limit is a store
    /// failure.
    pub fn find_by_channel_with_authors(
        &self,
        store: &Store,
        channel_id: i32,
        limit: i64,
    ) -> (r: Result<Vec<MessageWithAuthorResponse>, StoreError>)
        requires
            store.wf(),
        ensures
            match r {
                Ok(v) => limit >= 0 && v@ == recent_messages_with_authors(
                    store.messages@,
                    *store,
                    channel_id,
                    limit as int,
                ),
                Err(e) => e == StoreError::StoreFailure && limit < 0,
            },
    {
        if limit < 0 {
            return Err(StoreError::StoreFailure);
        }
        let mut out: Vec<MessageWithAuthorResponse> = Vec::new();
        let mut i: usize = store.messages.len();
        proof {
            assert(store.messages@.take(i as int) =~= store.messages@);
            assert(Seq::<MessageWithAuthorResponse>::empty() + recent_messages_with_authors(
                store.messages@,
                *store,
                channel_id,
                limit as int,
            ) =~= recent_messages_with_authors(
                store.messages@,
                *store,
                channel_id,
                limit as int,
            ));
        }
        while i > 0 && (out.len() as i64) < limit
            invariant
                i <= store.messages@.len(),
                out@.len() + i <= store.messages@.len(),
                store.wf(),
                limit >= 0,
                out@.len() <= limit,
                recent_messages_with_authors(store.messages@, *store, channel_id, limit as int)
                    == out@ + recent_messages_with_authors(
                    store.messages@.take(i as int),
                    *store,
                    channel_id,
                    limit - out@.len(),
                ),
            decreases i,
        {
            i = i - 1;
            proof {
                assert(store.messages@.take(i + 1).drop_last() =~= store.messages@.take(i as int));
                assert(store.messages@.take(i + 1).last() == store.messages@[i as int]);
            }
            if store.messages[i].channel_id == channel_id {
                match find_user_by_id(&store.users, store.messages[i].author_user_id) {
                    Some(k) => {
                        proof {
                            lemma_user_at_index(*store, k as int);
                        }
                        let m = &store.messages[i];
                        let u = &store.users[k];
                        out.push(
                            MessageWithAuthorResponse {
                                message_id: m.message_id,
                                content: m.content.clone(),
                                author: UserResponse {
                                    user_id: u.user_id,
                                    username: u.username.clone(),
                                    email: u.email.clone(),
                                    avatar_url: dup_opt_string(&u.avatar_url),
                                    status: u.status.clone(),
                                    created_at: u.created_at,
                                },
                                created_at: m.created_at,
                                edited_at: m.edited_at,
                            },
                        );
                        proof {
                            assert(out@.drop_last() + (seq![
                                spec_message_with_author(
                                    store.messages@[i as int],
                                    store.user_with_id(store.messages@[i as int].author_user_id),
                                ),
                            ] + recent_messages_with_authors(
                                store.messages@.take(i as int),
                                *store,
                                channel_id,
                                limit - out@.len(),
                            )) =~= out@ + recent_messages_with_authors(
                                store.messages@.take(i as int),
                                *store,
                                channel_id,
                                limit - out@.len(),
                            ));
                        }
                    },
                    None => {
                    },
                }
            }
        }
        proof {
            if i == 0 {
                assert(store.messages@.take(0) =~= Seq::<Message>::empty());
            }
            assert(out@ + Seq::<MessageWithAuthorResponse>::empty() =~= out@);
        }
        Ok(out)
    }

    /// Replaces the content of the message carrying `message_id` and
    /// stamps `updated_at` and `edited_at` together with one fresh
    /// timestamp; everything else is kept. The store is untouched on
    /// any failure.
    pub fn update_content(&self, store: &mut Store, message_id: i32, content: String) -> (r:
        Result<Message, StoreError>)
        requires
            old(store).wf(),
        ensures
            final(store).wf(),
            match r {
                Ok(updated) => {
                    &&& old(store).contains_message(message_id)
                    &&& old(store).can_touch()
                    &&& updated == (Message {
                        message_id,
                        channel_id: old(store).message_with_id(message_id).channel_id,
                        author_user_id: old(store).message_with_id(message_id).author_user_id,
                        content,
                        created_at: old(store).message_with_id(message_id).created_at,
                        updated_at: Some(old(store).clock),
                        edited_at: Some(old(store).clock),
                    })
                    &&& final(store).messages@ == old(store).messages@.update(
                        old(store).message_index(message_id),
                        updated,
                    )
                    &&& final(store).next_message_id == old(store).next_message_id
                    &&& final(store).clock == old(store).clock + 1
                    &&& unchanged_except_messages(*old(store), *final(store))
                },
                Err(e) => {
                    &&& *final(store) == *old(store)
                    &&& match e {
                        StoreError::NotFound => !old(store).contains_message(message_id),
                        StoreError::StoreFailure => old(store).contains_message(message_id)
                            && !old(store).can_touch(),
                        _ => false,
                    }
                },
            },
    {
        let idx = match find_message_by_id(&store.messages, message_id) {
            Some(i) => i,
            None => {
                return Err(StoreError::NotFound);
            },
        };
        if store.clock == i64::MAX {
            return Err(StoreError::StoreFailure);
        }
        proof {
            lemma_message_at_index(*store, idx as int);
        }
        let updated = Message {
            message_id,
            channel_id: store.messages[idx].channel_id,
            author_user_id: store.messages[idx].author_user_id,
            content,
            created_at: store.messages[idx].created_at,
            updated_at: Some(store.clock),
            edited_at: Some(store.clock),
        };
        let returned = dup_message(&updated);
        store.messages.set(idx, updated);
        store.clock = store.clock + 1;
        proof {
            assert forall|i: int, j: int|
                0 <= i < j < store.messages@.len() implies #[trigger] store.messages@[i].message_id
                != #[trigger] store.messages@[j].message_id && store.messages@[i].created_at
                < store.messages@[j].created_at by {
                assert(old(store).messages@[i].message_id == message_id ==> i == idx);
                assert(old(store).messages@[j].message_id == message_id ==> j == idx);
            }
        }
        Ok(returned)
    }

    /// Removes the message carrying `message_id` and says whether a
    /// row was actually removed; absence is `Ok(false)`, never an
    /// error.
    pub fn delete(&self, store: &mut Store, message_id: i32) -> (r: Result<bool, StoreError>)
        requires
            old(store).wf(),
        ensures
            final(store).wf(),
            match r {
                Ok(true) => {
                    &&& old(store).contains_message(message_id)
                    &&& final(store).messages@ == old(store).messages@.remove(
                        old(store).message_index(message_id),
                    )
                    &&& final(store).next_message_id == old(store).next_message_id
                    &&& final(store).clock == old(store).clock
                    &&& unchanged_except_messages(*old(store), *final(store))
                },
                Ok(false) => !old(store).contains_message(message_id) && *final(store) == *old(
                    store,
                ),
                Err(_) => false,
            },
    {
        match find_message_by_id(&store.messages, message_id) {
            Some(i) => {
                proof {
                    lemma_message_at_index(*store, i as int);
                }
                store.messages.remove(i);
                Ok(true)
            },
            None => Ok(false),
        }
    }

    /// How many messages `channel_id` holds. Never fails.
    pub fn count_by_channel(&self, store: &Store, channel_id: i32) -> (r: Result<i64, StoreError>)
        requires
            store.wf(),
        ensures
            match r {
                Ok(n) => n == store.messages@.filter(in_channel(channel_id)).len(),
                Err(_) => false,
            },
    {
        let mut count: usize = 0;
        let mut i: usize = 0;
        proof {
            assert(store.messages@.take(0) =~= Seq::<Message>::empty());
            reveal(Seq::filter);
        }
        while i < store.messages.len()
            invariant
                i <= store.messages@.len(),
                count <= i,
                count == store.messages@.take(i as int).filter(in_channel(channel_id)).len(),
            decreases store.messages@.len() - i,
        {
            proof {
                assert(store.messages@.take(i + 1) =~= store.messages@.take(i as int).push(
                    store.messages@[i as int],
                ));
                lemma_filter_push(
                    store.messages@.take(i as int),
                    in_channel(channel_id),
                    store.messages@[i as int],
                );
            }
            if store.messages[i].channel_id == channel_id {
                count = count + 1;
            }
            i = i + 1;
        }
        proof {
            assert(store.messages@.take(store.messages@.len() as int) =~= store.messages@);
        }
        Ok(count as i64)
    }

    /// How many messages `user_id` has written. Never fails.
    pub fn count_by_user(&self, store: &Store, user_id: i32) -> (r: Result<i64, StoreError>)
        requires
            store.wf(),
        ensures
            match r {
                Ok(n) => n == store.messages@.filter(by_author(user_id)).len(),
                Err(_) => false,
            },
    {
        let mut count: usize = 0;
        let mut i: usize = 0;
        proof {
            assert(store.messages@.take(0) =~= Seq::<Message>::empty());
            reveal(Seq::filter);
        }
        while i < store.messages.len()
            invariant
                i <= store.messages@.len(),
                count <= i,
                count == store.messages@.take(i as int).filter(by_author(user_id)).len(),
            decreases store.messages@.len() - i,
        {
            proof {
                assert(store.messages@.take(i + 1) =~= store.messages@.take(i as int).push(
                    store.messages@[i as int],
                ));
                lemma_filter_push(
                    store.messages@.take(i as int),
                    by_author(user_id),
                    store.messages@[i as int],
                );
            }
            if store.messages[i].author_user_id == user_id {
                count = count + 1;
            }
            i = i + 1;
        }
        proof {
            assert(store.messages@.take(store.messages@.len() as int) =~= store.messages@);
        }
        Ok(count as i64)
    }
}

} // verus!
