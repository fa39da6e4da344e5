use vstd::prelude::*;

verus! {

/// A stored message record. `edited_at` is set only once the content
/// has been mutated after creation.
#[derive(Debug, Clone, PartialEq, Eq)]
pub struct Message {
    pub message_id: i32,
    pub channel_id: i32,
    pub author_user_id: i32,
    pub content: String,
    pub created_at: i64,
    pub updated_at: Option<i64>,
    pub edited_at: Option<i64>,
}

/// The fields a caller supplies when creating a message.
#[derive(Debug, Clone, PartialEq, Eq)]
pub struct NewMessage {
    pub channel_id: i32,
    pub author_user_id: i32,
    pub content: String,
}

} // verus!
