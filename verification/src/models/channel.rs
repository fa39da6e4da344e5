use vstd::prelude::*;

verus! {

/// A stored channel record. `server_id` is `None` exactly when the
/// channel is a direct-message channel (`channel_type` is `"dm"`).
#[derive(Debug, Clone, PartialEq, Eq)]
pub struct Channel {
    pub channel_id: i32,
    pub server_id: Option<i32>,
    pub name: String,
    pub channel_type: String,
    pub created_at: i64,
    pub updated_at: Option<i64>,
}

/// The fields a caller supplies when creating a channel.
#[derive(Debug, Clone, PartialEq, Eq)]
pub struct NewChannel {
    pub server_id: Option<i32>,
    pub name: String,
    pub channel_type: String,
}

} // verus!
