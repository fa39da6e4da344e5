use crate::models::channel::Channel;
use crate::models::server::Server;
use vstd::prelude::*;

verus! {

/// The public projection of a user record. It deliberately has no
/// field for the password credential: excluding it is a hard boundary
/// invariant, not an optimization.
#[derive(Debug, Clone, PartialEq, Eq)]
pub struct UserResponse {
    pub user_id: i32,
    pub username: String,
    pub email: String,
    pub avatar_url: Option<String>,
    pub status: String,
    pub created_at: i64,
}

/// A server together with the public views of its members.
#[derive(Debug, Clone, PartialEq, Eq)]
pub struct ServerWithMembersResponse {
    pub server: Server,
    pub members: Vec<UserResponse>,
}

/// A channel together with its most recent messages and their authors.
#[derive(Debug, Clone, PartialEq, Eq)]
pub struct ChannelWithMessagesResponse {
    pub channel: Channel,
    pub messages: Vec<MessageWithAuthorResponse>,
}

/// A message joined with the public view of its author.
#[derive(Debug, Clone, PartialEq, Eq)]
pub struct MessageWithAuthorResponse {
    pub message_id: i32,
    pub content: String,
    pub author: UserResponse,
    pub created_at: i64,
    pub edited_at: Option<i64>,
}

} // verus!
