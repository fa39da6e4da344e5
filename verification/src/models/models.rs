// Re-exports every model under one path, kept for callers that import
// the whole family from a single module.

pub use crate::models::channel::{Channel, NewChannel};
pub use crate::models::direct_message_member::{DirectMessageMember, NewDirectMessageMember};
pub use crate::models::message::{Message, NewMessage};
pub use crate::models::response_types::{
    ChannelWithMessagesResponse, MessageWithAuthorResponse, ServerWithMembersResponse, UserResponse,
};
pub use crate::models::server::{NewServer, Server};
pub use crate::models::server_member::{NewServerMember, ServerMember};
pub use crate::models::user::{NewUser, User};
