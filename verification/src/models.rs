pub mod channel;
pub mod direct_message_member;
pub mod message;
pub mod models;
pub mod response_types;
pub mod server;
pub mod server_member;
pub mod user;
