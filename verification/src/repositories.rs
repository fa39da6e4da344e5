pub mod channel_repository;
pub mod direct_message_repository;
pub mod message_repository;
pub mod server_member_repository;
pub mod server_repository;
pub mod user_repository;

pub use channel_repository::ChannelRepository;
pub use direct_message_repository::DirectMessageRepository;
pub use message_repository::MessageRepository;
pub use server_member_repository::ServerMemberRepository;
pub use server_repository::ServerRepository;
pub use user_repository::UserRepository;
