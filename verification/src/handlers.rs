pub mod server_handlers;
pub mod user_handlers;
