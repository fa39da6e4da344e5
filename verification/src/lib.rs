pub mod credential;
pub mod handlers;
pub mod models;
pub mod order;
pub mod repositories;
pub mod store;
