use vstd::prelude::*;

verus! {

/// A stored server (guild) record.
#[derive(Debug, Clone, PartialEq, Eq)]
pub struct Server {
    pub server_id: i32,
    pub server_name: String,
    pub owner_user_id: i32,
    pub icon_url: Option<String>,
    pub created_at: i64,
    pub updated_at: Option<i64>,
}

/// The fields a caller supplies when creating a server.
#[derive(Debug, Clone, PartialEq, Eq)]
pub struct NewServer {
    pub server_name: String,
    pub owner_user_id: i32,
    pub icon_url: Option<String>,
}

} // verus!
