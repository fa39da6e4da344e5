use vstd::prelude::*;

verus! {

/// A membership row: `(server_id, user_id)` is a composite key.
#[derive(Debug, Clone, PartialEq, Eq)]
pub struct ServerMember {
    pub server_id: i32,
    pub user_id: i32,
    pub nickname: Option<String>,
    pub joined_at: i64,
}

/// The fields a caller supplies when adding a member to a server.
#[derive(Debug, Clone, PartialEq, Eq)]
pub struct NewServerMember {
    pub server_id: i32,
    pub user_id: i32,
    pub nickname: Option<String>,
}

} // verus!
