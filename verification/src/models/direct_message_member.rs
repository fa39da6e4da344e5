use vstd::prelude::*;

verus! {

/// A direct-message membership row: `(channel_id, user_id)` is a
/// composite key; the referenced channel is expected to be dm-typed.
#[derive(Debug, Clone, Copy, PartialEq, Eq, Structural)]
pub struct DirectMessageMember {
    pub channel_id: i32,
    pub user_id: i32,
}

/// The fields a caller supplies when adding a direct-message member.
#[derive(Debug, Clone, Copy, PartialEq, Eq, Structural)]
pub struct NewDirectMessageMember {
    pub channel_id: i32,
    pub user_id: i32,
}

} // verus!
