//! A collaborator on a channel buffer, as one row of the collaborators table.
use vstd::prelude::*;

verus! {

/// The server a connection was made through.
#[derive(Clone, Copy, Debug, PartialEq, Eq, Structural)]
pub struct ServerId(pub i32);

/// A connection, named by the server that owns it and its number there.
#[derive(Clone, Copy, Debug, PartialEq, Eq, Structural)]
pub struct ConnectionId {
    pub owner_id: u32,
    pub id: u32,
}

/// One collaborator's row.
#[derive(Clone, Copy, Debug, PartialEq, Eq, Structural)]
pub struct Model {
    pub id: i32,
    pub buffer_id: i32,
    pub connection_id: i32,
    pub connection_server_id: ServerId,
    pub connection_lost: bool,
    pub user_id: i32,
    pub replica_id: i32,
}

/// A stored signed number read back as the unsigned one it was written from.
pub open spec fn as_unsigned(x: i32) -> int {
    if x >= 0 {
        x as int
    } else {
        x as int + 0x1_0000_0000
    }
}

fn to_unsigned(x: i32) -> (r: u32)
    ensures
        r as int == as_unsigned(x),
{
    if x >= 0 {
        x as u32
    } else {
        (x as i64 + 0x1_0000_0000i64) as u32
    }
}

impl Model {
    /// The connection the collaborator is on.
    pub fn connection(&self) -> (r: ConnectionId)
        ensures
            r.owner_id as int == as_unsigned(self.connection_server_id.0),
            r.id as int == as_unsigned(self.connection_id),
    {
        ConnectionId {
            owner_id: to_unsigned(self.connection_server_id.0),
            id: to_unsigned(self.connection_id),
        }
    }
}

} // verus!
