//! Messages between a connection and its keep-alive loop.
use vstd::prelude::*;
use crate::json::Json;

verus! {

/// What a connection tells its keep-alive loop; `S` is the websocket sender.
pub enum Status<S> {
    /// Send this message over the websocket.
    SendMessage(Json),
    /// The last sequence number received.
    Sequence(u64),
    /// The heartbeat interval changed, in milliseconds.
    ChangeInterval(u64),
    /// Send through this sender from now on.
    ChangeSender(S),
    /// The connection is closing.
    Aborted,
}

} // verus!
