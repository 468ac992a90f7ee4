use crate::state::{NodeAddress, OtherNodes};
use vstd::prelude::*;

verus! {

/// The connection of a node to the other nodes of its cluster, implemented by the user of the
/// library.
pub trait NodesConnection {
    fn send_message(&self, others: &OtherNodes, message: NodesMessages);

    fn poll_message(&self) -> Option<NodesMessages>;
}

/// A message between nodes.
pub enum NodesMessages {
    Heartbeat,
    AppendEntries,
    RequestVote { sender_addr: NodeAddress },
}

} // verus!
