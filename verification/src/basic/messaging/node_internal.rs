use vstd::prelude::*;

verus! {

/// A command from another thread of this node (not from another Raft node).
pub enum ThisNodeInputCmd {
    Stop,
}

/// A command to another thread of this node (not to another Raft node). No such command is
/// sent yet: the one variant is never produced.
pub enum ThisNodeOutputCmd {
    Stopped,
}

} // verus!
