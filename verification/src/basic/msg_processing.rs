pub mod control_msg;
pub mod raft_msg;

use crate::basic::messages::{InputMessage, OutputMessage};
use crate::basic::msg_processing::control_msg::{control_step, election_allowed};
use crate::basic::state::NodeState;
use vstd::prelude::*;

verus! {

/// Processes an input message: the node's next state, and what it sends.
///
/// Only control messages are processed: the processing of Raft messages is not written yet,
/// so they are left out.
pub fn process_msg(msg: InputMessage, node_state: NodeState) -> (r: (NodeState, Option<OutputMessage>))
    requires
        msg matches InputMessage::ControlMessage(ctrl_msg) && election_allowed(ctrl_msg, node_state),
    ensures
        msg matches InputMessage::ControlMessage(ctrl_msg) && control_step(ctrl_msg, node_state, r.0, r.1),
{
    return match msg {
        InputMessage::ControlMessage(ctrl_msg) => { control_msg::process_msg(ctrl_msg, node_state) },
        InputMessage::RaftMsg(_) => {
            proof {
                assert(false);
            }
            (node_state, None)
        },
    };
}

} // verus!
