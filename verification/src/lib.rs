pub mod basic;
pub mod message;
pub mod msg_process;
pub mod state;
pub mod timer;

use crate::message::{InputMessage, OutputMessage};
use crate::msg_process::{message_accepted, processed};
use crate::state::{RaftNode, Types};
use vstd::prelude::*;

verus! {

impl<TTypes: Types> RaftNode<TTypes> {
    /// Processes one input message (see `msg_process::process_msg`) and returns the messages
    /// that the node sends in answer.
    pub fn process_message(&mut self, message: InputMessage<TTypes>) -> (out: Vec<OutputMessage<TTypes>>)
        requires
            old(self).state matches Some(s) && message_accepted(s, message),
        ensures
            final(self).state matches Some(s) && processed(old(self).state->0, message, s, out@),
            old(self).state->0.wf() ==> final(self).state->0.wf(),
    {
        let state = self.state.take().expect("State MUST ALWAYS be initialized");
        let (new_state, out_msg) = msg_process::process_msg(state, message);

        self.state = Some(new_state);

        out_msg
    }
}

} // verus!
