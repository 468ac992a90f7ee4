pub mod common_types;
pub mod log;
pub mod messages;
pub mod messaging;
pub mod msg_processing;
pub mod state;

pub use crate::basic::messaging::between_nodes::{NodesConnection, NodesMessages};
pub use crate::basic::messaging::node_internal::{ThisNodeInputCmd, ThisNodeOutputCmd};
use crate::state::{CandidateState, FollowerState, NodeRoleState, NodeState};
use crate::timer::TimerOutputMsg;
use vstd::prelude::*;

verus! {

/// An error of a node. No error can happen yet: the one variant is never produced.
pub enum NodeErr {
    Internal,
}

/// A message that a node sends on a timer event.
#[derive(PartialEq, Eq, Structural, Copy, Clone, Debug)]
pub enum TimerReaction {
    /// A heartbeat to the other nodes.
    SendHeartbeat,
    /// The start of an election, to the other nodes.
    SendStartElection,
}

/// The decision of a node on a timer event: its next role, and what it sends.
///
/// On a heartbeat trigger, the node keeps its role and sends a heartbeat. On an election
/// trigger, a follower becomes a candidate in the next term and starts an election, and the
/// other roles keep what they are and send nothing.
pub fn process_timer_msg(timer_msg: TimerOutputMsg, node_state: NodeRoleState) -> (r: Result<
    (NodeRoleState, Option<TimerReaction>),
    NodeErr,
>)
    requires
        timer_msg == TimerOutputMsg::ElectionTimeTrigger ==> (node_state matches NodeRoleState::FollowerState(
            f,
        ) ==> f.node_state.term < u64::MAX),
    ensures
        r is Ok,
        timer_msg == TimerOutputMsg::HeartbeatTimeTrigger ==> r == Ok::<_, NodeErr>(
            (node_state, Some(TimerReaction::SendHeartbeat)),
        ),
        timer_msg == TimerOutputMsg::ElectionTimeTrigger ==> match node_state {
            NodeRoleState::FollowerState(f) => r == Ok::<_, NodeErr>(
                (
                    NodeRoleState::CandidateState(
                        CandidateState {
                            node_state: NodeState {
                                term: (f.node_state.term + 1) as u64,
                                ..f.node_state
                            },
                        },
                    ),
                    Some(TimerReaction::SendStartElection),
                ),
            ),
            _ => r == Ok::<_, NodeErr>((node_state, None::<TimerReaction>)),
        },
{
    match timer_msg {
        TimerOutputMsg::HeartbeatTimeTrigger => { Ok((node_state, Some(TimerReaction::SendHeartbeat))) },
        TimerOutputMsg::ElectionTimeTrigger => {
            match node_state {
                NodeRoleState::CandidateState(_) => Ok((node_state, None)),
                NodeRoleState::LeaderState(_) => Ok((node_state, None)),
                NodeRoleState::FollowerState(s) => {
                    let new_state = to_candidate_state(s)?;
                    Ok((NodeRoleState::CandidateState(new_state), Some(TimerReaction::SendStartElection)))
                },
            }
        },
    }
}

/// The candidate that a follower becomes: the same state in the next term.
pub fn to_candidate_state(state: FollowerState) -> (r: Result<CandidateState, NodeErr>)
    requires
        state.node_state.term < u64::MAX,
    ensures
        r == Ok::<_, NodeErr>(
            CandidateState {
                node_state: NodeState { term: (state.node_state.term + 1) as u64, ..state.node_state },
            },
        ),
{
    let state = state.node_state;

    Ok(CandidateState { node_state: NodeState { term: state.term + 1, ..state } })
}

} // verus!
