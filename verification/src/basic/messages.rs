use crate::basic::common_types::{LogMsgIdx, Term};
use crate::basic::log::LogEntry;
use crate::basic::state::NodeAddress;
use vstd::prelude::*;

verus! {

/// The interaction of a node (a state machine) with the outer world, the timer included;
/// implemented by the user of the library.
pub trait MessageQueue {
    fn read_message(&self) -> Option<InputMessage>;

    fn push_message(&self, message: OutputMessage);
}

pub enum OutputMessage {
    RaftMsg { message: RaftMessage },
}

pub enum InputMessage {
    ControlMessage(ControlMessage),
    RaftMsg(RaftMessage),
}

pub enum ControlMessage {
    /// The node starts an election if its state allows it.
    TriggerElection,
    /// The node sends a heartbeat if its state allows it.
    TriggerHeartbeat,
}

/// The messages that the Raft paper describes.
pub enum RaftMessage {
    AppendEntries(AppendEntriesMsg),
    /// The answer to an AppendEntries message.
    AppendEntriesResp(AppendEntriesResp),
    RequestVote(RequestVoteMsg),
}

pub struct AppendEntriesResp {
    pub success: bool,
    pub sender_term: Term,
}

/// The leader's term, its id (so that a follower can redirect clients), the index and term of
/// the entry that immediately precedes the new ones, the entries to store (empty for a
/// heartbeat; more than one may be sent for efficiency) and the leader's commit index.
pub struct AppendEntriesMsg {
    pub sender_term: Term,
    pub leader_id: NodeAddress,
    pub content: Vec<LogEntry>,
    pub prev_log_index: LogMsgIdx,
    pub prev_log_term: Term,
    pub leader_commit: LogMsgIdx,
}

pub struct RequestVoteMsg {
    pub sender_term: Term,
    pub sender_addr: NodeAddress,
}

/// The term of the sender of a message.
pub open spec fn message_term(msg: RaftMessage) -> Term {
    match msg {
        RaftMessage::RequestVote(m) => m.sender_term,
        RaftMessage::AppendEntriesResp(m) => m.sender_term,
        RaftMessage::AppendEntries(m) => m.sender_term,
    }
}

/// The term of the sender of a message.
pub fn get_term(msg: &RaftMessage) -> (t: Term)
    ensures
        t == message_term(*msg),
{
    return match msg {
        RaftMessage::RequestVote(RequestVoteMsg { sender_term, .. })
        | RaftMessage::AppendEntriesResp(AppendEntriesResp { sender_term, .. })
        | RaftMessage::AppendEntries(AppendEntriesMsg { sender_term, .. }) => *sender_term,
    };
}

} // verus!
