use crate::message::{OutputMessage, RaftRpcResp, ReqVoteResp, RequestVoteReq};
use crate::state::{CommonState, Follower, NodeId, RaftTerm, State, Types};
use vstd::prelude::*;

verus! {

/// The sender's log is at least as up to date as the receiver's: its last term is not older
/// and it is not shorter.
pub open spec fn log_up_to_date<TTypes: Types>(c: CommonState<TTypes>, req: RequestVoteReq) -> bool {
    &&& c.common_persistent.last_msg_term.0 <= req.last_log_term.0
    &&& c.common_persistent.log@.len() <= req.last_log_index
}

/// The answer of a node with `state` to a vote request with `message`.
pub open spec fn vote_reply<TTypes: Types>(
    state: State<TTypes>,
    message: RequestVoteReq,
    granted: bool,
) -> OutputMessage<TTypes> {
    OutputMessage::RaftResp(
        RaftRpcResp::RequestVote(
            ReqVoteResp {
                term: state.common_view().common_persistent.current_term,
                vote_granted: granted,
                sender_id: state.common_view().common_persistent.this_node_id,
            },
        ),
    )
}

/// What answering a vote request does: `next` is the node's state afterwards and `out` what it
/// sends.
///
/// A node whose term is not older than the request's refuses and keeps its state; otherwise it
/// becomes a follower and grants the vote exactly when the candidate's log is at least as up to
/// date as its own. The answer carries the node's term from before the request.
pub open spec fn request_vote_step<TTypes: Types>(
    state: State<TTypes>,
    message: RequestVoteReq,
    next: State<TTypes>,
    out: Seq<OutputMessage<TTypes>>,
) -> bool {
    if state.common_view().common_persistent.current_term.0 >= message.term.0 {
        next == state && out =~= seq![vote_reply(state, message, false)]
    } else {
        &&& next == state.as_follower()
        &&& out =~= seq![vote_reply(state, message, log_up_to_date(state.common_view(), message))]
    }
}

/// A node whose term is older than a vote request's grants the vote exactly when its recorded
/// last-message term is not greater than the candidate's last log term and its log is not
/// longer than the candidate's last log index.
pub proof fn lemma_vote_granted_when_candidate_up_to_date<TTypes: Types>(
    state: State<TTypes>,
    message: RequestVoteReq,
    next: State<TTypes>,
    out: Seq<OutputMessage<TTypes>>,
)
    requires
        request_vote_step(state, message, next, out),
        state.common_view().common_persistent.current_term.0 < message.term.0,
    ensures
        next is Follower,
        out.len() == 1,
        out[0] matches OutputMessage::RaftResp(RaftRpcResp::RequestVote(r)) && r.vote_granted == (
        state.common_view().common_persistent.last_msg_term.0 <= message.last_log_term.0
            && state.common_view().common_persistent.log@.len() <= message.last_log_index),
{
}

/// Answers a vote request (see `request_vote_step`).
pub fn process_msg<TTypes: Types>(state: State<TTypes>, message: RequestVoteReq) -> (res: (
    State<TTypes>,
    Vec<OutputMessage<TTypes>>,
))
    ensures
        request_vote_step(state, message, res.0, res.1@),
{
    let node_id = state.common().common_persistent.this_node_id;
    let curr_term = state.common().common_persistent.current_term;

    if curr_term.0 >= message.term.0 {
        return (state, vec![OutputMessage::RaftResp(reply_false(curr_term, node_id))]);
    }
    let follower = match state {
        State::Leader(leader) => Follower::from(leader),
        State::Candidate(candidate) => Follower::from(candidate),
        State::Follower(follower) => follower,
    };

    // check if log of sender is up-to-date
    match is_log_up_to_date(&follower, &message) {
        true => (State::Follower(follower), vec![OutputMessage::RaftResp(reply_true(curr_term, node_id))]),
        false => (State::Follower(follower), vec![OutputMessage::RaftResp(reply_false(curr_term, node_id))]),
    }
}

fn reply_false(curr_term: RaftTerm, sender: NodeId) -> (r: RaftRpcResp)
    ensures
        r == RaftRpcResp::RequestVote(ReqVoteResp { term: curr_term, vote_granted: false, sender_id: sender }),
{
    RaftRpcResp::RequestVote(ReqVoteResp { term: curr_term, vote_granted: false, sender_id: sender })
}

fn reply_true(curr_term: RaftTerm, sender: NodeId) -> (r: RaftRpcResp)
    ensures
        r == RaftRpcResp::RequestVote(ReqVoteResp { term: curr_term, vote_granted: true, sender_id: sender }),
{
    RaftRpcResp::RequestVote(ReqVoteResp { term: curr_term, vote_granted: true, sender_id: sender })
}

/// Checks whether the log of the vote request's sender is up to date from this node's
/// (the receiver's) perspective.
fn is_log_up_to_date<TTypes: Types>(state: &Follower<TTypes>, req: &RequestVoteReq) -> (b: bool)
    ensures
        b == log_up_to_date(state.common_state, *req),
{
    // compare terms
    let msg_log_term = req.last_log_term;
    let this_node_log_term = state.common_state.common_persistent.last_msg_term;

    if this_node_log_term.0 > msg_log_term.0 {
        return false;
    }

    // compare indexes
    let this_node_log_idx = state.common_state.common_persistent.log.len();
    let msg_log_idx = req.last_log_index;

    if this_node_log_idx > msg_log_idx {
        return false;
    }

    true
}

} // verus!
