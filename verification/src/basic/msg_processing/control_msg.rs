use crate::basic::common_types::Term;
use crate::basic::messages::{AppendEntriesMsg, ControlMessage, OutputMessage, RaftMessage, RequestVoteMsg};
use crate::basic::state::{CandidateState, Common, Either, FollowerState, NodeState};
use vstd::prelude::*;

verus! {

/// `m` is the heartbeat of a leader with common state `c`: an AppendEntries message of its term
/// without entries, naming the leader, the index and term of its last entry and its last
/// committed index.
pub open spec fn heartbeat_of(c: Common, m: AppendEntriesMsg) -> bool {
    &&& m.sender_term == c.term
    &&& m.leader_id == c.this_node_address
    &&& m.content@.len() == 0
    &&& m.prev_log_index == c.log@.last_idx
    &&& m.prev_log_term == c.log@.last_term
    &&& m.leader_commit == c.log@.last_committed_idx
}

/// The candidate that a follower becomes: nobody has voted for it yet, and it keeps the leader
/// it knows and its common state.
pub open spec fn candidate_of(f: FollowerState) -> CandidateState {
    CandidateState {
        ignore_next_election_timeout_trigger: f.ignore_next_election_timeout_trigger,
        leader_address: f.leader_address,
        votes_count: 0,
        common: f.common,
    }
}

/// A candidate that starts an election: its term is incremented and it votes for itself.
pub open spec fn election_started(c: CandidateState) -> CandidateState {
    CandidateState {
        votes_count: 1,
        common: Common { term: Term((c.common.term.0 + 1) as u64), ..c.common },
        ..c
    }
}

/// The vote request that candidate `c` sends when it starts an election.
pub open spec fn vote_request(c: CandidateState) -> RaftMessage {
    RaftMessage::RequestVote(
        RequestVoteMsg {
            sender_term: Term((c.common.term.0 + 1) as u64),
            sender_addr: c.common.this_node_address,
        },
    )
}

/// The election trigger can be processed: a node that would start an election is not at the
/// largest term.
pub open spec fn election_allowed(msg: ControlMessage, s: NodeState) -> bool {
    msg is TriggerElection ==> match s {
        NodeState::FollowerState(f) => !f.ignore_next_election_timeout_trigger ==> f.common.term.0
            < u64::MAX,
        NodeState::CandidateState(c) => c.common.term.0 < u64::MAX,
        NodeState::LeaderState(_) => true,
    }
}

/// What a control message does: `next` is the node's state afterwards and `out` what it sends.
///
/// On a heartbeat trigger, a leader sends its heartbeat and the other roles send nothing; no
/// role changes. On an election trigger, a follower that got a message from its leader lately
/// keeps quiet, another follower becomes a candidate and starts an election, a candidate starts
/// a new one, and a leader does nothing.
pub open spec fn control_step(
    msg: ControlMessage,
    s: NodeState,
    next: NodeState,
    out: Option<OutputMessage>,
) -> bool {
    match msg {
        ControlMessage::TriggerHeartbeat => next == s && match s {
            NodeState::LeaderState(l) => out matches Some(
                OutputMessage::RaftMsg { message: RaftMessage::AppendEntries(m) },
            ) && heartbeat_of(l.common, m),
            _ => out is None,
        },
        ControlMessage::TriggerElection => match s {
            NodeState::FollowerState(f) => if f.ignore_next_election_timeout_trigger {
                next == s && out is None
            } else {
                &&& next == NodeState::CandidateState(election_started(candidate_of(f)))
                &&& out == Some(OutputMessage::RaftMsg { message: vote_request(candidate_of(f)) })
            },
            NodeState::CandidateState(c) => {
                &&& next == NodeState::CandidateState(election_started(c))
                &&& out == Some(OutputMessage::RaftMsg { message: vote_request(c) })
            },
            NodeState::LeaderState(_) => next == s && out is None,
        },
    }
}

/// Processes a message that the Raft paper does not describe (see `control_step`).
pub fn process_msg(msg: ControlMessage, node_state: NodeState) -> (r: (NodeState, Option<OutputMessage>))
    requires
        election_allowed(msg, node_state),
    ensures
        control_step(msg, node_state, r.0, r.1),
{
    return match msg {
        ControlMessage::TriggerHeartbeat => {
            let msg = process_heartbeat_trigger(&node_state);
            (node_state, msg)
        },
        ControlMessage::TriggerElection => process_election_trigger(node_state),
    };
}

fn process_heartbeat_trigger(node_state: &NodeState) -> (r: Option<OutputMessage>)
    ensures
        match *node_state {
            NodeState::LeaderState(l) => r matches Some(
                OutputMessage::RaftMsg { message: RaftMessage::AppendEntries(m) },
            ) && heartbeat_of(l.common, m),
            _ => r is None,
        },
{
    return match node_state {
        NodeState::LeaderState(ref leader_state) => {
            let (last_idx, last_term) = leader_state.common.log.get_last_msg_info();
            let (last_committed_idx, _) = leader_state.common.log.get_last_committed_info();
            Some(
                OutputMessage::RaftMsg {
                    message: RaftMessage::AppendEntries(
                        AppendEntriesMsg {
                            sender_term: leader_state.common.term,
                            leader_id: leader_state.common.this_node_address,
                            content: Vec::new(),
                            prev_log_index: last_idx,
                            prev_log_term: last_term,
                            leader_commit: last_committed_idx,
                        },
                    ),
                },
            )
        },
        _ => None,
    };
}

fn process_election_trigger(node_state: NodeState) -> (r: (NodeState, Option<OutputMessage>))
    requires
        election_allowed(ControlMessage::TriggerElection, node_state),
    ensures
        control_step(ControlMessage::TriggerElection, node_state, r.0, r.1),
{
    return match node_state {
        NodeState::FollowerState(follower_state) => {
            let (follower_or_candidate, msg) = follower_state.process_election_trigger();

            let out_msg = match msg {
                Some(m) => Some(OutputMessage::RaftMsg { message: m }),
                None => None,
            };

            match follower_or_candidate {
                // still a follower, didn't start an election
                Either::Left(f_state) => {
                    let state = NodeState::FollowerState(f_state);
                    (state, out_msg)
                },
                // became a candidate and started an election
                Either::Right(c_state) => {
                    let new_state = NodeState::CandidateState(c_state);
                    (new_state, out_msg)
                },
            }
        },
        NodeState::CandidateState(candidate_state) => {
            let mut candidate_state = candidate_state;
            let msg = candidate_state.process_election_trigger();
            let out_msg = Some(OutputMessage::RaftMsg { message: msg });
            let new_state = NodeState::CandidateState(candidate_state);

            (new_state, out_msg)
        },
        // a leader doesn't react to the election timeout trigger
        NodeState::LeaderState(_) => { (node_state, None) },
    };
}

impl FollowerState {
    /// Starts an election and becomes a candidate, unless it got a valid message from its
    /// leader lately.
    pub fn process_election_trigger(self) -> (r: (Either<FollowerState, CandidateState>, Option<RaftMessage>))
        requires
            !self.ignore_next_election_timeout_trigger ==> self.common.term.0 < u64::MAX,
        ensures
            self.ignore_next_election_timeout_trigger ==> r.0 == Either::<FollowerState, CandidateState>::Left(
                self,
            ) && r.1 is None,
            !self.ignore_next_election_timeout_trigger ==> r.0 == Either::<
                FollowerState,
                CandidateState,
            >::Right(election_started(candidate_of(self))) && r.1 == Some(
                vote_request(candidate_of(self)),
            ),
    {
        return match self.ignore_next_election_timeout_trigger {
            true => (Either::Left(self), None),
            false => {
                let (new_state, msg) = elect(self);
                return (Either::Right(new_state), Some(msg));
            },
        };
    }
}

/// The follower becomes a candidate and starts an election.
fn elect(follower_state: FollowerState) -> (r: (CandidateState, RaftMessage))
    requires
        follower_state.common.term.0 < u64::MAX,
    ensures
        r.0 == election_started(candidate_of(follower_state)),
        r.1 == vote_request(candidate_of(follower_state)),
{
    // transfer to candidate state
    let mut candidate_state: CandidateState = CandidateState::from(follower_state);
    let msg = start_election(&mut candidate_state);

    (candidate_state, msg)
}

/// A follower turns into a candidate (see `candidate_of`).
impl From<FollowerState> for CandidateState {
    fn from(follower_state: FollowerState) -> (c: Self) {
        CandidateState {
            ignore_next_election_timeout_trigger: follower_state.ignore_next_election_timeout_trigger,
            leader_address: follower_state.leader_address,
            votes_count: 0,
            common: follower_state.common,
        }
    }
}

impl vstd::std_specs::convert::FromSpecImpl<FollowerState> for CandidateState {
    open spec fn obeys_from_spec() -> bool {
        true
    }

    open spec fn from_spec(follower_state: FollowerState) -> Self {
        candidate_of(follower_state)
    }
}

impl CandidateState {
    /// A candidate that did not get enough votes (more than half) starts a new election.
    ///
    /// A candidate gets an election timeout trigger only if it did not get enough messages
    /// within an election timeout (otherwise it would be a leader or a follower already), so it
    /// just starts a new election without any checks.
    pub fn process_election_trigger(&mut self) -> (m: RaftMessage)
        requires
            old(self).common.term.0 < u64::MAX,
        ensures
            *final(self) == election_started(*old(self)),
            m == vote_request(*old(self)),
    {
        start_election(self)
    }
}

fn start_election(candidate_state: &mut CandidateState) -> (m: RaftMessage)
    requires
        old(candidate_state).common.term.0 < u64::MAX,
    ensures
        *final(candidate_state) == election_started(*old(candidate_state)),
        m == vote_request(*old(candidate_state)),
{
    // increment term:
    candidate_state.common.term.increment();

    // vote for self:
    candidate_state.votes_count = 1;

    // and send a RequestVote message to the other nodes
    RaftMessage::RequestVote(
        RequestVoteMsg {
            sender_term: candidate_state.common.term,
            sender_addr: candidate_state.common.this_node_address,
        },
    )
}

} // verus!
