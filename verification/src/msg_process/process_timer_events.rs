use crate::message::{AppendEntriesReq, OutputMessage, RaftRpcReq, RequestVoteReq, TimerMessage};
use crate::state::{
    Candidate, CommonState, Follower, Leader, LogEntry, PersistentCommonState, RaftTerm, State,
    Types,
};
use vstd::prelude::*;

verus! {

/// The log entries that a leader sends to a follower whose next index is `next`: those from
/// `next` on, or none when `next` is beyond the log.
pub open spec fn entries_from<TTypes: Types>(l: Leader<TTypes>, next: usize) -> Seq<
    LogEntry<TTypes::TCmd>,
> {
    let log = l.common_state.common_persistent.log@;
    if next <= log.len() {
        log.subrange(next as int, log.len() as int)
    } else {
        Seq::empty()
    }
}

/// `req` is an AppendEntries request of leader `l` that carries `entries`: it names the
/// leader, its term and commit index, and the length of its log and the term of its last entry
/// as the previous index and term.
pub open spec fn leader_request<TTypes: Types>(
    l: Leader<TTypes>,
    req: AppendEntriesReq<TTypes>,
    entries: Seq<LogEntry<TTypes::TCmd>>,
) -> bool {
    let p = l.common_state.common_persistent;
    &&& req.leader_id == p.this_node_id
    &&& req.term == p.current_term
    &&& req.leader_commit_idx == l.common_state.common_volatile.committed_idx
    &&& req.prev_log_idx == p.log@.len()
    &&& req.prev_log_term == p.last_msg_term
    &&& req.entries_to_append@ == entries
}

/// `out` is what leader `l` sends on a heartbeat: for each follower it tracks, in order, one
/// AppendEntries request addressed to it with the entries from its next index on.
pub open spec fn heartbeat_messages<TTypes: Types>(
    l: Leader<TTypes>,
    out: Seq<OutputMessage<TTypes>>,
) -> bool {
    let next = l.next_idx.pairs();
    &&& out.len() == next.len()
    &&& forall|i: int|
        0 <= i < next.len() ==> (#[trigger] out[i] matches OutputMessage::RaftReq(
            RaftRpcReq::AppendEntries { addressee, req },
        ) && addressee == next[i].0 && leader_request(l, req, entries_from(l, next[i].1)))
}

/// A follower whose next index is at or beyond the end of the leader's log gets, on a
/// heartbeat, the request that `heartbeat_msg` makes: one without entries.
pub proof fn lemma_caught_up_follower_gets_heartbeat<TTypes: Types>(
    l: Leader<TTypes>,
    out: Seq<OutputMessage<TTypes>>,
    i: int,
)
    requires
        heartbeat_messages(l, out),
        0 <= i < l.next_idx.pairs().len(),
        l.next_idx.pairs()[i].1 >= l.common_state.common_persistent.log@.len(),
    ensures
        out[i] matches OutputMessage::RaftReq(RaftRpcReq::AppendEntries { addressee, req })
            && addressee == l.next_idx.pairs()[i].0 && leader_request(
            l,
            req,
            Seq::<LogEntry<TTypes::TCmd>>::empty(),
        ),
{
    assert(entries_from(l, l.next_idx.pairs()[i].1) =~= Seq::<LogEntry<TTypes::TCmd>>::empty());
}

/// On a heartbeat, a follower whose next index `n` is within the leader's log (`n` at most its
/// length, `n == 0` included) is sent exactly the leader's log entries from `n` to the end.
pub proof fn lemma_heartbeat_carries_log_suffix<TTypes: Types>(
    l: Leader<TTypes>,
    out: Seq<OutputMessage<TTypes>>,
    i: int,
)
    requires
        heartbeat_messages(l, out),
        0 <= i < l.next_idx.pairs().len(),
        l.next_idx.pairs()[i].1 <= l.common_state.common_persistent.log@.len(),
    ensures
        out[i] matches OutputMessage::RaftReq(RaftRpcReq::AppendEntries { addressee, req })
            && addressee == l.next_idx.pairs()[i].0 && req.entries_to_append@
            == l.common_state.common_persistent.log@.subrange(
            l.next_idx.pairs()[i].1 as int,
            l.common_state.common_persistent.log@.len() as int,
        ),
{
}

/// The common state of a node that starts an election: its term is incremented and it votes
/// for itself.
pub open spec fn election_started<TTypes: Types>(c: CommonState<TTypes>) -> CommonState<TTypes> {
    CommonState {
        common_persistent: PersistentCommonState {
            voted_for: Some(c.common_persistent.this_node_id),
            current_term: RaftTerm((c.common_persistent.current_term.0 + 1) as u64),
            ..c.common_persistent
        },
        ..c
    }
}

/// The vote request that a node with common state `c` sends when it starts an election.
pub open spec fn vote_request<TTypes: Types>(c: CommonState<TTypes>) -> OutputMessage<TTypes> {
    OutputMessage::RaftReq(
        RaftRpcReq::ReqVote(
            RequestVoteReq {
                term: RaftTerm((c.common_persistent.current_term.0 + 1) as u64),
                candidate_id: c.common_persistent.this_node_id,
                last_log_index: c.common_persistent.log@.len() as usize,
                last_log_term: c.common_persistent.last_msg_term,
            },
        ),
    )
}

/// What a timer event does: `next` is the node's state afterwards and `out` what it sends.
///
/// On an election trigger, a follower becomes a candidate without votes and starts an
/// election, a candidate starts a new one, and a leader ignores it. On a heartbeat trigger, a
/// leader sends its followers AppendEntries requests, and the other roles ignore it.
pub open spec fn timer_step<TTypes: Types>(
    state: State<TTypes>,
    message: TimerMessage,
    next: State<TTypes>,
    out: Seq<OutputMessage<TTypes>>,
) -> bool {
    match message {
        TimerMessage::TriggerElections => match state {
            State::Follower(f) => {
                &&& next matches State::Candidate(c) && c.common_state == election_started(
                    f.common_state,
                ) && c.followers_voted@ == Set::<crate::state::NodeId>::empty()
                &&& out =~= seq![vote_request(f.common_state)]
            },
            State::Candidate(c) => {
                &&& next == State::Candidate(
                    Candidate { common_state: election_started(c.common_state), ..c },
                )
                &&& out =~= seq![vote_request(c.common_state)]
            },
            State::Leader(_) => next == state && out.len() == 0,
        },
        TimerMessage::TriggerHeartbeat => next == state && match state {
            State::Leader(l) => heartbeat_messages(l, out),
            _ => out.len() == 0,
        },
    }
}

/// Processes a timer event (see `timer_step`).
pub fn process_msg<TTypes: Types>(state: State<TTypes>, message: TimerMessage) -> (res: (
    State<TTypes>,
    Vec<OutputMessage<TTypes>>,
))
    requires
        message is TriggerElections && !(state is Leader)
            ==> state.common_view().common_persistent.current_term.0 < u64::MAX,
    ensures
        timer_step(state, message, res.0, res.1@),
{
    match message {
        TimerMessage::TriggerElections => {
            match state {
                State::Follower(follower) => process_election_trigger(FollowerOrCandidate::Follower(follower)),
                State::Candidate(candidate) => process_election_trigger(
                    FollowerOrCandidate::Candidate(candidate),
                ),
                State::Leader(leader) => (State::Leader(leader), Vec::new()),
            }
        },
        TimerMessage::TriggerHeartbeat => {
            match state {
                State::Leader(leader) => {
                    let out_msg = process_heartbeat_trigger(&leader);
                    (State::Leader(leader), out_msg)
                },
                state => (state, Vec::new()),
            }
        },
    }
}

/// What a leader sends on a heartbeat: to each follower it tracks, the entries from the
/// follower's next index on, or an empty AppendEntries request when the follower's next index
/// is beyond the log.
pub fn process_heartbeat_trigger<TTypes: Types>(state: &Leader<TTypes>) -> (out: Vec<
    OutputMessage<TTypes>,
>)
    ensures
        heartbeat_messages(*state, out@),
{
    let last_log_idx = state.common_state.common_persistent.log.len();
    let next_idx = state.next_idx.entries();
    let mut nodes: Vec<OutputMessage<TTypes>> = Vec::new();

    for i in 0..next_idx.len()
        invariant
            next_idx@ == state.next_idx.pairs(),
            last_log_idx == state.common_state.common_persistent.log@.len(),
            nodes@.len() == i,
            forall|j: int|
                0 <= j < i ==> (#[trigger] nodes@[j] matches OutputMessage::RaftReq(
                    RaftRpcReq::AppendEntries { addressee, req },
                ) && addressee == next_idx@[j].0 && leader_request(
                    *state,
                    req,
                    entries_from(*state, next_idx@[j].1),
                )),
    {
        let (id, idx) = next_idx[i];
        /*
            if the leader thinks that this node's next index is not up-to-date,
            it sends an AppendEntries request with entries, and an empty one otherwise
            as a heartbeat
         */
        let msg = if idx <= last_log_idx {
            // send log entries
            let entries_to_send = vstd::slice::slice_to_vec(
                &state.common_state.common_persistent.log.as_slice()[idx..last_log_idx],
            );
            OutputMessage::RaftReq(
                RaftRpcReq::AppendEntries {
                    addressee: id,
                    req: AppendEntriesReq {
                        leader_id: state.common_state.common_persistent.this_node_id,
                        term: state.common_state.common_persistent.current_term,
                        leader_commit_idx: state.common_state.common_volatile.committed_idx,
                        prev_log_idx: state.common_state.common_persistent.log.len(),
                        prev_log_term: state.common_state.common_persistent.last_msg_term,
                        entries_to_append: entries_to_send,
                    },
                },
            )
        } else {
            OutputMessage::RaftReq(
                RaftRpcReq::AppendEntries { addressee: id, req: crate::msg_process::heartbeat_msg(state) },
            )
        };
        nodes.push(msg);
    }
    nodes
}

enum FollowerOrCandidate<TTypes: Types> {
    Follower(Follower<TTypes>),
    Candidate(Candidate<TTypes>),
}

fn process_election_trigger<TTypes: Types>(state: FollowerOrCandidate<TTypes>) -> (res: (
    State<TTypes>,
    Vec<OutputMessage<TTypes>>,
))
    requires
        match state {
            FollowerOrCandidate::Follower(f) => f.common_state.common_persistent.current_term.0
                < u64::MAX,
            FollowerOrCandidate::Candidate(c) => c.common_state.common_persistent.current_term.0
                < u64::MAX,
        },
    ensures
        match state {
            FollowerOrCandidate::Follower(f) => {
                &&& res.0 matches State::Candidate(c) && c.common_state == election_started(
                    f.common_state,
                ) && c.followers_voted@ == Set::<crate::state::NodeId>::empty()
                &&& res.1@ == seq![vote_request(f.common_state)]
            },
            FollowerOrCandidate::Candidate(c) => {
                &&& res.0 == State::Candidate(
                    Candidate { common_state: election_started(c.common_state), ..c },
                )
                &&& res.1@ == seq![vote_request(c.common_state)]
            },
        },
{
    match state {
        FollowerOrCandidate::Follower(follower) => follower_elect(follower),
        FollowerOrCandidate::Candidate(candidate) => start_election(candidate),
    }
}

fn follower_elect<TTypes: Types>(state: Follower<TTypes>) -> (res: (
    State<TTypes>,
    Vec<OutputMessage<TTypes>>,
))
    requires
        state.common_state.common_persistent.current_term.0 < u64::MAX,
    ensures
        res.0 matches State::Candidate(c) && c.common_state == election_started(state.common_state)
            && c.followers_voted@ == Set::<crate::state::NodeId>::empty(),
        res.1@ == seq![vote_request(state.common_state)],
{
    // convert to a candidate
    let state = state.into_candidate();

    // start election
    start_election(state)
}

fn start_election<TTypes: Types>(state: Candidate<TTypes>) -> (res: (
    State<TTypes>,
    Vec<OutputMessage<TTypes>>,
))
    requires
        state.common_state.common_persistent.current_term.0 < u64::MAX,
    ensures
        res.0 == State::Candidate(
            Candidate { common_state: election_started(state.common_state), ..state },
        ),
        res.1@ == seq![vote_request(state.common_state)],
{
    /*
        Increment currentTerm
        Vote for self
        Reset election timer
        Send RequestVote RPCs to all other servers
     */
    let mut state = state;
    let this_node_id = state.common_state.common_persistent.this_node_id;
    let new_term = state.common_state.common_persistent.current_term.add(1);

    state.common_state.common_persistent.voted_for = Some(this_node_id);
    state.common_state.common_persistent.current_term = new_term;

    let last_log_index = state.common_state.common_persistent.log.len();
    let last_log_term = state.common_state.common_persistent.last_msg_term;

    let req_vote_msg = RaftRpcReq::ReqVote(
        RequestVoteReq { term: new_term, candidate_id: this_node_id, last_log_index, last_log_term },
    );

    (State::Candidate(state), vec![OutputMessage::RaftReq(req_vote_msg)])
}

} // verus!
