pub mod majority;
pub mod process_append_entries;
pub mod process_request_vote;
pub mod process_timer_events;

use crate::message::{
    AppendEntriesReq, AppendEntriesResp, ClientMessageReq, ClientMessageResp, InputMessage,
    OutputMessage, RaftRpcReq, RaftRpcResp, ReqVoteResp, TimerMessage,
};
use crate::msg_process::majority::{
    is_majority_match, lemma_majority_match_exists, lemma_majority_match_unique, majority_match,
    majority_match_idx,
};
use crate::msg_process::process_append_entries::{append_entries_step, can_apply_after};
use crate::msg_process::process_request_vote::request_vote_step;
use crate::msg_process::process_timer_events::{heartbeat_messages, leader_request, timer_step};
use crate::state::{
    Candidate, CommonState, Leader, LogEntry, NodeId, PersistentCommonState, RaftTerm, State,
    Types, VolatileCommonState,
};
use vstd::prelude::*;

verus! {

/// The state of a node that learns of `term` from a response: a newer term turns it into a
/// follower in that term that has voted for nobody; otherwise nothing changes.
pub open spec fn newer_term_seen<TTypes: Types>(state: State<TTypes>, term: RaftTerm) -> State<
    TTypes,
> {
    let c = state.common_view();
    if term.0 > c.common_persistent.current_term.0 {
        state.as_follower().with_common(
            CommonState {
                common_persistent: PersistentCommonState {
                    current_term: term,
                    voted_for: None,
                    ..c.common_persistent
                },
                ..c
            },
        )
    } else {
        state
    }
}

/// The indexes that leader `l` has recorded as matched, in its order.
pub open spec fn match_values<TTypes: Types>(l: Leader<TTypes>) -> Seq<usize> {
    l.match_idx.pairs().map_values(|p: (NodeId, usize)| p.1)
}

/// The commit index of leader `l` after an answer to its AppendEntries request: after a
/// success, if the last entry of its log is of its current term, the largest index that a
/// majority of the recorded matched indexes has reached, where that is larger than the commit
/// index before; otherwise the commit index before.
pub open spec fn response_commit_idx<TTypes: Types>(l: Leader<TTypes>, resp: AppendEntriesResp) -> usize {
    let c = l.common_state;
    let log = c.common_persistent.log@;
    let s = match_values(l);
    if resp.success && log.len() > 0 && log.last().term == c.common_persistent.current_term
        && s.len() > 0 && majority_match(s) > c.common_volatile.committed_idx {
        majority_match(s)
    } else {
        c.common_volatile.committed_idx
    }
}

/// What a leader does with an answer to its AppendEntries request: nothing is sent, and after
/// a success, if the last entry of its log is of its current term, the commit index rises to
/// the largest index that a majority of the recorded matched indexes has reached, where that is
/// larger. The recorded indexes themselves are left as they are.
pub open spec fn append_response_step<TTypes: Types>(
    l: Leader<TTypes>,
    resp: AppendEntriesResp,
    next: State<TTypes>,
    out: Seq<OutputMessage<TTypes>>,
) -> bool {
    let c = l.common_state;
    &&& out.len() == 0
    &&& next == State::Leader(
        Leader {
            common_state: CommonState {
                common_volatile: VolatileCommonState {
                    committed_idx: response_commit_idx(l, resp),
                    ..c.common_volatile
                },
                ..c
            },
            ..l
        },
    )
}

/// A leader whose last log entry is of its current term and that gets a successful answer
/// (whatever count of appended entries it carries) sets its commit index to the larger of its
/// own and the largest index that a majority of its recorded matched indexes has reached; with
/// no recorded index, or after a failed answer, the commit index stays. It stays a leader with
/// the same log and term, and sends nothing.
pub proof fn lemma_success_commits_majority_match<TTypes: Types>(
    l: Leader<TTypes>,
    resp: AppendEntriesResp,
    next: State<TTypes>,
    out: Seq<OutputMessage<TTypes>>,
)
    requires
        append_response_step(l, resp, next, out),
    ensures
        out.len() == 0,
        next matches State::Leader(l2) && l2.common_state.common_persistent
            == l.common_state.common_persistent,
        ({
            let log = l.common_state.common_persistent.log@;
            let s = l.match_idx.pairs().map_values(|p: (NodeId, usize)| p.1);
            let committed = l.common_state.common_volatile.committed_idx;
            let new_committed = next.common_view().common_volatile.committed_idx;
            &&& (!resp.success || s.len() == 0) ==> new_committed == committed
            &&& resp.success && log.len() > 0 && log.last().term
                == l.common_state.common_persistent.current_term ==> forall|m: usize|
                is_majority_match(s, m) ==> new_committed == if m > committed {
                    m
                } else {
                    committed
                }
        }),
{
    let s = l.match_idx.pairs().map_values(|p: (NodeId, usize)| p.1);
    assert(s == match_values(l));
    if s.len() > 0 {
        lemma_majority_match_exists(s);
        assert forall|m: usize| is_majority_match(s, m) implies m == majority_match(s) by {
            lemma_majority_match_unique(s, m, majority_match(s));
        }
    }
}

/// What a candidate does with an answer to its vote request: it counts the sender as having
/// voted, and becomes a leader once more than half of the cluster's nodes are counted.
pub open spec fn vote_response_step<TTypes: Types>(
    c: Candidate<TTypes>,
    resp: ReqVoteResp,
    next: State<TTypes>,
) -> bool {
    let voted = c.followers_voted@.insert(resp.sender_id);
    if voted.len() > c.common_state.common_persistent.cluster_nodes@.len() / 2 {
        next matches State::Leader(l) && l.common_state == c.common_state && l.next_idx.pairs().len()
            == 0 && l.match_idx.pairs().len() == 0
    } else {
        next matches State::Candidate(c2) && c2.common_state == c.common_state
            && c2.followers_voted@ == voted
    }
}

/// The log of leader `l` with `cmds` appended as entries of its current term.
pub open spec fn log_with_commands<TTypes: Types>(l: Leader<TTypes>, cmds: Seq<TTypes::TCmd>) -> Seq<
    LogEntry<TTypes::TCmd>,
> {
    let term = l.common_state.common_persistent.current_term;
    l.common_state.common_persistent.log@ + cmds.map_values(
        |cmd: TTypes::TCmd| LogEntry { cmd: cmd, term: term },
    )
}

/// What a leader does with a client's request: it appends the commands to its log as entries
/// of its current term, and sends what it sends on a heartbeat.
pub open spec fn client_request_step<TTypes: Types>(
    l: Leader<TTypes>,
    req: ClientMessageReq<TTypes>,
    next: State<TTypes>,
    out: Seq<OutputMessage<TTypes>>,
) -> bool {
    next matches State::Leader(l2) && l2.common_state.common_persistent.log@ == log_with_commands(
        l,
        req.entries_to_add@,
    ) && l2 == (Leader {
        common_state: CommonState {
            common_persistent: PersistentCommonState {
                log: l2.common_state.common_persistent.log,
                ..l.common_state.common_persistent
            },
            ..l.common_state
        },
        ..l
    }) && heartbeat_messages(l2, out)
}

/// The answer to a client whose request reached a node that is not a leader.
pub open spec fn refused_client<TTypes: Types>(
    state: State<TTypes>,
    req: ClientMessageReq<TTypes>,
) -> OutputMessage<TTypes> {
    OutputMessage::ClientMsg(
        ClientMessageResp {
            success: false,
            leader_address: state.common_view().common_volatile.known_leader,
            unique_request_id: req.unique_request_id,
        },
    )
}

/// What a node does with `message`, before it applies the committed commands: `next` is its
/// state afterwards and `out` what it sends.
pub open spec fn step<TTypes: Types>(
    state: State<TTypes>,
    message: InputMessage<TTypes>,
    next: State<TTypes>,
    out: Seq<OutputMessage<TTypes>>,
) -> bool {
    match message {
        InputMessage::RaftRequest(RaftRpcReq::AppendEntries { addressee, req }) => append_entries_step(
            state,
            req,
            next,
            out,
        ),
        InputMessage::RaftRequest(RaftRpcReq::ReqVote(req)) => request_vote_step(state, req, next, out),
        InputMessage::RaftResponse(RaftRpcResp::AppendEntries(resp)) => match newer_term_seen(
            state,
            resp.term,
        ) {
            State::Leader(l) => append_response_step(l, resp, next, out),
            s => next == s && out.len() == 0,
        },
        InputMessage::RaftResponse(RaftRpcResp::RequestVote(resp)) => match newer_term_seen(
            state,
            resp.term,
        ) {
            State::Candidate(c) => vote_response_step(c, resp, next) && out.len() == 0,
            s => next == s && out.len() == 0,
        },
        InputMessage::ClientMsg(req) => match state {
            State::Leader(l) => client_request_step(l, req, next, out),
            _ => next == state && out =~= seq![refused_client(state, req)],
        },
        InputMessage::TimerMsg(t) => timer_step(state, t, next, out),
    }
}

/// Applying the commands from `last_applied` on up to `committed` stays within a log of `len`
/// entries.
pub open spec fn applies_within(last_applied: usize, committed: usize, len: int) -> bool {
    last_applied < committed ==> committed <= len
}

/// Processing `message` in `state` does not stop the node. It would stop for a leader that
/// receives an AppendEntries request of its own term (two leaders in one term), for an
/// election at the largest term, and where the commands to apply afterwards would go beyond
/// the log.
pub open spec fn message_accepted<TTypes: Types>(state: State<TTypes>, message: InputMessage<TTypes>) -> bool {
    let c = state.common_view();
    let term = c.common_persistent.current_term.0;
    let la = c.common_volatile.last_applied;
    match message {
        InputMessage::RaftRequest(RaftRpcReq::AppendEntries { addressee, req }) => {
            &&& !(state is Leader && term == req.term.0)
            &&& can_apply_after(state, req)
        },
        InputMessage::RaftResponse(RaftRpcResp::AppendEntries(resp)) => match newer_term_seen(
            state,
            resp.term,
        ) {
            State::Leader(l) => applies_within(
                la,
                response_commit_idx(l, resp),
                c.common_persistent.log@.len() as int,
            ),
            _ => state.can_apply(),
        },
        InputMessage::ClientMsg(req) => match state {
            State::Leader(_) => applies_within(
                la,
                c.common_volatile.committed_idx,
                (c.common_persistent.log@.len() + req.entries_to_add@.len()) as int,
            ),
            _ => state.can_apply(),
        },
        InputMessage::TimerMsg(TimerMessage::TriggerElections) => (state is Leader || term < u64::MAX)
            && state.can_apply(),
        _ => state.can_apply(),
    }
}

/// `after` and `out` are what processing `message` in `state` gives: the state and the output
/// messages of a step, with the committed commands that were not applied yet then handed to
/// the state machine, in order (which becomes what applying them gives; it stays as it was
/// where there are none), and recorded as applied.
pub open spec fn processed<TTypes: Types>(
    state: State<TTypes>,
    message: InputMessage<TTypes>,
    after: State<TTypes>,
    out: Seq<OutputMessage<TTypes>>,
) -> bool {
    exists|next: State<TTypes>|
        step(state, message, next, out) && after == next.with_commands_applied(
            after.common_view().common_persistent.state_machine,
        ) && next.applies_committed(&after.common_view().common_persistent.state_machine)
}

/// Processes one input message: the node changes its state and answers with output messages,
/// then hands the committed commands that were not applied yet, in order, to its state machine
/// (see `processed`).
///
/// Across every message: the node's term never decreases; its commit index never decreases;
/// when it returns, the entries up to the commit index have been handed to the state machine
/// and are recorded as applied; the state between two messages stays what `State::wf` says; a
/// leader that stays a leader keeps its term and the entries of its log; and a node becomes a
/// leader only as a candidate counting the votes of more than half of the cluster.
pub fn process_msg<TTypes: Types>(state: State<TTypes>, message: InputMessage<TTypes>) -> (res: (
    State<TTypes>,
    Vec<OutputMessage<TTypes>>,
))
    requires
        message_accepted(state, message),
    ensures
        processed(state, message, res.0, res.1@),
        res.0.common_view().common_volatile.last_applied
            == res.0.common_view().common_volatile.committed_idx,
        state.wf() ==> res.0.wf(),
        res.0.common_view().common_persistent.current_term.0
            >= state.common_view().common_persistent.current_term.0,
        res.0.common_view().common_volatile.committed_idx
            >= state.common_view().common_volatile.committed_idx,
        state is Leader && res.0 is Leader ==> state.common_view().common_persistent.log@.is_prefix_of(
            res.0.common_view().common_persistent.log@,
        ) && res.0.common_view().common_persistent.current_term
            == state.common_view().common_persistent.current_term,
        !(state is Leader) && res.0 is Leader ==> (state matches State::Candidate(c)
            && message matches InputMessage::RaftResponse(RaftRpcResp::RequestVote(resp))
            && c.followers_voted@.insert(resp.sender_id).len()
            > c.common_state.common_persistent.cluster_nodes@.len() / 2),
        res.0.common_view().common_persistent.this_node_id
            == state.common_view().common_persistent.this_node_id,
        res.0.common_view().common_persistent.cluster_nodes
            == state.common_view().common_persistent.cluster_nodes,
{
    let ghost state0 = state;
    let (mut state, msg) = match message {
        InputMessage::RaftRequest(req) => {
            match req {
                RaftRpcReq::AppendEntries { addressee, req } => {
                    process_append_entries::process_msg(state, req)
                },
                RaftRpcReq::ReqVote(req_vote) => {
                    process_request_vote::process_msg(state, req_vote)
                },
            }
        },
        InputMessage::RaftResponse(resp) => {
            match resp {
                RaftRpcResp::AppendEntries(append) => {
                    match check_term(state, &append.term) {
                        State::Leader(state) => process_append_entries_response(state, append),
                        state => (state, Vec::new()),
                    }
                },
                RaftRpcResp::RequestVote(req_vote) => {
                    match check_term(state, &req_vote.term) {
                        State::Candidate(state) => (
                            process_request_vote_response(state, req_vote),
                            Vec::new(),
                        ),
                        state => (state, Vec::new()),
                    }
                },
            }
        },
        InputMessage::ClientMsg(client_req) => {
            match state {
                State::Leader(leader) => process_client_request(leader, client_req),
                State::Follower(follower) => {
                    let leader = follower.common_state.common_volatile.known_leader;
                    let req_uid = client_req.unique_request_id;

                    (
                        State::Follower(follower),
                        vec![OutputMessage::ClientMsg(client_resp_false::<TTypes>(req_uid, leader))],
                    )
                },
                State::Candidate(candidate) => {
                    let leader = candidate.common_state.common_volatile.known_leader;
                    let req_uid = client_req.unique_request_id;

                    (
                        State::Candidate(candidate),
                        vec![OutputMessage::ClientMsg(client_resp_false::<TTypes>(req_uid, leader))],
                    )
                },
            }
        },
        InputMessage::TimerMsg(msg) => process_timer_events::process_msg(state, msg),
    };
    let ghost next = state;
    proof {
        lemma_step_can_apply(state0, message, next, msg@);
    }

    // if lastApplied < lastCommitted
    state.apply_commands();

    assert(step(state0, message, next, msg@) && state == next.with_commands_applied(
        state.common_view().common_persistent.state_machine,
    ) && next.applies_committed(&state.common_view().common_persistent.state_machine));
    (state, msg)
}

/// A step on an accepted message ends in a state whose committed commands can be applied; from
/// a state between two messages, it ends in one where a leader counts no follower as holding
/// more entries than its log has.
proof fn lemma_step_can_apply<TTypes: Types>(
    state: State<TTypes>,
    message: InputMessage<TTypes>,
    next: State<TTypes>,
    out: Seq<OutputMessage<TTypes>>,
)
    requires
        message_accepted(state, message),
        step(state, message, next, out),
    ensures
        next.can_apply(),
        state.wf() ==> next.with_commands_applied(next.common_view().common_persistent.state_machine).wf(),
{
    match message {
        InputMessage::RaftResponse(RaftRpcResp::AppendEntries(resp)) => {
            match newer_term_seen(state, resp.term) {
                State::Leader(l) => {
                    let s = match_values(l);
                    if s.len() > 0 {
                        lemma_majority_match_exists(s);
                        let m = majority_match(s);
                        let i = choose|i: int| 0 <= i < s.len() && s[i] == m;
                        assert(l.match_idx.pairs()[i].1 == m);
                    }
                },
                _ => {},
            }
        },
        _ => {},
    }
}

/// The answer to a client whose request reached a node that is not a leader.
fn client_resp_false<TTypes: Types>(req_uid: u128, leader: Option<NodeId>) -> (r: ClientMessageResp)
    ensures
        r == (ClientMessageResp { success: false, leader_address: leader, unique_request_id: req_uid }),
{
    ClientMessageResp { success: false, leader_address: leader, unique_request_id: req_uid }
}

/// Turns a node that learns of a newer term into a follower in that term (see
/// `newer_term_seen`).
fn check_term<TTypes: Types>(state: State<TTypes>, term: &RaftTerm) -> (s: State<TTypes>)
    ensures
        s == newer_term_seen(state, *term),
{
    if term.0 > state.common().common_persistent.current_term.0 {
        let mut follower = state.into_follower();
        follower.common_mut().common_persistent.current_term = *term;
        follower.common_mut().common_persistent.voted_for = None;
        follower
    } else {
        state
    }
}

/// Appends a client's commands to the leader's log and replicates them (see
/// `client_request_step`).
fn process_client_request<TTypes: Types>(state: Leader<TTypes>, req: ClientMessageReq<TTypes>) -> (res: (
    State<TTypes>,
    Vec<OutputMessage<TTypes>>,
))
    ensures
        client_request_step(state, req, res.0, res.1@),
{
    let ghost state0 = state;
    let mut state = state;
    let term = state.common_state.common_persistent.current_term;

    // add entries to local (leader's) log:
    for i in 0..req.entries_to_add.len()
        invariant
            state.common_state.common_persistent.log@ == state0.common_state.common_persistent.log@
                + req.entries_to_add@.take(i as int).map_values(
                |cmd: TTypes::TCmd| LogEntry { cmd: cmd, term: term },
            ),
            state == (Leader {
                common_state: CommonState {
                    common_persistent: PersistentCommonState {
                        log: state.common_state.common_persistent.log,
                        ..state0.common_state.common_persistent
                    },
                    ..state0.common_state
                },
                ..state0
            }),
            term == state0.common_state.common_persistent.current_term,
    {
        let entry = req.entries_to_add[i];
        state.common_state.common_persistent.log.push(LogEntry { term: term, cmd: entry });
        assert(req.entries_to_add@.take(i + 1) =~= req.entries_to_add@.take(i as int).push(entry));
        assert(req.entries_to_add@.take(i + 1).map_values(
            |cmd: TTypes::TCmd| LogEntry { cmd: cmd, term: term },
        ) =~= req.entries_to_add@.take(i as int).map_values(
            |cmd: TTypes::TCmd| LogEntry { cmd: cmd, term: term },
        ).push(LogEntry { cmd: entry, term: term }));
    }
    assert(req.entries_to_add@.take(req.entries_to_add@.len() as int) =~= req.entries_to_add@);

    // send all other nodes an AppendEntries request with those entries
    let append_entries = process_timer_events::process_heartbeat_trigger(&state);

    (State::Leader(state), append_entries)
}

/// Processes a follower's answer to the leader's AppendEntries request (see
/// `append_response_step`).
fn process_append_entries_response<TTypes: Types>(state: Leader<TTypes>, resp: AppendEntriesResp) -> (res: (
    State<TTypes>,
    Vec<OutputMessage<TTypes>>,
))
    ensures
        append_response_step(state, resp, res.0, res.1@),
{
    let mut state = state;
    if resp.success {
        /*
            If there exists an N such that N > commitIndex, a majority
            of matchIndex[i] >= N, and log[N].term == currentTerm:
            set commitIndex = N (§5.3, §5.4).
         */
        let committed_idx = state.common_state.common_volatile.committed_idx;
        let curr_term = state.common_state.common_persistent.current_term;
        let len = state.common_state.common_persistent.log.len();

        if len > 0 && state.common_state.common_persistent.log[len - 1].term == curr_term {
            // the biggest matched index that a majority of nodes have
            let entries = state.match_idx.entries();
            let mut match_indexes: Vec<usize> = Vec::new();
            for i in 0..entries.len()
                invariant
                    entries@ == state.match_idx.pairs(),
                    match_indexes@ == entries@.take(i as int).map_values(|p: (NodeId, usize)| p.1),
            {
                let (_, idx) = entries[i];
                match_indexes.push(idx);
                assert(entries@.take(i + 1) =~= entries@.take(i as int).push(entries@[i as int]));
                assert(entries@.take(i + 1).map_values(|p: (NodeId, usize)| p.1)
                    =~= entries@.take(i as int).map_values(|p: (NodeId, usize)| p.1).push(idx));
            }
            assert(entries@.take(entries@.len() as int) =~= entries@);

            if let Some(match_idx) = majority_match_idx(&match_indexes) {
                if committed_idx < match_idx {
                    state.common_state.common_volatile.committed_idx = match_idx;
                }
            }
        }
    }
    (State::Leader(state), Vec::new())
}

/// Counts the vote of the answer's sender, and turns the candidate into a leader once more than
/// half of the cluster's nodes are counted (see `vote_response_step`).
fn process_request_vote_response<TTypes: Types>(state: Candidate<TTypes>, resp: ReqVoteResp) -> (s: State<TTypes>)
    ensures
        vote_response_step(state, resp, s),
{
    let mut state = state;
    state.followers_voted.insert(resp.sender_id);

    // turn into leader if got enough votes
    if state.followers_voted.len() > state.common_state.common_persistent.cluster_nodes.len() / 2 {
        let leader = Leader::from(state);
        State::Leader(leader)
    } else {
        State::Candidate(state)
    }
}

/// The AppendEntries request without entries that leader `state` sends as a heartbeat.
pub fn heartbeat_msg<TTypes: Types>(state: &Leader<TTypes>) -> (req: AppendEntriesReq<TTypes>)
    ensures
        leader_request(*state, req, Seq::<LogEntry<TTypes::TCmd>>::empty()),
{
    AppendEntriesReq {
        leader_id: state.common_state.common_persistent.this_node_id,
        term: state.common_state.common_persistent.current_term,
        leader_commit_idx: state.common_state.common_volatile.committed_idx,
        prev_log_idx: state.common_state.common_persistent.log.len(),
        prev_log_term: state.common_state.common_persistent.last_msg_term,
        entries_to_append: Vec::new(),
    }
}

} // verus!
