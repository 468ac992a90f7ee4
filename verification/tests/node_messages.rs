use raft::message::{
    AppendEntriesReq, AppendEntriesResp, ClientMessageReq, InputMessage, OutputMessage, RaftRpcReq,
    RaftRpcResp, ReqVoteResp, RequestVoteReq, TimerMessage,
};
use raft::msg_process::majority::majority_match_idx;
use raft::msg_process::process_append_entries;
use raft::msg_process::process_request_vote;
use raft::msg_process::process_timer_events;
use raft::msg_process::{heartbeat_msg, process_msg};
use raft::state::{
    Candidate, Command, CommonState, Follower, IpAddr, Leader, LogEntry, NodeId, NodeIdxMap, NodeSet,
    PersistentCommonState, RaftNode, RaftTerm, State, StateMachine, Types, VolatileCommonState,
};

struct RecTypes;

#[derive(Clone, Copy, Debug, PartialEq)]
struct Cmd(u8);

impl Command for Cmd {}

/// Records every command it is handed.
struct Recorder {
    applied: Vec<u8>,
}

impl StateMachine<Cmd> for Recorder {
    fn apply_commands(&mut self, commands: &[LogEntry<Cmd>]) {
        for c in commands {
            self.applied.push(c.cmd.0);
        }
    }
}

impl Types for RecTypes {
    type TCmd = Cmd;
    type TStateMachine = Recorder;
}

fn node(n: u8) -> NodeId {
    NodeId { address: IpAddr::V4(u32::from_be_bytes([10, 0, 0, n])), cluster_id: 7 }
}

fn entry(cmd: u8, term: u64) -> LogEntry<Cmd> {
    LogEntry { cmd: Cmd(cmd), term: RaftTerm(term) }
}

fn common(me: u8, term: u64, log: Vec<LogEntry<Cmd>>, committed: usize) -> CommonState<RecTypes> {
    let last_msg_term = log.last().map(|e| e.term).unwrap_or(RaftTerm(0));
    CommonState {
        common_persistent: PersistentCommonState {
            this_node_id: node(me),
            current_term: RaftTerm(term),
            voted_for: None,
            log,
            last_msg_term,
            state_machine: Recorder { applied: vec![] },
            cluster_nodes: NodeSet::from_nodes(vec![node(1), node(2), node(3)]),
        },
        common_volatile: VolatileCommonState {
            committed_idx: committed,
            last_applied: committed,
            known_leader: None,
        },
    }
}

fn follower(me: u8, term: u64, log: Vec<LogEntry<Cmd>>) -> State<RecTypes> {
    State::Follower(Follower { common_state: common(me, term, log, 0), trigger_election_next_time: true })
}

fn leader(me: u8, term: u64, log: Vec<LogEntry<Cmd>>, next: &[(u8, usize)], matched: &[(u8, usize)]) -> Leader<RecTypes> {
    let mut next_idx = NodeIdxMap::new();
    for &(n, i) in next {
        next_idx.insert(node(n), i);
    }
    let mut match_idx = NodeIdxMap::new();
    for &(n, i) in matched {
        match_idx.insert(node(n), i);
    }
    Leader { common_state: common(me, term, log, 0), next_idx, match_idx }
}

fn append_req(term: u64, prev_idx: usize, prev_term: u64, entries: Vec<LogEntry<Cmd>>, commit: usize) -> AppendEntriesReq<RecTypes> {
    AppendEntriesReq {
        leader_id: node(1),
        term: RaftTerm(term),
        leader_commit_idx: commit,
        prev_log_idx: prev_idx,
        prev_log_term: RaftTerm(prev_term),
        entries_to_append: entries,
    }
}

fn append_resp(out: &[OutputMessage<RecTypes>]) -> (u64, bool, NodeId, usize) {
    assert_eq!(out.len(), 1);
    match &out[0] {
        OutputMessage::RaftResp(RaftRpcResp::AppendEntries(r)) => {
            (r.term.0, r.success, r.sender_id, r.appended_entries_count)
        }
        _ => panic!("expected an AppendEntries answer"),
    }
}

fn vote_resp(out: &[OutputMessage<RecTypes>]) -> (u64, bool, NodeId) {
    assert_eq!(out.len(), 1);
    match &out[0] {
        OutputMessage::RaftResp(RaftRpcResp::RequestVote(r)) => (r.term.0, r.vote_granted, r.sender_id),
        _ => panic!("expected a RequestVote answer"),
    }
}

fn cmds(s: &State<RecTypes>) -> Vec<u8> {
    s.common().common_persistent.log.iter().map(|e| e.cmd.0).collect()
}

#[test]
fn stale_append_entries_is_refused() {
    let state = follower(2, 5, vec![entry(1, 1)]);
    let (state, out) = process_append_entries::process_msg(state, append_req(4, 0, 1, vec![entry(9, 4)], 0));
    assert_eq!(append_resp(&out), (5, false, node(2), 0));
    assert!(matches!(state, State::Follower(_)));
    assert_eq!(cmds(&state), vec![1]);
    assert_eq!(state.common().common_persistent.current_term, RaftTerm(5));
}

#[test]
fn follower_appends_after_matching_entry() {
    let state = follower(2, 1, vec![entry(1, 1), entry(2, 1), entry(3, 1)]);
    let (state, out) =
        process_append_entries::process_msg(state, append_req(2, 0, 1, vec![entry(7, 2), entry(8, 2)], 2));
    // the answer carries the term from before the request and no count
    assert_eq!(append_resp(&out), (1, true, node(2), 0));
    match &state {
        State::Follower(f) => {
            assert!(!f.trigger_election_next_time);
            assert_eq!(f.common_state.common_volatile.known_leader, Some(node(1)));
            assert_eq!(f.common_state.common_volatile.committed_idx, 2);
            assert_eq!(f.common_state.common_persistent.current_term, RaftTerm(2));
            assert_eq!(f.common_state.common_persistent.last_msg_term, RaftTerm(2));
            assert_eq!(f.common_state.common_persistent.voted_for, None);
        }
        _ => panic!("expected a follower"),
    }
    assert_eq!(cmds(&state), vec![1, 7, 8]);
}

#[test]
fn follower_refuses_when_previous_entry_differs() {
    let state = follower(2, 3, vec![entry(1, 1), entry(2, 2)]);
    let (state, out) = process_append_entries::process_msg(state, append_req(3, 1, 3, vec![entry(7, 3)], 2));
    assert_eq!(append_resp(&out), (3, false, node(2), 0));
    assert_eq!(cmds(&state), vec![1, 2]);
    assert_eq!(state.common().common_volatile.known_leader, Some(node(1)));
    assert_eq!(state.common().common_volatile.committed_idx, 0);
    // previous index beyond the log
    let (_, out) = process_append_entries::process_msg(state, append_req(3, 5, 2, vec![], 0));
    assert_eq!(append_resp(&out), (3, false, node(2), 0));
}

#[test]
fn candidate_steps_down_for_leader_of_its_term() {
    let mut c = common(2, 4, vec![entry(1, 1)], 0);
    c.common_persistent.voted_for = Some(node(2));
    let state = State::Candidate(Candidate { common_state: c, followers_voted: NodeSet::new() });
    let (state, out) = process_append_entries::process_msg(state, append_req(4, 0, 1, vec![], 0));
    assert_eq!(append_resp(&out), (4, true, node(2), 0));
    assert!(matches!(state, State::Follower(_)));
    assert_eq!(state.common().common_persistent.voted_for, None);
}

#[test]
fn leader_steps_down_for_newer_leader() {
    let state = State::Leader(leader(2, 4, vec![entry(1, 1)], &[], &[]));
    let (state, out) = process_append_entries::process_msg(state, append_req(6, 0, 1, vec![], 0));
    assert_eq!(append_resp(&out), (4, true, node(2), 0));
    assert!(matches!(state, State::Follower(_)));
    assert_eq!(state.common().common_persistent.current_term, RaftTerm(6));
}

#[test]
fn vote_requests() {
    let req = |term: u64, idx: usize, last_term: u64| RequestVoteReq {
        term: RaftTerm(term),
        candidate_id: node(3),
        last_log_index: idx,
        last_log_term: RaftTerm(last_term),
    };
    // a request that is not newer is refused
    let (state, out) = process_request_vote::process_msg(follower(2, 3, vec![entry(1, 1)]), req(3, 5, 5));
    assert_eq!(vote_resp(&out), (3, false, node(2)));
    assert!(matches!(state, State::Follower(_)));
    // a newer request from an up-to-date candidate is granted
    let (_, out) = process_request_vote::process_msg(follower(2, 3, vec![entry(1, 1)]), req(4, 1, 1));
    assert_eq!(vote_resp(&out), (3, true, node(2)));
    // a shorter log is not up to date
    let (_, out) = process_request_vote::process_msg(follower(2, 3, vec![entry(1, 1), entry(2, 1)]), req(4, 1, 1));
    assert_eq!(vote_resp(&out), (3, false, node(2)));
    // an older last term is not up to date
    let (_, out) = process_request_vote::process_msg(follower(2, 3, vec![entry(1, 2)]), req(4, 5, 1));
    assert_eq!(vote_resp(&out), (3, false, node(2)));
    // a leader of an older term becomes a follower
    let (state, out) = process_request_vote::process_msg(State::Leader(leader(2, 3, vec![], &[], &[])), req(4, 0, 0));
    assert_eq!(vote_resp(&out), (3, true, node(2)));
    assert!(matches!(state, State::Follower(Follower { trigger_election_next_time: true, .. })));
}

#[test]
fn election_from_follower_and_candidate() {
    let (state, out) = process_timer_events::process_msg(follower(2, 3, vec![entry(1, 2)]), TimerMessage::TriggerElections);
    match &state {
        State::Candidate(c) => {
            assert_eq!(c.common_state.common_persistent.current_term, RaftTerm(4));
            assert_eq!(c.common_state.common_persistent.voted_for, Some(node(2)));
            assert_eq!(c.followers_voted.len(), 0);
        }
        _ => panic!("expected a candidate"),
    }
    assert_eq!(out.len(), 1);
    match &out[0] {
        OutputMessage::RaftReq(RaftRpcReq::ReqVote(r)) => {
            assert_eq!(r.term, RaftTerm(4));
            assert_eq!(r.candidate_id, node(2));
            assert_eq!(r.last_log_index, 1);
            assert_eq!(r.last_log_term, RaftTerm(2));
        }
        _ => panic!("expected a vote request"),
    }
    let (state, out) = process_timer_events::process_msg(state, TimerMessage::TriggerElections);
    assert_eq!(state.common().common_persistent.current_term, RaftTerm(5));
    assert!(matches!(&out[0], OutputMessage::RaftReq(RaftRpcReq::ReqVote(r)) if r.term == RaftTerm(5)));
    // a candidate ignores the heartbeat trigger
    let (state, out) = process_timer_events::process_msg(state, TimerMessage::TriggerHeartbeat);
    assert!(out.is_empty());
    assert!(matches!(state, State::Candidate(_)));
}

#[test]
fn leader_ignores_election_trigger() {
    let (state, out) = process_timer_events::process_msg(State::Leader(leader(1, 3, vec![], &[], &[])), TimerMessage::TriggerElections);
    assert!(out.is_empty());
    assert!(matches!(state, State::Leader(_)));
    assert_eq!(state.common().common_persistent.current_term, RaftTerm(3));
}

#[test]
fn heartbeat_sends_each_follower_its_missing_entries() {
    let l = leader(1, 3, vec![entry(1, 1), entry(2, 2), entry(3, 3)], &[(2, 1), (3, 3), (4, 9)], &[]);
    let out = process_timer_events::process_heartbeat_trigger(&l);
    assert_eq!(out.len(), 3);
    let expected: Vec<(NodeId, Vec<u8>)> = vec![(node(2), vec![2, 3]), (node(3), vec![]), (node(4), vec![])];
    for (msg, (to, entries)) in out.iter().zip(expected) {
        match msg {
            OutputMessage::RaftReq(RaftRpcReq::AppendEntries { addressee, req }) => {
                assert_eq!(*addressee, to);
                assert_eq!(req.leader_id, node(1));
                assert_eq!(req.term, RaftTerm(3));
                assert_eq!(req.prev_log_idx, 3);
                assert_eq!(req.prev_log_term, RaftTerm(3));
                assert_eq!(req.leader_commit_idx, 0);
                assert_eq!(req.entries_to_append.iter().map(|e| e.cmd.0).collect::<Vec<u8>>(), entries);
            }
            _ => panic!("expected an AppendEntries request"),
        }
    }
    let hb = heartbeat_msg(&l);
    assert!(hb.entries_to_append.is_empty());
    assert_eq!(hb.prev_log_idx, 3);
    assert_eq!(hb.term, RaftTerm(3));
}

#[test]
fn client_request_to_leader_is_appended_and_replicated() {
    let l = leader(1, 2, vec![entry(1, 1)], &[(2, 1)], &[]);
    let req = ClientMessageReq::<RecTypes> { entries_to_add: vec![Cmd(5), Cmd(6)], unique_request_id: 42 };
    let (state, out) = process_msg(State::Leader(l), InputMessage::ClientMsg(req));
    assert_eq!(cmds(&state), vec![1, 5, 6]);
    assert_eq!(state.common().common_persistent.log[2].term, RaftTerm(2));
    assert_eq!(out.len(), 1);
    match &out[0] {
        OutputMessage::RaftReq(RaftRpcReq::AppendEntries { addressee, req }) => {
            assert_eq!(*addressee, node(2));
            assert_eq!(req.entries_to_append.iter().map(|e| e.cmd.0).collect::<Vec<u8>>(), vec![5, 6]);
        }
        _ => panic!("expected an AppendEntries request"),
    }
}

#[test]
fn client_request_to_follower_is_refused_with_known_leader() {
    let mut c = common(2, 2, vec![], 0);
    c.common_volatile.known_leader = Some(node(1));
    let state = State::Follower(Follower { common_state: c, trigger_election_next_time: false });
    let req = ClientMessageReq::<RecTypes> { entries_to_add: vec![Cmd(5)], unique_request_id: 77 };
    let (state, out) = process_msg(state, InputMessage::ClientMsg(req));
    assert!(cmds(&state).is_empty());
    match &out[..] {
        [OutputMessage::ClientMsg(r)] => {
            assert!(!r.success);
            assert_eq!(r.leader_address, Some(node(1)));
            assert_eq!(r.unique_request_id, 77);
        }
        _ => panic!("expected a client answer"),
    }
}

#[test]
fn votes_from_majority_make_a_leader() {
    let c = common(1, 3, vec![], 0);
    let state = State::Candidate(Candidate { common_state: c, followers_voted: NodeSet::new() });
    let vote = |from: u8| {
        InputMessage::<RecTypes>::RaftResponse(RaftRpcResp::RequestVote(ReqVoteResp {
            term: RaftTerm(3),
            vote_granted: true,
            sender_id: node(from),
        }))
    };
    // one of three nodes is no majority
    let (state, out) = process_msg(state, vote(2));
    assert!(out.is_empty());
    assert!(matches!(&state, State::Candidate(c) if c.followers_voted.len() == 1));
    // the same voter again changes nothing
    let (state, _) = process_msg(state, vote(2));
    assert!(matches!(&state, State::Candidate(c) if c.followers_voted.len() == 1));
    // two of three are
    let (state, out) = process_msg(state, vote(3));
    assert!(out.is_empty());
    match &state {
        State::Leader(l) => {
            assert_eq!(l.next_idx.len(), 0);
            assert_eq!(l.match_idx.len(), 0);
            assert_eq!(l.common_state.common_persistent.current_term, RaftTerm(3));
        }
        _ => panic!("expected a leader"),
    }
}

#[test]
fn newer_term_in_a_response_makes_a_follower() {
    let state = State::Leader(leader(1, 3, vec![], &[], &[]));
    let resp = InputMessage::<RecTypes>::RaftResponse(RaftRpcResp::AppendEntries(AppendEntriesResp {
        term: RaftTerm(8),
        success: false,
        sender_id: node(2),
        appended_entries_count: 0,
    }));
    let (state, out) = process_msg(state, resp);
    assert!(out.is_empty());
    assert!(matches!(state, State::Follower(_)));
    assert_eq!(state.common().common_persistent.current_term, RaftTerm(8));
    assert_eq!(state.common().common_persistent.voted_for, None);
}

#[test]
fn majority_of_matched_indexes_commits_and_applies() {
    let log = vec![entry(1, 1), entry(2, 1), entry(3, 2), entry(4, 2), entry(5, 2), entry(6, 2), entry(7, 2)];
    let l = leader(1, 2, log, &[], &[(2, 3), (3, 7), (4, 5)]);
    let resp = InputMessage::<RecTypes>::RaftResponse(RaftRpcResp::AppendEntries(AppendEntriesResp {
        term: RaftTerm(2),
        success: true,
        sender_id: node(2),
        appended_entries_count: 1,
    }));
    let (state, out) = process_msg(State::Leader(l), resp);
    assert!(out.is_empty());
    let c = state.common();
    assert_eq!(c.common_volatile.committed_idx, 5);
    assert_eq!(c.common_volatile.last_applied, 5);
    assert_eq!(c.common_persistent.state_machine.applied, vec![1, 2, 3, 4, 5]);
}

#[test]
fn failed_response_commits_nothing() {
    let l = leader(1, 2, vec![entry(1, 2)], &[], &[(2, 1), (3, 1)]);
    let resp = InputMessage::<RecTypes>::RaftResponse(RaftRpcResp::AppendEntries(AppendEntriesResp {
        term: RaftTerm(2),
        success: false,
        sender_id: node(2),
        appended_entries_count: 0,
    }));
    let (state, _) = process_msg(State::Leader(l), resp);
    assert_eq!(state.common().common_volatile.committed_idx, 0);
    // nor does a success while the last entry is of an older term
    let l = leader(1, 3, vec![entry(1, 2)], &[], &[(2, 1), (3, 1)]);
    let resp = InputMessage::<RecTypes>::RaftResponse(RaftRpcResp::AppendEntries(AppendEntriesResp {
        term: RaftTerm(3),
        success: true,
        sender_id: node(2),
        appended_entries_count: 1,
    }));
    let (state, _) = process_msg(State::Leader(l), resp);
    assert_eq!(state.common().common_volatile.committed_idx, 0);
}

#[test]
fn follower_applies_what_the_leader_committed() {
    let mut n = RaftNode { state: Some(follower(2, 1, vec![entry(1, 1)])) };
    let req = append_req(1, 0, 1, vec![entry(2, 1), entry(3, 1)], 2);
    let out = n.process_message(InputMessage::RaftRequest(RaftRpcReq::AppendEntries { addressee: node(2), req }));
    assert_eq!(append_resp(&out), (1, true, node(2), 0));
    let c = n.state.as_ref().unwrap().common();
    assert_eq!(c.common_volatile.committed_idx, 2);
    assert_eq!(c.common_volatile.last_applied, 2);
    assert_eq!(c.common_persistent.state_machine.applied, vec![1, 2]);
}

#[test]
fn majority_match_index_examples() {
    assert_eq!(majority_match_idx(&vec![]), None);
    assert_eq!(majority_match_idx(&vec![4]), Some(4));
    assert_eq!(majority_match_idx(&vec![3, 7, 5]), Some(5));
    assert_eq!(majority_match_idx(&vec![1, 9]), Some(1));
    assert_eq!(majority_match_idx(&vec![2, 2, 8, 8, 0]), Some(2));
    assert_eq!(majority_match_idx(&vec![6, 6, 6, 1]), Some(6));
}

#[test]
fn node_set_and_index_map() {
    let mut s = NodeSet::from_nodes(vec![node(1), node(2), node(1)]);
    assert_eq!(s.len(), 2);
    assert!(s.contains(&node(2)));
    assert!(!s.insert(node(2)));
    assert!(s.insert(node(3)));
    assert_eq!(s.to_vec(), vec![node(1), node(2), node(3)]);
    let mut m = NodeIdxMap::new();
    m.insert(node(1), 4);
    m.insert(node(2), 5);
    m.insert(node(1), 6);
    assert_eq!(m.len(), 2);
    assert_eq!(m.get(&node(1)), Some(6));
    assert_eq!(m.get(&node(3)), None);
    assert_eq!(m.entries(), &vec![(node(1), 6), (node(2), 5)]);
    assert_eq!(RaftTerm(3).add(4), RaftTerm(7));
}

fn new_node(me: u8) -> RaftNode<RecTypes> {
    let mut c = common(me, 0, vec![], 0);
    c.common_persistent.cluster_nodes = NodeSet::from_nodes(vec![node(1), node(2), node(3)]);
    RaftNode { state: Some(State::Follower(Follower { common_state: c, trigger_election_next_time: true })) }
}

fn term_and_commit(n: &RaftNode<RecTypes>) -> (u64, usize) {
    let c = n.state.as_ref().unwrap().common();
    (c.common_persistent.current_term.0, c.common_volatile.committed_idx)
}

#[test]
fn election_among_three_nodes() {
    let mut n1 = new_node(1);
    let mut n2 = new_node(2);
    let mut n3 = new_node(3);
    let mut seen = vec![term_and_commit(&n1)];

    let out = n1.process_message(InputMessage::TimerMsg(TimerMessage::TriggerElections));
    seen.push(term_and_commit(&n1));
    let req = match &out[..] {
        [OutputMessage::RaftReq(RaftRpcReq::ReqVote(r))] => r.clone(),
        _ => panic!("expected one vote request"),
    };
    assert_eq!(req.term, RaftTerm(1));

    let mut answers = vec![];
    for n in [&mut n2, &mut n3] {
        let out = n.process_message(InputMessage::RaftRequest(RaftRpcReq::ReqVote(req.clone())));
        let (term, granted, from) = vote_resp(&out);
        // the answer carries the voter's term from before the request
        assert_eq!((term, granted), (0, true));
        answers.push(ReqVoteResp { term: RaftTerm(term), vote_granted: granted, sender_id: from });
    }
    for a in answers {
        let out = n1.process_message(InputMessage::RaftResponse(RaftRpcResp::RequestVote(a)));
        assert!(out.is_empty());
        seen.push(term_and_commit(&n1));
    }
    assert!(matches!(n1.state, Some(State::Leader(_))));

    // a new leader tracks no follower yet, so its heartbeat reaches nobody
    let out = n1.process_message(InputMessage::TimerMsg(TimerMessage::TriggerHeartbeat));
    assert!(out.is_empty());
    let out = n1.process_message(InputMessage::ClientMsg(ClientMessageReq { entries_to_add: vec![Cmd(4)], unique_request_id: 1 }));
    assert!(out.is_empty());
    seen.push(term_and_commit(&n1));
    assert_eq!(cmds(n1.state.as_ref().unwrap()), vec![4]);

    // neither the term nor the commit index ever went down
    for w in seen.windows(2) {
        assert!(w[0].0 <= w[1].0);
        assert!(w[0].1 <= w[1].1);
    }
}

#[test]
fn apply_commands_hands_committed_entries_once() {
    let mut c = common(2, 1, vec![entry(1, 1), entry(2, 1), entry(3, 1)], 0);
    c.common_volatile.committed_idx = 2;
    let mut s = State::Follower(Follower { common_state: c, trigger_election_next_time: false });
    s.apply_commands();
    assert_eq!(s.common().common_persistent.state_machine.applied, vec![1, 2]);
    assert_eq!(s.common().common_volatile.last_applied, 2);
    // nothing is left to apply: the state machine is handed nothing
    s.apply_commands();
    assert_eq!(s.common().common_persistent.state_machine.applied, vec![1, 2]);
    assert_eq!(cmds(&s), vec![1, 2, 3]);
}
