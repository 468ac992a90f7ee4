use raft::basic::common_types::{LogMsgIdx, Term};
use raft::basic::log::entries_to_append::EntriesToAppend;
use raft::basic::log::not_empty_slice::NotEmptySlice;
use raft::basic::log::{LogEntry, RaftLog};
use raft::basic::messages::{
    AppendEntriesMsg, AppendEntriesResp, ControlMessage, InputMessage, OutputMessage, RaftMessage,
    RequestVoteMsg,
};
use raft::basic::msg_processing;
use raft::basic::msg_processing::control_msg;
use raft::basic::state::{CandidateState, Common, Either, FollowerState, LeaderState, NodeAddress, NodeState, OtherNodes};
use raft::basic::{process_timer_msg, to_candidate_state, NodeErr, TimerReaction};
use raft::basic::messages::get_term;
use raft::state::IpAddr;
use raft::state::{
    CandidateState as RoleCandidate, FollowerState as RoleFollower, LeaderState as RoleLeader,
    NodeAddress as RoleAddress, NodeRoleState, NodeState as RoleNodeState, OtherNodes as RoleOthers,
    };
use raft::timer::TimerOutputMsg;

fn e(term: u64, idx: u64, s: &str) -> LogEntry {
    LogEntry::new(Term(term), LogMsgIdx(idx), s.to_string())
}

fn texts(log: &RaftLog, upto: u64) -> Vec<Option<u64>> {
    (0..upto).map(|i| log.get_entry_term_by_idx(LogMsgIdx(i)).map(|t| t.0)).collect()
}

fn addr(n: u8) -> NodeAddress {
    NodeAddress::new(IpAddr::V4(u32::from_be_bytes([192, 168, 0, n])))
}

fn common(term: u64, log: RaftLog) -> Common {
    Common { term: Term(term), log, other_nodes: OtherNodes::new(vec![addr(2), addr(3)]), this_node_address: addr(1) }
}

#[test]
fn term_increment() {
    let mut t = Term(41);
    t.increment();
    assert_eq!(t, Term(42));
}

#[test]
fn not_empty_slice() {
    let empty: [u8; 0] = [];
    assert!(NotEmptySlice::new(&empty[..]).is_none());
    let v = [3u8, 4, 5];
    let s = NotEmptySlice::new(&v[..]).unwrap();
    assert_eq!(*s.first(), 3);
    assert_eq!(*s.last(), 5);
    assert_eq!(s.len(), 3);
    assert_eq!(s.as_slice(), &v[..]);
}

#[test]
fn entries_to_append_order() {
    let sorted = vec![e(1, 1, "a"), e(1, 1, "b"), e(2, 4, "c")];
    let ok = EntriesToAppend::new(NotEmptySlice::new(&sorted).unwrap(), Term(1), LogMsgIdx(0)).ok().unwrap();
    assert_eq!(ok.prev_term(), Term(1));
    assert_eq!(ok.prev_idx(), LogMsgIdx(0));
    assert_eq!(ok.entries().len(), 3);
    let unsorted = vec![e(1, 2, "a"), e(1, 1, "b")];
    match EntriesToAppend::new(NotEmptySlice::new(&unsorted).unwrap(), Term(1), LogMsgIdx(0)) {
        Err(msg) => assert_eq!(msg, "Log entries are out-of-order!"),
        Ok(_) => panic!("out-of-order entries were accepted"),
    }
}

#[test]
fn raft_log_reads_and_force_append() {
    let log = RaftLog::default();
    assert_eq!(log.get_last_msg_info(), (LogMsgIdx(0), Term(0)));
    assert_eq!(log.get_last_committed_info(), (LogMsgIdx(0), Term(0)));
    assert_eq!(log.get_entry_term_by_idx(LogMsgIdx(0)), None);

    let mut log = RaftLog::with_entries(vec![e(1, 0, "a"), e(1, 1, "b"), e(2, 1, "c"), e(2, 2, "d")]);
    assert_eq!(log.get_last_msg_info(), (LogMsgIdx(2), Term(2)));
    // the last entry with an index counts
    assert_eq!(texts(&log, 4), vec![Some(1), Some(2), Some(2), None]);

    let new = vec![e(3, 2, "x"), e(3, 3, "y")];
    let entries = EntriesToAppend::new(NotEmptySlice::new(&new).unwrap(), Term(1), LogMsgIdx(1)).ok().unwrap();
    log.force_append(entries);
    // the log keeps the entries up to (1, 1) and appends the new ones
    assert_eq!(log.get_last_msg_info(), (LogMsgIdx(3), Term(3)));
    assert_eq!(texts(&log, 5), vec![Some(1), Some(1), Some(3), Some(3), None]);
    assert_eq!(log.get_last_committed_info(), (LogMsgIdx(0), Term(0)));
}

#[test]
fn timer_messages_of_the_role_node() {
    let ns = |term: u64| RoleNodeState {
        term,
        last_committed_log_idx: 2,
        other_nodes: RoleOthers::new(vec![RoleAddress::new(IpAddr::V4(1), 0)]),
    };
    match process_timer_msg(TimerOutputMsg::ElectionTimeTrigger, NodeRoleState::FollowerState(RoleFollower { node_state: ns(4) })) {
        Ok((NodeRoleState::CandidateState(c), Some(TimerReaction::SendStartElection))) => {
            assert_eq!(c.node_state.term, 5);
            assert_eq!(c.node_state.last_committed_log_idx, 2);
        }
        _ => panic!("expected a candidate that starts an election"),
    }
    match process_timer_msg(TimerOutputMsg::ElectionTimeTrigger, NodeRoleState::LeaderState(RoleLeader { node_state: ns(4) })) {
        Ok((NodeRoleState::LeaderState(l), None)) => assert_eq!(l.node_state.term, 4),
        _ => panic!("expected a leader that does nothing"),
    }
    match process_timer_msg(TimerOutputMsg::ElectionTimeTrigger, NodeRoleState::CandidateState(RoleCandidate { node_state: ns(4) })) {
        Ok((NodeRoleState::CandidateState(c), None)) => assert_eq!(c.node_state.term, 4),
        _ => panic!("expected a candidate that does nothing"),
    }
    match process_timer_msg(TimerOutputMsg::HeartbeatTimeTrigger, NodeRoleState::FollowerState(RoleFollower { node_state: ns(4) })) {
        Ok((NodeRoleState::FollowerState(f), Some(TimerReaction::SendHeartbeat))) => assert_eq!(f.node_state.term, 4),
        _ => panic!("expected a heartbeat"),
    }
    match to_candidate_state(RoleFollower { node_state: ns(9) }) {
        Ok(c) => assert_eq!(c.node_state.term, 10),
        Err(NodeErr::Internal) => panic!("no error can happen"),
    }
}

#[test]
fn control_messages() {
    let others = OtherNodes::new(vec![addr(2), addr(3)]);
    assert_eq!(others.count(), 2);
    let state = NodeState::init(others, addr(1));
    let follower = match state {
        NodeState::FollowerState(f) => f,
        _ => panic!("a node starts as a follower"),
    };
    assert_eq!(follower.common.term, Term(0));
    assert!(!follower.ignore_next_election_timeout_trigger);

    // a follower starts an election
    let (state, out) = control_msg::process_msg(ControlMessage::TriggerElection, NodeState::FollowerState(follower));
    match (&state, &out) {
        (
            NodeState::CandidateState(c),
            Some(OutputMessage::RaftMsg { message: RaftMessage::RequestVote(RequestVoteMsg { sender_term, sender_addr }) }),
        ) => {
            assert_eq!(c.common.term, Term(1));
            assert_eq!(c.votes_count, 1);
            assert_eq!(*sender_term, Term(1));
            assert!(*sender_addr == addr(1));
        }
        _ => panic!("expected a candidate and a vote request"),
    }
    // a candidate starts a new election
    let (state, out) = msg_processing::process_msg(InputMessage::ControlMessage(ControlMessage::TriggerElection), state);
    assert!(matches!(&state, NodeState::CandidateState(c) if c.common.term == Term(2)));
    assert!(matches!(&out, Some(OutputMessage::RaftMsg { message: RaftMessage::RequestVote(m) }) if m.sender_term == Term(2)));
    // a candidate sends no heartbeat
    let (state, out) = control_msg::process_msg(ControlMessage::TriggerHeartbeat, state);
    assert!(out.is_none());
    // a follower that heard from its leader keeps quiet
    let quiet = FollowerState {
        election_favorite_this_term: None,
        leader_address: Some(addr(3)),
        ignore_next_election_timeout_trigger: true,
        common: common(5, RaftLog::default()),
    };
    let (s, out) = control_msg::process_msg(ControlMessage::TriggerElection, NodeState::FollowerState(quiet));
    assert!(out.is_none());
    assert!(matches!(s, NodeState::FollowerState(f) if f.common.term == Term(5)));
    let _ = state;
}

#[test]
fn leader_heartbeat_and_stepping_down() {
    let log = RaftLog::with_entries(vec![e(1, 0, "a"), e(2, 1, "b")]);
    let leader = NodeState::LeaderState(LeaderState { common: common(2, log) });
    let (leader, out) = control_msg::process_msg(ControlMessage::TriggerHeartbeat, leader);
    match out {
        Some(OutputMessage::RaftMsg { message: RaftMessage::AppendEntries(m) }) => {
            assert_eq!(m.sender_term, Term(2));
            assert!(m.leader_id == addr(1));
            assert!(m.content.is_empty());
            assert_eq!(m.prev_log_index, LogMsgIdx(1));
            assert_eq!(m.prev_log_term, Term(2));
            assert_eq!(m.leader_commit, LogMsgIdx(0));
        }
        _ => panic!("expected a heartbeat"),
    }
    let (leader, out) = control_msg::process_msg(ControlMessage::TriggerElection, leader);
    assert!(out.is_none());
    let f: FollowerState = match leader {
        NodeState::LeaderState(l) => FollowerState::from(l),
        _ => panic!("expected a leader"),
    };
    assert!(f.leader_address.is_none());
    assert_eq!(f.common.term, Term(2));
    let c = CandidateState::from(f);
    assert_eq!(c.votes_count, 0);
    let f = FollowerState::from(c);
    assert!(!f.ignore_next_election_timeout_trigger);
    match f.process_election_trigger() {
        (Either::Right(c), Some(RaftMessage::RequestVote(m))) => {
            assert_eq!(c.common.term, Term(3));
            assert_eq!(m.sender_term, Term(3));
        }
        _ => panic!("expected an election"),
    }
}

fn append_msg(term: u64, prev_idx: u64, prev_term: u64, content: Vec<LogEntry>) -> AppendEntriesMsg {
    AppendEntriesMsg {
        sender_term: Term(term),
        leader_id: addr(2),
        content,
        prev_log_index: LogMsgIdx(prev_idx),
        prev_log_term: Term(prev_term),
        leader_commit: LogMsgIdx(0),
    }
}

fn answer(m: RaftMessage) -> (u64, bool) {
    match m {
        RaftMessage::AppendEntriesResp(AppendEntriesResp { sender_term, success }) => (sender_term.0, success),
        _ => panic!("expected an AppendEntries answer"),
    }
}

#[test]
fn follower_processes_append_entries() {
    let mut f = FollowerState {
        election_favorite_this_term: None,
        leader_address: None,
        ignore_next_election_timeout_trigger: false,
        common: common(3, RaftLog::with_entries(vec![e(1, 0, "a"), e(2, 1, "b"), e(2, 2, "c")])),
    };
    // an older term is refused
    let m = append_msg(2, 1, 2, vec![e(2, 2, "x")]);
    assert_eq!(answer(f.process_append_entries_msg(&m)), (3, false));
    assert_eq!(get_term(&RaftMessage::AppendEntries(m)), Term(2));
    // a previous entry that the log lacks is refused, and the term is taken
    let m = append_msg(4, 1, 3, vec![e(4, 2, "x")]);
    assert_eq!(answer(f.process_append_entries_msg(&m)), (4, false));
    assert_eq!(f.common.term, Term(4));
    assert_eq!(f.common.log.get_last_msg_info(), (LogMsgIdx(2), Term(2)));
    // a matching previous entry: the entries replace what followed it
    let m = append_msg(4, 1, 2, vec![e(4, 2, "x"), e(4, 3, "y")]);
    assert_eq!(answer(f.process_append_entries_msg(&m)), (4, true));
    assert_eq!(f.common.log.get_last_msg_info(), (LogMsgIdx(3), Term(4)));
    assert_eq!(f.common.log.get_entry_term_by_idx(LogMsgIdx(2)), Some(Term(4)));
    // a heartbeat with a matching previous entry changes nothing in the log
    let m = append_msg(4, 3, 4, vec![]);
    assert_eq!(answer(f.process_append_entries_msg(&m)), (4, true));
    assert_eq!(f.common.log.get_last_msg_info(), (LogMsgIdx(3), Term(4)));
}
