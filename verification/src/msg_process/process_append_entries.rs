use crate::message::{AppendEntriesReq, AppendEntriesResp, OutputMessage, RaftRpcResp};
use crate::state::{
    CommonState, Follower, LogEntry, NodeId, PersistentCommonState, RaftTerm, State, Types,
    VolatileCommonState,
};
use vstd::prelude::*;

verus! {

/// The answer of a node with `state` to an AppendEntries request. It carries the node's term
/// from before the request, and no count of appended entries.
pub open spec fn append_reply<TTypes: Types>(state: State<TTypes>, success: bool) -> OutputMessage<
    TTypes,
> {
    OutputMessage::RaftResp(
        RaftRpcResp::AppendEntries(
            AppendEntriesResp {
                term: state.common_view().common_persistent.current_term,
                success: success,
                sender_id: state.common_view().common_persistent.this_node_id,
                appended_entries_count: 0,
            },
        ),
    )
}

/// The request's term is older than the node's: the node refuses it.
pub open spec fn stale_request<TTypes: Types>(
    state: State<TTypes>,
    message: AppendEntriesReq<TTypes>,
) -> bool {
    state.common_view().common_persistent.current_term.0 > message.term.0
}

/// The common state of a node that accepts the sender as its leader: it takes the request's
/// term, forgets its vote unless it was a follower in that term already, and records the
/// sender as the known leader.
pub open spec fn heard_from_leader<TTypes: Types>(
    state: State<TTypes>,
    message: AppendEntriesReq<TTypes>,
) -> CommonState<TTypes> {
    let c = state.common_view();
    let keeps_vote = state is Follower && c.common_persistent.current_term.0 == message.term.0;
    CommonState {
        common_persistent: PersistentCommonState {
            current_term: message.term,
            voted_for: if keeps_vote {
                c.common_persistent.voted_for
            } else {
                None
            },
            ..c.common_persistent
        },
        common_volatile: VolatileCommonState {
            known_leader: Some(message.leader_id),
            ..c.common_volatile
        },
    }
}

/// The log holds an entry at the request's previous index, with the request's previous term.
pub open spec fn log_matches<TCmd: crate::state::Command>(
    log: Seq<LogEntry<TCmd>>,
    prev_log_idx: usize,
    prev_log_term: RaftTerm,
) -> bool {
    prev_log_idx < log.len() && log[prev_log_idx as int].term == prev_log_term
}

/// `after` is `before` with the request's entries written after its previous index (the
/// entries that followed are dropped), the term of the last entry remembered, and the commit
/// index raised to the leader's where that is larger.
pub open spec fn entries_appended<TTypes: Types>(
    before: CommonState<TTypes>,
    after: CommonState<TTypes>,
    message: AppendEntriesReq<TTypes>,
) -> bool {
    let log = before.common_persistent.log@.take(message.prev_log_idx + 1)
        + message.entries_to_append@;
    &&& after.common_persistent.log@ == log
    &&& after.common_persistent == PersistentCommonState {
        log: after.common_persistent.log,
        last_msg_term: log.last().term,
        ..before.common_persistent
    }
    &&& after.common_volatile == VolatileCommonState {
        committed_idx: if message.leader_commit_idx > before.common_volatile.committed_idx {
            message.leader_commit_idx
        } else {
            before.common_volatile.committed_idx
        },
        ..before.common_volatile
    }
}

/// What processing an AppendEntries request does: `next` is the node's state afterwards and
/// `out` what it sends.
///
/// A node whose term is newer than the request's refuses it and keeps its state. Any other
/// node becomes (or stays) a follower of the sender in the request's term and will not start
/// the next election. It then refuses the request if its log lacks the request's previous
/// entry; otherwise it replaces what follows that entry with the request's entries, raises its
/// commit index to the leader's where that is larger, and accepts.
pub open spec fn append_entries_step<TTypes: Types>(
    state: State<TTypes>,
    message: AppendEntriesReq<TTypes>,
    next: State<TTypes>,
    out: Seq<OutputMessage<TTypes>>,
) -> bool {
    if stale_request(state, message) {
        next == state && out =~= seq![append_reply(state, false)]
    } else if !log_matches(
        state.common_view().common_persistent.log@,
        message.prev_log_idx,
        message.prev_log_term,
    ) {
        &&& next == State::Follower(
            Follower {
                common_state: heard_from_leader(state, message),
                trigger_election_next_time: false,
            },
        )
        &&& out =~= seq![append_reply(state, false)]
    } else {
        &&& next matches State::Follower(f) && !f.trigger_election_next_time && entries_appended(
            heard_from_leader(state, message),
            f.common_state,
            message,
        )
        &&& out =~= seq![append_reply(state, true)]
    }
}

/// A node accepts an AppendEntries request of a term not older than its own whose previous
/// entry (index and term) its log holds. It answers with success and is then a follower in the
/// request's term whose log is its log up to that entry followed by the request's entries (with
/// or without entries), whose recorded last-message term is the term of the last entry of that
/// log, and whose commit index is the larger of its own and the leader's.
pub proof fn lemma_accepted_append_entries<TTypes: Types>(
    state: State<TTypes>,
    message: AppendEntriesReq<TTypes>,
    next: State<TTypes>,
    out: Seq<OutputMessage<TTypes>>,
)
    requires
        append_entries_step(state, message, next, out),
        state.common_view().common_persistent.current_term.0 <= message.term.0,
        message.prev_log_idx < state.common_view().common_persistent.log@.len(),
        state.common_view().common_persistent.log@[message.prev_log_idx as int].term
            == message.prev_log_term,
    ensures
        next is Follower,
        next.common_view().common_persistent.current_term == message.term,
        next.common_view().common_persistent.log@ == state.common_view().common_persistent.log@.take(
            message.prev_log_idx + 1,
        ) + message.entries_to_append@,
        next.common_view().common_persistent.last_msg_term
            == next.common_view().common_persistent.log@.last().term,
        next.common_view().common_volatile.committed_idx == if message.leader_commit_idx
            > state.common_view().common_volatile.committed_idx {
            message.leader_commit_idx
        } else {
            state.common_view().common_volatile.committed_idx
        },
        out.len() == 1,
        out[0] matches OutputMessage::RaftResp(RaftRpcResp::AppendEntries(r)) && r.success,
{
}

/// Applying the committed commands after the request cannot go beyond the log: where the node
/// accepts the request, with the commit index and the log that it has afterwards; otherwise
/// with those that it has before.
pub open spec fn can_apply_after<TTypes: Types>(
    state: State<TTypes>,
    message: AppendEntriesReq<TTypes>,
) -> bool {
    let v = state.common_view().common_volatile;
    if !stale_request(state, message) && log_matches(
        state.common_view().common_persistent.log@,
        message.prev_log_idx,
        message.prev_log_term,
    ) {
        let committed = if message.leader_commit_idx > v.committed_idx {
            message.leader_commit_idx
        } else {
            v.committed_idx
        };
        v.last_applied < committed ==> committed <= message.prev_log_idx + 1
            + message.entries_to_append@.len()
    } else {
        state.can_apply()
    }
}

/// Processes an AppendEntries request (see `append_entries_step`).
///
/// A leader that receives a request of its own term, which would mean two leaders in one term,
/// is left out.
pub fn process_msg<TTypes: Types>(state: State<TTypes>, message: AppendEntriesReq<TTypes>) -> (res: (
    State<TTypes>,
    Vec<OutputMessage<TTypes>>,
))
    requires
        !(state is Leader && state.common_view().common_persistent.current_term.0 == message.term.0),
    ensures
        append_entries_step(state, message, res.0, res.1@),
{
    let mut message = message;
    let node_id = state.common().common_persistent.this_node_id;
    let curr_term = state.common().common_persistent.current_term;
    let ghost message0 = message;

    /*
        Any node that gets an AppendEntries request either ignores it due to its term or
        processes it as a follower (a node that wasn't a follower becomes one).
     */
    if curr_term.0 > message.term.0 {
        return (state, vec![OutputMessage::RaftResp(reply_false(curr_term, 0, node_id))]);
    }
    let mut follower = match state {
        State::Leader(mut leader) => {
            leader.common_state.common_persistent.current_term = message.term;
            leader.common_state.common_persistent.voted_for = None;
            Follower::from(leader)
        },
        /*
         An AppendEntries request can be sent only by a leader.
         A candidate that gets such a request with its own term immediately becomes
         a follower because there is a leader already.
        */
        State::Candidate(mut candidate) => {
            candidate.common_state.common_persistent.current_term = message.term;
            candidate.common_state.common_persistent.voted_for = None;
            Follower::from(candidate)
        },
        State::Follower(mut follower) => {
            if curr_term.0 < message.term.0 {
                follower.common_state.common_persistent.current_term = message.term;
                follower.common_state.common_persistent.voted_for = None;
            }
            follower
        },
    };

    // got an AppendEntries request from a viable leader just now, so don't start an election
    // next time the timer triggers one
    follower.trigger_election_next_time = false;
    follower.common_state.common_volatile.known_leader = Some(message.leader_id);
    assert(follower.common_state == heard_from_leader(state, message0));

    // Reply false if the log doesn't contain an entry at prevLogIndex whose term matches
    // prevLogTerm
    let prev = message.prev_log_idx;
    if !(prev < follower.common_state.common_persistent.log.len()
        && follower.common_state.common_persistent.log[prev].term == message.prev_log_term) {
        return (State::Follower(follower), vec![OutputMessage::RaftResp(reply_false(curr_term, 0, node_id))]);
    }

    /*
        If an existing entry conflicts with a new one (same index but different terms),
        delete the existing entry and all that follow it.
        Append any new entries not already in the log.
     */
    follower.common_state.common_persistent.log.truncate(prev + 1);
    follower.common_state.common_persistent.log.append(&mut message.entries_to_append);

    if message.leader_commit_idx > follower.common_state.common_volatile.committed_idx {
        follower.common_state.common_volatile.committed_idx = message.leader_commit_idx;
    }

    // remember the term of the last entry in the log
    let len = follower.common_state.common_persistent.log.len();
    if len > 0 {
        follower.common_state.common_persistent.last_msg_term =
            follower.common_state.common_persistent.log[len - 1].term;
    }

    (
        State::Follower(follower),
        vec![OutputMessage::RaftResp(reply_true(curr_term, message.entries_to_append.len(), node_id))],
    )
}

fn reply_false(curr_term: RaftTerm, appended: usize, sender: NodeId) -> (r: RaftRpcResp)
    ensures
        r == RaftRpcResp::AppendEntries(
            AppendEntriesResp {
                term: curr_term,
                appended_entries_count: appended,
                success: false,
                sender_id: sender,
            },
        ),
{
    RaftRpcResp::AppendEntries(
        AppendEntriesResp { term: curr_term, appended_entries_count: appended, success: false, sender_id: sender },
    )
}

fn reply_true(curr_term: RaftTerm, appended: usize, sender: NodeId) -> (r: RaftRpcResp)
    ensures
        r == RaftRpcResp::AppendEntries(
            AppendEntriesResp {
                term: curr_term,
                appended_entries_count: appended,
                success: true,
                sender_id: sender,
            },
        ),
{
    RaftRpcResp::AppendEntries(
        AppendEntriesResp { term: curr_term, appended_entries_count: appended, success: true, sender_id: sender },
    )
}

} // verus!
