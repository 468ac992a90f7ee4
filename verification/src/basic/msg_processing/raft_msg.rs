use crate::basic::common_types::Term;
use crate::basic::log::entries_to_append::{sorted_by_idx, EntriesToAppend};
use crate::basic::log::not_empty_slice::NotEmptySlice;
use crate::basic::log::{
    entry_views, last_match, last_with_idx, lemma_last_with_idx_in_range,
    lemma_last_with_idx_is_last_match, RaftLogView,
};
use crate::basic::messages::{AppendEntriesMsg, AppendEntriesResp, RaftMessage};
use crate::basic::state::{Common, FollowerState};
use vstd::prelude::*;

verus! {

/// The log holds an entry at the message's previous index whose term is the message's previous
/// term (where several entries have that index, the last one counts).
pub open spec fn log_consistent(log: RaftLogView, msg: AppendEntriesMsg) -> bool {
    let p = last_with_idx(log.entries, msg.prev_log_index);
    p >= 0 && log.entries[p].term == msg.prev_log_term
}

/// The log after the message's entries replace those that follow its previous entry.
pub open spec fn log_appended(log: RaftLogView, msg: AppendEntriesMsg) -> RaftLogView {
    let k = last_match(log.entries, msg.prev_log_index, msg.prev_log_term);
    let new_entries = entry_views(msg.content@);
    RaftLogView {
        entries: log.entries.take(k + 1) + new_entries,
        last_idx: new_entries.last().idx,
        last_term: new_entries.last().term,
        ..log
    }
}

/// The answer to an AppendEntries message.
pub open spec fn append_answer(term: Term, success: bool) -> RaftMessage {
    RaftMessage::AppendEntriesResp(AppendEntriesResp { sender_term: term, success: success })
}

impl FollowerState {
    /// Processes an AppendEntries message.
    ///
    /// A message of an older term is refused, and nothing changes. Otherwise the follower takes
    /// the message's term; if its log holds the message's previous entry, it writes the
    /// message's entries after that entry (dropping those that followed it) and accepts,
    /// otherwise it refuses.
    ///
    /// Entries that are out of order by index, in a message that would be written, are left
    /// out.
    pub fn process_append_entries_msg(&mut self, msg: &AppendEntriesMsg) -> (r: RaftMessage)
        requires
            !(msg.sender_term.0 < old(self).common.term.0) && log_consistent(old(self).common.log@, *msg)
                && msg.content@.len() > 0 ==> sorted_by_idx(entry_views(msg.content@)),
        ensures
            msg.sender_term.0 < old(self).common.term.0 ==> *final(self) == *old(self) && r
                == append_answer(old(self).common.term, false),
            !(msg.sender_term.0 < old(self).common.term.0) ==> {
                &&& *final(self) == (FollowerState {
                    common: Common {
                        term: msg.sender_term,
                        log: final(self).common.log,
                        ..old(self).common
                    },
                    ..*old(self)
                })
                &&& r == append_answer(msg.sender_term, log_consistent(old(self).common.log@, *msg))
                &&& final(self).common.log@ == if log_consistent(old(self).common.log@, *msg)
                    && msg.content@.len() > 0 {
                    log_appended(old(self).common.log@, *msg)
                } else {
                    old(self).common.log@
                }
            },
    {
        self.common.term = match check_term(self, msg) {
            Err(resp) => return RaftMessage::AppendEntriesResp(resp),
            Ok(term) => term,
        };

        return RaftMessage::AppendEntriesResp(
            match is_log_consistent(self, msg) {
                true => append_entries(self, msg),
                false => AppendEntriesResp { sender_term: self.common.term, success: false },
            },
        );
    }
}

/// The leader sent its term in the AppendEntries message; it must be at least the follower's.
/// Returns the new term if so, and the refusal to send to the leader otherwise.
fn check_term(state: &FollowerState, msg: &AppendEntriesMsg) -> (r: Result<Term, AppendEntriesResp>)
    ensures
        msg.sender_term.0 < state.common.term.0 ==> r == Err::<Term, AppendEntriesResp>(
            AppendEntriesResp { sender_term: state.common.term, success: false },
        ),
        !(msg.sender_term.0 < state.common.term.0) ==> r == Ok::<Term, AppendEntriesResp>(
            msg.sender_term,
        ),
{
    if msg.sender_term.0 < state.common.term.0 {
        Err(AppendEntriesResp { sender_term: state.common.term, success: false })
    } else {
        Ok(msg.sender_term)
    }
}

/// The log consistency check: the follower's log holds an entry with the index and term of
/// the entry of the leader's log right before the new ones.
fn is_log_consistent(state: &FollowerState, msg: &AppendEntriesMsg) -> (b: bool)
    ensures
        b == log_consistent(state.common.log@, *msg),
{
    match state.common.log.get_entry_term_by_idx(msg.prev_log_index) {
        Some(term) => term == msg.prev_log_term,
        _ => false,
    }
}

fn append_entries(state: &mut FollowerState, msg: &AppendEntriesMsg) -> (resp: AppendEntriesResp)
    requires
        log_consistent(old(state).common.log@, *msg),
        msg.content@.len() > 0 ==> sorted_by_idx(entry_views(msg.content@)),
    ensures
        *final(state) == (FollowerState {
            common: Common { log: final(state).common.log, ..old(state).common },
            ..*old(state)
        }),
        final(state).common.log@ == if msg.content@.len() > 0 {
            log_appended(old(state).common.log@, *msg)
        } else {
            old(state).common.log@
        },
        resp == (AppendEntriesResp { sender_term: old(state).common.term, success: true }),
{
    if let Some(entries) = NotEmptySlice::new(msg.content.as_slice()) {
        let entries = EntriesToAppend::new(entries, msg.prev_log_term, msg.prev_log_index).unwrap();
        proof {
            let v = state.common.log@.entries;
            lemma_last_with_idx_in_range(v, msg.prev_log_index);
            lemma_last_with_idx_is_last_match(v, msg.prev_log_index, msg.prev_log_term);
        }
        state.common.log.force_append(entries);
    }
    AppendEntriesResp { success: true, sender_term: state.common.term }
}

} // verus!
