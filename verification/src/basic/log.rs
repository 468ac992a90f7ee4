pub mod entries_to_append;
pub mod not_empty_slice;

use crate::basic::common_types::{LogMsgIdx, Term};
use crate::basic::log::entries_to_append::EntriesToAppend;
use vstd::prelude::*;

verus! {

/// A log entry: its term, its index and its text.
pub struct LogEntry {
    term: Term,
    idx: LogMsgIdx,
    s: String,
}

/// What a log entry holds.
pub struct LogEntryView {
    pub term: Term,
    pub idx: LogMsgIdx,
    pub s: Seq<char>,
}

impl View for LogEntry {
    type V = LogEntryView;

    closed spec fn view(&self) -> LogEntryView {
        LogEntryView { term: self.term, idx: self.idx, s: self.s@ }
    }
}

impl Clone for LogEntry {
    fn clone(&self) -> (e: Self)
        ensures
            e == *self,
    {
        LogEntry { term: self.term, idx: self.idx, s: self.s.clone() }
    }
}

impl LogEntry {
    /// The entry of term `term` at index `idx` with text `s`.
    pub fn new(term: Term, idx: LogMsgIdx, s: String) -> (e: LogEntry)
        ensures
            e@ == (LogEntryView { term: term, idx: idx, s: s@ }),
    {
        LogEntry { term, idx, s }
    }

    pub fn term(&self) -> (t: Term)
        ensures
            t == self@.term,
    {
        self.term
    }

    pub fn idx(&self) -> (i: LogMsgIdx)
        ensures
            i == self@.idx,
    {
        self.idx
    }

    pub fn text(&self) -> (s: &String)
        ensures
            s@ == self@.s,
    {
        &self.s
    }
}

/// What the entries of a sequence of log entries hold.
pub open spec fn entry_views(s: Seq<LogEntry>) -> Seq<LogEntryView> {
    s.map_values(|e: LogEntry| e@)
}

/// The position of the last entry of `s` with index `idx` and term `term`, or -1 if there is
/// none.
pub open spec fn last_match(s: Seq<LogEntryView>, idx: LogMsgIdx, term: Term) -> int
    decreases s.len(),
{
    if s.len() == 0 {
        -1
    } else if s.last().idx == idx && s.last().term == term {
        s.len() - 1
    } else {
        last_match(s.drop_last(), idx, term)
    }
}

/// The position of the last entry of `s` with index `idx`, or -1 if there is none.
pub open spec fn last_with_idx(s: Seq<LogEntryView>, idx: LogMsgIdx) -> int
    decreases s.len(),
{
    if s.len() == 0 {
        -1
    } else if s.last().idx == idx {
        s.len() - 1
    } else {
        last_with_idx(s.drop_last(), idx)
    }
}

/// Where the last entry with index `idx` has term `term`, it is the last entry with that index
/// and term.
pub proof fn lemma_last_with_idx_is_last_match(s: Seq<LogEntryView>, idx: LogMsgIdx, term: Term)
    requires
        last_with_idx(s, idx) >= 0,
        s[last_with_idx(s, idx)].term == term,
    ensures
        last_match(s, idx, term) == last_with_idx(s, idx),
    decreases s.len(),
{
    if s.len() > 0 && s.last().idx != idx {
        let t = s.drop_last();
        assert(t[last_with_idx(t, idx)] == s[last_with_idx(t, idx)]) by {
            lemma_last_with_idx_in_range(t, idx);
        }
        lemma_last_with_idx_is_last_match(t, idx, term);
    }
}

/// The position of the last entry with an index is a position of the sequence.
pub proof fn lemma_last_with_idx_in_range(s: Seq<LogEntryView>, idx: LogMsgIdx)
    ensures
        -1 <= last_with_idx(s, idx) < s.len(),
        last_with_idx(s, idx) >= 0 ==> s[last_with_idx(s, idx)].idx == idx,
    decreases s.len(),
{
    if s.len() > 0 && s.last().idx != idx {
        lemma_last_with_idx_in_range(s.drop_last(), idx);
    }
}

/// Reading a log after entries were appended to a prefix of it (as `RaftLog::force_append`
/// does): an index that the appended entries hold reads as the last of them with that index;
/// any other index reads as in the prefix.
pub proof fn lemma_read_after_append(prefix: Seq<LogEntryView>, appended: Seq<LogEntryView>, idx: LogMsgIdx)
    ensures
        last_with_idx(appended, idx) >= 0 ==> last_with_idx(prefix + appended, idx) == prefix.len()
            + last_with_idx(appended, idx) && (prefix + appended)[last_with_idx(prefix + appended, idx)]
            == appended[last_with_idx(appended, idx)],
        last_with_idx(appended, idx) < 0 ==> last_with_idx(prefix + appended, idx) == last_with_idx(
            prefix,
            idx,
        ),
    decreases appended.len(),
{
    if appended.len() > 0 {
        assert((prefix + appended).drop_last() =~= prefix + appended.drop_last());
        lemma_read_after_append(prefix, appended.drop_last(), idx);
        lemma_last_with_idx_in_range(appended.drop_last(), idx);
    } else {
        assert(prefix + appended =~= prefix);
    }
}

/// What a log holds.
#[verifier::ext_equal]
pub struct RaftLogView {
    pub entries: Seq<LogEntryView>,
    pub last_idx: LogMsgIdx,
    pub last_term: Term,
    pub last_committed_idx: LogMsgIdx,
    pub last_committed_term: Term,
}

/// The log of a node: its entries, and the index and term of its last and of its last committed
/// entries.
pub struct RaftLog {
    entries: Vec<LogEntry>,
    last_idx: LogMsgIdx,
    last_term: Term,
    last_committed_idx: LogMsgIdx,
    last_committed_term: Term,
}

impl RaftLogView {
    /// The last index and term are those of the last entry, or zero while there is none.
    pub open spec fn last_info_matches(self) -> bool {
        if self.entries.len() > 0 {
            self.last_idx == self.entries.last().idx && self.last_term == self.entries.last().term
        } else {
            self.last_idx == LogMsgIdx(0) && self.last_term == Term(0)
        }
    }
}

impl View for RaftLog {
    type V = RaftLogView;

    closed spec fn view(&self) -> RaftLogView {
        RaftLogView {
            entries: entry_views(self.entries@),
            last_idx: self.last_idx,
            last_term: self.last_term,
            last_committed_idx: self.last_committed_idx,
            last_committed_term: self.last_committed_term,
        }
    }
}

impl RaftLog {
    /// A log that holds `entries`, whose last index and term are those of its last entry (zero
    /// when it is empty), with nothing committed.
    pub fn with_entries(entries: Vec<LogEntry>) -> (log: RaftLog)
        ensures
            log@.entries == entry_views(entries@),
            log@.last_idx == (if entries@.len() > 0 { entries@.last()@.idx } else { LogMsgIdx(0) }),
            log@.last_term == (if entries@.len() > 0 { entries@.last()@.term } else { Term(0) }),
            log@.last_committed_idx == LogMsgIdx(0),
            log@.last_committed_term == Term(0),
            log@.last_info_matches(),
    {
        let n = entries.len();
        let (last_idx, last_term) = if n > 0 {
            (entries[n - 1].idx, entries[n - 1].term)
        } else {
            (LogMsgIdx(0), Term(0))
        };
        RaftLog {
            entries,
            last_idx,
            last_term,
            last_committed_idx: LogMsgIdx(0),
            last_committed_term: Term(0),
        }
    }

    /// The index and term of the last message in the log.
    /// For a log built by `default` or `with_entries` and changed only by `force_append`, whose
    /// contracts keep `last_info_matches`, these are the index and term of its last entry.
    pub fn get_last_msg_info(&self) -> (r: (LogMsgIdx, Term))
        ensures
            r == (self@.last_idx, self@.last_term),
            self@.last_info_matches() && self@.entries.len() > 0 ==> r == (
                self@.entries.last().idx,
                self@.entries.last().term,
            ),
            self@.last_info_matches() && self@.entries.len() == 0 ==> r == (LogMsgIdx(0), Term(0)),
    {
        (self.last_idx, self.last_term)
    }

    /// The index and term of the last committed message in the log.
    pub fn get_last_committed_info(&self) -> (r: (LogMsgIdx, Term))
        ensures
            r == (self@.last_committed_idx, self@.last_committed_term),
    {
        (self.last_committed_idx, self.last_committed_term)
    }

    /// The term of the last entry with index `idx`, if there is one.
    pub fn get_entry_term_by_idx(&self, idx: LogMsgIdx) -> (r: Option<Term>)
        ensures
            r == (if last_with_idx(self@.entries, idx) >= 0 {
                Some(self@.entries[last_with_idx(self@.entries, idx)].term)
            } else {
                None::<Term>
            }),
    {
        let mut i = self.entries.len();
        assert(entry_views(self.entries@).take(i as int) =~= entry_views(self.entries@));
        while i > 0
            invariant
                i <= self.entries@.len(),
                last_with_idx(entry_views(self.entries@), idx) == last_with_idx(
                    entry_views(self.entries@).take(i as int),
                    idx,
                ),
            decreases i,
        {
            let ghost v = entry_views(self.entries@);
            assert(v.take(i as int).drop_last() =~= v.take(i - 1));
            if self.entries[i - 1].idx == idx {
                return Some(self.entries[i - 1].term);
            }
            i = i - 1;
        }
        None
    }

    /// Replaces the entries that follow the entry of the previous index and term of
    /// `entries_to_append` with its entries, which become the last message of the log.
    ///
    /// The log must hold an entry with that previous index and term; where several do, the
    /// last one counts.
    pub fn force_append(&mut self, entries_to_append: EntriesToAppend)
        requires
            last_match(
                old(self)@.entries,
                entries_to_append.prev_idx_view(),
                entries_to_append.prev_term_view(),
            ) >= 0,
        ensures
            ({
                let k = last_match(
                    old(self)@.entries,
                    entries_to_append.prev_idx_view(),
                    entries_to_append.prev_term_view(),
                );
                let new_entries = entries_to_append.entries_view();
                &&& final(self)@.entries == old(self)@.entries.take(k + 1) + new_entries
                &&& final(self)@.last_idx == new_entries.last().idx
                &&& final(self)@.last_term == new_entries.last().term
                &&& final(self)@.last_committed_idx == old(self)@.last_committed_idx
                &&& final(self)@.last_committed_term == old(self)@.last_committed_term
                &&& final(self)@.last_info_matches()
            }),
    {
        truncate_log(self, &entries_to_append);
        let entries = entries_to_append.entries().as_slice();
        let ghost before = self.entries@;
        for i in 0..entries.len()
            invariant
                self.entries@ == before + entries@.take(i as int),
                self.last_committed_idx == old(self)@.last_committed_idx,
                self.last_committed_term == old(self)@.last_committed_term,
        {
            let e = entries[i].clone();
            self.entries.push(e);
            assert(entries@.take(i + 1) =~= entries@.take(i as int).push(entries@[i as int]));
            assert(self.entries@ =~= before + entries@.take(i + 1));
        }
        assert(entries@.take(entries@.len() as int) =~= entries@);
        assert(entry_views(before + entries@) =~= entry_views(before) + entry_views(entries@));
        let last = entries_to_append.entries().last();
        self.last_idx = last.idx;
        self.last_term = last.term;
    }
}

/// An AppendEntries message names the index and term of the entry that immediately precedes
/// those to append. The log keeps the entries up to the last entry with that index and term,
/// and drops those after it.
fn truncate_log(log: &mut RaftLog, entries_to_append: &EntriesToAppend)
    requires
        last_match(
            old(log)@.entries,
            entries_to_append.prev_idx_view(),
            entries_to_append.prev_term_view(),
        ) >= 0,
    ensures
        ({
            let k = last_match(
                old(log)@.entries,
                entries_to_append.prev_idx_view(),
                entries_to_append.prev_term_view(),
            );
            &&& final(log)@ == (RaftLogView { entries: old(log)@.entries.take(k + 1), ..old(log)@ })
        }),
{
    let prev_idx = entries_to_append.prev_idx();
    let prev_term = entries_to_append.prev_term();
    let ghost v = entry_views(log.entries@);

    let mut i = log.entries.len();
    assert(v.take(i as int) =~= v);
    while i > 0
        invariant
            i <= log.entries@.len(),
            *log == *old(log),
            prev_idx == entries_to_append.prev_idx_view(),
            prev_term == entries_to_append.prev_term_view(),
            v == entry_views(log.entries@),
            last_match(v, prev_idx, prev_term) == last_match(v.take(i as int), prev_idx, prev_term),
            last_match(v, prev_idx, prev_term) >= 0,
        decreases i,
    {
        assert(v.take(i as int).drop_last() =~= v.take(i - 1));
        assert(v[i - 1] == log.entries@[i - 1]@);
        if log.entries[i - 1].idx == prev_idx && log.entries[i - 1].term == prev_term {
            assert(last_match(v.take(i as int), prev_idx, prev_term) == i - 1);
            log.entries.truncate(i);
            assert(entry_views(log.entries@) =~= v.take(i as int));
            return;
        }
        i = i - 1;
    }
}

impl Default for RaftLog {
    fn default() -> (log: Self)
        ensures
            log@.entries == Seq::<LogEntryView>::empty(),
            log@.last_idx == LogMsgIdx(0),
            log@.last_term == Term(0),
            log@.last_committed_idx == LogMsgIdx(0),
            log@.last_committed_term == Term(0),
            log@.last_info_matches(),
    {
        let log = RaftLog {
            entries: Vec::new(),
            last_idx: LogMsgIdx(0),
            last_term: Term(0),
            last_committed_idx: LogMsgIdx(0),
            last_committed_term: Term(0),
        };
        assert(log@.entries =~= Seq::<LogEntryView>::empty());
        log
    }
}

} // verus!
