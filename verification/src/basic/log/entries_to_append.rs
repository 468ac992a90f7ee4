use crate::basic::common_types::{LogMsgIdx, Term};
use crate::basic::log::not_empty_slice::NotEmptySlice;
use crate::basic::log::{entry_views, LogEntry, LogEntryView};
use vstd::prelude::*;

verus! {

/// The indexes of the entries never decrease.
pub open spec fn sorted_by_idx(s: Seq<LogEntryView>) -> bool {
    forall|i: int, j: int| 0 <= i <= j < s.len() ==> s[i].idx.0 <= s[j].idx.0
}

/// Entries to append to a log: never empty, sorted by index in ascending order, with the index
/// and term of the entry that precedes them.
pub struct EntriesToAppend<'a> {
    entries: NotEmptySlice<'a, LogEntry>,
    prev_term: Term,
    prev_idx: LogMsgIdx,
}

impl<'a> EntriesToAppend<'a> {
    #[verifier::type_invariant]
    spec fn inv(self) -> bool {
        sorted_by_idx(entry_views(self.entries@))
    }

    /// What the entries hold.
    pub closed spec fn entries_view(self) -> Seq<LogEntryView> {
        entry_views(self.entries@)
    }

    pub closed spec fn prev_term_view(self) -> Term {
        self.prev_term
    }

    pub closed spec fn prev_idx_view(self) -> LogMsgIdx {
        self.prev_idx
    }

    /// The entries with the index and term of the entry that precedes them, or an error if
    /// their indexes are out of order.
    pub fn new(entries: NotEmptySlice<'a, LogEntry>, prev_term: Term, prev_idx: LogMsgIdx) -> (r:
        Result<Self, String>)
        ensures
            r is Ok <==> sorted_by_idx(entry_views(entries@)),
            r matches Ok(e) ==> e.entries_view() == entry_views(entries@) && e.prev_term_view()
                == prev_term && e.prev_idx_view() == prev_idx,
            r matches Err(msg) ==> msg@ == "Log entries are out-of-order!"@,
    {
        return match Self::check_sorted(&entries) {
            false => Err("Log entries are out-of-order!".to_owned()),  // must NEVER happen
            true => Ok(Self { entries, prev_term, prev_idx }),
        };
    }

    /// Whether the indexes of the entries are in ascending order.
    fn check_sorted(entries: &NotEmptySlice<'a, LogEntry>) -> (b: bool)
        ensures
            b == sorted_by_idx(entry_views(entries@)),
    {
        let mut last_seen_idx = LogMsgIdx(0);
        let s = entries.as_slice();
        let ghost v = entry_views(s@);

        for i in 0..s.len()
            invariant
                v == entry_views(s@),
                s@ == entries@,
                forall|a: int, b: int| 0 <= a <= b < i ==> #[trigger] v[a].idx.0 <= #[trigger] v[b].idx.0,
                i > 0 ==> last_seen_idx == v[i - 1].idx,
                i == 0 ==> last_seen_idx.0 == 0,
        {
            let idx = s[i].idx();
            if last_seen_idx.0 > idx.0 {
                assert(!sorted_by_idx(v)) by {
                    assert(v[i - 1].idx.0 > v[i as int].idx.0);
                }
                return false;
            }
            last_seen_idx = idx;
        }
        true
    }

    pub fn prev_term(&self) -> (t: Term)
        ensures
            t == self.prev_term_view(),
    {
        self.prev_term
    }

    pub fn prev_idx(&self) -> (i: LogMsgIdx)
        ensures
            i == self.prev_idx_view(),
    {
        self.prev_idx
    }

    pub fn entries(&'a self) -> (e: &'a NotEmptySlice<'a, LogEntry>)
        ensures
            entry_views(e@) == self.entries_view(),
            sorted_by_idx(self.entries_view()),
    {
        proof {
            use_type_invariant(self);
        }
        &self.entries
    }
}

} // verus!
