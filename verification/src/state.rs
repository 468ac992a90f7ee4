pub mod role_state;

pub use role_state::{
    CandidateState, FollowerState, LeaderState, NodeAddress, NodeRoleState, NodeState, OtherNodes,
};

use vstd::prelude::*;

verus! {

/// A Raft term number.
#[derive(PartialEq, Eq, Structural, PartialOrd, Ord, Copy, Clone, Debug)]
pub struct RaftTerm(pub u64);

impl RaftTerm {
    /// The term `rhs` terms after this one.
    pub fn add(self, rhs: u64) -> (r: RaftTerm)
        requires
            self.0 + rhs <= u64::MAX,
        ensures
            r.0 == self.0 + rhs,
    {
        RaftTerm(rhs + self.0)
    }
}

/// The network address of a node: an IPv4 address as its 32 bits, or an IPv6 address as its
/// 128 bits, most significant octet first.
#[derive(PartialEq, Eq, Structural, Copy, Clone, Hash, Debug)]
pub enum IpAddr {
    V4(u32),
    V6(u128),
}

/// Identifies a node of a cluster.
#[derive(PartialEq, Eq, Structural, Copy, Clone, Hash, Debug)]
pub struct NodeId {
    pub address: IpAddr,
    pub cluster_id: u64,
}

/// A set of node ids. Its members are kept in the order in which they were first inserted,
/// each once.
pub struct NodeSet {
    nodes: Vec<NodeId>,
}

impl NodeSet {
    #[verifier::type_invariant]
    spec fn inv(self) -> bool {
        self.nodes@.no_duplicates()
    }

    /// The members, in the order in which they were inserted.
    pub closed spec fn members(self) -> Seq<NodeId> {
        self.nodes@
    }

    /// The empty set.
    pub fn new() -> (s: NodeSet)
        ensures
            s@ == Set::<NodeId>::empty(),
            s.members() == Seq::<NodeId>::empty(),
    {
        let s = NodeSet { nodes: Vec::new() };
        assert(s@ =~= Set::<NodeId>::empty());
        s
    }

    /// The number of members.
    pub fn len(&self) -> (n: usize)
        ensures
            n == self@.len(),
            n == self.members().len(),
    {
        proof {
            use_type_invariant(self);
            self.nodes@.unique_seq_to_set();
        }
        self.nodes.len()
    }

    /// Whether `id` is a member.
    pub fn contains(&self, id: &NodeId) -> (b: bool)
        ensures
            b == self@.contains(*id),
    {
        let mut i: usize = 0;
        while i < self.nodes.len()
            invariant
                i <= self.nodes@.len(),
                forall|j: int| 0 <= j < i ==> self.nodes@[j] != *id,
            decreases self.nodes@.len() - i,
        {
            if self.nodes[i] == *id {
                assert(self.nodes@.contains(*id));
                return true;
            }
            i = i + 1;
        }
        false
    }

    /// Adds `id`; returns whether it was not a member before.
    pub fn insert(&mut self, id: NodeId) -> (added: bool)
        ensures
            final(self)@ == old(self)@.insert(id),
            added == !old(self)@.contains(id),
            added ==> final(self).members() == old(self).members().push(id),
            !added ==> final(self).members() == old(self).members(),
    {
        if self.contains(&id) {
            false
        } else {
            proof {
                use_type_invariant(&*self);
                self.nodes@.lemma_push_to_set_commute(id);
            }
            let mut nodes = Vec::new();
            std::mem::swap(&mut nodes, &mut self.nodes);
            nodes.push(id);
            self.nodes = nodes;
            true
        }
    }

    /// The set of the nodes in `nodes`.
    pub fn from_nodes(nodes: Vec<NodeId>) -> (s: NodeSet)
        ensures
            s@ == nodes@.to_set(),
    {
        let mut s = NodeSet::new();
        for i in 0..nodes.len()
            invariant
                s@ == nodes@.take(i as int).to_set(),
        {
            s.insert(nodes[i]);
            proof {
                assert(nodes@.take(i + 1) =~= nodes@.take(i as int).push(nodes@[i as int]));
                nodes@.take(i as int).lemma_push_to_set_commute(nodes@[i as int]);
            }
        }
        assert(nodes@.take(nodes@.len() as int) =~= nodes@);
        s
    }

    /// The members, in the order in which they were inserted.
    pub fn to_vec(&self) -> (v: Vec<NodeId>)
        ensures
            v@ == self.members(),
    {
        self.nodes.clone()
    }
}

impl Default for NodeSet {
    fn default() -> (s: Self)
        ensures
            s@ == Set::<NodeId>::empty(),
            s.members() == Seq::<NodeId>::empty(),
    {
        NodeSet::new()
    }
}

impl View for NodeSet {
    type V = Set<NodeId>;

    closed spec fn view(&self) -> Set<NodeId> {
        self.nodes@.to_set()
    }
}

/// No key occurs twice among the pairs.
pub open spec fn keys_unique(pairs: Seq<(NodeId, usize)>) -> bool {
    forall|i: int, j: int| 0 <= i < j < pairs.len() ==> pairs[i].0 != pairs[j].0
}

/// The position of key `k` among the pairs (meaningful where it occurs).
pub open spec fn key_position(pairs: Seq<(NodeId, usize)>, k: NodeId) -> int {
    choose|i: int| 0 <= i < pairs.len() && pairs[i].0 == k
}

/// The map that a sequence of pairs with unique keys describes.
pub open spec fn pairs_to_map(pairs: Seq<(NodeId, usize)>) -> Map<NodeId, usize> {
    Map::new(
        |k: NodeId| exists|i: int| 0 <= i < pairs.len() && pairs[i].0 == k,
        |k: NodeId| pairs[choose|i: int| 0 <= i < pairs.len() && pairs[i].0 == k].1,
    )
}

/// A map from node ids to log indexes. Its entries are kept in the order in which their keys
/// were first inserted.
pub struct NodeIdxMap {
    entries: Vec<(NodeId, usize)>,
}

impl NodeIdxMap {
    #[verifier::type_invariant]
    spec fn inv(self) -> bool {
        keys_unique(self.entries@)
    }

    /// The entries, in the order in which their keys were inserted.
    pub closed spec fn pairs(self) -> Seq<(NodeId, usize)> {
        self.entries@
    }

    /// The empty map.
    pub fn new() -> (m: NodeIdxMap)
        ensures
            m.pairs() == Seq::<(NodeId, usize)>::empty(),
            m@ == Map::<NodeId, usize>::empty(),
    {
        let m = NodeIdxMap { entries: Vec::new() };
        assert(m@ =~= Map::<NodeId, usize>::empty());
        m
    }

    /// The number of entries.
    pub fn len(&self) -> (n: usize)
        ensures
            n == self.pairs().len(),
    {
        self.entries.len()
    }

    /// The entries, in the order in which their keys were inserted.
    pub fn entries(&self) -> (e: &Vec<(NodeId, usize)>)
        ensures
            e@ == self.pairs(),
            keys_unique(e@),
    {
        proof {
            use_type_invariant(self);
        }
        &self.entries
    }

    /// The index recorded for `id`, if any.
    pub fn get(&self, id: &NodeId) -> (r: Option<usize>)
        ensures
            r == (if self@.contains_key(*id) { Some(self@[*id]) } else { None::<usize> }),
    {
        proof {
            use_type_invariant(self);
        }
        let mut i: usize = 0;
        while i < self.entries.len()
            invariant
                i <= self.entries@.len(),
                keys_unique(self.entries@),
                forall|j: int| 0 <= j < i ==> self.entries@[j].0 != *id,
            decreases self.entries@.len() - i,
        {
            let (k, v) = self.entries[i];
            if k == *id {
                proof {
                    assert(self@.contains_key(*id));
                    let c = choose|j: int| 0 <= j < self.entries@.len() && self.entries@[j].0 == *id;
                    assert(c == i);
                }
                return Some(v);
            }
            i = i + 1;
        }
        None
    }

    /// Records `idx` for `id`, replacing what was recorded for it. A new key comes last.
    pub fn insert(&mut self, id: NodeId, idx: usize)
        ensures
            final(self)@ == old(self)@.insert(id, idx),
            keys_unique(final(self).pairs()),
            old(self)@.contains_key(id) ==> final(self).pairs() == old(self).pairs().update(
                key_position(old(self).pairs(), id),
                (id, idx),
            ),
            !old(self)@.contains_key(id) ==> final(self).pairs() == old(self).pairs().push((id, idx)),
    {
        proof {
            use_type_invariant(&*self);
        }
        let mut entries = Vec::new();
        std::mem::swap(&mut entries, &mut self.entries);
        let ghost old_entries = entries@;
        let mut i: usize = 0;
        while i < entries.len()
            invariant
                entries@ == old_entries,
                old_entries == old(self).entries@,
                keys_unique(old_entries),
                i <= entries@.len(),
                forall|j: int| 0 <= j < i ==> entries@[j].0 != id,
            decreases entries@.len() - i,
        {
            if entries[i].0 == id {
                entries.set(i, (id, idx));
                proof {
                    let m = pairs_to_map(old_entries).insert(id, idx);
                    assert forall|k: NodeId| #[trigger] pairs_to_map(entries@).contains_key(k) == m.contains_key(k) by {
                        if k == id {
                            assert(entries@[i as int].0 == id);
                        }
                        if m.contains_key(k) && k != id {
                            let c = choose|j: int| 0 <= j < old_entries.len() && old_entries[j].0 == k;
                            assert(entries@[c].0 == k);
                        }
                        if pairs_to_map(entries@).contains_key(k) {
                            let c = choose|j: int| 0 <= j < entries@.len() && entries@[j].0 == k;
                            assert(old_entries[c].0 == k);
                        }
                    }
                    assert forall|k: NodeId| #[trigger] pairs_to_map(entries@).contains_key(k) implies pairs_to_map(entries@)[k] == m[k] by {
                        let c = choose|j: int| 0 <= j < entries@.len() && entries@[j].0 == k;
                        if k != id {
                            let c2 = choose|j: int| 0 <= j < old_entries.len() && old_entries[j].0 == k;
                            assert(c == c2);
                        } else {
                            assert(c == i);
                        }
                    }
                    assert(pairs_to_map(entries@) =~= m);
                }
                self.entries = entries;
                return;
            }
            i = i + 1;
        }
        entries.push((id, idx));
        proof {
            let m = pairs_to_map(old_entries).insert(id, idx);
            assert forall|k: NodeId| #[trigger] pairs_to_map(entries@).contains_key(k) == m.contains_key(k) by {
                if m.contains_key(k) && k != id {
                    let c = choose|j: int| 0 <= j < old_entries.len() && old_entries[j].0 == k;
                    assert(entries@[c].0 == k);
                }
                if k == id {
                    assert(entries@[old_entries.len() as int].0 == k);
                }
                if pairs_to_map(entries@).contains_key(k) && k != id {
                    let c = choose|j: int| 0 <= j < entries@.len() && entries@[j].0 == k;
                    assert(old_entries[c].0 == k);
                }
            }
            assert forall|k: NodeId| #[trigger] pairs_to_map(entries@).contains_key(k) implies pairs_to_map(entries@)[k] == m[k] by {
                let c = choose|j: int| 0 <= j < entries@.len() && entries@[j].0 == k;
                if k != id {
                    let c2 = choose|j: int| 0 <= j < old_entries.len() && old_entries[j].0 == k;
                    assert(entries@[c2].0 == k);
                    assert(c == c2);
                } else {
                    assert(c == old_entries.len());
                }
            }
            assert(pairs_to_map(entries@) =~= m);
        }
        self.entries = entries;
    }
}

impl Default for NodeIdxMap {
    fn default() -> (m: Self)
        ensures
            m.pairs() == Seq::<(NodeId, usize)>::empty(),
            m@ == Map::<NodeId, usize>::empty(),
    {
        NodeIdxMap::new()
    }
}

impl View for NodeIdxMap {
    type V = Map<NodeId, usize>;

    closed spec fn view(&self) -> Map<NodeId, usize> {
        pairs_to_map(self.entries@)
    }
}

/// One entry of the replicated log: a command and the term in which a leader received it.
#[derive(Copy, Clone)]
pub struct LogEntry<TCmd: Command> {
    pub cmd: TCmd,
    pub term: RaftTerm,
}

/// A command of the replicated state machine.
pub trait Command: Copy + Clone {

}

/// The types that a cluster is instantiated with: its commands and the state machine that
/// applies them.
pub trait Types: Sized {
    type TCmd: Command;

    type TStateMachine: StateMachine<Self::TCmd>;
}

/// A replicated log.
pub type RaftLog<TTypes> = Vec<LogEntry<<TTypes as Types>::TCmd>>;

/// The underlying state machine, implemented by the user of the library.
pub trait StateMachine<TCmd: Command> {
    /// `after` is what this state machine can become when it applies `commands`, in order. A
    /// state machine that does not say what applying commands does allows every outcome.
    closed spec fn applies(&self, commands: Seq<LogEntry<TCmd>>, after: &Self) -> bool {
        true
    }

    /// Applies `commands`, in order.
    fn apply_commands(&mut self, commands: &[LogEntry<TCmd>])
        ensures
            old(self).applies(commands@, final(self)),
    ;
}

/// The part of a node's state that survives a restart.
pub struct PersistentCommonState<TTypes: Types> {
    pub this_node_id: NodeId,
    pub current_term: RaftTerm,
    pub voted_for: Option<NodeId>,
    pub log: RaftLog<TTypes>,
    /// The term of the last entry that this node received from a leader or started with (the
    /// initial term while there is none). A leader does not update it when it appends its
    /// clients' commands.
    pub last_msg_term: RaftTerm,
    pub state_machine: TTypes::TStateMachine,
    pub cluster_nodes: NodeSet,
}

impl<TTypes: Types> PersistentCommonState<TTypes> {
    /// Hands the entries `start..end` of the log to the state machine, which becomes what
    /// applying them gives. Only the state machine changes.
    pub fn apply_commands(&mut self, start: usize, end: usize)
        requires
            start <= end <= old(self).log@.len(),
        ensures
            old(self).state_machine.applies(
                old(self).log@.subrange(start as int, end as int),
                &final(self).state_machine,
            ),
            *final(self) == (PersistentCommonState {
                state_machine: final(self).state_machine,
                ..*old(self)
            }),
    {
        self.state_machine.apply_commands(&self.log.as_slice()[start..end])
    }

    fn new(node_id: NodeId, others: NodeSet, state_machine: TTypes::TStateMachine) -> (s: Self)
        ensures
            s.this_node_id == node_id,
            s.current_term == RaftTerm(0),
            s.voted_for == None::<NodeId>,
            s.log@ == Seq::<LogEntry<TTypes::TCmd>>::empty(),
            s.last_msg_term == RaftTerm(0),
            s.state_machine == state_machine,
            s.cluster_nodes == others,
    {
        PersistentCommonState {
            this_node_id: node_id,
            current_term: RaftTerm(0),
            voted_for: None,
            log: Vec::new(),
            last_msg_term: RaftTerm(0),
            state_machine,
            cluster_nodes: others,
        }
    }
}

/// The part of a node's state that is rebuilt after a restart.
pub struct VolatileCommonState {
    /// How many entries of the log are known to be committed.
    pub committed_idx: usize,
    /// How many entries of the log have been handed to the state machine.
    pub last_applied: usize,
    /// The leader that this node heard of last, if any.
    pub known_leader: Option<NodeId>,
}

impl Default for VolatileCommonState {
    fn default() -> (s: Self)
        ensures
            s.committed_idx == 0,
            s.last_applied == 0,
            s.known_leader == None::<NodeId>,
    {
        VolatileCommonState { committed_idx: 0, last_applied: 0, known_leader: None }
    }
}

/// The state that every role has.
pub struct CommonState<TTypes: Types> {
    pub common_persistent: PersistentCommonState<TTypes>,
    pub common_volatile: VolatileCommonState,
}

impl<TTypes: Types> CommonState<TTypes> {
    fn new(persisted_state: PersistentCommonState<TTypes>) -> (s: Self)
        ensures
            s.common_persistent == persisted_state,
            s.common_volatile == (VolatileCommonState {
                committed_idx: 0,
                last_applied: 0,
                known_leader: None,
            }),
    {
        CommonState { common_persistent: persisted_state, common_volatile: VolatileCommonState::default() }
    }
}

/// The state of a node: its role and what the role keeps.
pub enum State<TTypes: Types> {
    Follower(Follower<TTypes>),
    Candidate(Candidate<TTypes>),
    Leader(Leader<TTypes>),
}

pub struct Follower<TTypes: Types> {
    pub common_state: CommonState<TTypes>,
    /// Whether to react to the next election timer.
    pub trigger_election_next_time: bool,
}

pub struct Candidate<TTypes: Types> {
    pub common_state: CommonState<TTypes>,
    /// The nodes that answered this candidate's vote requests.
    pub followers_voted: NodeSet,
}

pub struct Leader<TTypes: Types> {
    pub common_state: CommonState<TTypes>,
    /// For each follower, the index of the next log entry to send to it.
    pub next_idx: NodeIdxMap,
    /// For each follower, how many entries of its log are known to match the leader's.
    pub match_idx: NodeIdxMap,
}

/// What a node starts from.
pub struct InitParams<TTypes: Types> {
    /// The persisted state, read from disk.
    pub persisted_state: PersistentCommonState<TTypes>,
    /// This node's id.
    pub node_id: NodeId,
}

/// A Raft node.
pub struct RaftNode<TTypes: Types> {
    pub state: Option<State<TTypes>>,
}

impl<TTypes: Types> RaftNode<TTypes> {
    /// A node that starts as a follower with the persisted state of `params`.
    pub fn new(params: InitParams<TTypes>) -> (node: Self)
        ensures
            node.state == Some(State::Follower(Follower {
                common_state: CommonState {
                    common_persistent: params.persisted_state,
                    common_volatile: VolatileCommonState {
                        committed_idx: 0,
                        last_applied: 0,
                        known_leader: None,
                    },
                },
                trigger_election_next_time: true,
            })),
    {
        RaftNode { state: Some(State::new(params.node_id, params.persisted_state)) }
    }
}

impl<TTypes: Types> Leader<TTypes> {
    /// No follower is counted as holding more entries than the leader's log has.
    pub open spec fn match_idx_within_log(self) -> bool {
        forall|i: int|
            0 <= i < self.match_idx.pairs().len() ==> #[trigger] self.match_idx.pairs()[i].1
                <= self.common_state.common_persistent.log@.len()
    }
}

impl<TTypes: Types> State<TTypes> {
    /// The state that every role has.
    pub open spec fn common_view(self) -> CommonState<TTypes> {
        match self {
            State::Follower(s) => s.common_state,
            State::Candidate(s) => s.common_state,
            State::Leader(s) => s.common_state,
        }
    }

    /// The follower that this state turns into when it learns of a newer term: a leader or a
    /// candidate becomes a follower that reacts to the next election timer, keeping its common
    /// state; a follower stays as it is.
    pub open spec fn as_follower(self) -> Self {
        match self {
            State::Follower(_) => self,
            _ => State::Follower(Follower {
                common_state: self.common_view(),
                trigger_election_next_time: true,
            }),
        }
    }

    /// The same role with `c` as its common state.
    pub open spec fn with_common(self, c: CommonState<TTypes>) -> Self {
        match self {
            State::Follower(s) => State::Follower(Follower { common_state: c, ..s }),
            State::Candidate(s) => State::Candidate(Candidate { common_state: c, ..s }),
            State::Leader(s) => State::Leader(Leader { common_state: c, ..s }),
        }
    }

    /// The state after every committed command was applied, `sm` being the state machine
    /// afterwards.
    pub open spec fn with_commands_applied(self, sm: TTypes::TStateMachine) -> Self {
        let c = self.common_view();
        self.with_common(CommonState {
            common_persistent: PersistentCommonState { state_machine: sm, ..c.common_persistent },
            common_volatile: VolatileCommonState {
                last_applied: c.common_volatile.committed_idx,
                ..c.common_volatile
            },
        })
    }

    /// `sm` is what the state machine of this state can become when it applies the committed
    /// commands that were not applied yet, in order; it is the same state machine where there
    /// are none.
    pub open spec fn applies_committed(self, sm: &TTypes::TStateMachine) -> bool {
        let p = self.common_view().common_persistent;
        let v = self.common_view().common_volatile;
        if v.last_applied < v.committed_idx {
            p.state_machine.applies(
                p.log@.subrange(v.last_applied as int, v.committed_idx as int),
                sm,
            )
        } else {
            *sm == p.state_machine
        }
    }

    /// Applying the committed commands cannot go beyond the log.
    pub open spec fn can_apply(self) -> bool {
        let v = self.common_view().common_volatile;
        v.last_applied < v.committed_idx ==> v.committed_idx
            <= self.common_view().common_persistent.log@.len()
    }

    /// The state between two messages: every committed command has been applied, and a leader
    /// counts no follower as holding more entries than its own log has.
    pub open spec fn wf(self) -> bool {
        &&& self.common_view().common_volatile.last_applied
            == self.common_view().common_volatile.committed_idx
        &&& match self {
            State::Leader(l) => l.match_idx_within_log(),
            _ => true,
        }
    }

    fn new(node_id: NodeId, persisted_state: PersistentCommonState<TTypes>) -> (s: Self)
        ensures
            s == State::Follower(Follower {
                common_state: CommonState {
                    common_persistent: persisted_state,
                    common_volatile: VolatileCommonState {
                        committed_idx: 0,
                        last_applied: 0,
                        known_leader: None,
                    },
                },
                trigger_election_next_time: true,
            }),
    {
        State::Follower(Follower::new(persisted_state))
    }

    /// The state that every role has.
    pub fn common(&self) -> (c: &CommonState<TTypes>)
        ensures
            *c == self.common_view(),
    {
        match self {
            Self::Leader(ref state) => &state.common_state,
            Self::Follower(ref state) => &state.common_state,
            Self::Candidate(ref state) => &state.common_state,
        }
    }

    /// The state that every role has, to change it.
    pub fn common_mut(&mut self) -> (c: &mut CommonState<TTypes>)
        ensures
            *c == old(self).common_view(),
            *final(self) == old(self).with_common(*final(c)),
    {
        match self {
            Self::Leader(ref mut state) => &mut state.common_state,
            Self::Follower(ref mut state) => &mut state.common_state,
            Self::Candidate(ref mut state) => &mut state.common_state,
        }
    }

    /// A leader or a candidate becomes a follower that reacts to the next election timer,
    /// keeping its common state; a follower stays as it is.
    pub fn into_follower(self) -> (s: Self)
        ensures
            s == self.as_follower(),
    {
        match self {
            Self::Leader(leader_state) => Self::Follower(
                Follower { common_state: leader_state.common_state, trigger_election_next_time: true },
            ),
            Self::Candidate(candidate_state) => Self::Follower(
                Follower {
                    common_state: candidate_state.common_state,
                    trigger_election_next_time: true,
                },
            ),
            Self::Follower(_) => self,
        }
    }

    /// Hands the committed commands that were not applied yet to the state machine, and
    /// records that all committed commands are applied.
    pub fn apply_commands(&mut self)
        requires
            old(self).can_apply(),
        ensures
            *final(self) == old(self).with_commands_applied(
                final(self).common_view().common_persistent.state_machine,
            ),
            old(self).applies_committed(&final(self).common_view().common_persistent.state_machine),
    {
        let start = self.common().common_volatile.last_applied;
        let end = self.common().common_volatile.committed_idx;

        if start < end {
            self.common_mut().common_persistent.apply_commands(start, end);
        }
        self.common_mut().common_volatile.last_applied = end;
    }
}

impl<TTypes: Types> Follower<TTypes> {
    fn new(persisted_state: PersistentCommonState<TTypes>) -> (f: Self)
        ensures
            f == (Follower {
                common_state: CommonState {
                    common_persistent: persisted_state,
                    common_volatile: VolatileCommonState {
                        committed_idx: 0,
                        last_applied: 0,
                        known_leader: None,
                    },
                },
                trigger_election_next_time: true,
            }),
    {
        Follower { common_state: CommonState::new(persisted_state), trigger_election_next_time: true }
    }

    /// The candidate that this follower becomes: same common state, no votes yet.
    pub fn into_candidate(self) -> (c: Candidate<TTypes>)
        ensures
            c.common_state == self.common_state,
            c.followers_voted@ == Set::<NodeId>::empty(),
    {
        Candidate { common_state: self.common_state, followers_voted: NodeSet::new() }
    }
}

impl<TTypes: Types> Leader<TTypes> {
    /// The leader that a candidate becomes when it wins an election: the same common state,
    /// nothing recorded about its followers yet.
    pub fn from(candidate: Candidate<TTypes>) -> (leader: Self)
        ensures
            leader.common_state == candidate.common_state,
            leader.next_idx.pairs() == Seq::<(NodeId, usize)>::empty(),
            leader.match_idx.pairs() == Seq::<(NodeId, usize)>::empty(),
    {
        Leader { common_state: candidate.common_state, next_idx: NodeIdxMap::new(), match_idx: NodeIdxMap::new() }
    }
}

/// A leader that learns of a newer term becomes a follower with the same common state.
impl<TTypes: Types> From<Leader<TTypes>> for Follower<TTypes> {
    fn from(leader: Leader<TTypes>) -> (follower: Self) {
        Follower { common_state: leader.common_state, trigger_election_next_time: true }
    }
}

impl<TTypes: Types> vstd::std_specs::convert::FromSpecImpl<Leader<TTypes>> for Follower<TTypes> {
    open spec fn obeys_from_spec() -> bool {
        true
    }

    open spec fn from_spec(leader: Leader<TTypes>) -> Self {
        Follower { common_state: leader.common_state, trigger_election_next_time: true }
    }
}

/// A candidate that learns of a leader in its term or a newer one becomes a follower with the
/// same common state.
impl<TTypes: Types> From<Candidate<TTypes>> for Follower<TTypes> {
    fn from(candidate: Candidate<TTypes>) -> (follower: Self) {
        Follower { common_state: candidate.common_state, trigger_election_next_time: true }
    }
}

impl<TTypes: Types> vstd::std_specs::convert::FromSpecImpl<Candidate<TTypes>> for Follower<TTypes> {
    open spec fn obeys_from_spec() -> bool {
        true
    }

    open spec fn from_spec(candidate: Candidate<TTypes>) -> Self {
        Follower { common_state: candidate.common_state, trigger_election_next_time: true }
    }
}

} // verus!
