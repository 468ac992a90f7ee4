use crate::basic::common_types::Term;
use crate::basic::log::RaftLog;
use crate::state::IpAddr;
use vstd::prelude::*;

verus! {

/// The role of a node, with what it keeps.
pub enum NodeState {
    LeaderState(LeaderState),
    CandidateState(CandidateState),
    FollowerState(FollowerState),
}

pub struct LeaderState {
    pub common: Common,
}

pub struct CandidateState {
    /// How many votes this node got in the current term.
    pub votes_count: usize,
    pub leader_address: Option<NodeAddress>,
    /// Whether to ignore the next election timeout trigger: a follower that got a message from
    /// the leader sets it, and does not start an election at the next trigger.
    pub ignore_next_election_timeout_trigger: bool,
    pub common: Common,
}

pub struct FollowerState {
    /// The node that this node voted for.
    pub election_favorite_this_term: Option<NodeAddress>,
    pub leader_address: Option<NodeAddress>,
    /// Whether to ignore the next election timeout trigger: a follower that got a message from
    /// the leader sets it, and does not start an election at the next trigger.
    pub ignore_next_election_timeout_trigger: bool,
    pub common: Common,
}

/// What every role keeps.
pub struct Common {
    pub term: Term,
    pub log: RaftLog,
    pub other_nodes: OtherNodes,
    pub this_node_address: NodeAddress,
}

/// The other nodes of the cluster.
pub struct OtherNodes {
    addresses: Vec<NodeAddress>,
}

/// The address of a node.
#[derive(Eq, PartialEq, Structural, Copy, Clone)]
pub struct NodeAddress {
    ip_address: IpAddr,
}

impl NodeAddress {
    /// The node at `ip_address`.
    pub fn new(ip_address: IpAddr) -> (a: NodeAddress)
        ensures
            a.ip_address_view() == ip_address,
    {
        NodeAddress { ip_address }
    }

    pub closed spec fn ip_address_view(self) -> IpAddr {
        self.ip_address
    }

    pub fn ip_address(&self) -> (a: IpAddr)
        ensures
            a == self.ip_address_view(),
    {
        self.ip_address
    }
}

/// One of two values.
pub enum Either<TLeft: Sized, TRight: Sized> {
    Left(TLeft),
    Right(TRight),
}

impl OtherNodes {
    /// The nodes at `addresses`.
    pub fn new(addresses: Vec<NodeAddress>) -> (nodes: OtherNodes)
        ensures
            nodes.addresses_view() == addresses@,
    {
        OtherNodes { addresses }
    }

    /// The addresses of the nodes.
    pub closed spec fn addresses_view(self) -> Seq<NodeAddress> {
        self.addresses@
    }

    /// The number of other nodes in the cluster; the cluster has one node more.
    pub fn count(&self) -> (n: usize)
        ensures
            n == self.addresses_view().len(),
    {
        return self.addresses.len();
    }
}

/// `c` is the common state of a node that starts: term zero, an empty log, nothing committed.
pub open spec fn initial_common(c: Common, other_nodes: OtherNodes, this_node_address: NodeAddress) -> bool {
    &&& c.term == Term(0)
    &&& c.log@.entries.len() == 0
    &&& c.log@.last_idx.0 == 0
    &&& c.log@.last_term == Term(0)
    &&& c.log@.last_committed_idx.0 == 0
    &&& c.log@.last_committed_term == Term(0)
    &&& c.other_nodes == other_nodes
    &&& c.this_node_address == this_node_address
}

impl FollowerState {
    fn init(other_nodes: OtherNodes, this_node_address: NodeAddress) -> (f: Self)
        ensures
            f.election_favorite_this_term is None,
            f.leader_address is None,
            !f.ignore_next_election_timeout_trigger,
            initial_common(f.common, other_nodes, this_node_address),
    {
        FollowerState {
            election_favorite_this_term: None,
            leader_address: None,
            ignore_next_election_timeout_trigger: false,
            common: Common::init(other_nodes, this_node_address),
        }
    }
}

impl Common {
    fn init(other_nodes: OtherNodes, this_node_address: NodeAddress) -> (c: Self)
        ensures
            initial_common(c, other_nodes, this_node_address),
    {
        Common { term: Term(0), other_nodes, this_node_address, log: RaftLog::default() }
    }
}

impl NodeState {
    /// Every node starts as a follower, according to the paper.
    pub fn init(other_nodes: OtherNodes, this_node_address: NodeAddress) -> (s: Self)
        ensures
            s matches NodeState::FollowerState(f) && f.election_favorite_this_term is None
                && f.leader_address is None && !f.ignore_next_election_timeout_trigger
                && initial_common(f.common, other_nodes, this_node_address),
    {
        Self::FollowerState(FollowerState::init(other_nodes, this_node_address))
    }
}

/// A leader steps down to a follower that has voted for nobody and knows no leader.
impl From<LeaderState> for FollowerState {
    fn from(leader: LeaderState) -> (f: Self) {
        FollowerState {
            election_favorite_this_term: None,
            leader_address: None,
            ignore_next_election_timeout_trigger: false,
            common: leader.common,
        }
    }
}

impl vstd::std_specs::convert::FromSpecImpl<LeaderState> for FollowerState {
    open spec fn obeys_from_spec() -> bool {
        true
    }

    open spec fn from_spec(leader: LeaderState) -> Self {
        FollowerState {
            election_favorite_this_term: None,
            leader_address: None,
            ignore_next_election_timeout_trigger: false,
            common: leader.common,
        }
    }
}

/// A candidate steps down to a follower that has voted for nobody and knows no leader.
impl From<CandidateState> for FollowerState {
    fn from(candidate: CandidateState) -> (f: Self) {
        FollowerState {
            election_favorite_this_term: None,
            leader_address: None,
            ignore_next_election_timeout_trigger: false,
            common: candidate.common,
        }
    }
}

impl vstd::std_specs::convert::FromSpecImpl<CandidateState> for FollowerState {
    open spec fn obeys_from_spec() -> bool {
        true
    }

    open spec fn from_spec(candidate: CandidateState) -> Self {
        FollowerState {
            election_favorite_this_term: None,
            leader_address: None,
            ignore_next_election_timeout_trigger: false,
            common: candidate.common,
        }
    }
}

} // verus!
