use crate::state::IpAddr;
use vstd::prelude::*;

verus! {

/// The role of a node, with what it keeps.
pub enum NodeRoleState {
    LeaderState(LeaderState),
    CandidateState(CandidateState),
    FollowerState(FollowerState),
}

pub struct LeaderState {
    pub node_state: NodeState,
}

pub struct FollowerState {
    pub node_state: NodeState,
}

pub struct CandidateState {
    pub node_state: NodeState,
}

/// What every role keeps.
pub struct NodeState {
    pub term: u64,
    pub last_committed_log_idx: u64,
    pub other_nodes: OtherNodes,
}

/// The other nodes of the cluster.
pub struct OtherNodes {
    addresses: Vec<NodeAddress>,
}

impl OtherNodes {
    /// The nodes at `addresses`.
    pub fn new(addresses: Vec<NodeAddress>) -> (nodes: OtherNodes)
        ensures
            nodes.addresses_view() == addresses@,
    {
        OtherNodes { addresses }
    }

    /// The addresses of the nodes.
    pub closed spec fn addresses_view(self) -> Seq<NodeAddress> {
        self.addresses@
    }

    /// The addresses of the nodes.
    pub fn addresses(&self) -> (a: &Vec<NodeAddress>)
        ensures
            a@ == self.addresses_view(),
    {
        &self.addresses
    }
}

/// The address of a node: its IP address, and a number that tells apart the nodes on one host
/// (0 by default).
#[derive(Copy, Clone, PartialEq, Eq, Structural)]
pub struct NodeAddress {
    ip_address: IpAddr,
    idx: u8,
}

impl NodeAddress {
    /// The address of node `idx` at `ip_address`.
    pub fn new(ip_address: IpAddr, idx: u8) -> (a: NodeAddress)
        ensures
            a.ip_address_view() == ip_address,
            a.idx_view() == idx,
    {
        NodeAddress { ip_address, idx }
    }

    pub closed spec fn ip_address_view(self) -> IpAddr {
        self.ip_address
    }

    pub closed spec fn idx_view(self) -> u8 {
        self.idx
    }

    pub fn ip_address(&self) -> (a: IpAddr)
        ensures
            a == self.ip_address_view(),
    {
        self.ip_address
    }

    pub fn idx(&self) -> (i: u8)
        ensures
            i == self.idx_view(),
    {
        self.idx
    }
}

} // verus!
