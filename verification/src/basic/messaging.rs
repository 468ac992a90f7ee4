pub mod between_nodes;
pub mod node_internal;
