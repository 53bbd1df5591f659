//! What a node says to its peers and what it makes of what they say. The
//! transport itself is not here: this module holds the names and addresses
//! that the peers agree on and the events that messages turn into.

pub mod p2p;

pub use p2p::P2PEvent;
