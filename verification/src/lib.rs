//! A node's ledger for a permissioned chain of academic records: blocks of
//! transactions sealed by authorities, with the rules by which a node accepts
//! blocks and chains from its peers.

pub mod utils;
pub mod criptografia;
pub mod blockchain;
pub mod rede;
pub mod no;
