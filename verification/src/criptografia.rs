//! Digests, signatures and their text forms. The arithmetic is that of the
//! `sha2`, `rsa` and `base64` crates; this module gives their results names
//! and holds keys as plain bytes.

pub mod resumo;
pub mod chaves;
