//! Error kinds, the authority registry and the encodings that blocks are
//! hashed and signed over.

pub mod erros;
pub mod json;
pub mod tempo;
pub mod texto;
pub mod config;
