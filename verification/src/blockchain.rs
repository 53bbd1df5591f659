//! The records that a transaction carries, the block and the chain.

pub mod nota;
pub mod disciplina;
pub mod periodo_letivo;
pub mod estudante;
pub mod transacao;
pub mod bloco;
pub mod blockchain;

pub use nota::Nota;
pub use disciplina::Disciplina;
pub use periodo_letivo::PeriodoLetivo;
pub use estudante::Estudante;
pub use transacao::Transacao;
pub use bloco::Bloco;
pub use blockchain::Blockchain;
