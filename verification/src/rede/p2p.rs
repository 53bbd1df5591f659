use vstd::prelude::*;
use vstd::string::*;
use crate::blockchain::bloco::{Bloco, BlocoV};
use crate::blockchain::transacao::{Transacao, TransacaoV};

verus! {

/// The request that a node sends to a peer over the exchange protocol.
#[derive(Clone, Copy, Debug, PartialEq, Eq, Structural)]
pub enum BlockchainRequest {
    /// "Send me your chain."
    SolicitacaoBlockchain,
}

/// The answer to a `BlockchainRequest`.
#[derive(Clone, Debug, PartialEq, Eq)]
pub enum BlockchainResponse {
    /// The peer's chain, genesis block first.
    Blockchain(Vec<Bloco>),
}

/// What the network hands to the node.
#[derive(Clone, Debug, PartialEq, Eq)]
pub enum P2PEvent {
    /// A peer published a block.
    NovoBloco(Bloco),
    /// A peer published a transaction.
    NovaTransacao(Transacao),
    /// The peer of this identifier asks for the node's chain.
    BlockchainSolicitada { peer: String },
    /// A peer answered with its chain.
    BlockchainRecebida(Vec<Bloco>),
}

/// What an event holds.
pub enum P2PEventV {
    NovoBloco(BlocoV),
    NovaTransacao(TransacaoV),
    BlockchainSolicitada { peer: Seq<char> },
    BlockchainRecebida(Seq<BlocoV>),
}

impl DeepView for P2PEvent {
    type V = P2PEventV;

    open spec fn deep_view(&self) -> P2PEventV {
        match self {
            P2PEvent::NovoBloco(b) => P2PEventV::NovoBloco(b@),
            P2PEvent::NovaTransacao(t) => P2PEventV::NovaTransacao(t@),
            P2PEvent::BlockchainSolicitada { peer } => P2PEventV::BlockchainSolicitada {
                peer: peer@,
            },
            P2PEvent::BlockchainRecebida(c) => P2PEventV::BlockchainRecebida(c.deep_view()),
        }
    }
}

impl View for P2PEvent {
    type V = P2PEventV;

    open spec fn view(&self) -> P2PEventV {
        self.deep_view()
    }
}

/// The topic on which blocks and transactions are published.
pub fn topico() -> (res: &'static str)
    ensures
        res@ == "blockchain"@,
{
    "blockchain"
}

/// The name of the protocol by which chains are asked for and sent.
pub fn protocolo() -> (res: &'static str)
    ensures
        res@ == "/blockchain-exchange/1.0.0"@,
{
    "/blockchain-exchange/1.0.0"
}

/// The TCP port on which a node listens: 4001 for an authority, 4002 for a
/// follower.
pub open spec fn porta_do_papel(autoridade: bool) -> u16 {
    if autoridade {
        4001
    } else {
        4002
    }
}

/// The TCP port on which a node listens.
pub fn porta_de_escuta(autoridade: bool) -> (porta: u16)
    ensures
        porta == porta_do_papel(autoridade),
{
    if autoridade {
        4001
    } else {
        4002
    }
}

/// The TCP port that a node dials at start: the one on which a node of the
/// other role listens.
pub fn porta_do_par(autoridade: bool) -> (porta: u16)
    ensures
        porta == porta_do_papel(!autoridade),
        porta != porta_do_papel(autoridade),
{
    porta_de_escuta(!autoridade)
}

/// The address on which a node listens, on every interface.
pub fn endereco_de_escuta(autoridade: bool) -> (res: &'static str)
    ensures
        res@ == if autoridade {
            "/ip4/0.0.0.0/tcp/4001"@
        } else {
            "/ip4/0.0.0.0/tcp/4002"@
        },
{
    if autoridade {
        "/ip4/0.0.0.0/tcp/4001"
    } else {
        "/ip4/0.0.0.0/tcp/4002"
    }
}

/// The address that a node dials at start: the other role's port on this
/// host.
pub fn endereco_do_par(autoridade: bool) -> (res: &'static str)
    ensures
        res@ == if autoridade {
            "/ip4/127.0.0.1/tcp/4002"@
        } else {
            "/ip4/127.0.0.1/tcp/4001"@
        },
{
    if autoridade {
        "/ip4/127.0.0.1/tcp/4002"
    } else {
        "/ip4/127.0.0.1/tcp/4001"
    }
}

/// What a published message is taken for, given what it decodes to as a
/// block and as a transaction: a block where it is one, else a transaction
/// where it is one, else nothing.
pub open spec fn mensagem_classificada(bloco: Option<BlocoV>, transacao: Option<TransacaoV>) -> Option<
    P2PEventV,
> {
    match bloco {
        Some(b) => Some(P2PEventV::NovoBloco(b)),
        None => match transacao {
            Some(t) => Some(P2PEventV::NovaTransacao(t)),
            None => None,
        },
    }
}

/// Turns a published message into an event. Blocks and transactions share
/// one topic and carry no tag: the message is tried as a block first, then
/// as a transaction; one that is neither is dropped.
pub fn classificar_mensagem(bloco: Option<Bloco>, transacao: Option<Transacao>) -> (res: Option<
    P2PEvent,
>)
    ensures
        res.deep_view() == mensagem_classificada(bloco.deep_view(), transacao.deep_view()),
{
    match bloco {
        Some(b) => Some(P2PEvent::NovoBloco(b)),
        None => match transacao {
            Some(t) => Some(P2PEvent::NovaTransacao(t)),
            None => None,
        },
    }
}

/// The event that a peer's request turns into.
pub fn evento_do_pedido(peer: String, pedido: BlockchainRequest) -> (res: P2PEvent)
    ensures
        res@ == (P2PEventV::BlockchainSolicitada { peer: peer@ }),
{
    match pedido {
        BlockchainRequest::SolicitacaoBlockchain => P2PEvent::BlockchainSolicitada { peer },
    }
}

/// The event that a peer's answer turns into.
pub fn evento_da_resposta(resposta: BlockchainResponse) -> (res: P2PEvent)
    ensures
        resposta matches BlockchainResponse::Blockchain(cadeia) && res@
            == P2PEventV::BlockchainRecebida(cadeia.deep_view()),
{
    match resposta {
        BlockchainResponse::Blockchain(cadeia) => P2PEvent::BlockchainRecebida(cadeia),
    }
}

/// The answer that carries `cadeia`.
pub fn resposta_com(cadeia: Vec<Bloco>) -> (res: BlockchainResponse)
    ensures
        res matches BlockchainResponse::Blockchain(c) && c.deep_view() == cadeia.deep_view(),
{
    BlockchainResponse::Blockchain(cadeia)
}

} // verus!
