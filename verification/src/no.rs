//! The decisions of a node's loop. The loop itself waits on the network and
//! on the console; this module says, for each thing that arrives, what
//! becomes of the ledger and what the loop is to do next.

use vstd::prelude::*;
use vstd::string::*;
use crate::blockchain::bloco::{assinado_por, integro, selado, Bloco};
use crate::blockchain::blockchain::{
    aceitacao, bloco_a_selar, cadeia_valida, com_bloco_selado, Blockchain, BlockchainV,
};
use crate::criptografia::chaves::ChavePrivada;
use crate::rede::p2p::{P2PEvent, P2PEventV};
use crate::utils::config::Config;
use crate::utils::erros::BlocoErro;
use crate::utils::tempo::Instante;

verus! {

/// Whether a node takes part at once or first asks its peers for the chain.
#[derive(Clone, Copy, Debug, PartialEq, Eq, Structural)]
pub enum EstadoSincronia {
    /// The node has no block beyond the genesis block.
    Fresca,
    /// The node has a chain of its own.
    Sincronizada,
}

/// What the loop does after the ledger has dealt with an event.
#[derive(Clone, Debug, PartialEq, Eq)]
pub enum Acao {
    /// Nothing.
    Nada,
    /// Write the ledger to disk: the chain has changed.
    Persistir,
    /// Log the error: the block was refused and is not kept.
    Descartar(BlocoErro),
    /// Answer the peer with this chain.
    EnviarCadeia { peer: String, cadeia: Vec<Bloco> },
}

/// A command of the console.
#[derive(Clone, Copy, Debug, PartialEq, Eq, Structural)]
pub enum Comando {
    /// Enter a transaction.
    Transacao,
    /// Seal a block.
    CriarBloco,
    /// Show the chain.
    ExibirBlockchain,
    /// Any other line.
    Desconhecido,
}

/// What the command to seal a block came to.
#[derive(Clone, Debug, PartialEq, Eq)]
pub enum Selagem {
    /// The node is no authority and seals nothing.
    NaoAutoridade,
    /// The block was sealed and stands in the chain: write the ledger to
    /// disk, then publish the block.
    Selado(Bloco),
    /// The key signed nothing; the ledger is as it was.
    Falhou(BlocoErro),
}

/// The file in which a node keeps its ledger.
pub fn arquivo_da_blockchain() -> (res: &'static str)
    ensures
        res@ == "blockchain.json"@,
{
    "blockchain.json"
}

/// The file from which a node reads the registry of authorities.
pub fn arquivo_de_configuracao() -> (res: &'static str)
    ensures
        res@ == "config.toml"@,
{
    "config.toml"
}

/// The identifier under which a node acts: 1 for the authority, 0 for a
/// follower.
pub fn id_do_papel(autoridade: bool) -> (id: u32)
    ensures
        id == if autoridade {
            1u32
        } else {
            0u32
        },
{
    if autoridade {
        1
    } else {
        0
    }
}

/// Whether the command line makes the node an authority: one of the
/// arguments is `--autoridade`.
pub fn eh_autoridade(argumentos: &Vec<String>) -> (res: bool)
    ensures
        res == exists|i: int| 0 <= i < argumentos@.len() && #[trigger] argumentos@[i]@ == "--autoridade"@,
{
    let marca = "--autoridade".to_owned();
    let mut i: usize = 0;
    while i < argumentos.len()
        invariant
            i <= argumentos.len(),
            marca@ == "--autoridade"@,
            forall|j: int| 0 <= j < i ==> #[trigger] argumentos@[j]@ != "--autoridade"@,
        decreases argumentos.len() - i,
    {
        if argumentos[i] == marca {
            return true;
        }
        i += 1;
    }
    false
}

/// The command that a line of the console names, the line taken without
/// the white space around it.
pub open spec fn comando_de(linha: Seq<char>) -> Comando {
    if linha == "transacao"@ {
        Comando::Transacao
    } else if linha == "criar_bloco"@ {
        Comando::CriarBloco
    } else if linha == "exibir_blockchain"@ {
        Comando::ExibirBlockchain
    } else {
        Comando::Desconhecido
    }
}

/// Reads a command of the console.
pub fn interpretar_comando(linha: &str) -> (res: Comando)
    ensures
        res == comando_de(linha@),
{
    let linha = linha.to_owned();
    if linha == "transacao".to_owned() {
        Comando::Transacao
    } else if linha == "criar_bloco".to_owned() {
        Comando::CriarBloco
    } else if linha == "exibir_blockchain".to_owned() {
        Comando::ExibirBlockchain
    } else {
        Comando::Desconhecido
    }
}

/// The state in which a node starts, given the ledger that it loaded or
/// made.
pub fn estado_inicial(blockchain: &Blockchain) -> (res: EstadoSincronia)
    ensures
        res == if blockchain@.cadeia.len() <= 1 {
            EstadoSincronia::Fresca
        } else {
            EstadoSincronia::Sincronizada
        },
{
    if blockchain.precisa_sincronizar() {
        EstadoSincronia::Fresca
    } else {
        EstadoSincronia::Sincronizada
    }
}

/// Whether a node in this state asks its peers for the chain at start.
pub fn deve_solicitar(estado: EstadoSincronia) -> (res: bool)
    ensures
        res == (estado == EstadoSincronia::Fresca),
{
    match estado {
        EstadoSincronia::Fresca => true,
        EstadoSincronia::Sincronizada => false,
    }
}

/// Deals with an event of the network.
///
/// A block is offered to the chain: taken, the ledger is to be written to
/// disk; refused, it is dropped with its error. A transaction joins the
/// queue. A request for the chain is answered with a copy of it. A chain
/// that a peer sent replaces the node's own where it is valid and strictly
/// longer, and then the ledger is to be written to disk. In every case a
/// chain that was valid under the registry is valid after.
pub fn tratar_evento(blockchain: &mut Blockchain, config: &Config, evento: P2PEvent) -> (acao: Acao)
    requires
        old(blockchain).bem_formada(),
    ensures
        final(blockchain).bem_formada(),
        cadeia_valida(old(blockchain)@.cadeia, config@) ==> cadeia_valida(
            final(blockchain)@.cadeia,
            config@,
        ),
        final(blockchain)@.cadeia.len() >= old(blockchain)@.cadeia.len(),
        match evento@ {
            P2PEventV::NovoBloco(b) => match aceitacao(old(blockchain)@.cadeia, b, config@) {
                Ok(()) => acao == Acao::Persistir && final(blockchain)@ == (BlockchainV {
                    cadeia: old(blockchain)@.cadeia.push(b),
                    ..old(blockchain)@
                }),
                Err(e) => acao == Acao::Descartar(e) && final(blockchain)@ == old(blockchain)@,
            },
            P2PEventV::NovaTransacao(t) => acao == Acao::Nada && final(blockchain)@ == (BlockchainV {
                transacoes_pendentes: old(blockchain)@.transacoes_pendentes.push(t),
                ..old(blockchain)@
            }),
            P2PEventV::BlockchainSolicitada { peer } => final(blockchain)@ == old(blockchain)@ && (
            acao matches Acao::EnviarCadeia { peer: para, cadeia } && para@ == peer
                && cadeia.deep_view() == old(blockchain)@.cadeia),
            P2PEventV::BlockchainRecebida(c) => if c.len() > old(blockchain)@.cadeia.len()
                && cadeia_valida(c, config@) {
                acao == Acao::Persistir && final(blockchain)@ == (BlockchainV {
                    cadeia: c,
                    ..old(blockchain)@
                })
            } else {
                acao == Acao::Nada && final(blockchain)@ == old(blockchain)@
            },
        },
{
    match evento {
        P2PEvent::NovoBloco(bloco) => {
            match blockchain.adicionar_bloco_externo(bloco, config) {
                Ok(()) => Acao::Persistir,
                Err(e) => Acao::Descartar(e),
            }
        },
        P2PEvent::NovaTransacao(transacao) => {
            blockchain.adicionar_transacao(transacao);
            Acao::Nada
        },
        P2PEvent::BlockchainSolicitada { peer } => {
            let cadeia = blockchain.instantaneo();
            Acao::EnviarCadeia { peer, cadeia }
        },
        P2PEvent::BlockchainRecebida(cadeia) => {
            if blockchain.substituir_cadeia(cadeia, config) {
                Acao::Persistir
            } else {
                Acao::Nada
            }
        },
    }
}

/// Deals with the command to seal a block, at `timestamp`. Only a node
/// that holds an authority's key seals.
pub fn tratar_criar_bloco_em(
    blockchain: &mut Blockchain,
    chave_privada: Option<&ChavePrivada>,
    id_autoridade: u32,
    timestamp: Instante,
) -> (res: Selagem)
    requires
        old(blockchain).bem_formada(),
        old(blockchain)@.cadeia.len() <= u32::MAX,
    ensures
        final(blockchain).bem_formada(),
        match chave_privada {
            None => res == Selagem::NaoAutoridade && final(blockchain)@ == old(blockchain)@,
            Some(chave) => match selado(
                bloco_a_selar(old(blockchain)@, timestamp),
                chave@,
                id_autoridade,
            ) {
                Some(b) => res matches Selagem::Selado(bloco) && bloco@ == b && final(blockchain)@
                    == com_bloco_selado(old(blockchain)@, b) && integro(b) && assinado_por(
                    b,
                    chave@.publica(),
                ),
                None => res == Selagem::Falhou(BlocoErro::AssinaturaInvalida) && final(blockchain)@
                    == old(blockchain)@,
            },
        },
{
    match chave_privada {
        None => Selagem::NaoAutoridade,
        Some(chave) => match blockchain.criar_e_adicionar_bloco_em(chave, id_autoridade, timestamp) {
            Ok(bloco) => Selagem::Selado(bloco),
            Err(e) => Selagem::Falhou(e),
        },
    }
}

/// Deals with the command to seal a block, at the instant that the system
/// clock shows. With a key it fails only where the key signs nothing for
/// the block of the instant drawn.
pub fn tratar_criar_bloco(
    blockchain: &mut Blockchain,
    chave_privada: Option<&ChavePrivada>,
    id_autoridade: u32,
) -> (res: Selagem)
    requires
        old(blockchain).bem_formada(),
        old(blockchain)@.cadeia.len() <= u32::MAX,
    ensures
        final(blockchain).bem_formada(),
        chave_privada is None <==> res == Selagem::NaoAutoridade,
        res == Selagem::NaoAutoridade ==> final(blockchain)@ == old(blockchain)@,
        res matches Selagem::Selado(bloco) ==> {
            &&& chave_privada matches Some(chave)
            &&& selado(bloco_a_selar(old(blockchain)@, bloco@.timestamp), chave@, id_autoridade)
                == Some(bloco@)
            &&& final(blockchain)@ == com_bloco_selado(old(blockchain)@, bloco@)
            &&& bloco@.timestamp.lido_do_relogio()
            &&& integro(bloco@)
            &&& assinado_por(bloco@, chave@.publica())
        },
        res matches Selagem::Falhou(erro) ==> erro == BlocoErro::AssinaturaInvalida
            && final(blockchain)@ == old(blockchain)@,
        res matches Selagem::Falhou(_) ==> chave_privada matches Some(chave) && exists|t: Instante|
            #![trigger bloco_a_selar(old(blockchain)@, t)]
            t.lido_do_relogio() && selado(
                bloco_a_selar(old(blockchain)@, t),
                chave@,
                id_autoridade,
            ) is None,
{
    let timestamp = Instante::agora();
    let res = tratar_criar_bloco_em(blockchain, chave_privada, id_autoridade, timestamp);
    proof {
        if let Selagem::Falhou(_) = res {
            let chave = chave_privada->Some_0;
            assert(selado(bloco_a_selar(old(blockchain)@, timestamp), chave@, id_autoridade)
                is None);
        }
    }
    res
}

} // verus!
