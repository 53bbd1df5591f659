//! The ledger of a node: the chain of blocks and the queue of transactions
//! that wait for a block, with the rules by which the chain grows.

use std::collections::VecDeque;
use vstd::prelude::*;
use vstd::string::*;
use crate::blockchain::bloco::{
    assinado_por, hash_do_bloco, integro, lema_preparado_integro, preparado, selado, verificacao,
    Bloco, BlocoV,
};
use crate::blockchain::transacao::{Transacao, TransacaoV};
use crate::criptografia::chaves::{ChavePrivada, ChavePrivadaV, ChavePublicaV};
use crate::utils::config::Config;
use crate::utils::erros::BlocoErro;
use crate::utils::tempo::Instante;

verus! {

/// What a ledger holds.
pub struct BlockchainV {
    pub cadeia: Seq<BlocoV>,
    pub transacoes_pendentes: Seq<TransacaoV>,
}

/// The ledger: the chain, whose first block is the genesis block, and the
/// transactions that wait for a block, oldest first.
#[derive(Debug)]
pub struct Blockchain {
    pub cadeia: Vec<Bloco>,
    pub transacoes_pendentes: VecDeque<Transacao>,
}

impl DeepView for Blockchain {
    type V = BlockchainV;

    open spec fn deep_view(&self) -> BlockchainV {
        BlockchainV {
            cadeia: self.cadeia.deep_view(),
            transacoes_pendentes: self.transacoes_pendentes.deep_view(),
        }
    }
}

impl View for Blockchain {
    type V = BlockchainV;

    open spec fn view(&self) -> BlockchainV {
        self.deep_view()
    }
}

/// The genesis block before its hash is taken: index 0, the previous hash
/// `"0"`, no transactions, the Unix epoch, authority 0 and no signature.
pub open spec fn genese_sem_hash() -> BlocoV {
    BlocoV {
        indice: 0,
        hash_anterior: seq!['0'],
        hash_atual: Seq::empty(),
        timestamp: Instante::spec_epoca(),
        transacoes: Seq::empty(),
        id_autoridade: 0,
        assinatura_autoridade: Seq::empty(),
    }
}

/// The genesis block, the same on every node.
pub open spec fn genese() -> BlocoV {
    BlocoV { hash_atual: hash_do_bloco(genese_sem_hash()), ..genese_sem_hash() }
}

/// Whether block `i` of the chain links to the block before it, has the
/// hash that it was sealed with, and is signed by its authority.
pub open spec fn elo_valido(cadeia: Seq<BlocoV>, i: int, registro: Map<u32, ChavePublicaV>) -> bool {
    &&& cadeia[i].hash_anterior == cadeia[i - 1].hash_atual
    &&& integro(cadeia[i])
    &&& verificacao(cadeia[i], registro) is Ok
}

/// Whether every block of the chain after the first is a valid link. The
/// first block is taken as it is.
pub open spec fn cadeia_valida(cadeia: Seq<BlocoV>, registro: Map<u32, ChavePublicaV>) -> bool {
    forall|i: int| 1 <= i < cadeia.len() ==> #[trigger] elo_valido(cadeia, i, registro)
}

/// Whether a block comes after the chain's last block: it names that
/// block's hash as its previous hash, and its index is the chain's length
/// and past that block's index.
pub open spec fn encadeia(cadeia: Seq<BlocoV>, b: BlocoV) -> bool {
    &&& b.hash_anterior == cadeia.last().hash_atual
    &&& b.indice == cadeia.len()
    &&& b.indice > cadeia.last().indice
}

/// What offering a block from outside to a chain gives: the block must come
/// after the chain's last block, else `HashAnteriorNaoCorresponde`; it must
/// have the hash that it was sealed with, else `AssinaturaInvalida`; and its
/// signature is checked.
pub open spec fn aceitacao(cadeia: Seq<BlocoV>, b: BlocoV, registro: Map<u32, ChavePublicaV>) -> Result<
    (),
    BlocoErro,
> {
    if !encadeia(cadeia, b) {
        Err(BlocoErro::HashAnteriorNaoCorresponde)
    } else if !integro(b) {
        Err(BlocoErro::AssinaturaInvalida)
    } else {
        verificacao(b, registro)
    }
}

/// The block that a ledger puts together at `timestamp`, before it is
/// sealed: its index the chain's length, its previous hash the hash of the
/// chain's last block, its transactions all those that wait.
pub open spec fn bloco_a_selar(l: BlockchainV, timestamp: Instante) -> BlocoV {
    BlocoV {
        indice: l.cadeia.len() as u32,
        hash_anterior: l.cadeia.last().hash_atual,
        hash_atual: Seq::empty(),
        timestamp,
        transacoes: l.transacoes_pendentes,
        id_autoridade: 0,
        assinatura_autoridade: Seq::empty(),
    }
}

/// The ledger after `b` was sealed: `b` stands after the chain and nothing
/// waits.
pub open spec fn com_bloco_selado(l: BlockchainV, b: BlocoV) -> BlockchainV {
    BlockchainV { cadeia: l.cadeia.push(b), transacoes_pendentes: Seq::empty() }
}

/// Whether `depois` is valid under every registry under which `antes` is
/// valid and which holds `chave` for the authority `id_autoridade`.
pub open spec fn valida_como_antes(
    antes: Seq<BlocoV>,
    depois: Seq<BlocoV>,
    id_autoridade: u32,
    chave: ChavePublicaV,
) -> bool {
    forall|registro: Map<u32, ChavePublicaV>|
        #![trigger cadeia_valida(antes, registro)]
        cadeia_valida(antes, registro) && registro.contains_key(id_autoridade)
            && registro[id_autoridade] == chave ==> cadeia_valida(depois, registro)
}

/// One step in the life of the ledger of the authority `id_autoridade`,
/// whose blocks the key `chave` checks: the chain stays as it is, as when a
/// transaction is submitted, or one block is put after it that links to the
/// last block, has the hash that it was sealed with and is signed by the
/// authority, as when a block is sealed.
pub open spec fn passo(
    antes: BlockchainV,
    depois: BlockchainV,
    id_autoridade: u32,
    chave: ChavePublicaV,
) -> bool {
    ||| depois.cadeia == antes.cadeia
    ||| {
        let b = depois.cadeia.last();
        &&& depois.cadeia == antes.cadeia.push(b)
        &&& b.hash_anterior == antes.cadeia.last().hash_atual
        &&& b.id_autoridade == id_autoridade
        &&& integro(b)
        &&& assinado_por(b, chave)
    }
}

/// Whether state `k + 1` of a history is made of state `k` by one step.
pub open spec fn passo_em(
    historia: Seq<BlockchainV>,
    k: int,
    id_autoridade: u32,
    chave: ChavePublicaV,
) -> bool {
    passo(historia[k], historia[k + 1], id_autoridade, chave)
}

/// Through any history of submitting and sealing, the chain is valid at
/// every point: where the first state has a valid chain with its genesis
/// block, as a new ledger has, and each state is made of the one before by
/// one step, every state has a valid chain, under any registry that holds
/// the authority's key.
pub proof fn lema_valida_em_toda_a_historia(
    historia: Seq<BlockchainV>,
    id_autoridade: u32,
    chave: ChavePublicaV,
    registro: Map<u32, ChavePublicaV>,
    n: int,
)
    requires
        0 <= n < historia.len(),
        historia[0].cadeia.len() >= 1,
        cadeia_valida(historia[0].cadeia, registro),
        forall|k: int| 0 <= k < historia.len() - 1 ==> #[trigger] passo_em(
            historia,
            k,
            id_autoridade,
            chave,
        ),
        registro.contains_key(id_autoridade),
        registro[id_autoridade] == chave,
    ensures
        historia[n].cadeia.len() >= 1,
        cadeia_valida(historia[n].cadeia, registro),
    decreases n,
{
    if n > 0 {
        lema_valida_em_toda_a_historia(historia, id_autoridade, chave, registro, n - 1);
        assert(passo_em(historia, n - 1, id_autoridade, chave));
        let antes = historia[n - 1].cadeia;
        let depois = historia[n].cadeia;
        if depois != antes {
            let b = depois.last();
            lema_elo_preserva(antes, b, registro);
        }
    }
}

/// A chain of one block is valid under every registry: the first block is
/// taken as it is.
pub proof fn lema_genese_valida(primeiro: BlocoV, registro: Map<u32, ChavePublicaV>)
    ensures
        cadeia_valida(seq![primeiro], registro),
{
}

/// A chain that is valid stays valid when a block is put after it that
/// links to its last block, has the hash that it was sealed with and is
/// signed by its authority.
pub proof fn lema_elo_preserva(cadeia: Seq<BlocoV>, b: BlocoV, registro: Map<u32, ChavePublicaV>)
    requires
        cadeia.len() > 0,
        cadeia_valida(cadeia, registro),
        b.hash_anterior == cadeia.last().hash_atual,
        integro(b),
        verificacao(b, registro) is Ok,
    ensures
        cadeia_valida(cadeia.push(b), registro),
{
    let nova = cadeia.push(b);
    assert forall|i: int| 1 <= i < nova.len() implies #[trigger] elo_valido(nova, i, registro) by {
        if i < cadeia.len() {
            assert(elo_valido(cadeia, i, registro));
        }
    }
}

/// A chain that is valid stays valid when a block is put after it that the
/// chain accepts.
pub proof fn lema_aceito_preserva(cadeia: Seq<BlocoV>, b: BlocoV, registro: Map<u32, ChavePublicaV>)
    requires
        cadeia.len() > 0,
        cadeia_valida(cadeia, registro),
        aceitacao(cadeia, b, registro) is Ok,
    ensures
        cadeia_valida(cadeia.push(b), registro),
{
    lema_elo_preserva(cadeia, b, registro);
}

/// A block that a ledger seals is accepted by every chain of the same
/// length that ends in the same hash, with its last index below its length,
/// under every registry that holds the key's public half for the authority:
/// what an authority seals, a follower at the same tip takes.
pub proof fn lema_selado_e_aceito(
    l: BlockchainV,
    timestamp: Instante,
    chave: ChavePrivadaV,
    id_autoridade: u32,
    b: BlocoV,
    seguidor: Seq<BlocoV>,
    registro: Map<u32, ChavePublicaV>,
)
    requires
        1 <= l.cadeia.len() <= u32::MAX,
        selado(bloco_a_selar(l, timestamp), chave, id_autoridade) == Some(b),
        assinado_por(b, chave.publica()),
        seguidor.len() == l.cadeia.len(),
        seguidor.last().hash_atual == l.cadeia.last().hash_atual,
        seguidor.last().indice < seguidor.len(),
        registro.contains_key(id_autoridade),
        registro[id_autoridade] == chave.publica(),
    ensures
        aceitacao(seguidor, b, registro) == Ok::<(), BlocoErro>(()),
{
    let pronto = preparado(bloco_a_selar(l, timestamp), id_autoridade);
    lema_preparado_integro(bloco_a_selar(l, timestamp), id_autoridade, b.assinatura_autoridade);
    assert(b == BlocoV { assinatura_autoridade: b.assinatura_autoridade, ..pronto });
}

/// A copy of a list of blocks.
pub fn copia_de_blocos(blocos: &Vec<Bloco>) -> (res: Vec<Bloco>)
    ensures
        res.deep_view() == blocos.deep_view(),
{
    let mut res: Vec<Bloco> = Vec::new();
    let mut i: usize = 0;
    while i < blocos.len()
        invariant
            i <= blocos.len(),
            res@.len() == i,
            forall|j: int| 0 <= j < i ==> res@[j]@ == blocos@[j]@,
        decreases blocos.len() - i,
    {
        res.push(blocos[i].copia());
        i += 1;
    }
    assert(res.deep_view() =~= blocos.deep_view());
    res
}

/// Whether every block of `cadeia` after the first links to the block
/// before it, has the hash that it was sealed with, and is signed by an
/// authority of the registry.
pub fn validar_cadeia(cadeia: &Vec<Bloco>, config: &Config) -> (res: bool)
    ensures
        res == cadeia_valida(cadeia.deep_view(), config@),
{
    let ghost blocos = cadeia.deep_view();
    let mut i: usize = 1;
    while i < cadeia.len()
        invariant
            1 <= i,
            blocos == cadeia.deep_view(),
            forall|j: int| 1 <= j < i && j < blocos.len() ==> #[trigger] elo_valido(blocos, j, config@),
        decreases cadeia.len() - i,
    {
        let bloco = &cadeia[i];
        let anterior = &cadeia[i - 1];
        assert(blocos[i as int] == bloco@);
        assert(blocos[i - 1] == anterior@);
        if bloco.hash_anterior != anterior.hash_atual {
            assert(!elo_valido(blocos, i as int, config@));
            return false;
        }
        if !bloco.esta_integro() {
            assert(!elo_valido(blocos, i as int, config@));
            return false;
        }
        match bloco.verificar_assinatura(config) {
            Ok(()) => {},
            Err(_) => {
                assert(!elo_valido(blocos, i as int, config@));
                return false;
            },
        }
        i += 1;
    }
    true
}

impl Blockchain {
    /// Whether the chain has its genesis block.
    pub open spec fn bem_formada(&self) -> bool {
        self@.cadeia.len() >= 1
    }

    /// A ledger that holds the genesis block and nothing else.
    pub fn nova_blockchain() -> (res: Blockchain)
        ensures
            res@ == (BlockchainV { cadeia: seq![genese()], transacoes_pendentes: Seq::empty() }),
            res.bem_formada(),
            forall|registro: Map<u32, ChavePublicaV>| #[trigger] cadeia_valida(res@.cadeia, registro),
    {
        proof {
            reveal_strlit("0");
        }
        let mut bloco_genesis = Bloco::novo_bloco(
            0,
            "0".to_owned(),
            Vec::new(),
            Some(Instante::epoca()),
        );
        assert(bloco_genesis@ =~= genese_sem_hash()) by {
            assert("0"@ =~= seq!['0']);
            assert(bloco_genesis@.transacoes =~= Seq::empty());
        }
        let hash = bloco_genesis.calcular_hash();
        bloco_genesis.hash_atual = hash;
        assert(bloco_genesis@.transacoes =~= Seq::empty());
        assert(bloco_genesis@ == genese());
        let mut cadeia: Vec<Bloco> = Vec::new();
        cadeia.push(bloco_genesis);
        let res = Blockchain { cadeia, transacoes_pendentes: VecDeque::new() };
        assert(res@.cadeia =~= seq![genese()]);
        assert(res@.transacoes_pendentes =~= Seq::empty());
        res
    }

    /// The ledger of a chain that was kept or received, with no transaction
    /// waiting; `None` for a chain without a block.
    pub fn restaurar(cadeia: Vec<Bloco>) -> (res: Option<Blockchain>)
        ensures
            res is Some <==> cadeia.deep_view().len() > 0,
            res matches Some(l) ==> l.bem_formada() && l@ == (BlockchainV {
                cadeia: cadeia.deep_view(),
                transacoes_pendentes: Seq::empty(),
            }),
    {
        if cadeia.len() == 0 {
            None
        } else {
            let res = Blockchain { cadeia, transacoes_pendentes: VecDeque::new() };
            assert(res@.transacoes_pendentes =~= Seq::empty());
            Some(res)
        }
    }

    /// A copy of the chain: what is kept on disk and what is sent to a peer
    /// that asks for the chain.
    pub fn instantaneo(&self) -> (res: Vec<Bloco>)
        ensures
            res.deep_view() == self@.cadeia,
    {
        copia_de_blocos(&self.cadeia)
    }

    /// Whether the node should ask its peers for their chain: it has no
    /// block of its own beyond the genesis block.
    pub fn precisa_sincronizar(&self) -> (res: bool)
        ensures
            res == (self@.cadeia.len() <= 1),
    {
        self.cadeia.len() <= 1
    }

    /// Puts a transaction at the end of the queue. Nothing is checked: a
    /// transaction may wait twice.
    pub fn adicionar_transacao(&mut self, transacao: Transacao)
        ensures
            final(self)@ == (BlockchainV {
                transacoes_pendentes: old(self)@.transacoes_pendentes.push(transacao@),
                ..old(self)@
            }),
            final(self).cadeia == old(self).cadeia,
    {
        self.transacoes_pendentes.push_back(transacao);
        assert(self@.transacoes_pendentes =~= old(self)@.transacoes_pendentes.push(transacao@));
    }

    /// Copies of the transactions that wait, oldest first.
    fn copia_das_pendentes(&self) -> (res: Vec<Transacao>)
        ensures
            res.deep_view() == self@.transacoes_pendentes,
    {
        let mut res: Vec<Transacao> = Vec::new();
        let mut i: usize = 0;
        while i < self.transacoes_pendentes.len()
            invariant
                i <= self.transacoes_pendentes@.len(),
                res@.len() == i,
                forall|j: int| 0 <= j < i ==> res@[j]@ == self.transacoes_pendentes@[j]@,
            decreases self.transacoes_pendentes@.len() - i,
        {
            res.push(self.transacoes_pendentes[i].copia());
            i += 1;
        }
        assert(res.deep_view() =~= self@.transacoes_pendentes);
        res
    }

    /// Seals a block at `timestamp` and puts it after the chain: the block
    /// takes every transaction that waits, in their order, and the queue is
    /// left empty. Where the key signs nothing, the ledger is left as it
    /// was, queue included. Under any registry that holds the key's public
    /// half for this authority, a chain that was valid is valid after.
    pub fn criar_e_adicionar_bloco_em(
        &mut self,
        chave_privada: &ChavePrivada,
        id_autoridade: u32,
        timestamp: Instante,
    ) -> (res: Result<Bloco, BlocoErro>)
        requires
            old(self).bem_formada(),
            old(self)@.cadeia.len() <= u32::MAX,
        ensures
            final(self).bem_formada(),
            match selado(bloco_a_selar(old(self)@, timestamp), chave_privada@, id_autoridade) {
                Some(b) => res matches Ok(bloco) && bloco@ == b && final(self)@
                    == com_bloco_selado(old(self)@, b),
                None => res matches Err(erro) && erro == BlocoErro::AssinaturaInvalida
                    && final(self)@ == old(self)@,
            },
            res matches Ok(bloco) ==> {
                &&& bloco@.indice == old(self)@.cadeia.len()
                &&& bloco@.hash_anterior == old(self)@.cadeia.last().hash_atual
                &&& bloco@.transacoes == old(self)@.transacoes_pendentes
                &&& bloco@.timestamp == timestamp
                &&& bloco@.id_autoridade == id_autoridade
                &&& integro(bloco@)
                &&& assinado_por(bloco@, chave_privada@.publica())
            },
            res is Ok ==> valida_como_antes(
                old(self)@.cadeia,
                final(self)@.cadeia,
                id_autoridade,
                chave_privada@.publica(),
            ),
            passo(old(self)@, final(self)@, id_autoridade, chave_privada@.publica()),
    {
        let indice = self.cadeia.len() as u32;
        let hash_anterior = self.cadeia[self.cadeia.len() - 1].hash_atual.clone();
        let transacoes = self.copia_das_pendentes();
        let mut novo_bloco = Bloco::novo_bloco(indice, hash_anterior, transacoes, Some(timestamp));
        assert(novo_bloco@ == bloco_a_selar(self@, timestamp)) by {
            assert(self@.cadeia.last() == self.cadeia@[self.cadeia@.len() - 1]@);
        }
        match novo_bloco.assinar_bloco(chave_privada, id_autoridade) {
            Ok(()) => {
                let copia = novo_bloco.copia();
                self.cadeia.push(novo_bloco);
                self.transacoes_pendentes.clear();
                proof {
                    let b = copia@;
                    let antes = old(self)@.cadeia;
                    assert(self@.cadeia =~= antes.push(b));
                    assert(self@.transacoes_pendentes =~= Seq::empty());
                    assert(b.hash_anterior == antes.last().hash_atual);
                    assert forall|registro: Map<u32, ChavePublicaV>|
                        cadeia_valida(antes, registro) && registro.contains_key(id_autoridade)
                            && registro[id_autoridade]
                            == chave_privada@.publica() implies cadeia_valida(
                        antes.push(b),
                        registro,
                    ) by {
                        assert(verificacao(b, registro) is Ok);
                        lema_elo_preserva(antes, b, registro);
                    }
                }
                Ok(copia)
            },
            Err(_) => Err(BlocoErro::AssinaturaInvalida),
        }
    }

    /// Seals a block now and puts it after the chain: as
    /// `criar_e_adicionar_bloco_em`, at the instant that the system clock
    /// shows, which the block that comes back holds. It fails only where
    /// the key signs nothing for the block of the instant drawn.
    pub fn criar_e_adicionar_bloco(
        &mut self,
        chave_privada: &ChavePrivada,
        id_autoridade: u32,
    ) -> (res: Result<Bloco, BlocoErro>)
        requires
            old(self).bem_formada(),
            old(self)@.cadeia.len() <= u32::MAX,
        ensures
            final(self).bem_formada(),
            res matches Ok(bloco) ==> {
                &&& selado(
                    bloco_a_selar(old(self)@, bloco@.timestamp),
                    chave_privada@,
                    id_autoridade,
                ) == Some(bloco@)
                &&& final(self)@ == com_bloco_selado(old(self)@, bloco@)
                &&& bloco@.indice == old(self)@.cadeia.len()
                &&& bloco@.hash_anterior == old(self)@.cadeia.last().hash_atual
                &&& bloco@.transacoes == old(self)@.transacoes_pendentes
                &&& bloco@.id_autoridade == id_autoridade
                &&& bloco@.timestamp.lido_do_relogio()
                &&& integro(bloco@)
                &&& assinado_por(bloco@, chave_privada@.publica())
            },
            res matches Err(erro) ==> erro == BlocoErro::AssinaturaInvalida && final(self)@
                == old(self)@,
            res is Err ==> exists|t: Instante|
                #![trigger bloco_a_selar(old(self)@, t)]
                t.lido_do_relogio() && selado(
                    bloco_a_selar(old(self)@, t),
                    chave_privada@,
                    id_autoridade,
                ) is None,
            res is Ok ==> valida_como_antes(
                old(self)@.cadeia,
                final(self)@.cadeia,
                id_autoridade,
                chave_privada@.publica(),
            ),
            passo(old(self)@, final(self)@, id_autoridade, chave_privada@.publica()),
    {
        let timestamp = Instante::agora();
        let res = self.criar_e_adicionar_bloco_em(chave_privada, id_autoridade, timestamp);
        proof {
            if res is Err {
                assert(selado(bloco_a_selar(old(self)@, timestamp), chave_privada@, id_autoridade)
                    is None);
            }
        }
        res
    }

    /// Takes a block that a peer sent, where the chain accepts it, and puts
    /// it after the chain. A block that is refused changes nothing: one that
    /// does not come after the last block, such as the genesis block, a
    /// block that the chain already has or one whose index is not the
    /// chain's length, is refused with `HashAnteriorNaoCorresponde`. A chain
    /// that was valid under the registry is valid after.
    pub fn adicionar_bloco_externo(&mut self, bloco: Bloco, config: &Config) -> (res: Result<
        (),
        BlocoErro,
    >)
        requires
            old(self).bem_formada(),
        ensures
            final(self).bem_formada(),
            res == aceitacao(old(self)@.cadeia, bloco@, config@),
            res is Ok ==> final(self)@ == (BlockchainV {
                cadeia: old(self)@.cadeia.push(bloco@),
                ..old(self)@
            }),
            res is Err ==> final(self)@ == old(self)@,
            cadeia_valida(old(self)@.cadeia, config@) ==> cadeia_valida(final(self)@.cadeia, config@),
    {
        let ghost antes = self@.cadeia;
        assert(antes.last() == self.cadeia@[self.cadeia@.len() - 1]@);
        let ultimo = &self.cadeia[self.cadeia.len() - 1];
        if bloco.hash_anterior != ultimo.hash_atual || bloco.indice <= ultimo.indice
            || bloco.indice as usize != self.cadeia.len() {
            return Err(BlocoErro::HashAnteriorNaoCorresponde);
        }
        if !bloco.esta_integro() {
            return Err(BlocoErro::AssinaturaInvalida);
        }
        match bloco.verificar_assinatura(config) {
            Ok(()) => {},
            Err(e) => {
                return Err(e);
            },
        }
        self.cadeia.push(bloco);
        proof {
            assert(self@.cadeia =~= antes.push(bloco@));
            if cadeia_valida(antes, config@) {
                lema_aceito_preserva(antes, bloco@, config@);
            }
        }
        Ok(())
    }

    /// Takes a chain that a peer sent in place of the node's own, where it
    /// is valid and strictly longer; else the node's chain stays. The queue
    /// is not touched, and the chain never gets shorter.
    pub fn substituir_cadeia(&mut self, recebida: Vec<Bloco>, config: &Config) -> (res: bool)
        ensures
            res == (recebida.deep_view().len() > old(self)@.cadeia.len() && cadeia_valida(
                recebida.deep_view(),
                config@,
            )),
            res ==> final(self)@.cadeia == recebida.deep_view(),
            !res ==> final(self)@.cadeia == old(self)@.cadeia,
            final(self)@.transacoes_pendentes == old(self)@.transacoes_pendentes,
            final(self)@.cadeia.len() >= old(self)@.cadeia.len(),
            old(self).bem_formada() ==> final(self).bem_formada(),
    {
        if recebida.len() > self.cadeia.len() && validar_cadeia(&recebida, config) {
            self.cadeia = recebida;
            true
        } else {
            false
        }
    }
}

} // verus!
