use vstd::prelude::*;
use crate::blockchain::estudante::{json_estudante, Estudante, EstudanteV};
use crate::blockchain::periodo_letivo::{json_periodo, PeriodoLetivo, PeriodoLetivoV};
use crate::utils::json::{
    digitos, escrever_byte, escrever_decimal, iniciar_campo, iniciar_item,
    json_campo, json_lista, json_objeto, juntados, lema_fecha, lema_mais_um_campo,
    lema_mais_um_item,
};
use crate::utils::tempo::Instante;

verus! {

/// What a transaction holds.
pub struct TransacaoV {
    pub id_transacao: u32,
    pub estudante: EstudanteV,
    pub periodo_letivo: PeriodoLetivoV,
    pub timestamp: Instante,
}

/// A record entered into the ledger: a student and a term, with the instant
/// at which it was made.
#[derive(Clone, Debug, PartialEq, Eq)]
pub struct Transacao {
    pub id_transacao: u32,
    pub estudante: Estudante,
    pub periodo_letivo: PeriodoLetivo,
    pub timestamp: Instante,
}

impl DeepView for Transacao {
    type V = TransacaoV;

    open spec fn deep_view(&self) -> TransacaoV {
        TransacaoV {
            id_transacao: self.id_transacao,
            estudante: self.estudante@,
            periodo_letivo: self.periodo_letivo@,
            timestamp: self.timestamp,
        }
    }
}

impl View for Transacao {
    type V = TransacaoV;

    open spec fn view(&self) -> TransacaoV {
        self.deep_view()
    }
}

/// The canonical encoding of a transaction: an object of its four fields in
/// the order of their declaration.
#[verifier::opaque]
pub open spec fn json_transacao(t: TransacaoV) -> Seq<u8> {
    json_objeto(
        seq![
            json_campo("id_transacao"@, digitos(t.id_transacao as nat)),
            json_campo("estudante"@, json_estudante(t.estudante)),
            json_campo("periodo_letivo"@, json_periodo(t.periodo_letivo)),
            json_campo("timestamp"@, t.timestamp.json()),
        ],
    )
}

/// The canonical encoding of a list of transactions.
pub open spec fn json_transacoes(transacoes: Seq<TransacaoV>) -> Seq<u8> {
    json_lista(Seq::new(transacoes.len(), |i: int| json_transacao(transacoes[i])))
}

/// A copy of a list of transactions.
pub fn copia_de_transacoes(transacoes: &Vec<Transacao>) -> (res: Vec<Transacao>)
    ensures
        res.deep_view() == transacoes.deep_view(),
{
    let mut res: Vec<Transacao> = Vec::new();
    let mut i: usize = 0;
    while i < transacoes.len()
        invariant
            i <= transacoes.len(),
            res@.len() == i,
            forall|j: int| 0 <= j < i ==> res@[j]@ == transacoes@[j]@,
        decreases transacoes.len() - i,
    {
        res.push(transacoes[i].copia());
        i += 1;
    }
    assert(res.deep_view() =~= transacoes.deep_view());
    res
}

/// Appends the canonical encoding of a list of transactions.
pub fn escrever_transacoes(transacoes: &Vec<Transacao>, saida: &mut Vec<u8>)
    ensures
        final(saida)@ == old(saida)@ + json_transacoes(transacoes.deep_view()),
{
    let ghost base = saida@;
    let ghost itens = Seq::new(transacoes.len() as nat, |i: int| json_transacao(transacoes@[i]@));
    escrever_byte(saida, 0x5b);
    assert(saida@ =~= base + seq![0x5bu8] + juntados(itens.take(0)));
    let mut i: usize = 0;
    while i < transacoes.len()
        invariant
            i <= transacoes.len(),
            itens == Seq::new(transacoes.len() as nat, |i: int| json_transacao(transacoes@[i]@)),
            saida@ == base + seq![0x5bu8] + juntados(itens.take(i as int)),
        decreases transacoes.len() - i,
    {
        let ghost antes = saida@;
        iniciar_item(saida, i == 0);
        transacoes[i].escrever_json(saida);
        proof {
            lema_mais_um_item(base, seq![0x5bu8], itens.take(i as int), antes, saida@, itens[i as int]);
            assert(itens.take(i + 1) =~= itens.take(i as int).push(itens[i as int]));
        }
        i += 1;
    }
    escrever_byte(saida, 0x5d);
    proof {
        assert(itens.take(transacoes.len() as int) =~= itens);
        let d = transacoes.deep_view();
        assert(itens =~= Seq::new(d.len(), |i: int| json_transacao(d[i])));
        lema_fecha(base, seq![0x5bu8], itens, seq![0x5du8]);
    }
}

impl Transacao {
    /// A transaction made at the given instant.
    pub fn nova_transacao_em(
        id_transacao: u32,
        estudante: Estudante,
        periodo_letivo: PeriodoLetivo,
        timestamp: Instante,
    ) -> (res: Transacao)
        ensures
            res@ == (TransacaoV {
                id_transacao,
                estudante: estudante@,
                periodo_letivo: periodo_letivo@,
                timestamp,
            }),
    {
        Transacao { id_transacao, estudante, periodo_letivo, timestamp }
    }

    /// A transaction made now: what the system clock shows is its instant,
    /// one at or after the Unix epoch with its nanoseconds under one second.
    pub fn nova_transacao(id_transacao: u32, estudante: Estudante, periodo_letivo: PeriodoLetivo) -> (res:
        Transacao)
        ensures
            res@ == (TransacaoV {
                id_transacao,
                estudante: estudante@,
                periodo_letivo: periodo_letivo@,
                timestamp: res@.timestamp,
            }),
            res@.timestamp.lido_do_relogio(),
    {
        let timestamp = Instante::agora();
        Transacao::nova_transacao_em(id_transacao, estudante, periodo_letivo, timestamp)
    }

    /// A copy of the transaction.
    pub fn copia(&self) -> (res: Transacao)
        ensures
            res@ == self@,
    {
        Transacao {
            id_transacao: self.id_transacao,
            estudante: self.estudante.copia(),
            periodo_letivo: self.periodo_letivo.copia(),
            timestamp: self.timestamp,
        }
    }

    /// Appends the transaction's canonical encoding.
    pub fn escrever_json(&self, saida: &mut Vec<u8>)
        ensures
            final(saida)@ == old(saida)@ + json_transacao(self@),
    {
        let ghost base = saida@;
        let ghost mut campos: Seq<Seq<u8>> = Seq::empty();
        escrever_byte(saida, 0x7b);
        assert(saida@ =~= base + seq![0x7bu8] + juntados(campos));

        let ghost antes = saida@;
        iniciar_campo(saida, true, "id_transacao");
        escrever_decimal(saida, self.id_transacao as u64);
        proof {
            let valor = digitos(self.id_transacao as nat);
            lema_mais_um_campo(base, campos, antes, saida@, "id_transacao"@, valor);
            campos = campos.push(json_campo("id_transacao"@, valor));
        }

        let ghost antes = saida@;
        iniciar_campo(saida, false, "estudante");
        self.estudante.escrever_json(saida);
        proof {
            let valor = json_estudante(self.estudante@);
            lema_mais_um_campo(base, campos, antes, saida@, "estudante"@, valor);
            campos = campos.push(json_campo("estudante"@, valor));
        }

        let ghost antes = saida@;
        iniciar_campo(saida, false, "periodo_letivo");
        self.periodo_letivo.escrever_json(saida);
        proof {
            let valor = json_periodo(self.periodo_letivo@);
            lema_mais_um_campo(base, campos, antes, saida@, "periodo_letivo"@, valor);
            campos = campos.push(json_campo("periodo_letivo"@, valor));
        }

        let ghost antes = saida@;
        iniciar_campo(saida, false, "timestamp");
        self.timestamp.escrever_json(saida);
        proof {
            let valor = self.timestamp.json();
            lema_mais_um_campo(base, campos, antes, saida@, "timestamp"@, valor);
            campos = campos.push(json_campo("timestamp"@, valor));
        }

        escrever_byte(saida, 0x7d);
        proof {
            reveal(json_transacao);
            lema_fecha(base, seq![0x7bu8], campos, seq![0x7du8]);
            assert(campos =~= seq![
                json_campo("id_transacao"@, digitos(self.id_transacao as nat)),
                json_campo("estudante"@, json_estudante(self.estudante@)),
                json_campo("periodo_letivo"@, json_periodo(self.periodo_letivo@)),
                json_campo("timestamp"@, self.timestamp.json()),
            ]);
        }
    }
}

} // verus!
