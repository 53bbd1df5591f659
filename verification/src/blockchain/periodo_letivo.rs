use vstd::prelude::*;
use crate::blockchain::disciplina::{json_disciplina, Disciplina, DisciplinaV};
use crate::utils::json::{
    digitos, escrever_byte, escrever_decimal, iniciar_campo, iniciar_item,
    json_campo, json_lista, json_objeto, juntados, lema_fecha, lema_mais_um_campo,
    lema_mais_um_item,
};

verus! {

/// What an academic term holds.
pub struct PeriodoLetivoV {
    pub id_periodo: u32,
    pub ano: u32,
    pub semestre: u8,
    pub disciplinas: Seq<DisciplinaV>,
}

/// An academic term with the disciplines taken in it.
#[derive(Clone, Debug, PartialEq, Eq)]
pub struct PeriodoLetivo {
    pub id_periodo: u32,
    pub ano: u32,
    pub semestre: u8,
    pub disciplinas: Vec<Disciplina>,
}

impl DeepView for PeriodoLetivo {
    type V = PeriodoLetivoV;

    open spec fn deep_view(&self) -> PeriodoLetivoV {
        PeriodoLetivoV {
            id_periodo: self.id_periodo,
            ano: self.ano,
            semestre: self.semestre,
            disciplinas: self.disciplinas.deep_view(),
        }
    }
}

impl View for PeriodoLetivo {
    type V = PeriodoLetivoV;

    open spec fn view(&self) -> PeriodoLetivoV {
        self.deep_view()
    }
}

/// The canonical encoding of a list of disciplines.
pub open spec fn json_disciplinas(disciplinas: Seq<DisciplinaV>) -> Seq<u8> {
    json_lista(Seq::new(disciplinas.len(), |i: int| json_disciplina(disciplinas[i])))
}

/// A copy of a list of disciplines.
pub fn copia_de_disciplinas(disciplinas: &Vec<Disciplina>) -> (res: Vec<Disciplina>)
    ensures
        res.deep_view() == disciplinas.deep_view(),
{
    let mut res: Vec<Disciplina> = Vec::new();
    let mut i: usize = 0;
    while i < disciplinas.len()
        invariant
            i <= disciplinas.len(),
            res@.len() == i,
            forall|j: int| 0 <= j < i ==> res@[j]@ == disciplinas@[j]@,
        decreases disciplinas.len() - i,
    {
        res.push(disciplinas[i].copia());
        i += 1;
    }
    assert(res.deep_view() =~= disciplinas.deep_view());
    res
}

/// Appends the canonical encoding of a list of disciplines.
pub fn escrever_disciplinas(disciplinas: &Vec<Disciplina>, saida: &mut Vec<u8>)
    ensures
        final(saida)@ == old(saida)@ + json_disciplinas(disciplinas.deep_view()),
{
    let ghost base = saida@;
    let ghost itens = Seq::new(disciplinas.len() as nat, |i: int| json_disciplina(disciplinas@[i]@));
    escrever_byte(saida, 0x5b);
    assert(saida@ =~= base + seq![0x5bu8] + juntados(itens.take(0)));
    let mut i: usize = 0;
    while i < disciplinas.len()
        invariant
            i <= disciplinas.len(),
            itens == Seq::new(disciplinas.len() as nat, |i: int| json_disciplina(disciplinas@[i]@)),
            saida@ == base + seq![0x5bu8] + juntados(itens.take(i as int)),
        decreases disciplinas.len() - i,
    {
        let ghost antes = saida@;
        iniciar_item(saida, i == 0);
        disciplinas[i].escrever_json(saida);
        proof {
            lema_mais_um_item(base, seq![0x5bu8], itens.take(i as int), antes, saida@, itens[i as int]);
            assert(itens.take(i + 1) =~= itens.take(i as int).push(itens[i as int]));
        }
        i += 1;
    }
    escrever_byte(saida, 0x5d);
    proof {
        assert(itens.take(disciplinas.len() as int) =~= itens);
        let d = disciplinas.deep_view();
        assert(itens =~= Seq::new(d.len(), |i: int| json_disciplina(d[i])));
        lema_fecha(base, seq![0x5bu8], itens, seq![0x5du8]);
    }
}

/// The canonical encoding of a term: an object of its four fields in the
/// order of their declaration.
#[verifier::opaque]
pub open spec fn json_periodo(p: PeriodoLetivoV) -> Seq<u8> {
    json_objeto(
        seq![
            json_campo("id_periodo"@, digitos(p.id_periodo as nat)),
            json_campo("ano"@, digitos(p.ano as nat)),
            json_campo("semestre"@, digitos(p.semestre as nat)),
            json_campo("disciplinas"@, json_disciplinas(p.disciplinas)),
        ],
    )
}

impl PeriodoLetivo {
    /// A term with no disciplines yet.
    pub fn novo_periodo(id: u32, ano: u32, semestre: u8) -> (res: PeriodoLetivo)
        ensures
            res@ == (PeriodoLetivoV { id_periodo: id, ano, semestre, disciplinas: Seq::empty() }),
    {
        let res = PeriodoLetivo { id_periodo: id, ano, semestre, disciplinas: Vec::new() };
        assert(res.disciplinas.deep_view() =~= Seq::empty());
        res
    }

    /// Adds a discipline after those that the term has.
    pub fn adicionar_disciplina(&mut self, disciplina: Disciplina)
        ensures
            final(self)@ == (PeriodoLetivoV {
                disciplinas: old(self)@.disciplinas.push(disciplina@),
                ..old(self)@
            }),
    {
        self.disciplinas.push(disciplina);
        assert(self.disciplinas.deep_view() =~= old(self).disciplinas.deep_view().push(disciplina@));
    }

    /// A copy of the term.
    pub fn copia(&self) -> (res: PeriodoLetivo)
        ensures
            res@ == self@,
    {
        PeriodoLetivo {
            id_periodo: self.id_periodo,
            ano: self.ano,
            semestre: self.semestre,
            disciplinas: copia_de_disciplinas(&self.disciplinas),
        }
    }

    /// Appends the term's canonical encoding.
    pub fn escrever_json(&self, saida: &mut Vec<u8>)
        ensures
            final(saida)@ == old(saida)@ + json_periodo(self@),
    {
        let ghost base = saida@;
        let ghost mut campos: Seq<Seq<u8>> = Seq::empty();
        escrever_byte(saida, 0x7b);
        assert(saida@ =~= base + seq![0x7bu8] + juntados(campos));

        let ghost antes = saida@;
        iniciar_campo(saida, true, "id_periodo");
        escrever_decimal(saida, self.id_periodo as u64);
        proof {
            let valor = digitos(self.id_periodo as nat);
            lema_mais_um_campo(base, campos, antes, saida@, "id_periodo"@, valor);
            campos = campos.push(json_campo("id_periodo"@, valor));
        }

        let ghost antes = saida@;
        iniciar_campo(saida, false, "ano");
        escrever_decimal(saida, self.ano as u64);
        proof {
            let valor = digitos(self.ano as nat);
            lema_mais_um_campo(base, campos, antes, saida@, "ano"@, valor);
            campos = campos.push(json_campo("ano"@, valor));
        }

        let ghost antes = saida@;
        iniciar_campo(saida, false, "semestre");
        escrever_decimal(saida, self.semestre as u64);
        proof {
            let valor = digitos(self.semestre as nat);
            lema_mais_um_campo(base, campos, antes, saida@, "semestre"@, valor);
            campos = campos.push(json_campo("semestre"@, valor));
        }

        let ghost antes = saida@;
        iniciar_campo(saida, false, "disciplinas");
        escrever_disciplinas(&self.disciplinas, saida);
        proof {
            let valor = json_disciplinas(self.disciplinas.deep_view());
            lema_mais_um_campo(base, campos, antes, saida@, "disciplinas"@, valor);
            campos = campos.push(json_campo("disciplinas"@, valor));
        }

        escrever_byte(saida, 0x7d);
        proof {
            reveal(json_periodo);
            lema_fecha(base, seq![0x7bu8], campos, seq![0x7du8]);
            assert(campos =~= seq![
                json_campo("id_periodo"@, digitos(self.id_periodo as nat)),
                json_campo("ano"@, digitos(self.ano as nat)),
                json_campo("semestre"@, digitos(self.semestre as nat)),
                json_campo("disciplinas"@, json_disciplinas(self.disciplinas.deep_view())),
            ]);
        }
    }
}

} // verus!
