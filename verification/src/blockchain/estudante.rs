use vstd::prelude::*;
use vstd::string::*;
use vstd::pervasive::unreached;
use crate::blockchain::periodo_letivo::{json_periodo, PeriodoLetivo, PeriodoLetivoV};
use crate::utils::json::{
    digitos, escrever_byte, escrever_decimal, escrever_texto, iniciar_campo, iniciar_item,
    json_campo, json_lista, json_objeto, json_texto, juntados, lema_fecha, lema_mais_um_campo,
    lema_mais_um_item,
};
use crate::utils::tempo::{data_valida, Data};

verus! {

/// What a student's record holds.
pub struct EstudanteV {
    pub id_estudante: u32,
    pub nome: Seq<char>,
    pub data_nascimento: Data,
    pub periodos_letivos: Seq<PeriodoLetivoV>,
}

/// A student, with the terms on record.
#[derive(Clone, Debug, PartialEq, Eq)]
pub struct Estudante {
    pub id_estudante: u32,
    pub nome: String,
    pub data_nascimento: Data,
    pub periodos_letivos: Vec<PeriodoLetivo>,
}

impl DeepView for Estudante {
    type V = EstudanteV;

    open spec fn deep_view(&self) -> EstudanteV {
        EstudanteV {
            id_estudante: self.id_estudante,
            nome: self.nome@,
            data_nascimento: self.data_nascimento,
            periodos_letivos: self.periodos_letivos.deep_view(),
        }
    }
}

impl View for Estudante {
    type V = EstudanteV;

    open spec fn view(&self) -> EstudanteV {
        self.deep_view()
    }
}

/// The canonical encoding of a list of terms.
pub open spec fn json_periodos(periodos: Seq<PeriodoLetivoV>) -> Seq<u8> {
    json_lista(Seq::new(periodos.len(), |i: int| json_periodo(periodos[i])))
}

/// A copy of a list of terms.
pub fn copia_de_periodos(periodos: &Vec<PeriodoLetivo>) -> (res: Vec<PeriodoLetivo>)
    ensures
        res.deep_view() == periodos.deep_view(),
{
    let mut res: Vec<PeriodoLetivo> = Vec::new();
    let mut i: usize = 0;
    while i < periodos.len()
        invariant
            i <= periodos.len(),
            res@.len() == i,
            forall|j: int| 0 <= j < i ==> res@[j]@ == periodos@[j]@,
        decreases periodos.len() - i,
    {
        res.push(periodos[i].copia());
        i += 1;
    }
    assert(res.deep_view() =~= periodos.deep_view());
    res
}

/// Appends the canonical encoding of a list of terms.
pub fn escrever_periodos(periodos: &Vec<PeriodoLetivo>, saida: &mut Vec<u8>)
    ensures
        final(saida)@ == old(saida)@ + json_periodos(periodos.deep_view()),
{
    let ghost base = saida@;
    let ghost itens = Seq::new(periodos.len() as nat, |i: int| json_periodo(periodos@[i]@));
    escrever_byte(saida, 0x5b);
    assert(saida@ =~= base + seq![0x5bu8] + juntados(itens.take(0)));
    let mut i: usize = 0;
    while i < periodos.len()
        invariant
            i <= periodos.len(),
            itens == Seq::new(periodos.len() as nat, |i: int| json_periodo(periodos@[i]@)),
            saida@ == base + seq![0x5bu8] + juntados(itens.take(i as int)),
        decreases periodos.len() - i,
    {
        let ghost antes = saida@;
        iniciar_item(saida, i == 0);
        periodos[i].escrever_json(saida);
        proof {
            lema_mais_um_item(base, seq![0x5bu8], itens.take(i as int), antes, saida@, itens[i as int]);
            assert(itens.take(i + 1) =~= itens.take(i as int).push(itens[i as int]));
        }
        i += 1;
    }
    escrever_byte(saida, 0x5d);
    proof {
        assert(itens.take(periodos.len() as int) =~= itens);
        let d = periodos.deep_view();
        assert(itens =~= Seq::new(d.len(), |i: int| json_periodo(d[i])));
        lema_fecha(base, seq![0x5bu8], itens, seq![0x5du8]);
    }
}

/// The canonical encoding of a student: an object of its four fields in the
/// order of their declaration.
#[verifier::opaque]
pub open spec fn json_estudante(e: EstudanteV) -> Seq<u8> {
    json_objeto(
        seq![
            json_campo("id_estudante"@, digitos(e.id_estudante as nat)),
            json_campo("nome"@, json_texto(e.nome)),
            json_campo("data_nascimento"@, e.data_nascimento.json()),
            json_campo("periodos_letivos"@, json_periodos(e.periodos_letivos)),
        ],
    )
}

impl Estudante {
    /// A student born on the day that year, month and day name, with no
    /// terms on record yet.
    pub fn novo_estudante(id: u32, nome: &str, ano: i32, mes: u32, dia: u32) -> (res: Estudante)
        requires
            data_valida(ano as int, mes as int, dia as int),
        ensures
            res@.id_estudante == id,
            res@.nome == nome@,
            res@.data_nascimento.spec_ano() == ano,
            res@.data_nascimento.spec_mes() == mes,
            res@.data_nascimento.spec_dia() == dia,
            res@.periodos_letivos == Seq::<PeriodoLetivoV>::empty(),
    {
        match Data::nova(ano, mes, dia) {
            Some(data) => {
                let res = Estudante {
                    id_estudante: id,
                    nome: nome.to_owned(),
                    data_nascimento: data,
                    periodos_letivos: Vec::new(),
                };
                assert(res.periodos_letivos.deep_view() =~= Seq::empty());
                res
            },
            None => unreached(),
        }
    }

    /// Adds a term after those on the student's record.
    pub fn adicionar_periodo_letivo(&mut self, periodo: PeriodoLetivo)
        ensures
            final(self)@ == (EstudanteV {
                periodos_letivos: old(self)@.periodos_letivos.push(periodo@),
                ..old(self)@
            }),
    {
        self.periodos_letivos.push(periodo);
        assert(self.periodos_letivos.deep_view() =~= old(self).periodos_letivos.deep_view().push(
            periodo@,
        ));
    }

    /// A copy of the student's record.
    pub fn copia(&self) -> (res: Estudante)
        ensures
            res@ == self@,
    {
        Estudante {
            id_estudante: self.id_estudante,
            nome: self.nome.clone(),
            data_nascimento: self.data_nascimento,
            periodos_letivos: copia_de_periodos(&self.periodos_letivos),
        }
    }

    /// Appends the student's canonical encoding.
    pub fn escrever_json(&self, saida: &mut Vec<u8>)
        ensures
            final(saida)@ == old(saida)@ + json_estudante(self@),
    {
        let ghost base = saida@;
        let ghost mut campos: Seq<Seq<u8>> = Seq::empty();
        escrever_byte(saida, 0x7b);
        assert(saida@ =~= base + seq![0x7bu8] + juntados(campos));

        let ghost antes = saida@;
        iniciar_campo(saida, true, "id_estudante");
        escrever_decimal(saida, self.id_estudante as u64);
        proof {
            let valor = digitos(self.id_estudante as nat);
            lema_mais_um_campo(base, campos, antes, saida@, "id_estudante"@, valor);
            campos = campos.push(json_campo("id_estudante"@, valor));
        }

        let ghost antes = saida@;
        iniciar_campo(saida, false, "nome");
        escrever_texto(saida, self.nome.as_str());
        proof {
            let valor = json_texto(self.nome@);
            lema_mais_um_campo(base, campos, antes, saida@, "nome"@, valor);
            campos = campos.push(json_campo("nome"@, valor));
        }

        let ghost antes = saida@;
        iniciar_campo(saida, false, "data_nascimento");
        self.data_nascimento.escrever_json(saida);
        proof {
            let valor = self.data_nascimento.json();
            lema_mais_um_campo(base, campos, antes, saida@, "data_nascimento"@, valor);
            campos = campos.push(json_campo("data_nascimento"@, valor));
        }

        let ghost antes = saida@;
        iniciar_campo(saida, false, "periodos_letivos");
        escrever_periodos(&self.periodos_letivos, saida);
        proof {
            let valor = json_periodos(self.periodos_letivos.deep_view());
            lema_mais_um_campo(base, campos, antes, saida@, "periodos_letivos"@, valor);
            campos = campos.push(json_campo("periodos_letivos"@, valor));
        }

        escrever_byte(saida, 0x7d);
        proof {
            reveal(json_estudante);
            lema_fecha(base, seq![0x7bu8], campos, seq![0x7du8]);
            assert(campos =~= seq![
                json_campo("id_estudante"@, digitos(self.id_estudante as nat)),
                json_campo("nome"@, json_texto(self.nome@)),
                json_campo("data_nascimento"@, self.data_nascimento.json()),
                json_campo("periodos_letivos"@, json_periodos(self.periodos_letivos.deep_view())),
            ]);
        }
    }
}

} // verus!
