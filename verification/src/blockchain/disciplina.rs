use vstd::prelude::*;
use vstd::string::*;
use crate::blockchain::nota::{json_nota, Nota, NotaV};
use crate::utils::json::{
    digitos, escrever_byte, escrever_decimal, escrever_texto, iniciar_campo, iniciar_item,
    json_campo, json_lista, json_objeto, json_texto, juntados, lema_fecha, lema_mais_um_campo,
    lema_mais_um_item,
};

verus! {

/// What a discipline holds.
pub struct DisciplinaV {
    pub id_disciplina: u32,
    pub nome: Seq<char>,
    pub codigo: Seq<char>,
    pub notas: Seq<NotaV>,
    pub media: u32,
    pub frequencia: u32,
}

/// A discipline taken in a term, with its grades. Mean and attendance are
/// kept as the bit patterns of IEEE 754 singles.
#[derive(Clone, Debug, PartialEq, Eq)]
pub struct Disciplina {
    pub id_disciplina: u32,
    pub nome: String,
    pub codigo: String,
    pub notas: Vec<Nota>,
    pub media: u32,
    pub frequencia: u32,
}

impl DeepView for Disciplina {
    type V = DisciplinaV;

    open spec fn deep_view(&self) -> DisciplinaV {
        DisciplinaV {
            id_disciplina: self.id_disciplina,
            nome: self.nome@,
            codigo: self.codigo@,
            notas: self.notas.deep_view(),
            media: self.media,
            frequencia: self.frequencia,
        }
    }
}

impl View for Disciplina {
    type V = DisciplinaV;

    open spec fn view(&self) -> DisciplinaV {
        self.deep_view()
    }
}

/// The canonical encoding of a list of grades.
pub open spec fn json_notas(notas: Seq<NotaV>) -> Seq<u8> {
    json_lista(Seq::new(notas.len(), |i: int| json_nota(notas[i])))
}

/// The canonical encoding of a discipline: an object of its six fields in
/// the order of their declaration.
#[verifier::opaque]
pub open spec fn json_disciplina(d: DisciplinaV) -> Seq<u8> {
    json_objeto(
        seq![
            json_campo("id_disciplina"@, digitos(d.id_disciplina as nat)),
            json_campo("nome"@, json_texto(d.nome)),
            json_campo("codigo"@, json_texto(d.codigo)),
            json_campo("notas"@, json_notas(d.notas)),
            json_campo("media"@, digitos(d.media as nat)),
            json_campo("frequencia"@, digitos(d.frequencia as nat)),
        ],
    )
}

/// A copy of a list of grades.
pub fn copia_de_notas(notas: &Vec<Nota>) -> (res: Vec<Nota>)
    ensures
        res.deep_view() == notas.deep_view(),
{
    let mut res: Vec<Nota> = Vec::new();
    let mut i: usize = 0;
    while i < notas.len()
        invariant
            i <= notas.len(),
            res@.len() == i,
            forall|j: int| 0 <= j < i ==> res@[j]@ == notas@[j]@,
        decreases notas.len() - i,
    {
        res.push(notas[i].copia());
        i += 1;
    }
    assert(res.deep_view() =~= notas.deep_view());
    res
}

/// Appends the canonical encoding of a list of grades.
pub fn escrever_notas(notas: &Vec<Nota>, saida: &mut Vec<u8>)
    ensures
        final(saida)@ == old(saida)@ + json_notas(notas.deep_view()),
{
    let ghost base = saida@;
    let ghost itens = Seq::new(notas.len() as nat, |i: int| json_nota(notas@[i]@));
    escrever_byte(saida, 0x5b);
    assert(saida@ =~= base + seq![0x5bu8] + juntados(itens.take(0)));
    let mut i: usize = 0;
    while i < notas.len()
        invariant
            i <= notas.len(),
            itens == Seq::new(notas.len() as nat, |i: int| json_nota(notas@[i]@)),
            saida@ == base + seq![0x5bu8] + juntados(itens.take(i as int)),
        decreases notas.len() - i,
    {
        let ghost antes = saida@;
        iniciar_item(saida, i == 0);
        notas[i].escrever_json(saida);
        proof {
            lema_mais_um_item(base, seq![0x5bu8], itens.take(i as int), antes, saida@, itens[i as int]);
            assert(itens.take(i + 1) =~= itens.take(i as int).push(itens[i as int]));
        }
        i += 1;
    }
    escrever_byte(saida, 0x5d);
    proof {
        assert(itens.take(notas.len() as int) =~= itens);
        let d = notas.deep_view();
        assert(itens =~= Seq::new(d.len(), |i: int| json_nota(d[i])));
        lema_fecha(base, seq![0x5bu8], itens, seq![0x5du8]);
    }
}

impl Disciplina {
    /// A discipline with no grades yet, its mean and attendance zero.
    pub fn nova_disciplina(id: u32, nome: &str, codigo: &str) -> (res: Disciplina)
        ensures
            res@ == (DisciplinaV {
                id_disciplina: id,
                nome: nome@,
                codigo: codigo@,
                notas: Seq::empty(),
                media: 0,
                frequencia: 0,
            }),
    {
        let res = Disciplina {
            id_disciplina: id,
            nome: nome.to_owned(),
            codigo: codigo.to_owned(),
            notas: Vec::new(),
            media: 0,
            frequencia: 0,
        };
        assert(res.notas.deep_view() =~= Seq::empty());
        res
    }

    /// Adds a grade after those that the discipline has.
    pub fn adicionar_nota(&mut self, nota: Nota)
        ensures
            final(self)@ == (DisciplinaV { notas: old(self)@.notas.push(nota@), ..old(self)@ }),
    {
        self.notas.push(nota);
        assert(self.notas.deep_view() =~= old(self).notas.deep_view().push(nota@));
    }

    /// A copy of the discipline.
    pub fn copia(&self) -> (res: Disciplina)
        ensures
            res@ == self@,
    {
        Disciplina {
            id_disciplina: self.id_disciplina,
            nome: self.nome.clone(),
            codigo: self.codigo.clone(),
            notas: copia_de_notas(&self.notas),
            media: self.media,
            frequencia: self.frequencia,
        }
    }

    /// Appends the discipline's canonical encoding.
    pub fn escrever_json(&self, saida: &mut Vec<u8>)
        ensures
            final(saida)@ == old(saida)@ + json_disciplina(self@),
    {
        let ghost base = saida@;
        let ghost mut campos: Seq<Seq<u8>> = Seq::empty();
        escrever_byte(saida, 0x7b);
        assert(saida@ =~= base + seq![0x7bu8] + juntados(campos));

        let ghost antes = saida@;
        iniciar_campo(saida, true, "id_disciplina");
        escrever_decimal(saida, self.id_disciplina as u64);
        proof {
            let valor = digitos(self.id_disciplina as nat);
            lema_mais_um_campo(base, campos, antes, saida@, "id_disciplina"@, valor);
            campos = campos.push(json_campo("id_disciplina"@, valor));
        }

        let ghost antes = saida@;
        iniciar_campo(saida, false, "nome");
        escrever_texto(saida, self.nome.as_str());
        proof {
            let valor = json_texto(self.nome@);
            lema_mais_um_campo(base, campos, antes, saida@, "nome"@, valor);
            campos = campos.push(json_campo("nome"@, valor));
        }

        let ghost antes = saida@;
        iniciar_campo(saida, false, "codigo");
        escrever_texto(saida, self.codigo.as_str());
        proof {
            let valor = json_texto(self.codigo@);
            lema_mais_um_campo(base, campos, antes, saida@, "codigo"@, valor);
            campos = campos.push(json_campo("codigo"@, valor));
        }

        let ghost antes = saida@;
        iniciar_campo(saida, false, "notas");
        escrever_notas(&self.notas, saida);
        proof {
            let valor = json_notas(self.notas.deep_view());
            lema_mais_um_campo(base, campos, antes, saida@, "notas"@, valor);
            campos = campos.push(json_campo("notas"@, valor));
        }

        let ghost antes = saida@;
        iniciar_campo(saida, false, "media");
        escrever_decimal(saida, self.media as u64);
        proof {
            let valor = digitos(self.media as nat);
            lema_mais_um_campo(base, campos, antes, saida@, "media"@, valor);
            campos = campos.push(json_campo("media"@, valor));
        }

        let ghost antes = saida@;
        iniciar_campo(saida, false, "frequencia");
        escrever_decimal(saida, self.frequencia as u64);
        proof {
            let valor = digitos(self.frequencia as nat);
            lema_mais_um_campo(base, campos, antes, saida@, "frequencia"@, valor);
            campos = campos.push(json_campo("frequencia"@, valor));
        }

        escrever_byte(saida, 0x7d);
        proof {
            reveal(json_disciplina);
            lema_fecha(base, seq![0x7bu8], campos, seq![0x7du8]);
            assert(campos =~= seq![
                json_campo("id_disciplina"@, digitos(self.id_disciplina as nat)),
                json_campo("nome"@, json_texto(self.nome@)),
                json_campo("codigo"@, json_texto(self.codigo@)),
                json_campo("notas"@, json_notas(self.notas.deep_view())),
                json_campo("media"@, digitos(self.media as nat)),
                json_campo("frequencia"@, digitos(self.frequencia as nat)),
            ]);
        }
    }
}

} // verus!
