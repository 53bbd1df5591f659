use vstd::prelude::*;
use vstd::string::*;
use vstd::pervasive::unreached;
use crate::utils::json::{
    digitos, escrever_byte, escrever_decimal, escrever_texto, iniciar_campo, json_campo,
    json_objeto, json_texto, juntados, lema_fecha, lema_mais_um_campo,
};
use crate::utils::tempo::{data_valida, Data};

verus! {

/// What a grade holds.
pub struct NotaV {
    pub id_nota: u32,
    pub valor: u32,
    pub tipo: Seq<char>,
    pub data: Data,
}

/// A grade. Its value is kept as the bit pattern of an IEEE 754 single, so
/// that two grades are the same exactly when their bits are.
#[derive(Clone, Debug, PartialEq, Eq)]
pub struct Nota {
    pub id_nota: u32,
    pub valor: u32,
    pub tipo: String,
    pub data: Data,
}

impl DeepView for Nota {
    type V = NotaV;

    open spec fn deep_view(&self) -> NotaV {
        NotaV { id_nota: self.id_nota, valor: self.valor, tipo: self.tipo@, data: self.data }
    }
}

impl View for Nota {
    type V = NotaV;

    open spec fn view(&self) -> NotaV {
        self.deep_view()
    }
}

/// The canonical encoding of a grade: an object of its four fields in the
/// order of their declaration, the value as the integer of its bits.
#[verifier::opaque]
pub open spec fn json_nota(n: NotaV) -> Seq<u8> {
    json_objeto(
        seq![
            json_campo("id_nota"@, digitos(n.id_nota as nat)),
            json_campo("valor"@, digitos(n.valor as nat)),
            json_campo("tipo"@, json_texto(n.tipo)),
            json_campo("data"@, n.data.json()),
        ],
    )
}

impl Nota {
    /// A grade of the given kind, given on the day that year, month and day
    /// name.
    pub fn nova_nota(id: u32, valor: u32, tipo: &str, ano: i32, mes: u32, dia: u32) -> (res: Nota)
        requires
            data_valida(ano as int, mes as int, dia as int),
        ensures
            res@.id_nota == id,
            res@.valor == valor,
            res@.tipo == tipo@,
            res@.data.spec_ano() == ano,
            res@.data.spec_mes() == mes,
            res@.data.spec_dia() == dia,
    {
        match Data::nova(ano, mes, dia) {
            Some(data) => Nota { id_nota: id, valor, tipo: tipo.to_owned(), data },
            None => unreached(),
        }
    }

    /// A copy of the grade.
    pub fn copia(&self) -> (res: Nota)
        ensures
            res@ == self@,
    {
        Nota { id_nota: self.id_nota, valor: self.valor, tipo: self.tipo.clone(), data: self.data }
    }

    /// Appends the grade's canonical encoding.
    pub fn escrever_json(&self, saida: &mut Vec<u8>)
        ensures
            final(saida)@ == old(saida)@ + json_nota(self@),
    {
        let ghost base = saida@;
        let ghost mut campos: Seq<Seq<u8>> = Seq::empty();
        escrever_byte(saida, 0x7b);
        assert(saida@ =~= base + seq![0x7bu8] + juntados(campos));

        let ghost antes = saida@;
        iniciar_campo(saida, true, "id_nota");
        escrever_decimal(saida, self.id_nota as u64);
        proof {
            let valor = digitos(self.id_nota as nat);
            lema_mais_um_campo(base, campos, antes, saida@, "id_nota"@, valor);
            campos = campos.push(json_campo("id_nota"@, valor));
        }

        let ghost antes = saida@;
        iniciar_campo(saida, false, "valor");
        escrever_decimal(saida, self.valor as u64);
        proof {
            let valor = digitos(self.valor as nat);
            lema_mais_um_campo(base, campos, antes, saida@, "valor"@, valor);
            campos = campos.push(json_campo("valor"@, valor));
        }

        let ghost antes = saida@;
        iniciar_campo(saida, false, "tipo");
        escrever_texto(saida, self.tipo.as_str());
        proof {
            let valor = json_texto(self.tipo@);
            lema_mais_um_campo(base, campos, antes, saida@, "tipo"@, valor);
            campos = campos.push(json_campo("tipo"@, valor));
        }

        let ghost antes = saida@;
        iniciar_campo(saida, false, "data");
        self.data.escrever_json(saida);
        proof {
            let valor = self.data.json();
            lema_mais_um_campo(base, campos, antes, saida@, "data"@, valor);
            campos = campos.push(json_campo("data"@, valor));
        }

        escrever_byte(saida, 0x7d);
        proof {
            reveal(json_nota);
            lema_fecha(base, seq![0x7bu8], campos, seq![0x7du8]);
            assert(campos =~= seq![
                json_campo("id_nota"@, digitos(self.id_nota as nat)),
                json_campo("valor"@, digitos(self.valor as nat)),
                json_campo("tipo"@, json_texto(self.tipo@)),
                json_campo("data"@, self.data.json()),
            ]);
        }
    }
}

} // verus!
