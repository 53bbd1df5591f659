//! The pieces of the canonical JSON text: decimal numbers, escaped strings,
//! object fields and lists. The text is compact (no white space) and is built
//! as UTF-8 bytes, since it is the bytes that are hashed and signed.

use vstd::prelude::*;
use vstd::utf8::*;
use vstd::string::*;

verus! {

/// The decimal digits of `n`, most significant first, with no leading zero.
pub open spec fn digitos(n: nat) -> Seq<u8>
    decreases n,
{
    if n < 10 {
        seq![(48 + n) as u8]
    } else {
        digitos(n / 10).push((48 + n % 10) as u8)
    }
}

/// How one byte of a string stands inside a JSON string: the quote and the
/// backslash get a backslash in front, the control bytes below 0x20 their
/// short escape or `\u00XX` in lower-case hex, every other byte itself.
pub open spec fn escape_de(b: u8) -> Seq<u8> {
    if b == 0x22 {
        seq![0x5cu8, 0x22u8]
    } else if b == 0x5c {
        seq![0x5cu8, 0x5cu8]
    } else if b == 0x08 {
        seq![0x5cu8, 0x62u8]
    } else if b == 0x09 {
        seq![0x5cu8, 0x74u8]
    } else if b == 0x0a {
        seq![0x5cu8, 0x6eu8]
    } else if b == 0x0c {
        seq![0x5cu8, 0x66u8]
    } else if b == 0x0d {
        seq![0x5cu8, 0x72u8]
    } else if b < 0x20 {
        seq![0x5cu8, 0x75u8, 0x30u8, 0x30u8, digito_hex(b / 16), digito_hex(b % 16)]
    } else {
        seq![b]
    }
}

/// The lower-case hex digit of a value below 16.
pub open spec fn digito_hex(v: u8) -> u8 {
    if v < 10 {
        (48 + v) as u8
    } else {
        (87 + v) as u8
    }
}

/// The bytes of a string with each byte replaced by its escape.
pub open spec fn escapado(s: Seq<u8>) -> Seq<u8>
    decreases s.len(),
{
    if s.len() == 0 {
        Seq::empty()
    } else {
        escapado(s.drop_last()) + escape_de(s.last())
    }
}

/// A JSON string: the escaped UTF-8 bytes of `s` between two quotes.
pub open spec fn json_texto(s: Seq<char>) -> Seq<u8> {
    seq![0x22u8] + escapado(encode_utf8(s)) + seq![0x22u8]
}

/// The head of an object field: the name between quotes, then a colon.
pub open spec fn json_chave(nome: Seq<char>) -> Seq<u8> {
    seq![0x22u8] + encode_utf8(nome) + seq![0x22u8, 0x3au8]
}

/// The items of a list with a comma between each two.
pub open spec fn juntados(itens: Seq<Seq<u8>>) -> Seq<u8>
    decreases itens.len(),
{
    if itens.len() == 0 {
        Seq::empty()
    } else if itens.len() == 1 {
        itens[0]
    } else {
        juntados(itens.drop_last()) + seq![0x2cu8] + itens.last()
    }
}

/// An object field: its head and its encoded value.
pub open spec fn json_campo(nome: Seq<char>, valor: Seq<u8>) -> Seq<u8> {
    json_chave(nome) + valor
}

/// A JSON object of fields that are already encoded, in their order.
pub open spec fn json_objeto(campos: Seq<Seq<u8>>) -> Seq<u8> {
    seq![0x7bu8] + juntados(campos) + seq![0x7du8]
}

/// What stands before an item: nothing before the first, a comma before
/// each other.
pub open spec fn separador(primeiro: bool) -> Seq<u8> {
    if primeiro {
        Seq::empty()
    } else {
        seq![0x2cu8]
    }
}

/// A JSON list of items that are already encoded.
pub open spec fn json_lista(itens: Seq<Seq<u8>>) -> Seq<u8> {
    seq![0x5bu8] + juntados(itens) + seq![0x5du8]
}

/// Appends `bytes` to `saida`.
pub fn anexar(saida: &mut Vec<u8>, bytes: &[u8])
    ensures
        final(saida)@ == old(saida)@ + bytes@,
{
    saida.extend_from_slice(bytes);
    assert(saida@ =~= old(saida)@ + bytes@);
}

/// Appends the decimal digits of `n`.
pub fn escrever_decimal(saida: &mut Vec<u8>, n: u64)
    ensures
        final(saida)@ == old(saida)@ + digitos(n as nat),
    decreases n,
{
    if n >= 10 {
        escrever_decimal(saida, n / 10);
    }
    let d: u8 = (n % 10) as u8;
    saida.push(48 + d);
    assert(saida@ =~= old(saida)@ + digitos(n as nat));
}

/// The lower-case hex digit of `v`.
pub fn hex_de(v: u8) -> (d: u8)
    requires
        v < 16,
    ensures
        d == digito_hex(v),
{
    if v < 10 {
        48 + v
    } else {
        87 + v
    }
}

/// Appends the escape of one byte.
pub fn escrever_escape(saida: &mut Vec<u8>, b: u8)
    ensures
        final(saida)@ == old(saida)@ + escape_de(b),
{
    if b == 0x22 || b == 0x5c {
        saida.push(0x5c);
        saida.push(b);
    } else if b == 0x08 {
        saida.push(0x5c);
        saida.push(0x62);
    } else if b == 0x09 {
        saida.push(0x5c);
        saida.push(0x74);
    } else if b == 0x0a {
        saida.push(0x5c);
        saida.push(0x6e);
    } else if b == 0x0c {
        saida.push(0x5c);
        saida.push(0x66);
    } else if b == 0x0d {
        saida.push(0x5c);
        saida.push(0x72);
    } else if b < 0x20 {
        saida.push(0x5c);
        saida.push(0x75);
        saida.push(0x30);
        saida.push(0x30);
        saida.push(hex_de(b / 16));
        saida.push(hex_de(b % 16));
    } else {
        saida.push(b);
    }
    assert(saida@ =~= old(saida)@ + escape_de(b));
}

/// Appends `s` as a JSON string.
pub fn escrever_texto(saida: &mut Vec<u8>, s: &str)
    ensures
        final(saida)@ == old(saida)@ + json_texto(s@),
{
    let bytes = s.as_bytes();
    saida.push(0x22);
    let ghost base = saida@;
    let mut i: usize = 0;
    while i < bytes.len()
        invariant
            i <= bytes.len(),
            saida@ == base + escapado(bytes@.take(i as int)),
        decreases bytes.len() - i,
    {
        escrever_escape(saida, bytes[i]);
        proof {
            let antes = bytes@.take(i as int);
            let depois = bytes@.take(i + 1);
            assert(depois.drop_last() =~= antes);
            assert(depois.last() == bytes@[i as int]);
            assert(saida@ =~= base + escapado(depois));
        }
        i += 1;
    }
    assert(bytes@.take(bytes.len() as int) =~= bytes@);
    saida.push(0x22);
    assert(saida@ =~= old(saida)@ + json_texto(s@));
}

/// Appends one byte.
pub fn escrever_byte(saida: &mut Vec<u8>, b: u8)
    ensures
        final(saida)@ == old(saida)@ + seq![b],
{
    saida.push(b);
    assert(saida@ =~= old(saida)@ + seq![b]);
}

/// Appends what stands before an object's field: a comma unless it is the
/// first, and the field's head.
pub fn iniciar_campo(saida: &mut Vec<u8>, primeiro: bool, nome: &str)
    ensures
        final(saida)@ == old(saida)@ + separador(primeiro) + json_chave(nome@),
{
    if !primeiro {
        saida.push(0x2c);
    }
    assert(saida@ =~= old(saida)@ + separador(primeiro));
    escrever_chave(saida, nome);
}

/// Appends what stands before a list's item: a comma unless it is the first.
pub fn iniciar_item(saida: &mut Vec<u8>, primeiro: bool)
    ensures
        final(saida)@ == old(saida)@ + separador(primeiro),
{
    if !primeiro {
        saida.push(0x2c);
    }
    assert(saida@ =~= old(saida)@ + separador(primeiro));
}

/// Appends the head of an object field named `nome`.
pub fn escrever_chave(saida: &mut Vec<u8>, nome: &str)
    ensures
        final(saida)@ == old(saida)@ + json_chave(nome@),
{
    saida.push(0x22);
    anexar(saida, nome.as_bytes());
    saida.push(0x22);
    saida.push(0x3a);
    assert(saida@ =~= old(saida)@ + json_chave(nome@));
}

/// Joining one more item: the items so far, a comma unless there were none,
/// then the new item.
pub proof fn lema_juntados_mais_um(itens: Seq<Seq<u8>>, novo: Seq<u8>)
    ensures
        juntados(itens.push(novo)) == if itens.len() == 0 {
            novo
        } else {
            juntados(itens) + seq![0x2cu8] + novo
        },
{
    let com_novo = itens.push(novo);
    assert(com_novo.drop_last() =~= itens);
    assert(com_novo.last() == novo);
}

/// One step of writing an object or a list: after what was written for the
/// items so far, a separator and one more item are what is written for the
/// items with that one added. `abre` is the opening bracket or brace.
pub proof fn lema_mais_um_item(
    base: Seq<u8>,
    abre: Seq<u8>,
    itens: Seq<Seq<u8>>,
    antes: Seq<u8>,
    depois: Seq<u8>,
    novo: Seq<u8>,
)
    requires
        antes == base + abre + juntados(itens),
        depois == antes + separador(itens.len() == 0) + novo,
    ensures
        depois == base + abre + juntados(itens.push(novo)),
{
    lema_juntados_mais_um(itens, novo);
    assert(depois =~= base + abre + juntados(itens.push(novo)));
}

/// As `lema_mais_um_item`, for a field written as its head and then its
/// value.
pub proof fn lema_mais_um_campo(
    base: Seq<u8>,
    campos: Seq<Seq<u8>>,
    antes: Seq<u8>,
    depois: Seq<u8>,
    nome: Seq<char>,
    valor: Seq<u8>,
)
    requires
        antes == base + seq![0x7bu8] + juntados(campos),
        depois == antes + separador(campos.len() == 0) + json_chave(nome) + valor,
    ensures
        depois == base + seq![0x7bu8] + juntados(campos.push(json_campo(nome, valor))),
{
    assert(depois =~= antes + separador(campos.len() == 0) + json_campo(nome, valor));
    lema_mais_um_item(base, seq![0x7bu8], campos, antes, depois, json_campo(nome, valor));
}

/// Closing what was opened at `base`: the brace or bracket goes after the
/// joined items.
pub proof fn lema_fecha(base: Seq<u8>, abre: Seq<u8>, itens: Seq<Seq<u8>>, fecha: Seq<u8>)
    ensures
        base + abre + juntados(itens) + fecha == base + (abre + juntados(itens) + fecha),
{
    assert(base + abre + juntados(itens) + fecha =~= base + (abre + juntados(itens) + fecha));
}

} // verus!
