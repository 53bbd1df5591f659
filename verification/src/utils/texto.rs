//! Reading a number out of its decimal text, as the console and the
//! configuration give it.

use vstd::prelude::*;
use vstd::string::*;
use crate::criptografia::resumo::{caractere_hex, digito_hex_str};

verus! {

/// Whether `b` is an ASCII digit.
pub open spec fn eh_digito(b: u8) -> bool {
    48 <= b <= 57
}

/// Whether every byte of `d` is an ASCII digit.
pub open spec fn so_digitos(d: Seq<u8>) -> bool {
    forall|i: int| 0 <= i < d.len() ==> eh_digito(#[trigger] d[i])
}

/// The number that the digits `d` write in base ten.
pub open spec fn valor_decimal(d: Seq<u8>) -> nat
    decreases d.len(),
{
    if d.len() == 0 {
        0
    } else {
        valor_decimal(d.drop_last()) * 10 + (d.last() - 48) as nat
    }
}

/// The number that `d` writes, where `d` is one or more digits and the
/// number is at most `limite`.
pub open spec fn numero_ate(d: Seq<u8>, limite: nat) -> Option<nat> {
    if d.len() > 0 && so_digitos(d) && valor_decimal(d) <= limite {
        Some(valor_decimal(d))
    } else {
        None
    }
}

/// Whether the text begins with a plus sign.
pub open spec fn tem_mais(s: Seq<u8>) -> bool {
    s.len() > 0 && s[0] == 43
}

/// Whether the text begins with a minus sign.
pub open spec fn tem_menos(s: Seq<u8>) -> bool {
    s.len() > 0 && s[0] == 45
}

/// The `u32` that a text names: one or more digits, after a plus sign or
/// none, whose number fits. Any other text names none.
pub open spec fn u32_do_texto(s: Seq<u8>) -> Option<u32> {
    let d = if tem_mais(s) {
        s.skip(1)
    } else {
        s
    };
    match numero_ate(d, 0xffff_ffff) {
        Some(v) => Some(v as u32),
        None => None,
    }
}

/// The `u8` that a text names, read as a `u32` is.
pub open spec fn u8_do_texto(s: Seq<u8>) -> Option<u8> {
    let d = if tem_mais(s) {
        s.skip(1)
    } else {
        s
    };
    match numero_ate(d, 0xff) {
        Some(v) => Some(v as u8),
        None => None,
    }
}

/// The `i32` that a text names: one or more digits, after a plus sign, a
/// minus sign or none, whose number fits.
pub open spec fn i32_do_texto(s: Seq<u8>) -> Option<i32> {
    if tem_menos(s) {
        match numero_ate(s.skip(1), 0x8000_0000) {
            Some(v) => Some((-v) as i32),
            None => None,
        }
    } else {
        let d = if tem_mais(s) {
            s.skip(1)
        } else {
            s
        };
        match numero_ate(d, 0x7fff_ffff) {
            Some(v) => Some(v as i32),
            None => None,
        }
    }
}

/// The decimal text of `n`, most significant digit first, with no leading
/// zero.
pub open spec fn texto_decimal(n: nat) -> Seq<char>
    decreases n,
{
    if n < 10 {
        seq![caractere_hex(n as u8)]
    } else {
        texto_decimal(n / 10).push(caractere_hex((n % 10) as u8))
    }
}

/// Appends the decimal text of `n`.
pub fn anexar_decimal(saida: &mut String, n: u64)
    ensures
        final(saida)@ == old(saida)@ + texto_decimal(n as nat),
    decreases n,
{
    if n >= 10 {
        anexar_decimal(saida, n / 10);
    }
    saida.append(digito_hex_str((n % 10) as u8));
    assert(saida@ =~= old(saida)@ + texto_decimal(n as nat));
}

/// Digits written after a number do not make it smaller.
pub proof fn lema_valor_prefixo(d: Seq<u8>, k: int)
    requires
        so_digitos(d),
        0 <= k <= d.len(),
    ensures
        valor_decimal(d.take(k)) <= valor_decimal(d),
    decreases d.len(),
{
    if k == d.len() {
        assert(d.take(k) =~= d);
    } else {
        let menos = d.drop_last();
        assert(menos.take(k) =~= d.take(k));
        assert(eh_digito(d[d.len() - 1]));
        lema_valor_prefixo(menos, k);
    }
}

/// Reads the digits of `bytes` from `inicio` on as a number of at most
/// `limite`.
pub fn analisar_digitos(bytes: &[u8], inicio: usize, limite: u64) -> (res: Option<u64>)
    requires
        inicio <= bytes@.len(),
        limite <= 0xffff_ffff_ffff,
    ensures
        match numero_ate(bytes@.skip(inicio as int), limite as nat) {
            Some(v) => res == Some(v as u64),
            None => res is None,
        },
{
    let ghost d = bytes@.skip(inicio as int);
    if inicio == bytes.len() {
        return None;
    }
    let mut acc: u64 = 0;
    let mut i: usize = inicio;
    while i < bytes.len()
        invariant
            inicio <= i <= bytes.len(),
            limite <= 0xffff_ffff_ffff,
            d == bytes@.skip(inicio as int),
            d.len() > 0,
            so_digitos(d.take(i - inicio)),
            acc == valor_decimal(d.take(i - inicio)),
            acc <= limite,
        decreases bytes.len() - i,
    {
        let b = bytes[i];
        if b < 48 || b > 57 {
            assert(!eh_digito(d[i - inicio]));
            return None;
        }
        let ghost antes = d.take(i - inicio);
        let ghost depois = d.take(i - inicio + 1);
        proof {
            assert(depois.drop_last() =~= antes);
            assert(depois.last() == b);
            assert forall|j: int| 0 <= j < depois.len() implies eh_digito(#[trigger] depois[j]) by {
                if j < antes.len() {
                    assert(eh_digito(antes[j]));
                }
            }
        }
        acc = acc * 10 + (b - 48) as u64;
        if acc > limite {
            proof {
                if so_digitos(d) {
                    lema_valor_prefixo(d, i - inicio + 1);
                }
            }
            return None;
        }
        i += 1;
    }
    assert(d.take(bytes.len() - inicio) =~= d);
    Some(acc)
}

/// Reads a `u32` as `str::parse` does: decimal digits, after a plus sign or
/// none.
pub fn analisar_u32(texto: &str) -> (res: Option<u32>)
    ensures
        res == u32_do_texto(texto.spec_bytes()),
{
    let bytes = texto.as_bytes();
    let inicio: usize = if bytes.len() > 0 && bytes[0] == 43 {
        1
    } else {
        0
    };
    assert(bytes@.skip(0) =~= bytes@);
    match analisar_digitos(bytes, inicio, 0xffff_ffff) {
        Some(v) => Some(v as u32),
        None => None,
    }
}

/// Reads a `u8` as `str::parse` does.
pub fn analisar_u8(texto: &str) -> (res: Option<u8>)
    ensures
        res == u8_do_texto(texto.spec_bytes()),
{
    let bytes = texto.as_bytes();
    let inicio: usize = if bytes.len() > 0 && bytes[0] == 43 {
        1
    } else {
        0
    };
    assert(bytes@.skip(0) =~= bytes@);
    match analisar_digitos(bytes, inicio, 0xff) {
        Some(v) => Some(v as u8),
        None => None,
    }
}

/// Reads an `i32` as `str::parse` does: decimal digits, after a plus sign, a
/// minus sign or none.
pub fn analisar_i32(texto: &str) -> (res: Option<i32>)
    ensures
        res == i32_do_texto(texto.spec_bytes()),
{
    let bytes = texto.as_bytes();
    if bytes.len() > 0 && bytes[0] == 45 {
        match analisar_digitos(bytes, 1, 0x8000_0000) {
            Some(v) => {
                if v == 0x8000_0000 {
                    Some(i32::MIN)
                } else {
                    Some(-(v as i32))
                }
            },
            None => None,
        }
    } else {
        let inicio: usize = if bytes.len() > 0 && bytes[0] == 43 {
            1
        } else {
            0
        };
        assert(bytes@.skip(0) =~= bytes@);
        match analisar_digitos(bytes, inicio, 0x7fff_ffff) {
            Some(v) => Some(v as i32),
            None => None,
        }
    }
}

} // verus!
