//! SHA-256 digests and their lower-case hex text.

use vstd::prelude::*;
use vstd::string::*;
use sha2::Digest;

verus! {

/// The SHA-256 digest of `dados`.
pub uninterp spec fn sha256(dados: Seq<u8>) -> Seq<u8>;

/// `sha2::Sha256::digest`: the digest of the bytes, which has 32 bytes.
#[verifier::external_body]
fn sha2_resumo(dados: &[u8]) -> (resumo: Vec<u8>)
    ensures
        resumo@ == sha256(dados@),
        resumo@.len() == 32,
{
    sha2::Sha256::digest(dados).to_vec()
}

/// The lower-case hex digit of a value below 16, as a character.
pub open spec fn caractere_hex(v: u8) -> char {
    if v == 0 {
        '0'
    } else if v == 1 {
        '1'
    } else if v == 2 {
        '2'
    } else if v == 3 {
        '3'
    } else if v == 4 {
        '4'
    } else if v == 5 {
        '5'
    } else if v == 6 {
        '6'
    } else if v == 7 {
        '7'
    } else if v == 8 {
        '8'
    } else if v == 9 {
        '9'
    } else if v == 10 {
        'a'
    } else if v == 11 {
        'b'
    } else if v == 12 {
        'c'
    } else if v == 13 {
        'd'
    } else if v == 14 {
        'e'
    } else {
        'f'
    }
}

/// The hex text of `bytes`: two lower-case digits for each byte, the high
/// half first.
pub open spec fn texto_hex(bytes: Seq<u8>) -> Seq<char>
    decreases bytes.len(),
{
    if bytes.len() == 0 {
        Seq::empty()
    } else {
        texto_hex(bytes.drop_last()).push(caractere_hex(bytes.last() / 16)).push(
            caractere_hex(bytes.last() % 16),
        )
    }
}

/// The hex text of the SHA-256 digest of `dados`: what a block's hash holds.
pub open spec fn sha256_hex(dados: Seq<u8>) -> Seq<char> {
    texto_hex(sha256(dados))
}

/// The hex text has two characters for each byte.
pub proof fn lema_texto_hex_len(bytes: Seq<u8>)
    ensures
        texto_hex(bytes).len() == 2 * bytes.len(),
    decreases bytes.len(),
{
    if bytes.len() > 0 {
        lema_texto_hex_len(bytes.drop_last());
    }
}

/// The one-character text of a hex digit.
pub fn digito_hex_str(v: u8) -> (s: &'static str)
    requires
        v < 16,
    ensures
        s@ == seq![caractere_hex(v)],
{
    proof {
        reveal_strlit("0");
        reveal_strlit("1");
        reveal_strlit("2");
        reveal_strlit("3");
        reveal_strlit("4");
        reveal_strlit("5");
        reveal_strlit("6");
        reveal_strlit("7");
        reveal_strlit("8");
        reveal_strlit("9");
        reveal_strlit("a");
        reveal_strlit("b");
        reveal_strlit("c");
        reveal_strlit("d");
        reveal_strlit("e");
        reveal_strlit("f");
    }
    let s = if v == 0 {
        "0"
    } else if v == 1 {
        "1"
    } else if v == 2 {
        "2"
    } else if v == 3 {
        "3"
    } else if v == 4 {
        "4"
    } else if v == 5 {
        "5"
    } else if v == 6 {
        "6"
    } else if v == 7 {
        "7"
    } else if v == 8 {
        "8"
    } else if v == 9 {
        "9"
    } else if v == 10 {
        "a"
    } else if v == 11 {
        "b"
    } else if v == 12 {
        "c"
    } else if v == 13 {
        "d"
    } else if v == 14 {
        "e"
    } else {
        "f"
    };
    assert(s@ =~= seq![caractere_hex(v)]);
    s
}

/// Writes `bytes` as lower-case hex.
pub fn hex_minusculo(bytes: &[u8]) -> (res: String)
    ensures
        res@ == texto_hex(bytes@),
{
    let mut res = String::new();
    let mut i: usize = 0;
    while i < bytes.len()
        invariant
            i <= bytes.len(),
            res@ == texto_hex(bytes@.take(i as int)),
        decreases bytes.len() - i,
    {
        let b = bytes[i];
        res.append(digito_hex_str(b / 16));
        res.append(digito_hex_str(b % 16));
        proof {
            let depois = bytes@.take(i + 1);
            assert(depois.drop_last() =~= bytes@.take(i as int));
            assert(depois.last() == b);
            assert(res@ =~= texto_hex(depois));
        }
        i += 1;
    }
    assert(bytes@.take(bytes.len() as int) =~= bytes@);
    res
}

/// The SHA-256 digest of `dados`, 32 bytes.
pub fn resumo_sha256(dados: &[u8]) -> (resumo: Vec<u8>)
    ensures
        resumo@ == sha256(dados@),
        resumo@.len() == 32,
{
    sha2_resumo(dados)
}

/// The hex text of the SHA-256 digest of `dados`, 64 characters.
pub fn resumo_sha256_hex(dados: &[u8]) -> (res: String)
    ensures
        res@ == sha256_hex(dados@),
        res@.len() == 64,
{
    let resumo = sha2_resumo(dados);
    proof {
        lema_texto_hex_len(resumo@);
    }
    hex_minusculo(resumo.as_slice())
}

} // verus!
