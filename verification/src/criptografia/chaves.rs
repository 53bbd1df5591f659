//! RSA keys as the big-endian bytes of their numbers, PKCS#1 v1.5 signatures
//! with SHA-256 over them, and the base64 text that a signature travels in.

use vstd::prelude::*;
use vstd::string::*;
use base64::Engine;
use rsa::pkcs8::DecodePrivateKey;
use rsa::pkcs8::DecodePublicKey;
use rsa::signature::SignatureEncoding;
use rsa::signature::Signer;
use rsa::signature::Verifier;
use rsa::traits::PrivateKeyParts;
use rsa::traits::PublicKeyParts;
use crate::utils::texto::{anexar_decimal, texto_decimal};

verus! {

/// The numbers of a public key: modulus and public exponent.
pub struct ChavePublicaV {
    pub modulo: Seq<u8>,
    pub expoente: Seq<u8>,
}

/// The numbers of a two-prime private key.
pub struct ChavePrivadaV {
    pub modulo: Seq<u8>,
    pub expoente_publico: Seq<u8>,
    pub expoente_privado: Seq<u8>,
    pub primo1: Seq<u8>,
    pub primo2: Seq<u8>,
}

impl ChavePrivadaV {
    /// The public half of the key.
    pub open spec fn publica(self) -> ChavePublicaV {
        ChavePublicaV { modulo: self.modulo, expoente: self.expoente_publico }
    }
}

/// The PKCS#1 v1.5 signature with SHA-256 that the key of these numbers puts
/// on `mensagem`; `None` where the numbers are no key or the key is too short
/// for the scheme.
pub uninterp spec fn assinatura_rsa(
    modulo: Seq<u8>,
    expoente_publico: Seq<u8>,
    expoente_privado: Seq<u8>,
    primo1: Seq<u8>,
    primo2: Seq<u8>,
    mensagem: Seq<u8>,
) -> Option<Seq<u8>>;

/// Whether `assinatura` is the PKCS#1 v1.5 signature with SHA-256 of
/// `mensagem` under the public key of these numbers, a key being refused
/// whose modulus has more than `limite_de_bits` bits.
pub uninterp spec fn assinatura_rsa_confere(
    modulo: Seq<u8>,
    expoente: Seq<u8>,
    limite_de_bits: nat,
    mensagem: Seq<u8>,
    assinatura: Seq<u8>,
) -> bool;

/// The numbers of the public key that a PEM text holds, where it holds one.
pub uninterp spec fn publica_do_pem(pem: Seq<char>) -> Option<(Seq<u8>, Seq<u8>)>;

/// The numbers of the private key that a PKCS#8 PEM text holds, where it
/// holds one: modulus, public exponent, private exponent and the two primes.
pub uninterp spec fn privada_do_pem(pem: Seq<char>) -> Option<
    (Seq<u8>, Seq<u8>, Seq<u8>, Seq<u8>, Seq<u8>),
>;

/// The standard base64 text of `bytes`, with padding.
pub uninterp spec fn texto_base64(bytes: Seq<u8>) -> Seq<char>;

/// The bytes that a standard base64 text stands for, where it is one.
pub uninterp spec fn bytes_do_base64(texto: Seq<char>) -> Option<Seq<u8>>;

/// `rsa::pkcs1v15::SigningKey::<Sha256>::try_sign`, on the key that
/// `rsa::RsaPrivateKey::from_components` makes of the numbers. Without a
/// random source the signature is a function of key and message. Before it
/// hands a signature out, the crate raises it to the public exponent and
/// compares with what it signed, which is the test that verification under
/// the same modulus and exponent makes: so a signature that comes out
/// verifies under the key's public half, where no limit is put on the
/// modulus (a private key is held to none).
#[verifier::external_body]
fn rsa_assinar(
    modulo: &[u8],
    expoente_publico: &[u8],
    expoente_privado: &[u8],
    primo1: &[u8],
    primo2: &[u8],
    mensagem: &[u8],
) -> (res: Option<Vec<u8>>)
    ensures
        res is Some <==> assinatura_rsa(
            modulo@,
            expoente_publico@,
            expoente_privado@,
            primo1@,
            primo2@,
            mensagem@,
        ) is Some,
        res matches Some(a) ==> assinatura_rsa(
            modulo@,
            expoente_publico@,
            expoente_privado@,
            primo1@,
            primo2@,
            mensagem@,
        ) == Some(a@) && assinatura_rsa_confere(
            modulo@,
            expoente_publico@,
            usize::MAX as nat,
            mensagem@,
            a@,
        ),
{
    let primos = vec![rsa::BigUint::from_bytes_be(primo1), rsa::BigUint::from_bytes_be(primo2)];
    let n = rsa::BigUint::from_bytes_be(modulo);
    let e = rsa::BigUint::from_bytes_be(expoente_publico);
    let d = rsa::BigUint::from_bytes_be(expoente_privado);
    let chave = rsa::RsaPrivateKey::from_components(n, e, d, primos).ok()?;
    let assinatura = rsa::pkcs1v15::SigningKey::<rsa::sha2::Sha256>::new(chave).try_sign(mensagem);
    assinatura.ok().map(|a| a.to_vec())
}

/// `rsa::pkcs1v15::VerifyingKey::<Sha256>::verify`, on the key that
/// `rsa::RsaPublicKey::new_with_max_size` makes of the numbers and the limit,
/// and on the `Signature` made of the bytes. Numbers that are no key give
/// `false`.
#[verifier::external_body]
fn rsa_verificar(
    modulo: &[u8],
    expoente: &[u8],
    limite_de_bits: usize,
    mensagem: &[u8],
    assinatura: &[u8],
) -> (ok: bool)
    ensures
        ok == assinatura_rsa_confere(
            modulo@,
            expoente@,
            limite_de_bits as nat,
            mensagem@,
            assinatura@,
        ),
{
    let n = rsa::BigUint::from_bytes_be(modulo);
    let e = rsa::BigUint::from_bytes_be(expoente);
    let chave = match rsa::RsaPublicKey::new_with_max_size(n, e, limite_de_bits) {
        Ok(chave) => chave,
        Err(_) => return false,
    };
    let assinatura = match rsa::pkcs1v15::Signature::try_from(assinatura) {
        Ok(assinatura) => assinatura,
        Err(_) => return false,
    };
    rsa::pkcs1v15::VerifyingKey::<rsa::sha2::Sha256>::new(chave).verify(mensagem, &assinatura).is_ok()
}

/// `rsa::RsaPublicKey::from_public_key_pem`, then the key's modulus and
/// exponent as big-endian bytes.
#[verifier::external_body]
fn rsa_publica_do_pem(pem: &str) -> (res: Option<(Vec<u8>, Vec<u8>)>)
    ensures
        res is Some <==> publica_do_pem(pem@) is Some,
        res matches Some(p) ==> publica_do_pem(pem@) == Some((p.0@, p.1@)),
{
    let chave = rsa::RsaPublicKey::from_public_key_pem(pem).ok()?;
    Some((chave.n().to_bytes_be(), chave.e().to_bytes_be()))
}

/// `rsa::RsaPrivateKey::from_pkcs8_pem`, then the key's numbers as
/// big-endian bytes. A key read this way has two primes.
#[verifier::external_body]
fn rsa_privada_do_pem(pem: &str) -> (res: Option<(Vec<u8>, Vec<u8>, Vec<u8>, Vec<u8>, Vec<u8>)>)
    ensures
        res is Some <==> privada_do_pem(pem@) is Some,
        res matches Some(p) ==> privada_do_pem(pem@) == Some((p.0@, p.1@, p.2@, p.3@, p.4@)),
{
    let chave = rsa::RsaPrivateKey::from_pkcs8_pem(pem).ok()?;
    let primo1 = chave.primes().first()?.to_bytes_be();
    let primo2 = chave.primes().get(1)?.to_bytes_be();
    Some((chave.n().to_bytes_be(), chave.e().to_bytes_be(), chave.d().to_bytes_be(), primo1, primo2))
}

/// `base64::engine::general_purpose::STANDARD.encode`. Decoding the text
/// gives the bytes back.
#[verifier::external_body]
fn base64_codificar(bytes: &[u8]) -> (texto: String)
    ensures
        texto@ == texto_base64(bytes@),
        bytes_do_base64(texto@) == Some(bytes@),
{
    base64::engine::general_purpose::STANDARD.encode(bytes)
}

/// `base64::engine::general_purpose::STANDARD.decode`.
#[verifier::external_body]
fn base64_decodificar(texto: &str) -> (res: Option<Vec<u8>>)
    ensures
        res is Some <==> bytes_do_base64(texto@) is Some,
        res matches Some(b) ==> bytes_do_base64(texto@) == Some(b@),
{
    base64::engine::general_purpose::STANDARD.decode(texto).ok()
}

/// The base64 text of `bytes`.
pub fn codificar_base64(bytes: &[u8]) -> (texto: String)
    ensures
        texto@ == texto_base64(bytes@),
        bytes_do_base64(texto@) == Some(bytes@),
{
    base64_codificar(bytes)
}

/// The bytes of a base64 text, or `None` where the text is not base64.
pub fn decodificar_base64(texto: &str) -> (res: Option<Vec<u8>>)
    ensures
        res is Some <==> bytes_do_base64(texto@) is Some,
        res matches Some(b) ==> bytes_do_base64(texto@) == Some(b@),
{
    base64_decodificar(texto)
}

/// A public key by which an authority's blocks are checked.
#[derive(Clone, Debug, PartialEq, Eq)]
pub struct ChavePublica {
    pub modulo: Vec<u8>,
    pub expoente: Vec<u8>,
}

impl View for ChavePublica {
    type V = ChavePublicaV;

    open spec fn view(&self) -> ChavePublicaV {
        ChavePublicaV { modulo: self.modulo@, expoente: self.expoente@ }
    }
}

impl ChavePublica {
    /// Reads a public key from its PEM text (SubjectPublicKeyInfo).
    pub fn de_pem(pem: &str) -> (res: Option<ChavePublica>)
        ensures
            res is Some <==> publica_do_pem(pem@) is Some,
            res matches Some(c) ==> publica_do_pem(pem@) == Some((c@.modulo, c@.expoente)),
    {
        match rsa_publica_do_pem(pem) {
            Some((modulo, expoente)) => Some(ChavePublica { modulo, expoente }),
            None => None,
        }
    }

    /// A copy of the key.
    pub fn copia(&self) -> (res: ChavePublica)
        ensures
            res@ == self@,
    {
        ChavePublica { modulo: copia_de_bytes(&self.modulo), expoente: copia_de_bytes(&self.expoente) }
    }

    /// Whether `assinatura` is this key's signature of `mensagem`. No
    /// limit is put on the size of the key.
    pub fn verificar(&self, mensagem: &[u8], assinatura: &[u8]) -> (ok: bool)
        ensures
            ok == assinatura_confere(self@, mensagem@, assinatura@),
    {
        rsa_verificar(
            self.modulo.as_slice(),
            self.expoente.as_slice(),
            usize::MAX,
            mensagem,
            assinatura,
        )
    }
}

/// A private key with which an authority seals blocks.
#[derive(Clone, Debug, PartialEq, Eq)]
pub struct ChavePrivada {
    pub modulo: Vec<u8>,
    pub expoente_publico: Vec<u8>,
    pub expoente_privado: Vec<u8>,
    pub primo1: Vec<u8>,
    pub primo2: Vec<u8>,
}

impl View for ChavePrivada {
    type V = ChavePrivadaV;

    open spec fn view(&self) -> ChavePrivadaV {
        ChavePrivadaV {
            modulo: self.modulo@,
            expoente_publico: self.expoente_publico@,
            expoente_privado: self.expoente_privado@,
            primo1: self.primo1@,
            primo2: self.primo2@,
        }
    }
}

/// What signing `mensagem` with `chave` gives.
pub open spec fn assinatura_de(chave: ChavePrivadaV, mensagem: Seq<u8>) -> Option<Seq<u8>> {
    assinatura_rsa(
        chave.modulo,
        chave.expoente_publico,
        chave.expoente_privado,
        chave.primo1,
        chave.primo2,
        mensagem,
    )
}

/// Whether `assinatura` verifies as `chave`'s signature of `mensagem`.
pub open spec fn assinatura_confere(
    chave: ChavePublicaV,
    mensagem: Seq<u8>,
    assinatura: Seq<u8>,
) -> bool {
    assinatura_rsa_confere(chave.modulo, chave.expoente, usize::MAX as nat, mensagem, assinatura)
}

impl ChavePrivada {
    /// Reads a private key from its PKCS#8 PEM text.
    pub fn de_pem(pem: &str) -> (res: Option<ChavePrivada>)
        ensures
            res is Some <==> privada_do_pem(pem@) is Some,
            res matches Some(c) ==> privada_do_pem(pem@) == Some(
                (
                    c@.modulo,
                    c@.expoente_publico,
                    c@.expoente_privado,
                    c@.primo1,
                    c@.primo2,
                ),
            ),
    {
        match rsa_privada_do_pem(pem) {
            Some((modulo, expoente_publico, expoente_privado, primo1, primo2)) => Some(
                ChavePrivada { modulo, expoente_publico, expoente_privado, primo1, primo2 },
            ),
            None => None,
        }
    }

    /// The public half of the key.
    pub fn chave_publica(&self) -> (res: ChavePublica)
        ensures
            res@ == self@.publica(),
    {
        ChavePublica {
            modulo: copia_de_bytes(&self.modulo),
            expoente: copia_de_bytes(&self.expoente_publico),
        }
    }

    /// Signs `mensagem`. A signature that comes out verifies under the
    /// key's public half.
    pub fn assinar(&self, mensagem: &[u8]) -> (res: Option<Vec<u8>>)
        ensures
            res is Some <==> assinatura_de(self@, mensagem@) is Some,
            res matches Some(a) ==> assinatura_de(self@, mensagem@) == Some(a@)
                && assinatura_confere(self@.publica(), mensagem@, a@),
    {
        rsa_assinar(
            self.modulo.as_slice(),
            self.expoente_publico.as_slice(),
            self.expoente_privado.as_slice(),
            self.primo1.as_slice(),
            self.primo2.as_slice(),
            mensagem,
        )
    }
}

/// Where the private key of the authority `id_autoridade` is kept:
/// `chaves_privadas/autoridade_<id>.pem`.
pub open spec fn caminho_da_chave(id_autoridade: u32) -> Seq<char> {
    "chaves_privadas/autoridade_"@ + texto_decimal(id_autoridade as nat) + ".pem"@
}

/// The path of the file that holds the private key of an authority.
pub fn caminho_da_chave_privada(id_autoridade: u32) -> (res: String)
    ensures
        res@ == caminho_da_chave(id_autoridade),
{
    let mut res = "chaves_privadas/autoridade_".to_owned();
    anexar_decimal(&mut res, id_autoridade as u64);
    res.append(".pem");
    res
}

/// A copy of a byte vector.
pub fn copia_de_bytes(bytes: &Vec<u8>) -> (res: Vec<u8>)
    ensures
        res@ == bytes@,
{
    let mut res: Vec<u8> = Vec::new();
    let mut i: usize = 0;
    while i < bytes.len()
        invariant
            i <= bytes.len(),
            res@ == bytes@.take(i as int),
        decreases bytes.len() - i,
    {
        res.push(bytes[i]);
        assert(res@ =~= bytes@.take(i + 1));
        i += 1;
    }
    assert(bytes@.take(bytes.len() as int) =~= bytes@);
    res
}

} // verus!
