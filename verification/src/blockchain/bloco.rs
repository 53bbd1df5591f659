//! The block: what it holds, the text that its hash is taken of, the bytes
//! that an authority signs, and how a signature is made and checked.

use vstd::prelude::*;
use vstd::string::*;
use vstd::utf8::encode_utf8;
use crate::blockchain::transacao::{
    copia_de_transacoes, escrever_transacoes, json_transacoes, Transacao, TransacaoV,
};
use crate::criptografia::chaves::{
    assinatura_confere, assinatura_de, bytes_do_base64, codificar_base64, decodificar_base64,
    texto_base64, ChavePrivada, ChavePrivadaV, ChavePublicaV,
};
use crate::criptografia::resumo::{resumo_sha256_hex, sha256_hex};
use crate::utils::config::Config;
use crate::utils::erros::BlocoErro;
use crate::utils::json::{
    anexar, digitos, escrever_byte, escrever_decimal, escrever_texto, iniciar_campo, json_campo,
    json_objeto, json_texto, juntados, lema_fecha, lema_mais_um_campo,
};
use crate::utils::tempo::{texto_do_instante, Instante};

verus! {

/// What a block holds.
pub struct BlocoV {
    pub indice: u32,
    pub hash_anterior: Seq<char>,
    pub hash_atual: Seq<char>,
    pub timestamp: Instante,
    pub transacoes: Seq<TransacaoV>,
    pub id_autoridade: u32,
    pub assinatura_autoridade: Seq<char>,
}

/// A block of the chain: a batch of transactions, linked to the block
/// before it by that block's hash and signed by an authority.
#[derive(Clone, Debug, PartialEq, Eq)]
pub struct Bloco {
    pub indice: u32,
    pub hash_anterior: String,
    pub hash_atual: String,
    pub timestamp: Instante,
    pub transacoes: Vec<Transacao>,
    pub id_autoridade: u32,
    pub assinatura_autoridade: String,
}

impl DeepView for Bloco {
    type V = BlocoV;

    open spec fn deep_view(&self) -> BlocoV {
        BlocoV {
            indice: self.indice,
            hash_anterior: self.hash_anterior@,
            hash_atual: self.hash_atual@,
            timestamp: self.timestamp,
            transacoes: self.transacoes.deep_view(),
            id_autoridade: self.id_autoridade,
            assinatura_autoridade: self.assinatura_autoridade@,
        }
    }
}

impl View for Bloco {
    type V = BlocoV;

    open spec fn view(&self) -> BlocoV {
        self.deep_view()
    }
}

/// The canonical encoding of a block: an object of its seven fields in the
/// order of their declaration.
#[verifier::opaque]
pub open spec fn json_bloco(b: BlocoV) -> Seq<u8> {
    json_objeto(
        seq![
            json_campo("indice"@, digitos(b.indice as nat)),
            json_campo("hash_anterior"@, json_texto(b.hash_anterior)),
            json_campo("hash_atual"@, json_texto(b.hash_atual)),
            json_campo("timestamp"@, b.timestamp.json()),
            json_campo("transacoes"@, json_transacoes(b.transacoes)),
            json_campo("id_autoridade"@, digitos(b.id_autoridade as nat)),
            json_campo("assinatura_autoridade"@, json_texto(b.assinatura_autoridade)),
        ],
    )
}

/// The block with its hash cleared.
pub open spec fn sem_hash(b: BlocoV) -> BlocoV {
    BlocoV { hash_atual: Seq::empty(), ..b }
}

/// The block with its signature cleared.
pub open spec fn sem_assinatura(b: BlocoV) -> BlocoV {
    BlocoV { assinatura_autoridade: Seq::empty(), ..b }
}

/// The hash of a block as it stands: the hex SHA-256 of its canonical
/// encoding with the hash cleared, not left out.
pub open spec fn hash_do_bloco(b: BlocoV) -> Seq<char> {
    sha256_hex(json_bloco(sem_hash(b)))
}

/// The hash that the block had when it was sealed. A block is hashed before
/// it is signed, so this is the hash of the block without its signature.
pub open spec fn hash_de_selagem(b: BlocoV) -> Seq<char> {
    hash_do_bloco(sem_assinatura(b))
}

/// Whether the block's hash is the one that it was sealed with.
pub open spec fn integro(b: BlocoV) -> bool {
    b.hash_atual == hash_de_selagem(b)
}

/// The bytes that an authority signs: the index in decimal, the previous
/// hash, the block's hash, the instant in RFC 3339 and the canonical
/// encoding of the list of transactions, with nothing between them.
pub open spec fn dados_assinados(b: BlocoV) -> Seq<u8> {
    digitos(b.indice as nat) + encode_utf8(b.hash_anterior) + encode_utf8(b.hash_atual)
        + encode_utf8(
        texto_do_instante(b.timestamp.spec_segundos() as int, b.timestamp.spec_nanos() as int),
    ) + json_transacoes(b.transacoes)
}

/// The block made ready for the authority `id_autoridade` to sign: the
/// authority set, the signature cleared, and the hash taken of that.
pub open spec fn preparado(b: BlocoV, id_autoridade: u32) -> BlocoV {
    let limpo = BlocoV {
        id_autoridade,
        hash_atual: Seq::empty(),
        assinatura_autoridade: Seq::empty(),
        ..b
    };
    BlocoV { hash_atual: hash_do_bloco(limpo), ..limpo }
}

/// The block sealed by the authority `id_autoridade` with `chave`: made
/// ready, and its signature set to the base64 text of what the key signs;
/// `None` where the key signs nothing.
pub open spec fn selado(b: BlocoV, chave: ChavePrivadaV, id_autoridade: u32) -> Option<BlocoV> {
    let pronto = preparado(b, id_autoridade);
    match assinatura_de(chave, dados_assinados(pronto)) {
        Some(assinatura) => Some(
            BlocoV { assinatura_autoridade: texto_base64(assinatura), ..pronto },
        ),
        None => None,
    }
}

/// Whether the block's signature is base64 text of a signature that
/// verifies under `chave` for the bytes that the block gives to sign.
pub open spec fn assinado_por(b: BlocoV, chave: ChavePublicaV) -> bool {
    match bytes_do_base64(b.assinatura_autoridade) {
        Some(assinatura) => assinatura_confere(chave, dados_assinados(b), assinatura),
        None => false,
    }
}

/// What checking the block's signature against a registry gives.
pub open spec fn verificacao(b: BlocoV, registro: Map<u32, ChavePublicaV>) -> Result<(), BlocoErro> {
    if !registro.contains_key(b.id_autoridade) {
        Err(BlocoErro::AutoridadeDesconhecida)
    } else if assinado_por(b, registro[b.id_autoridade]) {
        Ok(())
    } else {
        Err(BlocoErro::AssinaturaInvalida)
    }
}

/// Two blocks that hold the same have the same hash: the hash is taken of
/// what a block holds and of nothing else.
pub proof fn lema_hash_do_que_o_bloco_guarda(a: Bloco, b: Bloco)
    requires
        a@ == b@,
    ensures
        hash_do_bloco(a@) == hash_do_bloco(b@),
        hash_de_selagem(a@) == hash_de_selagem(b@),
        integro(a@) == integro(b@),
{
}

/// A block whose signature verifies under a key passes the check against
/// every registry that holds that key for the block's authority.
pub proof fn lema_assinado_verifica(b: BlocoV, chave: ChavePublicaV, registro: Map<u32, ChavePublicaV>)
    requires
        assinado_por(b, chave),
        registro.contains_key(b.id_autoridade),
        registro[b.id_autoridade] == chave,
    ensures
        verificacao(b, registro) == Ok::<(), BlocoErro>(()),
{
}

/// A block made ready to be signed has the hash that it is sealed with,
/// whatever signature is put on it after.
pub proof fn lema_preparado_integro(b: BlocoV, id_autoridade: u32, assinatura: Seq<char>)
    ensures
        integro(BlocoV { assinatura_autoridade: assinatura, ..preparado(b, id_autoridade) }),
{
    let pronto = preparado(b, id_autoridade);
    let assinado = BlocoV { assinatura_autoridade: assinatura, ..pronto };
    assert(sem_hash(sem_assinatura(assinado)) == sem_hash(sem_assinatura(pronto)));
}

impl Bloco {
    /// A block not yet hashed or signed, made at `timestamp` or, where none
    /// is given, at the instant that the system clock shows.
    pub fn novo_bloco(
        indice: u32,
        hash_anterior: String,
        transacoes: Vec<Transacao>,
        timestamp: Option<Instante>,
    ) -> (res: Bloco)
        ensures
            res@ == (BlocoV {
                indice,
                hash_anterior: hash_anterior@,
                hash_atual: Seq::empty(),
                timestamp: res@.timestamp,
                transacoes: transacoes.deep_view(),
                id_autoridade: 0,
                assinatura_autoridade: Seq::empty(),
            }),
            timestamp matches Some(t) ==> res@.timestamp == t,
            timestamp is None ==> res@.timestamp.lido_do_relogio(),
    {
        let timestamp = match timestamp {
            Some(t) => t,
            None => Instante::agora(),
        };
        Bloco {
            indice,
            hash_anterior,
            hash_atual: String::new(),
            timestamp,
            transacoes,
            id_autoridade: 0,
            assinatura_autoridade: String::new(),
        }
    }

    /// A copy of the block.
    pub fn copia(&self) -> (res: Bloco)
        ensures
            res@ == self@,
    {
        Bloco {
            indice: self.indice,
            hash_anterior: self.hash_anterior.clone(),
            hash_atual: self.hash_atual.clone(),
            timestamp: self.timestamp,
            transacoes: copia_de_transacoes(&self.transacoes),
            id_autoridade: self.id_autoridade,
            assinatura_autoridade: self.assinatura_autoridade.clone(),
        }
    }

    /// Appends the canonical encoding of the block with the given hash,
    /// authority and signature in place of its own.
    fn escrever_json_com(
        &self,
        saida: &mut Vec<u8>,
        hash_atual: &str,
        id_autoridade: u32,
        assinatura: &str,
    )
        ensures
            final(saida)@ == old(saida)@ + json_bloco(
                BlocoV {
                    hash_atual: hash_atual@,
                    id_autoridade,
                    assinatura_autoridade: assinatura@,
                    ..self@
                },
            ),
    {
        let ghost base = saida@;
        let ghost mut campos: Seq<Seq<u8>> = Seq::empty();
        escrever_byte(saida, 0x7b);
        assert(saida@ =~= base + seq![0x7bu8] + juntados(campos));

        let ghost antes = saida@;
        iniciar_campo(saida, true, "indice");
        escrever_decimal(saida, self.indice as u64);
        proof {
            let valor = digitos(self.indice as nat);
            lema_mais_um_campo(base, campos, antes, saida@, "indice"@, valor);
            campos = campos.push(json_campo("indice"@, valor));
        }

        let ghost antes = saida@;
        iniciar_campo(saida, false, "hash_anterior");
        escrever_texto(saida, self.hash_anterior.as_str());
        proof {
            let valor = json_texto(self.hash_anterior@);
            lema_mais_um_campo(base, campos, antes, saida@, "hash_anterior"@, valor);
            campos = campos.push(json_campo("hash_anterior"@, valor));
        }

        let ghost antes = saida@;
        iniciar_campo(saida, false, "hash_atual");
        escrever_texto(saida, hash_atual);
        proof {
            let valor = json_texto(hash_atual@);
            lema_mais_um_campo(base, campos, antes, saida@, "hash_atual"@, valor);
            campos = campos.push(json_campo("hash_atual"@, valor));
        }

        let ghost antes = saida@;
        iniciar_campo(saida, false, "timestamp");
        self.timestamp.escrever_json(saida);
        proof {
            let valor = self.timestamp.json();
            lema_mais_um_campo(base, campos, antes, saida@, "timestamp"@, valor);
            campos = campos.push(json_campo("timestamp"@, valor));
        }

        let ghost antes = saida@;
        iniciar_campo(saida, false, "transacoes");
        escrever_transacoes(&self.transacoes, saida);
        proof {
            let valor = json_transacoes(self.transacoes.deep_view());
            lema_mais_um_campo(base, campos, antes, saida@, "transacoes"@, valor);
            campos = campos.push(json_campo("transacoes"@, valor));
        }

        let ghost antes = saida@;
        iniciar_campo(saida, false, "id_autoridade");
        escrever_decimal(saida, id_autoridade as u64);
        proof {
            let valor = digitos(id_autoridade as nat);
            lema_mais_um_campo(base, campos, antes, saida@, "id_autoridade"@, valor);
            campos = campos.push(json_campo("id_autoridade"@, valor));
        }

        let ghost antes = saida@;
        iniciar_campo(saida, false, "assinatura_autoridade");
        escrever_texto(saida, assinatura);
        proof {
            let valor = json_texto(assinatura@);
            lema_mais_um_campo(base, campos, antes, saida@, "assinatura_autoridade"@, valor);
            campos = campos.push(json_campo("assinatura_autoridade"@, valor));
        }

        escrever_byte(saida, 0x7d);
        proof {
            reveal(json_bloco);
            lema_fecha(base, seq![0x7bu8], campos, seq![0x7du8]);
            assert(campos =~= seq![
                json_campo("indice"@, digitos(self.indice as nat)),
                json_campo("hash_anterior"@, json_texto(self.hash_anterior@)),
                json_campo("hash_atual"@, json_texto(hash_atual@)),
                json_campo("timestamp"@, self.timestamp.json()),
                json_campo("transacoes"@, json_transacoes(self.transacoes.deep_view())),
                json_campo("id_autoridade"@, digitos(id_autoridade as nat)),
                json_campo("assinatura_autoridade"@, json_texto(assinatura@)),
            ]);
        }
    }

    /// Appends the block's canonical encoding.
    pub fn escrever_json(&self, saida: &mut Vec<u8>)
        ensures
            final(saida)@ == old(saida)@ + json_bloco(self@),
    {
        self.escrever_json_com(
            saida,
            self.hash_atual.as_str(),
            self.id_autoridade,
            self.assinatura_autoridade.as_str(),
        );
    }

    /// The hash taken of the block with the given authority and signature
    /// in place of its own.
    fn hash_com(&self, id_autoridade: u32, assinatura: &str) -> (res: String)
        ensures
            res@ == hash_do_bloco(
                BlocoV { id_autoridade, assinatura_autoridade: assinatura@, ..self@ },
            ),
            res@.len() == 64,
    {
        proof {
            reveal_strlit("");
        }
        let mut texto: Vec<u8> = Vec::new();
        self.escrever_json_com(&mut texto, "", id_autoridade, assinatura);
        assert(""@ =~= Seq::<char>::empty());
        assert(texto@ =~= json_bloco(
            sem_hash(BlocoV { id_autoridade, assinatura_autoridade: assinatura@, ..self@ }),
        ));
        resumo_sha256_hex(texto.as_slice())
    }

    /// The block's hash as the block stands: 64 hex digits.
    pub fn calcular_hash(&self) -> (res: String)
        ensures
            res@ == hash_do_bloco(self@),
            res@.len() == 64,
    {
        self.hash_com(self.id_autoridade, self.assinatura_autoridade.as_str())
    }

    /// The hash that the block had when it was sealed.
    pub fn calcular_hash_de_selagem(&self) -> (res: String)
        ensures
            res@ == hash_de_selagem(self@),
            res@.len() == 64,
    {
        proof {
            reveal_strlit("");
        }
        assert(""@ =~= Seq::<char>::empty());
        self.hash_com(self.id_autoridade, "")
    }

    /// Whether the block's hash is the one that it was sealed with.
    pub fn esta_integro(&self) -> (res: bool)
        ensures
            res == integro(self@),
    {
        let esperado = self.calcular_hash_de_selagem();
        self.hash_atual == esperado
    }

    /// The bytes to sign, of the block with the given hash in place of its
    /// own.
    fn dados_com(&self, hash_atual: &str) -> (res: Vec<u8>)
        ensures
            res@ == dados_assinados(BlocoV { hash_atual: hash_atual@, ..self@ }),
    {
        let mut dados: Vec<u8> = Vec::new();
        escrever_decimal(&mut dados, self.indice as u64);
        anexar(&mut dados, self.hash_anterior.as_str().as_bytes());
        anexar(&mut dados, hash_atual.as_bytes());
        let instante = self.timestamp.texto();
        anexar(&mut dados, instante.as_str().as_bytes());
        escrever_transacoes(&self.transacoes, &mut dados);
        assert(dados@ =~= dados_assinados(BlocoV { hash_atual: hash_atual@, ..self@ }));
        dados
    }

    /// The bytes that an authority signs for this block.
    pub fn dados_para_assinar(&self) -> (res: Vec<u8>)
        ensures
            res@ == dados_assinados(self@),
    {
        self.dados_com(self.hash_atual.as_str())
    }

    /// Seals the block for the authority `id_autoridade`: sets the
    /// authority, takes the hash of the block without a signature, signs and
    /// sets the signature. Where the key signs nothing the block is left as
    /// it was. A sealed block is whole, and its signature verifies under the
    /// key's public half.
    pub fn assinar_bloco(&mut self, chave_privada: &ChavePrivada, id_autoridade: u32) -> (res: Result<
        (),
        BlocoErro,
    >)
        ensures
            match selado(old(self)@, chave_privada@, id_autoridade) {
                Some(b) => res is Ok && final(self)@ == b,
                None => res == Err::<(), BlocoErro>(BlocoErro::AssinaturaInvalida) && final(self)@
                    == old(self)@,
            },
            res is Ok ==> integro(final(self)@),
            res is Ok ==> assinado_por(final(self)@, chave_privada@.publica()),
    {
        proof {
            reveal_strlit("");
        }
        assert(""@ =~= Seq::<char>::empty());
        let hash = self.hash_com(id_autoridade, "");
        let dados = self.dados_com(hash.as_str());
        let ghost pronto = preparado(self@, id_autoridade);
        assert(dados@ == dados_assinados(pronto));
        match chave_privada.assinar(dados.as_slice()) {
            Some(assinatura) => {
                let texto = codificar_base64(assinatura.as_slice());
                self.id_autoridade = id_autoridade;
                self.hash_atual = hash;
                self.assinatura_autoridade = texto;
                proof {
                    let b = self@;
                    assert(b == BlocoV { assinatura_autoridade: texto_base64(assinatura@), ..pronto });
                    assert(dados_assinados(b) == dados_assinados(pronto));
                    lema_preparado_integro(old(self)@, id_autoridade, texto_base64(assinatura@));
                }
                Ok(())
            },
            None => Err(BlocoErro::AssinaturaInvalida),
        }
    }

    /// Checks the block's signature against the registry: the authority
    /// must be known, the signature base64, and it must verify under the
    /// authority's key for the bytes that the block gives to sign.
    pub fn verificar_assinatura(&self, config: &Config) -> (res: Result<(), BlocoErro>)
        ensures
            res == verificacao(self@, config@),
    {
        let chave_publica = match config.obter_chave_publica(self.id_autoridade) {
            Some(chave) => chave,
            None => return Err(BlocoErro::AutoridadeDesconhecida),
        };
        let dados = self.dados_para_assinar();
        let assinatura = match decodificar_base64(self.assinatura_autoridade.as_str()) {
            Some(bytes) => bytes,
            None => return Err(BlocoErro::AssinaturaInvalida),
        };
        if chave_publica.verificar(dados.as_slice(), assinatura.as_slice()) {
            Ok(())
        } else {
            Err(BlocoErro::AssinaturaInvalida)
        }
    }
}

} // verus!
