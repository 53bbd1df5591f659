use blockchain_academica::blockchain::blockchain::{copia_de_blocos, validar_cadeia};
use blockchain_academica::blockchain::{
    Bloco, Blockchain, Disciplina, Estudante, Nota, PeriodoLetivo, Transacao,
};
use blockchain_academica::criptografia::chaves::{
    codificar_base64, decodificar_base64, ChavePrivada, ChavePublica,
};
use blockchain_academica::criptografia::resumo::resumo_sha256_hex;
use blockchain_academica::utils::config::Config;
use blockchain_academica::utils::erros::BlocoErro;
use blockchain_academica::utils::tempo::Instante;
use rsa::pkcs8::{EncodePrivateKey, EncodePublicKey, LineEnding};
use rsa::signature::Verifier;
use rsa::traits::{PrivateKeyParts, PublicKeyParts};

struct Gerador(u64);

impl Gerador {
    fn passo(&mut self) -> u64 {
        self.0 ^= self.0 << 13;
        self.0 ^= self.0 >> 7;
        self.0 ^= self.0 << 17;
        self.0
    }
}

impl rsa::rand_core::RngCore for Gerador {
    fn next_u32(&mut self) -> u32 {
        (self.passo() >> 16) as u32
    }

    fn next_u64(&mut self) -> u64 {
        self.passo()
    }

    fn fill_bytes(&mut self, dest: &mut [u8]) {
        for b in dest.iter_mut() {
            *b = (self.passo() >> 24) as u8;
        }
    }

    fn try_fill_bytes(&mut self, dest: &mut [u8]) -> Result<(), rsa::rand_core::Error> {
        self.fill_bytes(dest);
        Ok(())
    }
}

impl rsa::rand_core::CryptoRng for Gerador {}

fn chave_rsa(semente: u64) -> rsa::RsaPrivateKey {
    rsa::RsaPrivateKey::new(&mut Gerador(semente), 512).unwrap()
}

fn chave_privada(semente: u64) -> ChavePrivada {
    let pem = chave_rsa(semente).to_pkcs8_pem(LineEnding::LF).unwrap();
    ChavePrivada::de_pem(&pem).unwrap()
}

fn registro_com(id: u32, chave: &ChavePrivada) -> Config {
    let mut config = Config::vazia();
    config.registrar(id, chave.chave_publica());
    config
}

fn transacao(id: u32) -> Transacao {
    let estudante = Estudante::novo_estudante(7, "Ana", 2000, 1, 1);
    let periodo = PeriodoLetivo::novo_periodo(id, 2024, 1);
    Transacao::nova_transacao_em(id, estudante, periodo, Instante::novo(1_700_000_000, 0).unwrap())
}

fn json_do_bloco(bloco: &Bloco) -> String {
    let mut saida = Vec::new();
    bloco.escrever_json(&mut saida);
    String::from_utf8(saida).unwrap()
}

fn json_da_transacao(t: &Transacao) -> String {
    let mut saida = Vec::new();
    t.escrever_json(&mut saida);
    String::from_utf8(saida).unwrap()
}

const JSON_GENESE: &str = "{\"indice\":0,\"hash_anterior\":\"0\",\"hash_atual\":\"\",\"timestamp\":\"1970-01-01T00:00:00Z\",\"transacoes\":[],\"id_autoridade\":0,\"assinatura_autoridade\":\"\"}";

const HASH_GENESE: &str = "e8786596755b508798c2c3c1686eb92a7c91250567a1461b1f8e58381a459c38";

const JSON_TRANSACAO_42: &str = "{\"id_transacao\":42,\"estudante\":{\"id_estudante\":7,\"nome\":\"Ana\",\"data_nascimento\":\"2000-01-01\",\"periodos_letivos\":[]},\"periodo_letivo\":{\"id_periodo\":42,\"ano\":2024,\"semestre\":1,\"disciplinas\":[]},\"timestamp\":\"2023-11-14T22:13:20Z\"}";

// Records

#[test]
fn nota_nova_e_seu_json() {
    let nota = Nota::nova_nota(1, 7.5f32.to_bits(), "Prova", 2024, 6, 1);
    assert_eq!(nota.id_nota, 1);
    assert_eq!(f32::from_bits(nota.valor), 7.5);
    assert_eq!(nota.tipo, "Prova");
    assert_eq!((nota.data.ano(), nota.data.mes(), nota.data.dia()), (2024, 6, 1));
    let mut saida = Vec::new();
    nota.escrever_json(&mut saida);
    assert_eq!(
        String::from_utf8(saida).unwrap(),
        "{\"id_nota\":1,\"valor\":1089470464,\"tipo\":\"Prova\",\"data\":\"2024-06-01\"}"
    );
    assert_eq!(nota.copia(), nota);
}

#[test]
fn disciplina_nova_e_suas_notas() {
    let mut disciplina = Disciplina::nova_disciplina(3, "Cálculo", "MAT101");
    assert_eq!(disciplina.id_disciplina, 3);
    assert_eq!(disciplina.nome, "Cálculo");
    assert_eq!(disciplina.codigo, "MAT101");
    assert!(disciplina.notas.is_empty());
    assert_eq!(f32::from_bits(disciplina.media), 0.0);
    assert_eq!(f32::from_bits(disciplina.frequencia), 0.0);
    let mut saida = Vec::new();
    disciplina.escrever_json(&mut saida);
    assert_eq!(
        String::from_utf8(saida).unwrap(),
        "{\"id_disciplina\":3,\"nome\":\"Cálculo\",\"codigo\":\"MAT101\",\"notas\":[],\"media\":0,\"frequencia\":0}"
    );
    disciplina.adicionar_nota(Nota::nova_nota(1, 7.5f32.to_bits(), "Prova", 2024, 6, 1));
    disciplina.adicionar_nota(Nota::nova_nota(2, 0, "Trabalho", 2024, 6, 2));
    assert_eq!(disciplina.notas.len(), 2);
    assert_eq!(disciplina.notas[0].id_nota, 1);
    assert_eq!(disciplina.notas[1].id_nota, 2);
    let mut saida = Vec::new();
    disciplina.escrever_json(&mut saida);
    assert_eq!(
        String::from_utf8(saida).unwrap(),
        "{\"id_disciplina\":3,\"nome\":\"Cálculo\",\"codigo\":\"MAT101\",\"notas\":[{\"id_nota\":1,\"valor\":1089470464,\"tipo\":\"Prova\",\"data\":\"2024-06-01\"},{\"id_nota\":2,\"valor\":0,\"tipo\":\"Trabalho\",\"data\":\"2024-06-02\"}],\"media\":0,\"frequencia\":0}"
    );
    assert_eq!(disciplina.copia(), disciplina);
}

#[test]
fn periodo_novo_e_suas_disciplinas() {
    let mut periodo = PeriodoLetivo::novo_periodo(42, 2024, 1);
    assert_eq!((periodo.id_periodo, periodo.ano, periodo.semestre), (42, 2024, 1));
    assert!(periodo.disciplinas.is_empty());
    periodo.adicionar_disciplina(Disciplina::nova_disciplina(3, "A", "B"));
    periodo.adicionar_disciplina(Disciplina::nova_disciplina(4, "C", "D"));
    assert_eq!(periodo.disciplinas.len(), 2);
    assert_eq!(periodo.disciplinas[1].id_disciplina, 4);
    let mut saida = Vec::new();
    periodo.escrever_json(&mut saida);
    assert_eq!(
        String::from_utf8(saida).unwrap(),
        "{\"id_periodo\":42,\"ano\":2024,\"semestre\":1,\"disciplinas\":[{\"id_disciplina\":3,\"nome\":\"A\",\"codigo\":\"B\",\"notas\":[],\"media\":0,\"frequencia\":0},{\"id_disciplina\":4,\"nome\":\"C\",\"codigo\":\"D\",\"notas\":[],\"media\":0,\"frequencia\":0}]}"
    );
    assert_eq!(periodo.copia(), periodo);
}

#[test]
fn estudante_novo_e_seus_periodos() {
    let mut estudante = Estudante::novo_estudante(7, "Ana", 2000, 1, 1);
    assert_eq!(estudante.id_estudante, 7);
    assert_eq!(estudante.nome, "Ana");
    assert_eq!(estudante.data_nascimento.texto(), "2000-01-01");
    assert!(estudante.periodos_letivos.is_empty());
    estudante.adicionar_periodo_letivo(PeriodoLetivo::novo_periodo(42, 2024, 1));
    assert_eq!(estudante.periodos_letivos.len(), 1);
    let mut saida = Vec::new();
    estudante.escrever_json(&mut saida);
    assert_eq!(
        String::from_utf8(saida).unwrap(),
        "{\"id_estudante\":7,\"nome\":\"Ana\",\"data_nascimento\":\"2000-01-01\",\"periodos_letivos\":[{\"id_periodo\":42,\"ano\":2024,\"semestre\":1,\"disciplinas\":[]}]}"
    );
    assert_eq!(estudante.copia(), estudante);
}

#[test]
fn transacao_em_um_instante_e_seu_json() {
    let t = transacao(42);
    assert_eq!(t.id_transacao, 42);
    assert_eq!(t.estudante.id_estudante, 7);
    assert_eq!(t.periodo_letivo.id_periodo, 42);
    assert_eq!(t.timestamp.segundos(), 1_700_000_000);
    assert_eq!(json_da_transacao(&t), JSON_TRANSACAO_42);
    assert_eq!(t.copia(), t);
}

#[test]
fn transacao_de_agora() {
    let antes = Instante::agora();
    let t = Transacao::nova_transacao(
        1,
        Estudante::novo_estudante(7, "Ana", 2000, 1, 1),
        PeriodoLetivo::novo_periodo(1, 2024, 2),
    );
    assert_eq!(t.id_transacao, 1);
    assert_eq!(t.estudante.nome, "Ana");
    assert_eq!(t.periodo_letivo.semestre, 2);
    assert!(t.timestamp.segundos() >= antes.segundos());
    assert!(t.timestamp.nanos() < 1_000_000_000);
}

// Keys

#[test]
fn chave_privada_do_pem() {
    let rsa = chave_rsa(11);
    let chave = ChavePrivada::de_pem(&rsa.to_pkcs8_pem(LineEnding::LF).unwrap()).unwrap();
    assert_eq!(chave.modulo, rsa.n().to_bytes_be());
    assert_eq!(chave.expoente_publico, rsa.e().to_bytes_be());
    assert_eq!(chave.expoente_privado, rsa.d().to_bytes_be());
    assert_eq!(chave.primo1, rsa.primes()[0].to_bytes_be());
    assert_eq!(chave.primo2, rsa.primes()[1].to_bytes_be());
    assert_eq!(chave.expoente_publico, vec![1, 0, 1]);
}

#[test]
fn chave_publica_do_pem() {
    let rsa = chave_rsa(11);
    let pem = rsa.to_public_key().to_public_key_pem(LineEnding::LF).unwrap();
    let chave = ChavePublica::de_pem(&pem).unwrap();
    assert_eq!(chave.modulo, rsa.n().to_bytes_be());
    assert_eq!(chave.expoente, rsa.e().to_bytes_be());
    assert_eq!(chave, chave_privada(11).chave_publica());
    assert_eq!(chave.copia(), chave);
}

#[test]
fn pem_que_nao_e_chave() {
    assert!(ChavePublica::de_pem("").is_none());
    assert!(ChavePublica::de_pem("isto não é PEM").is_none());
    assert!(ChavePrivada::de_pem("").is_none());
    let rsa = chave_rsa(11);
    let publica = rsa.to_public_key().to_public_key_pem(LineEnding::LF).unwrap();
    let privada = rsa.to_pkcs8_pem(LineEnding::LF).unwrap();
    assert!(ChavePrivada::de_pem(&publica).is_none());
    assert!(ChavePublica::de_pem(&privada).is_none());
}

#[test]
fn assinatura_confere_com_a_chave_publica() {
    let chave = chave_privada(11);
    let assinatura = chave.assinar(b"mensagem").unwrap();
    assert_eq!(assinatura.len(), 64);
    assert!(chave.chave_publica().verificar(b"mensagem", &assinatura));
    assert!(!chave.chave_publica().verificar(b"outra", &assinatura));
    assert!(!chave_privada(12).chave_publica().verificar(b"mensagem", &assinatura));
    let mut adulterada = assinatura.clone();
    adulterada[10] ^= 1;
    assert!(!chave.chave_publica().verificar(b"mensagem", &adulterada));
    assert!(!chave.chave_publica().verificar(b"mensagem", &[]));
    assert!(!chave.chave_publica().verificar(b"mensagem", &assinatura[1..]));
}

#[test]
fn assinatura_e_a_da_rsa() {
    let rsa = chave_rsa(11);
    let chave = chave_privada(11);
    let assinatura = chave.assinar(b"mensagem").unwrap();
    assert_eq!(chave.assinar(b"mensagem").unwrap(), assinatura);
    let verificadora = rsa::pkcs1v15::VerifyingKey::<rsa::sha2::Sha256>::new(rsa.to_public_key());
    let deles = rsa::pkcs1v15::Signature::try_from(assinatura.as_slice()).unwrap();
    assert!(verificadora.verify(b"mensagem", &deles).is_ok());
}

#[test]
fn numeros_que_nao_sao_chave() {
    let boa = chave_privada(11);
    let mut ruim = boa.clone();
    ruim.primo1 = vec![4];
    assert_eq!(ruim.assinar(b"mensagem"), None);
    let vazia = ChavePrivada {
        modulo: vec![],
        expoente_publico: vec![],
        expoente_privado: vec![],
        primo1: vec![],
        primo2: vec![],
    };
    assert_eq!(vazia.assinar(b"mensagem"), None);
    let publica = ChavePublica { modulo: vec![], expoente: vec![] };
    assert!(!publica.verificar(b"mensagem", &[0; 64]));
    let par = ChavePublica { modulo: vec![4], expoente: vec![3] };
    assert!(!par.verificar(b"mensagem", &[1]));
}

#[test]
fn chave_curta_demais_nao_assina() {
    let rsa = rsa::RsaPrivateKey::new(&mut Gerador(5), 256).unwrap();
    let chave = ChavePrivada::de_pem(&rsa.to_pkcs8_pem(LineEnding::LF).unwrap()).unwrap();
    assert_eq!(chave.assinar(b"mensagem"), None);
    let mut bc = Blockchain::nova_blockchain();
    bc.adicionar_transacao(transacao(1));
    let res = bc.criar_e_adicionar_bloco(&chave, 1);
    assert_eq!(res, Err(BlocoErro::AssinaturaInvalida));
    assert_eq!(bc.cadeia.len(), 1);
    assert_eq!(bc.transacoes_pendentes.len(), 1);
    let mut bloco = Bloco::novo_bloco(1, "0".to_string(), vec![], Some(Instante::epoca()));
    let antes = bloco.clone();
    assert_eq!(bloco.assinar_bloco(&chave, 1), Err(BlocoErro::AssinaturaInvalida));
    assert_eq!(bloco, antes);
}

// Blocks

#[test]
fn bloco_novo() {
    let t = Instante::novo(5, 0).unwrap();
    let bloco = Bloco::novo_bloco(3, "abc".to_string(), vec![transacao(1)], Some(t));
    assert_eq!(bloco.indice, 3);
    assert_eq!(bloco.hash_anterior, "abc");
    assert_eq!(bloco.hash_atual, "");
    assert_eq!(bloco.timestamp, t);
    assert_eq!(bloco.transacoes, vec![transacao(1)]);
    assert_eq!(bloco.id_autoridade, 0);
    assert_eq!(bloco.assinatura_autoridade, "");
    let agora = Bloco::novo_bloco(3, "abc".to_string(), vec![], None);
    assert!(agora.timestamp.segundos() > 1_600_000_000);
    assert!(agora.timestamp.nanos() < 1_000_000_000);
    assert_eq!(bloco.copia(), bloco);
}

#[test]
fn json_do_bloco_genese() {
    let bloco = Bloco::novo_bloco(0, "0".to_string(), vec![], Some(Instante::epoca()));
    assert_eq!(json_do_bloco(&bloco), JSON_GENESE);
    assert_eq!(bloco.calcular_hash(), HASH_GENESE);
    assert_eq!(resumo_sha256_hex(JSON_GENESE.as_bytes()), HASH_GENESE);
}

#[test]
fn json_do_bloco_com_transacoes() {
    let mut bloco = Bloco::novo_bloco(
        1,
        "ab\"c".to_string(),
        vec![transacao(42), transacao(42)],
        Some(Instante::novo(1_700_000_000, 0).unwrap()),
    );
    bloco.hash_atual = "ff".to_string();
    bloco.id_autoridade = 9;
    bloco.assinatura_autoridade = "c2ln".to_string();
    let esperado = format!(
        "{{\"indice\":1,\"hash_anterior\":\"ab\\\"c\",\"hash_atual\":\"ff\",\"timestamp\":\"2023-11-14T22:13:20Z\",\"transacoes\":[{},{}],\"id_autoridade\":9,\"assinatura_autoridade\":\"c2ln\"}}",
        JSON_TRANSACAO_42, JSON_TRANSACAO_42
    );
    assert_eq!(json_do_bloco(&bloco), esperado);
}

#[test]
fn hash_apaga_o_hash_e_nao_o_resto() {
    let mut bloco = Bloco::novo_bloco(1, "x".to_string(), vec![transacao(1)], Some(Instante::epoca()));
    let limpo = bloco.calcular_hash();
    assert_eq!(limpo.len(), 64);
    assert_eq!(limpo, resumo_sha256_hex(json_do_bloco(&bloco).as_bytes()));
    bloco.hash_atual = limpo.clone();
    assert_eq!(bloco.calcular_hash(), limpo);
    assert_eq!(bloco.calcular_hash_de_selagem(), limpo);
    assert!(bloco.esta_integro());
    bloco.assinatura_autoridade = "c2ln".to_string();
    assert_ne!(bloco.calcular_hash(), limpo);
    assert_eq!(bloco.calcular_hash_de_selagem(), limpo);
    assert!(bloco.esta_integro());
    bloco.id_autoridade = 2;
    assert_ne!(bloco.calcular_hash_de_selagem(), limpo);
    assert!(!bloco.esta_integro());
}

#[test]
fn hash_e_o_mesmo_para_o_mesmo_bloco() {
    let a = Bloco::novo_bloco(1, "x".to_string(), vec![transacao(1)], Some(Instante::epoca()));
    let b = a.copia();
    let c = Bloco::novo_bloco(1, "x".to_string(), vec![transacao(1)], Some(Instante::epoca()));
    assert_eq!(a.calcular_hash(), b.calcular_hash());
    assert_eq!(a.calcular_hash(), c.calcular_hash());
    let d = Bloco::novo_bloco(1, "x".to_string(), vec![transacao(2)], Some(Instante::epoca()));
    assert_ne!(a.calcular_hash(), d.calcular_hash());
}

#[test]
fn dados_para_assinar() {
    let mut bloco = Bloco::novo_bloco(
        12,
        "aa".to_string(),
        vec![transacao(42)],
        Some(Instante::novo(1_700_000_000, 0).unwrap()),
    );
    bloco.hash_atual = "bb".to_string();
    let esperado = format!("12aabb2023-11-14T22:13:20Z[{}]", JSON_TRANSACAO_42);
    assert_eq!(String::from_utf8(bloco.dados_para_assinar()).unwrap(), esperado);
}

#[test]
fn assinar_e_verificar() {
    let chave = chave_privada(11);
    let mut bloco = Bloco::novo_bloco(1, "x".to_string(), vec![transacao(1)], Some(Instante::epoca()));
    let hash = bloco.calcular_hash();
    assert_eq!(bloco.assinar_bloco(&chave, 0), Ok(()));
    assert_eq!(bloco.id_autoridade, 0);
    assert_eq!(bloco.hash_atual, hash);
    assert!(bloco.esta_integro());
    let assinatura = decodificar_base64(&bloco.assinatura_autoridade).unwrap();
    assert_eq!(assinatura, chave.assinar(&bloco.dados_para_assinar()).unwrap());
    assert_eq!(bloco.assinatura_autoridade, codificar_base64(&assinatura));
    assert_eq!(bloco.verificar_assinatura(&registro_com(0, &chave)), Ok(()));
}

#[test]
fn assinar_sob_outra_autoridade_muda_o_hash() {
    let chave = chave_privada(11);
    let mut bloco = Bloco::novo_bloco(1, "x".to_string(), vec![], Some(Instante::epoca()));
    let sem_autoridade = bloco.calcular_hash();
    assert_eq!(bloco.assinar_bloco(&chave, 5), Ok(()));
    assert_eq!(bloco.id_autoridade, 5);
    assert_ne!(bloco.hash_atual, sem_autoridade);
    assert!(bloco.esta_integro());
    assert_eq!(bloco.verificar_assinatura(&registro_com(5, &chave)), Ok(()));
    let primeira = bloco.clone();
    assert_eq!(bloco.assinar_bloco(&chave, 5), Ok(()));
    assert_eq!(bloco, primeira);
}

#[test]
fn verificar_recusa() {
    let chave = chave_privada(11);
    let mut bloco = Bloco::novo_bloco(1, "x".to_string(), vec![transacao(1)], Some(Instante::epoca()));
    bloco.assinar_bloco(&chave, 1).unwrap();
    assert_eq!(
        bloco.verificar_assinatura(&Config::vazia()),
        Err(BlocoErro::AutoridadeDesconhecida)
    );
    assert_eq!(
        bloco.verificar_assinatura(&registro_com(2, &chave)),
        Err(BlocoErro::AutoridadeDesconhecida)
    );
    assert_eq!(
        bloco.verificar_assinatura(&registro_com(1, &chave_privada(12))),
        Err(BlocoErro::AssinaturaInvalida)
    );
    let registro = registro_com(1, &chave);
    let mut outro = bloco.clone();
    outro.assinatura_autoridade = "não é base64".to_string();
    assert_eq!(outro.verificar_assinatura(&registro), Err(BlocoErro::AssinaturaInvalida));
    let mut outro = bloco.clone();
    outro.assinatura_autoridade = String::new();
    assert_eq!(outro.verificar_assinatura(&registro), Err(BlocoErro::AssinaturaInvalida));
    let mut outro = bloco.clone();
    outro.indice = 2;
    assert_eq!(outro.verificar_assinatura(&registro), Err(BlocoErro::AssinaturaInvalida));
    let mut outro = bloco.clone();
    outro.transacoes.push(transacao(2));
    assert_eq!(outro.verificar_assinatura(&registro), Err(BlocoErro::AssinaturaInvalida));
    let mut outro = bloco.clone();
    outro.hash_anterior = "y".to_string();
    assert_eq!(outro.verificar_assinatura(&registro), Err(BlocoErro::AssinaturaInvalida));
    let mut outro = bloco.clone();
    outro.timestamp = Instante::novo(1, 0).unwrap();
    assert_eq!(outro.verificar_assinatura(&registro), Err(BlocoErro::AssinaturaInvalida));
    let mut outro = bloco.clone();
    outro.id_autoridade = 3;
    assert_eq!(outro.verificar_assinatura(&registro), Err(BlocoErro::AutoridadeDesconhecida));
    assert_eq!(bloco.verificar_assinatura(&registro), Ok(()));
}

// Ledger

#[test]
fn no_novo_tem_so_a_genese() {
    let bc = Blockchain::nova_blockchain();
    assert_eq!(bc.cadeia.len(), 1);
    assert!(bc.transacoes_pendentes.is_empty());
    let genese = &bc.cadeia[0];
    assert_eq!(genese.indice, 0);
    assert_eq!(genese.hash_anterior, "0");
    assert_eq!(genese.hash_atual, HASH_GENESE);
    assert_eq!(genese.hash_atual, resumo_sha256_hex(JSON_GENESE.as_bytes()));
    assert_eq!(genese.timestamp, Instante::epoca());
    assert!(genese.transacoes.is_empty());
    assert_eq!(genese.id_autoridade, 0);
    assert_eq!(genese.assinatura_autoridade, "");
    assert!(genese.esta_integro());
    assert!(bc.precisa_sincronizar());
    assert_eq!(Blockchain::nova_blockchain().cadeia, bc.cadeia);
}

#[test]
fn transacoes_esperam_em_ordem() {
    let mut bc = Blockchain::nova_blockchain();
    bc.adicionar_transacao(transacao(1));
    bc.adicionar_transacao(transacao(2));
    bc.adicionar_transacao(transacao(1));
    assert_eq!(bc.cadeia.len(), 1);
    let ids: Vec<u32> = bc.transacoes_pendentes.iter().map(|t| t.id_transacao).collect();
    assert_eq!(ids, vec![1, 2, 1]);
}

#[test]
fn submeter_e_selar() {
    let chave = chave_privada(11);
    let registro = registro_com(1, &chave);
    let mut bc = Blockchain::nova_blockchain();
    bc.adicionar_transacao(transacao(42));
    let bloco = bc.criar_e_adicionar_bloco(&chave, 1).unwrap();
    assert_eq!(bc.cadeia.len(), 2);
    assert_eq!(bc.cadeia[1], bloco);
    assert_eq!(bc.cadeia[1].indice, 1);
    assert_eq!(bc.cadeia[1].hash_anterior, HASH_GENESE);
    assert_eq!(bc.cadeia[1].transacoes[0].id_transacao, 42);
    assert_eq!(bc.cadeia[1].id_autoridade, 1);
    assert_eq!(bc.cadeia[1].verificar_assinatura(&registro), Ok(()));
    assert!(bc.cadeia[1].esta_integro());
    assert!(bc.transacoes_pendentes.is_empty());
    assert!(validar_cadeia(&bc.cadeia, &registro));
    assert!(!bc.precisa_sincronizar());
}

#[test]
fn selar_em_um_instante() {
    let chave = chave_privada(11);
    let t = Instante::novo(1_700_000_000, 5).unwrap();
    let mut bc = Blockchain::nova_blockchain();
    bc.adicionar_transacao(transacao(1));
    let bloco = bc.criar_e_adicionar_bloco_em(&chave, 1, t).unwrap();
    assert_eq!(bloco.timestamp, t);
    let mut esperado = Bloco::novo_bloco(1, HASH_GENESE.to_string(), vec![transacao(1)], Some(t));
    esperado.assinar_bloco(&chave, 1).unwrap();
    assert_eq!(bloco, esperado);
    assert_eq!(bc.cadeia[1], esperado);
}

#[test]
fn selar_esvazia_a_fila_para_dentro_do_bloco() {
    let chave = chave_privada(11);
    let mut bc = Blockchain::nova_blockchain();
    for id in [5, 3, 9, 3] {
        bc.adicionar_transacao(transacao(id));
    }
    let antes: Vec<Transacao> = bc.transacoes_pendentes.iter().cloned().collect();
    let bloco = bc.criar_e_adicionar_bloco(&chave, 1).unwrap();
    assert_eq!(bloco.transacoes, antes);
    assert!(bc.transacoes_pendentes.is_empty());
    let vazio = bc.criar_e_adicionar_bloco(&chave, 1).unwrap();
    assert!(vazio.transacoes.is_empty());
    assert_eq!(vazio.indice, 2);
    assert_eq!(vazio.hash_anterior, bloco.hash_atual);
}

#[test]
fn cadeia_valida_depois_de_qualquer_sequencia() {
    let chave = chave_privada(11);
    let registro = registro_com(1, &chave);
    let mut bc = Blockchain::nova_blockchain();
    assert!(validar_cadeia(&bc.cadeia, &registro));
    for passo in 0..6u32 {
        if passo % 3 != 2 {
            bc.adicionar_transacao(transacao(passo));
        } else {
            bc.criar_e_adicionar_bloco(&chave, 1).unwrap();
        }
        assert!(validar_cadeia(&bc.cadeia, &registro));
    }
    bc.criar_e_adicionar_bloco(&chave, 1).unwrap();
    assert!(validar_cadeia(&bc.cadeia, &registro));
    assert_eq!(bc.cadeia.len(), 4);
    for (i, bloco) in bc.cadeia.iter().enumerate() {
        assert_eq!(bloco.indice as usize, i);
    }
}

#[test]
fn seguidor_aceita_bloco() {
    let chave = chave_privada(11);
    let registro = registro_com(1, &chave);
    let mut autoridade = Blockchain::nova_blockchain();
    autoridade.adicionar_transacao(transacao(42));
    let bloco = autoridade.criar_e_adicionar_bloco(&chave, 1).unwrap();
    let mut seguidor = Blockchain::nova_blockchain();
    seguidor.adicionar_transacao(transacao(8));
    assert_eq!(seguidor.adicionar_bloco_externo(bloco.clone(), &registro), Ok(()));
    assert_eq!(seguidor.cadeia.len(), 2);
    assert_eq!(seguidor.cadeia, autoridade.cadeia);
    assert_eq!(seguidor.transacoes_pendentes.len(), 1);
    assert!(validar_cadeia(&seguidor.cadeia, &registro));
}

#[test]
fn seguidor_recusa_bloco_forjado() {
    let chave = chave_privada(11);
    let forjadora = chave_privada(12);
    let registro = registro_com(1, &chave);
    let mut falsa = Blockchain::nova_blockchain();
    falsa.adicionar_transacao(transacao(42));
    let forjado = falsa.criar_e_adicionar_bloco(&forjadora, 1).unwrap();
    let mut seguidor = Blockchain::nova_blockchain();
    assert_eq!(
        seguidor.adicionar_bloco_externo(forjado, &registro),
        Err(BlocoErro::AssinaturaInvalida)
    );
    assert_eq!(seguidor.cadeia.len(), 1);
    let mut falsa = Blockchain::nova_blockchain();
    let desconhecido = falsa.criar_e_adicionar_bloco(&forjadora, 2).unwrap();
    assert_eq!(
        seguidor.adicionar_bloco_externo(desconhecido, &registro),
        Err(BlocoErro::AutoridadeDesconhecida)
    );
    assert_eq!(seguidor.cadeia.len(), 1);
    assert_eq!(seguidor.cadeia, Blockchain::nova_blockchain().cadeia);
}

#[test]
fn seguidor_recusa_bloco_que_nao_encadeia() {
    let chave = chave_privada(11);
    let registro = registro_com(1, &chave);
    let mut autoridade = Blockchain::nova_blockchain();
    let primeiro = autoridade.criar_e_adicionar_bloco(&chave, 1).unwrap();
    let segundo = autoridade.criar_e_adicionar_bloco(&chave, 1).unwrap();
    let mut seguidor = Blockchain::nova_blockchain();
    assert_eq!(
        seguidor.adicionar_bloco_externo(segundo.clone(), &registro),
        Err(BlocoErro::HashAnteriorNaoCorresponde)
    );
    let genese = seguidor.cadeia[0].clone();
    assert_eq!(
        seguidor.adicionar_bloco_externo(genese, &registro),
        Err(BlocoErro::HashAnteriorNaoCorresponde)
    );
    assert_eq!(seguidor.adicionar_bloco_externo(primeiro.clone(), &registro), Ok(()));
    assert_eq!(
        seguidor.adicionar_bloco_externo(primeiro, &registro),
        Err(BlocoErro::HashAnteriorNaoCorresponde)
    );
    assert_eq!(seguidor.adicionar_bloco_externo(segundo, &registro), Ok(()));
    assert_eq!(seguidor.cadeia, autoridade.cadeia);
}

#[test]
fn seguidor_recusa_bloco_adulterado() {
    let chave = chave_privada(11);
    let registro = registro_com(1, &chave);
    let mut autoridade = Blockchain::nova_blockchain();
    autoridade.adicionar_transacao(transacao(42));
    let bloco = autoridade.criar_e_adicionar_bloco(&chave, 1).unwrap();
    let mut seguidor = Blockchain::nova_blockchain();
    let mut outro = bloco.clone();
    outro.transacoes[0].id_transacao = 43;
    assert_eq!(
        seguidor.adicionar_bloco_externo(outro, &registro),
        Err(BlocoErro::AssinaturaInvalida)
    );
    let mut outro = bloco.clone();
    outro.hash_atual = HASH_GENESE.to_string();
    assert_eq!(
        seguidor.adicionar_bloco_externo(outro, &registro),
        Err(BlocoErro::AssinaturaInvalida)
    );
    let mut outro = bloco.clone();
    outro.id_autoridade = 7;
    assert_eq!(
        seguidor.adicionar_bloco_externo(outro, &registro),
        Err(BlocoErro::AssinaturaInvalida)
    );
    let mut outro = bloco.clone();
    outro.hash_anterior = "0".to_string();
    assert_eq!(
        seguidor.adicionar_bloco_externo(outro, &registro),
        Err(BlocoErro::HashAnteriorNaoCorresponde)
    );
    assert_eq!(seguidor.cadeia.len(), 1);
    assert_eq!(seguidor.adicionar_bloco_externo(bloco, &registro), Ok(()));
}

#[test]
fn seguidor_recusa_indice_que_nao_e_o_comprimento() {
    let chave = chave_privada(11);
    let registro = registro_com(1, &chave);
    let mut seguidor = Blockchain::nova_blockchain();
    for indice in [0, 2, 7, u32::MAX] {
        let mut bloco =
            Bloco::novo_bloco(indice, HASH_GENESE.to_string(), vec![], Some(Instante::epoca()));
        bloco.assinar_bloco(&chave, 1).unwrap();
        assert!(bloco.esta_integro());
        assert_eq!(bloco.verificar_assinatura(&registro), Ok(()));
        assert_eq!(
            seguidor.adicionar_bloco_externo(bloco, &registro),
            Err(BlocoErro::HashAnteriorNaoCorresponde)
        );
        assert_eq!(seguidor.cadeia.len(), 1);
    }
    let mut bloco = Bloco::novo_bloco(1, HASH_GENESE.to_string(), vec![], Some(Instante::epoca()));
    bloco.assinar_bloco(&chave, 1).unwrap();
    assert_eq!(seguidor.adicionar_bloco_externo(bloco, &registro), Ok(()));
    let ultimo = seguidor.cadeia[1].hash_atual.clone();
    let mut bloco = Bloco::novo_bloco(1, ultimo.clone(), vec![], Some(Instante::epoca()));
    bloco.assinar_bloco(&chave, 1).unwrap();
    assert_eq!(
        seguidor.adicionar_bloco_externo(bloco, &registro),
        Err(BlocoErro::HashAnteriorNaoCorresponde)
    );
    let mut bloco = Bloco::novo_bloco(2, ultimo, vec![], Some(Instante::epoca()));
    bloco.assinar_bloco(&chave, 1).unwrap();
    assert_eq!(seguidor.adicionar_bloco_externo(bloco, &registro), Ok(()));
    assert_eq!(seguidor.cadeia.len(), 3);
}

#[test]
fn seguidor_recusa_indice_que_nao_passa_o_do_ultimo() {
    let chave = chave_privada(11);
    let registro = registro_com(1, &chave);
    let mut seguidor = Blockchain::nova_blockchain();
    seguidor.cadeia[0].indice = 1;
    let ultimo = seguidor.cadeia[0].hash_atual.clone();
    let mut bloco = Bloco::novo_bloco(1, ultimo, vec![], Some(Instante::epoca()));
    bloco.assinar_bloco(&chave, 1).unwrap();
    assert_eq!(
        seguidor.adicionar_bloco_externo(bloco, &registro),
        Err(BlocoErro::HashAnteriorNaoCorresponde)
    );
    assert_eq!(seguidor.cadeia.len(), 1);
}

#[test]
fn bloco_selado_e_integro_e_assinado() {
    let chave = chave_privada(11);
    let registro = registro_com(1, &chave);
    let mut autoridade = Blockchain::nova_blockchain();
    let mut seguidor = Blockchain::nova_blockchain();
    for passo in 0..3u32 {
        autoridade.adicionar_transacao(transacao(passo));
        let bloco = autoridade.criar_e_adicionar_bloco(&chave, 1).unwrap();
        assert!(bloco.esta_integro());
        assert_eq!(bloco.verificar_assinatura(&registro), Ok(()));
        assert!(!bloco.assinatura_autoridade.is_empty());
        assert!(decodificar_base64(&bloco.assinatura_autoridade).is_some());
        assert!(bloco.timestamp.segundos() >= 0);
        assert!(bloco.timestamp.nanos() < 1_000_000_000);
        assert_eq!(seguidor.adicionar_bloco_externo(bloco, &registro), Ok(()));
        assert_eq!(seguidor.cadeia.len(), autoridade.cadeia.len());
        assert_eq!(
            seguidor.cadeia.last().unwrap().hash_atual,
            autoridade.cadeia.last().unwrap().hash_atual
        );
    }
}

#[test]
fn validar_cadeias() {
    let chave = chave_privada(11);
    let registro = registro_com(1, &chave);
    let mut bc = Blockchain::nova_blockchain();
    bc.adicionar_transacao(transacao(1));
    bc.criar_e_adicionar_bloco(&chave, 1).unwrap();
    bc.criar_e_adicionar_bloco(&chave, 1).unwrap();
    assert!(validar_cadeia(&bc.cadeia, &registro));
    assert!(validar_cadeia(&Vec::new(), &registro));
    assert!(validar_cadeia(&bc.cadeia[..1].to_vec(), &Config::vazia()));
    assert!(!validar_cadeia(&bc.cadeia, &Config::vazia()));
    assert!(!validar_cadeia(&bc.cadeia, &registro_com(1, &chave_privada(12))));
    let mut ruim = copia_de_blocos(&bc.cadeia);
    ruim[1].hash_anterior = "0".to_string();
    assert!(!validar_cadeia(&ruim, &registro));
    let mut ruim = copia_de_blocos(&bc.cadeia);
    ruim[2].hash_atual = "00".to_string();
    assert!(!validar_cadeia(&ruim, &registro));
    let mut ruim = copia_de_blocos(&bc.cadeia);
    ruim[1].transacoes.clear();
    assert!(!validar_cadeia(&ruim, &registro));
    let mut ruim = copia_de_blocos(&bc.cadeia);
    ruim.swap(1, 2);
    assert!(!validar_cadeia(&ruim, &registro));
    let mut genese_outra = copia_de_blocos(&bc.cadeia);
    genese_outra[0].id_autoridade = 99;
    genese_outra[0].assinatura_autoridade = "x".to_string();
    assert!(validar_cadeia(&genese_outra, &registro));
}

#[test]
fn sincroniza_ao_partir() {
    let chave = chave_privada(11);
    let registro = registro_com(1, &chave);
    let mut autoridade = Blockchain::nova_blockchain();
    autoridade.criar_e_adicionar_bloco(&chave, 1).unwrap();
    autoridade.criar_e_adicionar_bloco(&chave, 1).unwrap();
    assert_eq!(autoridade.cadeia.len(), 3);
    let mut seguidor = Blockchain::nova_blockchain();
    seguidor.adicionar_transacao(transacao(1));
    assert!(seguidor.precisa_sincronizar());
    assert!(seguidor.substituir_cadeia(autoridade.instantaneo(), &registro));
    assert_eq!(seguidor.cadeia.len(), 3);
    assert_eq!(seguidor.cadeia, autoridade.cadeia);
    assert_eq!(seguidor.transacoes_pendentes.len(), 1);
    assert!(!seguidor.precisa_sincronizar());
}

#[test]
fn cadeia_mais_curta_e_ignorada() {
    let chave = chave_privada(11);
    let registro = registro_com(1, &chave);
    let mut longa = Blockchain::nova_blockchain();
    for _ in 0..4 {
        longa.criar_e_adicionar_bloco(&chave, 1).unwrap();
    }
    assert_eq!(longa.cadeia.len(), 5);
    let curta = longa.cadeia[..3].to_vec();
    assert!(validar_cadeia(&curta, &registro));
    let antes = longa.instantaneo();
    assert!(!longa.substituir_cadeia(curta, &registro));
    assert_eq!(longa.cadeia.len(), 5);
    assert_eq!(longa.cadeia, antes);
    assert!(!longa.substituir_cadeia(antes.clone(), &registro));
    assert_eq!(longa.cadeia, antes);
}

#[test]
fn cadeia_invalida_nao_substitui() {
    let chave = chave_privada(11);
    let registro = registro_com(1, &chave);
    let mut outra = Blockchain::nova_blockchain();
    outra.criar_e_adicionar_bloco(&chave_privada(12), 1).unwrap();
    outra.criar_e_adicionar_bloco(&chave_privada(12), 1).unwrap();
    let mut seguidor = Blockchain::nova_blockchain();
    assert!(!seguidor.substituir_cadeia(outra.instantaneo(), &registro));
    assert_eq!(seguidor.cadeia.len(), 1);
    assert!(!seguidor.substituir_cadeia(Vec::new(), &registro));
    assert_eq!(seguidor.cadeia.len(), 1);
}

#[test]
fn guardar_e_restaurar() {
    let chave = chave_privada(11);
    let mut bc = Blockchain::nova_blockchain();
    bc.adicionar_transacao(transacao(1));
    bc.criar_e_adicionar_bloco(&chave, 1).unwrap();
    bc.adicionar_transacao(transacao(2));
    let guardada = bc.instantaneo();
    assert_eq!(guardada, bc.cadeia);
    let restaurada = Blockchain::restaurar(guardada).unwrap();
    assert_eq!(restaurada.cadeia, bc.cadeia);
    assert!(restaurada.transacoes_pendentes.is_empty());
    assert!(Blockchain::restaurar(Vec::new()).is_none());
}
