use blockchain_academica::criptografia::chaves::{codificar_base64, decodificar_base64};
use blockchain_academica::criptografia::resumo::{hex_minusculo, resumo_sha256, resumo_sha256_hex};
use blockchain_academica::utils::erros::BlocoErro;
use blockchain_academica::utils::json::{
    anexar, escrever_byte, escrever_chave, escrever_decimal, escrever_escape, escrever_texto,
    hex_de, iniciar_campo, iniciar_item,
};
use blockchain_academica::criptografia::chaves::caminho_da_chave_privada;
use blockchain_academica::criptografia::resumo::digito_hex_str;
use blockchain_academica::no::{arquivo_da_blockchain, arquivo_de_configuracao};
use blockchain_academica::utils::texto::{
    analisar_digitos, analisar_i32, analisar_u32, analisar_u8, anexar_decimal,
};

fn decimal(n: u64) -> String {
    let mut saida = Vec::new();
    escrever_decimal(&mut saida, n);
    String::from_utf8(saida).unwrap()
}

fn texto_json(s: &str) -> String {
    let mut saida = Vec::new();
    escrever_texto(&mut saida, s);
    String::from_utf8(saida).unwrap()
}

#[test]
fn decimal_escreve_os_digitos() {
    assert_eq!(decimal(0), "0");
    assert_eq!(decimal(7), "7");
    assert_eq!(decimal(10), "10");
    assert_eq!(decimal(42), "42");
    assert_eq!(decimal(4294967295), "4294967295");
    assert_eq!(decimal(u64::MAX), "18446744073709551615");
}

#[test]
fn decimal_anexa_ao_que_ja_havia() {
    let mut saida = vec![b'x'];
    escrever_decimal(&mut saida, 305);
    assert_eq!(saida, b"x305".to_vec());
}

#[test]
fn texto_simples_fica_entre_aspas() {
    assert_eq!(texto_json(""), "\"\"");
    assert_eq!(texto_json("Ana"), "\"Ana\"");
}

#[test]
fn texto_escapa_aspas_e_barra() {
    assert_eq!(texto_json("a\"b"), "\"a\\\"b\"");
    assert_eq!(texto_json("a\\b"), "\"a\\\\b\"");
}

#[test]
fn texto_escapa_controles() {
    assert_eq!(texto_json("\n"), "\"\\n\"");
    assert_eq!(texto_json("\r"), "\"\\r\"");
    assert_eq!(texto_json("\t"), "\"\\t\"");
    assert_eq!(texto_json("\u{8}"), "\"\\b\"");
    assert_eq!(texto_json("\u{c}"), "\"\\f\"");
    assert_eq!(texto_json("\u{1}"), "\"\\u0001\"");
    assert_eq!(texto_json("\u{1f}"), "\"\\u001f\"");
    assert_eq!(texto_json("\u{0}"), "\"\\u0000\"");
}

#[test]
fn texto_nao_escapa_o_resto() {
    assert_eq!(texto_json("José/\u{7f}"), "\"José/\u{7f}\"");
    assert_eq!(texto_json(" "), "\" \"");
}

#[test]
fn texto_como_serde_json() {
    for s in ["", "Ana", "a\"b\\c", "linha\nnova\te\rfim", "\u{0}\u{1}\u{b}\u{1f} ~", "ção 漢字 🙂"] {
        assert_eq!(texto_json(s), serde_json::to_string(s).unwrap());
    }
}

#[test]
fn escape_de_um_byte() {
    let mut saida = Vec::new();
    escrever_escape(&mut saida, b'a');
    escrever_escape(&mut saida, b'"');
    escrever_escape(&mut saida, 0x0b);
    assert_eq!(saida, b"a\\\"\\u000b".to_vec());
}

#[test]
fn digito_hex_minusculo() {
    assert_eq!(hex_de(0), b'0');
    assert_eq!(hex_de(9), b'9');
    assert_eq!(hex_de(10), b'a');
    assert_eq!(hex_de(15), b'f');
}

#[test]
fn pecas_de_objeto_e_lista() {
    let mut saida = Vec::new();
    escrever_byte(&mut saida, b'{');
    iniciar_campo(&mut saida, true, "a");
    escrever_decimal(&mut saida, 1);
    iniciar_campo(&mut saida, false, "b");
    escrever_byte(&mut saida, b'[');
    iniciar_item(&mut saida, true);
    escrever_decimal(&mut saida, 2);
    iniciar_item(&mut saida, false);
    escrever_decimal(&mut saida, 3);
    escrever_byte(&mut saida, b']');
    escrever_byte(&mut saida, b'}');
    assert_eq!(String::from_utf8(saida).unwrap(), "{\"a\":1,\"b\":[2,3]}");
}

#[test]
fn chave_e_anexo() {
    let mut saida = Vec::new();
    escrever_chave(&mut saida, "indice");
    anexar(&mut saida, b"12");
    assert_eq!(saida, b"\"indice\":12".to_vec());
}

#[test]
fn hex_de_bytes() {
    assert_eq!(hex_minusculo(&[]), "");
    assert_eq!(hex_minusculo(&[0x00, 0x0f, 0xa0, 0xff]), "000fa0ff");
    assert_eq!(hex_minusculo(&[0x12, 0xab]), "12ab");
}

#[test]
fn sha256_de_vetores_conhecidos() {
    assert_eq!(
        resumo_sha256_hex(b"abc"),
        "ba7816bf8f01cfea414140de5dae2223b00361a396177a9cb410ff61f20015ad"
    );
    assert_eq!(
        resumo_sha256_hex(b""),
        "e3b0c44298fc1c149afbf4c8996fb92427ae41e4649b934ca495991b7852b855"
    );
    let resumo = resumo_sha256(b"abc");
    assert_eq!(resumo.len(), 32);
    assert_eq!(resumo[0], 0xba);
    assert_eq!(resumo[31], 0xad);
}

#[test]
fn base64_de_vetores_conhecidos() {
    assert_eq!(codificar_base64(b""), "");
    assert_eq!(codificar_base64(b"f"), "Zg==");
    assert_eq!(codificar_base64(b"fo"), "Zm8=");
    assert_eq!(codificar_base64(b"foo"), "Zm9v");
    assert_eq!(codificar_base64(b"hello"), "aGVsbG8=");
    assert_eq!(codificar_base64(&[0xfb, 0xff]), "+/8=");
}

#[test]
fn base64_ida_e_volta() {
    let bytes: Vec<u8> = (0..=255u8).collect();
    let texto = codificar_base64(&bytes);
    assert_eq!(decodificar_base64(&texto), Some(bytes));
    assert_eq!(decodificar_base64("aGVsbG8="), Some(b"hello".to_vec()));
    assert_eq!(decodificar_base64(""), Some(Vec::new()));
}

#[test]
fn base64_recusa_o_que_nao_e() {
    assert_eq!(decodificar_base64("não é base64"), None);
    assert_eq!(decodificar_base64("aGVsbG8"), None);
    assert_eq!(decodificar_base64("a"), None);
}

#[test]
fn u32_de_texto() {
    assert_eq!(analisar_u32("0"), Some(0));
    assert_eq!(analisar_u32("1"), Some(1));
    assert_eq!(analisar_u32("007"), Some(7));
    assert_eq!(analisar_u32("+7"), Some(7));
    assert_eq!(analisar_u32("4294967295"), Some(u32::MAX));
    assert_eq!(analisar_u32("0000000004294967295"), Some(u32::MAX));
}

#[test]
fn u32_de_texto_recusado() {
    assert_eq!(analisar_u32(""), None);
    assert_eq!(analisar_u32("+"), None);
    assert_eq!(analisar_u32("-1"), None);
    assert_eq!(analisar_u32("-0"), None);
    assert_eq!(analisar_u32("++1"), None);
    assert_eq!(analisar_u32("1+"), None);
    assert_eq!(analisar_u32(" 1"), None);
    assert_eq!(analisar_u32("1 "), None);
    assert_eq!(analisar_u32("1a"), None);
    assert_eq!(analisar_u32("4294967296"), None);
    assert_eq!(analisar_u32("99999999999999999999999999"), None);
    assert_eq!(analisar_u32("١"), None);
}

#[test]
fn u32_de_texto_como_parse() {
    for s in ["0", "12", "+12", "-12", "", "+", "4294967295", "4294967296", "1_000", "0x10", "12 "] {
        assert_eq!(analisar_u32(s), s.parse::<u32>().ok());
    }
}

#[test]
fn mensagens_de_erro() {
    assert_eq!(BlocoErro::AutoridadeDesconhecida.mensagem(), "Autoridade desconhecida");
    assert_eq!(BlocoErro::AssinaturaInvalida.mensagem(), "Assinatura inválida");
    assert_eq!(BlocoErro::HashAnteriorNaoCorresponde.mensagem(), "Hash anterior não corresponde");
}

#[test]
fn u8_de_texto_como_parse() {
    for s in ["0", "7", "+7", "255", "256", "0255", "00256", "-1", "-0", "", "+", "1e1", "２"] {
        assert_eq!(analisar_u8(s), s.parse::<u8>().ok());
    }
    assert_eq!(analisar_u8("255"), Some(255));
    assert_eq!(analisar_u8("256"), None);
}

#[test]
fn i32_de_texto_como_parse() {
    for s in [
        "0", "-0", "+0", "7", "-7", "+7", "2147483647", "2147483648", "-2147483648",
        "-2147483649", "+2147483647", "+2147483648", "", "-", "+", "--1", "+-1", "-+1", "1-",
        " 1", "0x1", "-00012", "99999999999999999999",
    ] {
        assert_eq!(analisar_i32(s), s.parse::<i32>().ok());
    }
    assert_eq!(analisar_i32("-2147483648"), Some(i32::MIN));
    assert_eq!(analisar_i32("2147483647"), Some(i32::MAX));
    assert_eq!(analisar_i32("-12"), Some(-12));
}

#[test]
fn digitos_a_partir_de_uma_posicao() {
    assert_eq!(analisar_digitos(b"ab123", 2, 1000), Some(123));
    assert_eq!(analisar_digitos(b"ab123", 2, 122), None);
    assert_eq!(analisar_digitos(b"ab123", 2, 123), Some(123));
    assert_eq!(analisar_digitos(b"ab123", 5, 1000), None);
    assert_eq!(analisar_digitos(b"ab123", 1, 1000), None);
    assert_eq!(analisar_digitos(b"000", 0, 0), Some(0));
    assert_eq!(analisar_digitos(b"281474976710655", 0, 0xffff_ffff_ffff), Some(0xffff_ffff_ffff));
    assert_eq!(analisar_digitos(b"281474976710656", 0, 0xffff_ffff_ffff), None);
}

#[test]
fn decimal_em_texto() {
    let mut texto = String::from("n=");
    anexar_decimal(&mut texto, 0);
    anexar_decimal(&mut texto, 4294967295);
    anexar_decimal(&mut texto, 10);
    assert_eq!(texto, "n=0429496729510");
    assert_eq!(digito_hex_str(0), "0");
    assert_eq!(digito_hex_str(11), "b");
}

#[test]
fn caminhos_e_arquivos() {
    assert_eq!(caminho_da_chave_privada(1), "chaves_privadas/autoridade_1.pem");
    assert_eq!(caminho_da_chave_privada(0), "chaves_privadas/autoridade_0.pem");
    assert_eq!(caminho_da_chave_privada(u32::MAX), "chaves_privadas/autoridade_4294967295.pem");
    assert_eq!(arquivo_da_blockchain(), "blockchain.json");
    assert_eq!(arquivo_de_configuracao(), "config.toml");
}

#[test]
fn numeros_sorteados_como_parse() {
    let mut estado = 0x9e3779b97f4a7c15u64;
    let alfabeto = b"0123456789+-0123456789 a";
    for _ in 0..20_000 {
        estado ^= estado << 13;
        estado ^= estado >> 7;
        estado ^= estado << 17;
        let comprimento = (estado % 13) as usize;
        let mut texto = String::new();
        let mut resto = estado >> 8;
        for _ in 0..comprimento {
            texto.push(alfabeto[(resto % alfabeto.len() as u64) as usize] as char);
            resto /= 5;
        }
        assert_eq!(analisar_u32(&texto), texto.parse::<u32>().ok(), "{:?}", texto);
        assert_eq!(analisar_u8(&texto), texto.parse::<u8>().ok(), "{:?}", texto);
        assert_eq!(analisar_i32(&texto), texto.parse::<i32>().ok(), "{:?}", texto);
    }
}

#[test]
fn textos_sorteados_como_serde_json() {
    let mut estado = 0x2545f4914f6cdd1du64;
    for _ in 0..5_000 {
        let mut texto = String::new();
        for _ in 0..8 {
            estado ^= estado << 13;
            estado ^= estado >> 7;
            estado ^= estado << 17;
            let c = match estado % 4 {
                0 => (estado >> 8) as u32 % 0x80,
                1 => (estado >> 8) as u32 % 0x20,
                2 => (estado >> 8) as u32 % 0x800,
                _ => (estado >> 8) as u32 % 0x11_0000,
            };
            if let Some(c) = char::from_u32(c) {
                texto.push(c);
            }
        }
        assert_eq!(texto_json(&texto), serde_json::to_string(&texto).unwrap(), "{:?}", texto);
    }
}
