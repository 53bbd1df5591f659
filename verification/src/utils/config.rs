//! The registry of authorities: which public key checks the blocks of which
//! authority. It is read once, from a TOML text, and does not change after.

use std::collections::HashMap;
use vstd::prelude::*;
use vstd::string::*;
use vstd::std_specs::hash::*;
use crate::criptografia::chaves::{publica_do_pem, ChavePublica, ChavePublicaV};
use crate::utils::texto::{analisar_u32, u32_do_texto};

verus! {

broadcast use vstd::std_specs::hash::group_hash_axioms;

/// Why a configuration text gives no registry.
#[derive(Clone, Copy, Debug, PartialEq, Eq, Structural)]
pub enum ErroConfig {
    /// The text is not TOML.
    TomlInvalido,
    /// An authority's identifier is not a `u32` in decimal.
    IdInvalido,
    /// An authority's key is not a TOML string.
    ChaveNaoTexto,
    /// An authority's key is not the PEM text of an RSA public key.
    ChavePublicaInvalida,
}

/// One entry of the authorities' table: its key and, where the value is a
/// string, that string.
pub type Entrada = (String, Option<String>);

/// What `toml` reads out of a text for one table: `None` where the text is
/// not TOML; `Some(None)` where it has no table of that name; else the
/// table's entries in the order in which `toml` walks them, each value as
/// its string where it is one.
pub uninterp spec fn tabela_toml(conteudo: Seq<char>, tabela: Seq<char>) -> Option<
    Option<Seq<(Seq<char>, Option<Seq<char>>)>>,
>;

/// `str::parse::<toml::Value>`, then `Value::get`, `Value::as_table`, the
/// table's `iter` and `Value::as_str` on each value. `toml` keeps a table in
/// a map that it walks in one fixed order, so the entries and their order
/// are a function of the text.
#[verifier::external_body]
fn toml_tabela(conteudo: &str, tabela: &str) -> (res: Option<Option<Vec<Entrada>>>)
    ensures
        res.deep_view() == tabela_toml(conteudo@, tabela@),
{
    let valor = conteudo.parse::<toml::Value>().ok()?;
    Some(
        valor.get(tabela).and_then(|v| v.as_table()).map(
            |t| t.iter().map(|(k, v)| (k.clone(), v.as_str().map(|s| s.to_string()))).collect(),
        ),
    )
}

/// The registry that a list of entries gives: each entry in turn puts its
/// key under its identifier, a later one replacing an earlier one of the
/// same identifier; the first entry that is at fault gives its error.
pub open spec fn registro_de(entradas: Seq<(Seq<char>, Option<Seq<char>>)>) -> Result<
    Map<u32, ChavePublicaV>,
    ErroConfig,
>
    decreases entradas.len(),
{
    if entradas.len() == 0 {
        Ok(Map::empty())
    } else {
        match registro_de(entradas.drop_last()) {
            Err(e) => Err(e),
            Ok(registro) => match entrada_lida(entradas.last()) {
                Err(e) => Err(e),
                Ok((id, chave)) => Ok(registro.insert(id, chave)),
            },
        }
    }
}

/// What one entry gives: the identifier and the key, or what is at fault,
/// the identifier being looked at first.
pub open spec fn entrada_lida(entrada: (Seq<char>, Option<Seq<char>>)) -> Result<
    (u32, ChavePublicaV),
    ErroConfig,
> {
    match u32_do_texto(vstd::utf8::encode_utf8(entrada.0)) {
        None => Err(ErroConfig::IdInvalido),
        Some(id) => match entrada.1 {
            None => Err(ErroConfig::ChaveNaoTexto),
            Some(pem) => match publica_do_pem(pem) {
                None => Err(ErroConfig::ChavePublicaInvalida),
                Some((modulo, expoente)) => Ok((id, ChavePublicaV { modulo, expoente })),
            },
        },
    }
}

/// The registry that a configuration text gives: that of the entries of
/// its table `autoridades`, the empty one where it has no such table.
pub open spec fn registro_do_toml(conteudo: Seq<char>) -> Result<Map<u32, ChavePublicaV>, ErroConfig> {
    match tabela_toml(conteudo, "autoridades"@) {
        None => Err(ErroConfig::TomlInvalido),
        Some(None) => Ok(Map::empty()),
        Some(Some(entradas)) => registro_de(entradas),
    }
}

/// The registry of authorities.
#[derive(Debug)]
pub struct Config {
    pub chaves_publicas: HashMap<u32, ChavePublica>,
}

impl View for Config {
    type V = Map<u32, ChavePublicaV>;

    open spec fn view(&self) -> Map<u32, ChavePublicaV> {
        self.chaves_publicas@.map_values(|c: ChavePublica| c@)
    }
}

impl Config {
    /// A registry with no authority.
    pub fn vazia() -> (res: Config)
        ensures
            res@ == Map::<u32, ChavePublicaV>::empty(),
    {
        let res = Config { chaves_publicas: HashMap::new() };
        assert(res@ =~= Map::empty());
        res
    }

    /// Puts `chave` under `id_autoridade`, in place of the key that was
    /// there, if any.
    pub fn registrar(&mut self, id_autoridade: u32, chave: ChavePublica)
        ensures
            final(self)@ == old(self)@.insert(id_autoridade, chave@),
    {
        self.chaves_publicas.insert(id_autoridade, chave);
        assert(self@ =~= old(self)@.insert(id_autoridade, chave@));
    }

    /// The key of the authority `id_autoridade`, if the registry holds one.
    pub fn obter_chave_publica(&self, id_autoridade: u32) -> (res: Option<&ChavePublica>)
        ensures
            res is Some <==> self@.contains_key(id_autoridade),
            res matches Some(chave) ==> chave@ == self@[id_autoridade],
    {
        self.chaves_publicas.get(&id_autoridade)
    }

    /// Reads one entry of the authorities' table.
    pub fn ler_entrada(entrada: &Entrada) -> (res: Result<(u32, ChavePublica), ErroConfig>)
        ensures
            match entrada_lida(entrada.deep_view()) {
                Ok((id, chave)) => res matches Ok(lida) && lida.0 == id && lida.1@ == chave,
                Err(e) => res == Err::<(u32, ChavePublica), ErroConfig>(e),
            },
    {
        let id = match analisar_u32(entrada.0.as_str()) {
            Some(id) => id,
            None => return Err(ErroConfig::IdInvalido),
        };
        let pem = match &entrada.1 {
            Some(pem) => pem,
            None => return Err(ErroConfig::ChaveNaoTexto),
        };
        match ChavePublica::de_pem(pem.as_str()) {
            Some(chave) => Ok((id, chave)),
            None => Err(ErroConfig::ChavePublicaInvalida),
        }
    }

    /// The registry of a list of entries.
    pub fn de_entradas(entradas: &Vec<Entrada>) -> (res: Result<Config, ErroConfig>)
        ensures
            match registro_de(entradas.deep_view()) {
                Ok(registro) => res matches Ok(config) && config@ == registro,
                Err(e) => res matches Err(erro) && erro == e,
            },
    {
        let mut config = Config::vazia();
        let ghost todas = entradas.deep_view();
        let mut i: usize = 0;
        while i < entradas.len()
            invariant
                i <= entradas.len(),
                todas == entradas.deep_view(),
                registro_de(todas.take(i as int)) == Ok::<Map<u32, ChavePublicaV>, ErroConfig>(
                    config@,
                ),
            decreases entradas.len() - i,
        {
            proof {
                assert(todas.take(i + 1).drop_last() =~= todas.take(i as int));
                assert(todas.take(i + 1).last() == entradas@[i as int].deep_view());
            }
            match Config::ler_entrada(&entradas[i]) {
                Ok((id, chave)) => {
                    config.registrar(id, chave);
                },
                Err(e) => {
                    proof {
                        lema_erro_fica(todas, i + 1);
                    }
                    return Err(e);
                },
            }
            i += 1;
        }
        assert(todas.take(entradas.len() as int) =~= todas);
        Ok(config)
    }

    /// The registry that a configuration text gives.
    pub fn carregar_configuracao_de(conteudo: &str) -> (res: Result<Config, ErroConfig>)
        ensures
            match registro_do_toml(conteudo@) {
                Ok(registro) => res matches Ok(config) && config@ == registro,
                Err(e) => res matches Err(erro) && erro == e,
            },
    {
        match toml_tabela(conteudo, "autoridades") {
            None => Err(ErroConfig::TomlInvalido),
            Some(None) => Ok(Config::vazia()),
            Some(Some(entradas)) => Config::de_entradas(&entradas),
        }
    }
}

/// Once a prefix of the entries is at fault, the whole list is, with the
/// same error.
pub proof fn lema_erro_fica(entradas: Seq<(Seq<char>, Option<Seq<char>>)>, k: int)
    requires
        0 <= k <= entradas.len(),
        registro_de(entradas.take(k)) is Err,
    ensures
        registro_de(entradas) == registro_de(entradas.take(k)),
    decreases entradas.len(),
{
    if k == entradas.len() {
        assert(entradas.take(k) =~= entradas);
    } else {
        let menos = entradas.drop_last();
        assert(menos.take(k) =~= entradas.take(k));
        lema_erro_fica(menos, k);
    }
}

} // verus!
