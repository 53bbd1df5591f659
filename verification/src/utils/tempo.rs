//! Instants and calendar dates as plain numbers. Which numbers name an
//! instant or a date is decided here, by the rules that `chrono` keeps; how
//! each is written as text, and what the clock shows, is `chrono`'s to say.

use vstd::prelude::*;
use vstd::string::*;
use crate::utils::json::{json_texto, escrever_texto};

verus! {

/// Whether `segundos` since the Unix epoch and `nanos` into that second name
/// an instant: one between the years -262143 and 262142, where `nanos` may
/// pass a full second only to stand for a leap second, in a second that ends
/// a minute.
pub open spec fn instante_valido(segundos: int, nanos: int) -> bool {
    &&& -8_334_601_228_800 <= segundos <= 8_210_266_876_799
    &&& 0 <= nanos
    &&& (nanos < 1_000_000_000 || (nanos < 2_000_000_000 && segundos % 60 == 59))
}

/// Whether `ano` is a leap year of the proleptic Gregorian calendar, in which
/// the year before year 1 is year 0.
pub open spec fn bissexto(ano: int) -> bool {
    ano % 4 == 0 && (ano % 100 != 0 || ano % 400 == 0)
}

/// The number of days of a month, for `mes` from 1 to 12.
pub open spec fn dias_do_mes(ano: int, mes: int) -> int {
    if mes == 2 {
        if bissexto(ano) {
            29
        } else {
            28
        }
    } else if mes == 4 || mes == 6 || mes == 9 || mes == 11 {
        30
    } else {
        31
    }
}

/// Whether year, month and day name a day of the calendar.
pub open spec fn data_valida(ano: int, mes: int, dia: int) -> bool {
    &&& -262_143 <= ano <= 262_142
    &&& 1 <= mes <= 12
    &&& 1 <= dia <= dias_do_mes(ano, mes)
}

/// The RFC 3339 text of an instant in UTC, as `chrono` writes it: date, `T`,
/// time, the fraction of the second in 3, 6 or 9 digits where there is one,
/// and `Z`.
pub uninterp spec fn texto_do_instante(segundos: int, nanos: int) -> Seq<char>;

/// The text of a date as `chrono` writes it: year, month and day with
/// hyphens between them.
pub uninterp spec fn texto_da_data(ano: int, mes: int, dia: int) -> Seq<char>;

/// `chrono::DateTime::to_rfc3339_opts` with `SecondsFormat::AutoSi` and `Z`
/// for UTC, on the instant that `chrono::DateTime::from_timestamp` makes of
/// the numbers. The text is a function of the numbers alone. The numbers
/// asked for are those of which `from_timestamp` makes an instant: it
/// divides the seconds into days and seconds of the day, refuses days
/// outside its calendar and refuses nanoseconds of two seconds or more, or
/// of one second or more outside the last second of a minute.
#[verifier::external_body]
fn chrono_texto_do_instante(segundos: i64, nanos: u32) -> (texto: String)
    requires
        instante_valido(segundos as int, nanos as int),
    ensures
        texto@ == texto_do_instante(segundos as int, nanos as int),
{
    match chrono::DateTime::from_timestamp(segundos, nanos) {
        Some(instante) => instante.to_rfc3339_opts(chrono::SecondsFormat::AutoSi, true),
        None => String::new(),
    }
}

/// `chrono::Utc::now`, taken apart by `timestamp` and
/// `timestamp_subsec_nanos`, which `from_timestamp` takes back. It reads the
/// system clock, so nothing is said of which instant comes back but what
/// holds of all of them: `chrono` makes the instant of the time that has
/// passed since the Unix epoch, whole seconds and the nanoseconds under one
/// second, so it is never before the epoch and never stands for a leap
/// second. The clock must not stand before 1970.
#[verifier::external_body]
fn chrono_agora() -> (partes: (i64, u32))
    ensures
        instante_valido(partes.0 as int, partes.1 as int),
        partes.0 >= 0,
        partes.1 < 1_000_000_000,
{
    let agora = chrono::Utc::now();
    (agora.timestamp(), agora.timestamp_subsec_nanos())
}

/// The `Debug` text of the `chrono::NaiveDate` that
/// `chrono::NaiveDate::from_ymd_opt` makes of the numbers, which is also what
/// the date's serialisation writes. The numbers asked for are those of
/// which `from_ymd_opt` makes a date: a day of the proleptic Gregorian
/// calendar within `chrono`'s years.
#[verifier::external_body]
fn chrono_texto_da_data(ano: i32, mes: u32, dia: u32) -> (texto: String)
    requires
        data_valida(ano as int, mes as int, dia as int),
    ensures
        texto@ == texto_da_data(ano as int, mes as int, dia as int),
{
    match chrono::NaiveDate::from_ymd_opt(ano, mes, dia) {
        Some(data) => format!("{:?}", data),
        None => String::new(),
    }
}

/// Adding a multiple of `m` to a number leaves its remainder by `m` as it
/// was.
pub proof fn lema_mesmo_resto(x: int, k: int, m: int)
    requires
        m > 0,
    ensures
        (x + m * k) % m == x % m,
{
    vstd::arithmetic::div_mod::lemma_mod_multiples_vanish(k, x, m);
    assert(m * k + x == x + m * k);
}

/// Whether `ano`, a year of the calendar, is a leap year.
pub fn eh_bissexto(ano: i32) -> (res: bool)
    requires
        -262_143 <= ano <= 262_142,
    ensures
        res == bissexto(ano as int),
{
    // The years counted from a year that begins a cycle of 400 are not
    // negative and stand in the cycle where these do.
    let desde_o_ciclo: u32 = (ano + 262_400) as u32;
    proof {
        assert(262_400int == 4 * 65_600int);
        assert(262_400int == 100 * 2_624int);
        assert(262_400int == 400 * 656int);
        lema_mesmo_resto(ano as int, 65_600, 4);
        lema_mesmo_resto(ano as int, 2_624, 100);
        lema_mesmo_resto(ano as int, 656, 400);
    }
    desde_o_ciclo % 4 == 0 && (desde_o_ciclo % 100 != 0 || desde_o_ciclo % 400 == 0)
}

/// The number of days of the month `mes` of the year `ano`.
pub fn dias_no_mes(ano: i32, mes: u32) -> (dias: u32)
    requires
        -262_143 <= ano <= 262_142,
        1 <= mes <= 12,
    ensures
        dias == dias_do_mes(ano as int, mes as int),
{
    if mes == 2 {
        if eh_bissexto(ano) {
            29
        } else {
            28
        }
    } else if mes == 4 || mes == 6 || mes == 9 || mes == 11 {
        30
    } else {
        31
    }
}

/// An instant in UTC: seconds since the Unix epoch and nanoseconds into the
/// second. Every value names an instant that the calendar holds.
#[derive(Clone, Copy, Debug, PartialEq, Eq, Structural)]
pub struct Instante {
    segundos: i64,
    nanos: u32,
}

impl Instante {
    #[verifier::type_invariant]
    spec fn valido(self) -> bool {
        instante_valido(self.segundos as int, self.nanos as int)
    }

    /// The seconds since the Unix epoch.
    pub closed spec fn spec_segundos(&self) -> i64 {
        self.segundos
    }

    /// The nanoseconds into the second.
    pub closed spec fn spec_nanos(&self) -> u32 {
        self.nanos
    }

    /// The instant's text inside the canonical encoding: a JSON string of its
    /// RFC 3339 form.
    pub open spec fn json(&self) -> Seq<u8> {
        json_texto(texto_do_instante(self.spec_segundos() as int, self.spec_nanos() as int))
    }

    /// The instant of the given numbers, where they name one.
    pub fn novo(segundos: i64, nanos: u32) -> (res: Option<Instante>)
        ensures
            res is Some <==> instante_valido(segundos as int, nanos as int),
            res matches Some(t) ==> t.spec_segundos() == segundos && t.spec_nanos() == nanos,
    {
        if segundos < -8_334_601_228_800 || segundos > 8_210_266_876_799 {
            return None;
        }
        if nanos >= 1_000_000_000 {
            if nanos >= 2_000_000_000 {
                return None;
            }
            // The seconds counted from the first instant of the calendar, which
            // begins a minute, are not negative and end a minute when these do.
            let desde_o_inicio: u64 = (segundos + 8_334_601_228_800) as u64;
            assert(desde_o_inicio as int % 60 == segundos as int % 60) by {
                assert(8_334_601_228_800int == 60 * 138_910_020_480int);
                lema_mesmo_resto(segundos as int, 138_910_020_480, 60);
            }
            if desde_o_inicio % 60 != 59 {
                return None;
            }
        }
        Some(Instante { segundos, nanos })
    }

    /// The Unix epoch, 1970-01-01 00:00:00 UTC.
    pub closed spec fn spec_epoca() -> Instante {
        Instante { segundos: 0, nanos: 0 }
    }

    /// The Unix epoch, 1970-01-01 00:00:00 UTC.
    pub fn epoca() -> (res: Instante)
        ensures
            res == Instante::spec_epoca(),
            res.spec_segundos() == 0,
            res.spec_nanos() == 0,
    {
        Instante { segundos: 0, nanos: 0 }
    }

    /// Whether the instant is one that a clock shows: at or after the Unix
    /// epoch, with its nanoseconds under one second.
    pub open spec fn lido_do_relogio(&self) -> bool {
        self.spec_segundos() >= 0 && self.spec_nanos() < 1_000_000_000
    }

    /// The instant that the system clock shows: one at or after the Unix
    /// epoch, with its nanoseconds under one second.
    pub fn agora() -> (res: Instante)
        ensures
            res.lido_do_relogio(),
            res.spec_segundos() >= 0,
            res.spec_nanos() < 1_000_000_000,
    {
        let (segundos, nanos) = chrono_agora();
        Instante { segundos, nanos }
    }

    #[verifier::when_used_as_spec(spec_segundos)]
    pub fn segundos(&self) -> (s: i64)
        ensures
            s == self.spec_segundos(),
    {
        self.segundos
    }

    #[verifier::when_used_as_spec(spec_nanos)]
    pub fn nanos(&self) -> (n: u32)
        ensures
            n == self.spec_nanos(),
    {
        self.nanos
    }

    /// The RFC 3339 text of the instant.
    pub fn texto(&self) -> (res: String)
        ensures
            res@ == texto_do_instante(self.spec_segundos() as int, self.spec_nanos() as int),
    {
        proof {
            use_type_invariant(self);
        }
        chrono_texto_do_instante(self.segundos, self.nanos)
    }

    /// Appends the instant as it stands in the canonical encoding.
    pub fn escrever_json(&self, saida: &mut Vec<u8>)
        ensures
            final(saida)@ == old(saida)@ + self.json(),
    {
        let texto = self.texto();
        escrever_texto(saida, texto.as_str());
    }
}

/// A day of the calendar. Every value names a day that exists.
#[derive(Clone, Copy, Debug, PartialEq, Eq, Structural)]
pub struct Data {
    ano: i32,
    mes: u32,
    dia: u32,
}

impl Data {
    #[verifier::type_invariant]
    spec fn valida(self) -> bool {
        data_valida(self.ano as int, self.mes as int, self.dia as int)
    }

    pub closed spec fn spec_ano(&self) -> i32 {
        self.ano
    }

    pub closed spec fn spec_mes(&self) -> u32 {
        self.mes
    }

    pub closed spec fn spec_dia(&self) -> u32 {
        self.dia
    }

    /// The date's text inside the canonical encoding: a JSON string.
    pub open spec fn json(&self) -> Seq<u8> {
        json_texto(texto_da_data(self.spec_ano() as int, self.spec_mes() as int, self.spec_dia() as int))
    }

    /// The date of the given year, month and day, where that day exists.
    pub fn nova(ano: i32, mes: u32, dia: u32) -> (res: Option<Data>)
        ensures
            res is Some <==> data_valida(ano as int, mes as int, dia as int),
            res matches Some(d) ==> d.spec_ano() == ano && d.spec_mes() == mes && d.spec_dia() == dia,
    {
        if ano < -262_143 || ano > 262_142 || mes < 1 || mes > 12 || dia < 1 {
            return None;
        }
        let ultimo = dias_no_mes(ano, mes);
        if dia <= ultimo {
            Some(Data { ano, mes, dia })
        } else {
            None
        }
    }

    #[verifier::when_used_as_spec(spec_ano)]
    pub fn ano(&self) -> (a: i32)
        ensures
            a == self.spec_ano(),
    {
        self.ano
    }

    #[verifier::when_used_as_spec(spec_mes)]
    pub fn mes(&self) -> (m: u32)
        ensures
            m == self.spec_mes(),
    {
        self.mes
    }

    #[verifier::when_used_as_spec(spec_dia)]
    pub fn dia(&self) -> (d: u32)
        ensures
            d == self.spec_dia(),
    {
        self.dia
    }

    /// The date's text: year, month and day with hyphens.
    pub fn texto(&self) -> (res: String)
        ensures
            res@ == texto_da_data(self.spec_ano() as int, self.spec_mes() as int, self.spec_dia() as int),
    {
        proof {
            use_type_invariant(self);
        }
        chrono_texto_da_data(self.ano, self.mes, self.dia)
    }

    /// Appends the date as it stands in the canonical encoding.
    pub fn escrever_json(&self, saida: &mut Vec<u8>)
        ensures
            final(saida)@ == old(saida)@ + self.json(),
    {
        let texto = self.texto();
        escrever_texto(saida, texto.as_str());
    }
}

} // verus!
