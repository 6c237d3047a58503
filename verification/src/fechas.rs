//! Fechas escritas por el operador (`DD/MM/YYYY`) y el inicio de un día en
//! Costa Rica (UTC−6, sin horario de verano) como segundos desde 1970.
use chrono::Datelike;
use crate::ui::reloj_ms;
use vstd::prelude::*;

verus! {

/// Día (contado desde el 1 de enero del año 1, que es el día 1) que
/// `chrono::NaiveDate::parse_from_str(s, "%d/%m/%Y")` lee en el texto, o
/// `None` si no es una fecha válida con ese formato.
pub uninterp spec fn dia_leido(s: Seq<char>) -> Option<i32>;

/// Lee una fecha `DD/MM/YYYY` con `chrono::NaiveDate::parse_from_str` y
/// devuelve su número de día (`Datelike::num_days_from_ce`). Lo que acepta
/// chrono queda nombrado por `dia_leido`; su documentación fija el rango de
/// `NaiveDate` (años ±262 143), de ahí la cota del resultado.
#[verifier::external_body]
pub(crate) fn leer_fecha(s: &str) -> (r: Option<i32>)
    ensures
        r == dia_leido(s@),
        r matches Some(d) ==> -100_000_000 <= d <= 100_000_000,
{
    chrono::NaiveDate::parse_from_str(s, "%d/%m/%Y").ok().map(|d| d.num_days_from_ce())
}

/// Día que `chrono::NaiveDate::parse_from_str(s, "%Y-%m-%d")` lee en el
/// texto, o `None` si no es una fecha válida con ese formato.
pub uninterp spec fn dia_iso_leido(s: Seq<char>) -> Option<i32>;

/// Lee una fecha `YYYY-MM-DD` (como la guarda la base) con
/// `chrono::NaiveDate::parse_from_str` y devuelve su número de día; lo que
/// acepta chrono queda nombrado por `dia_iso_leido`.
#[verifier::external_body]
pub(crate) fn leer_fecha_iso(s: &str) -> (r: Option<i32>)
    ensures
        r == dia_iso_leido(s@),
{
    chrono::NaiveDate::parse_from_str(s, "%Y-%m-%d").ok().map(|d| d.num_days_from_ce())
}

/// Día del 1 de enero de 1970 en la cuenta de `num_days_from_ce`.
pub const DIA_EPOCA: i64 = 719_163;

/// Desfase de Costa Rica respecto de UTC, en segundos (UTC−6).
pub const DESFASE_COSTA_RICA: i64 = 21_600;

/// Segundos desde 1970 (UTC) en que empieza, en Costa Rica, el día `dia`.
pub open spec fn inicio_dia(dia: int) -> int {
    (dia - DIA_EPOCA) * 86400 + DESFASE_COSTA_RICA
}

pub fn inicio_dia_costa_rica_utc(dia: i32) -> (r: i64)
    requires
        -100_000_001 <= dia <= 100_000_001,
    ensures
        r == inicio_dia(dia as int),
{
    (dia as i64 - DIA_EPOCA) * 86400 + DESFASE_COSTA_RICA
}

/// El día, en Costa Rica, del instante `segundos` (desde 1970, UTC),
/// contado como `num_days_from_ce`.
pub open spec fn dia_del_instante(segundos: int) -> int {
    (segundos - DESFASE_COSTA_RICA) / 86400 + DIA_EPOCA
}

/// El día en Costa Rica de un instante: el día que empieza a más tardar en
/// ese instante y termina después. Un instante más allá del día
/// 100 000 000 (fuera del calendario de chrono) da ese día.
pub fn dia_en_costa_rica(segundos: u64) -> (r: i32)
    ensures
        dia_del_instante(segundos as int) <= 100_000_000 ==> r == dia_del_instante(segundos as int)
            && inicio_dia(r as int) <= segundos < inicio_dia(r as int) + 86400,
        dia_del_instante(segundos as int) > 100_000_000 ==> r == 100_000_000,
{
    if segundos < 21_600 {
        assert(dia_del_instante(segundos as int) == DIA_EPOCA - 1) by (nonlinear_arith)
            requires
                segundos < 21_600,
        ;
        return 719_162;
    }
    let dias: u64 = (segundos - 21_600) / 86_400;
    assert(dia_del_instante(segundos as int) == dias + DIA_EPOCA && dias * 86400 <= segundos
        - 21_600 < dias * 86400 + 86400) by (nonlinear_arith)
        requires
            segundos >= 21_600,
            dias == (segundos - 21_600) / 86_400,
    ;
    if dias > 99_280_837 {
        return 100_000_000;
    }
    (dias + 719_163) as i32
}

/// Día de hoy en Costa Rica (UTC−6), contado como `num_days_from_ce`, según
/// el reloj del sistema (que antes de 1970 cuenta como 1970).
pub(crate) fn dia_hoy_costa_rica() -> (r: i32)
    ensures
        719_162 <= r <= 100_000_000,
{
    let segundos = reloj_ms() / 1000;
    assert(dia_del_instante(segundos as int) >= 719_162) by (nonlinear_arith)
        requires
            segundos >= 0,
    ;
    dia_en_costa_rica(segundos)
}

/// Texto `DD/MM/YYYY` que chrono escribe para un día
/// (`num_days_from_ce`), o vacío si el día está fuera de su rango.
pub uninterp spec fn fecha_escrita(dia: i32) -> Seq<char>;

/// Escribe un día con `chrono::NaiveDate::from_num_days_from_ce_opt` y
/// `format("%d/%m/%Y")`; el resultado queda nombrado por `fecha_escrita`.
/// Se afirma además lo que fija la documentación de los formatos de chrono:
/// entre los años 1 y 9999 (días 1 a 3 652 059) `%d`, `%m` y `%Y` escriben
/// día, mes y año completos con ceros a la izquierda, y
/// `parse_from_str` con el mismo formato lee de vuelta el mismo día.
#[verifier::external_body]
pub(crate) fn escribir_dia(dia: i32) -> (r: String)
    ensures
        r@ == fecha_escrita(dia),
        1 <= dia <= 3_652_059 ==> dia_leido(r@) == Some(dia),
{
    match chrono::NaiveDate::from_num_days_from_ce_opt(dia) {
        Some(f) => f.format("%d/%m/%Y").to_string(),
        None => String::new(),
    }
}

/// Día en que empieza el mes de `dia` (ambos `num_days_from_ce`).
pub uninterp spec fn primero_del_mes(dia: i32) -> i32;

/// Primer día del mes con chrono (`from_num_days_from_ce_opt`,
/// `with_day(1)`, `num_days_from_ce`); un día fuera del rango de chrono
/// queda igual. El resultado queda nombrado por `primero_del_mes`; se afirma
/// además lo que la documentación de `with_day` fija: entre los años 1 y
/// 9999 el primero del mes es el mismo día o uno anterior del mismo año.
#[verifier::external_body]
pub(crate) fn primer_dia_del_mes(dia: i32) -> (r: i32)
    ensures
        r == primero_del_mes(dia),
        1 <= dia <= 3_652_059 ==> 1 <= r <= dia,
{
    match chrono::NaiveDate::from_num_days_from_ce_opt(dia).and_then(|f| f.with_day(1)) {
        Some(f) => f.num_days_from_ce(),
        None => dia,
    }
}

/// Texto `YYYY-MM-DD_HHMM` (hora de Costa Rica) que chrono escribe para un
/// instante en segundos desde 1970, o vacío fuera de su rango.
pub uninterp spec fn marca_de_archivo(segundos: i64) -> Seq<char>;

/// Escribe el instante con `chrono::DateTime::from_timestamp`, en la hora
/// fija de Costa Rica (UTC−6), con el formato `"%Y-%m-%d_%H%M"`. El
/// resultado queda nombrado por `marca_de_archivo`: depende sólo del
/// instante.
#[verifier::external_body]
fn escribir_marca_de_archivo(segundos: i64) -> (r: String)
    ensures
        r@ == marca_de_archivo(segundos),
{
    match (chrono::DateTime::from_timestamp(segundos, 0), chrono::FixedOffset::west_opt(21_600)) {
        (Some(t), Some(cr)) => t.with_timezone(&cr).format("%Y-%m-%d_%H%M").to_string(),
        _ => String::new(),
    }
}

/// Nombre que se propone para exportar el historial en el instante
/// `segundos`: `historial_`, la fecha y hora de Costa Rica, y `.xlsx`.
pub fn nombre_exportacion(segundos: i64) -> (r: String)
    ensures
        r@ == "historial_"@ + marca_de_archivo(segundos) + ".xlsx"@,
{
    let marca = escribir_marca_de_archivo(segundos);
    let v = crate::texto::unir(
        crate::texto::caracteres("historial_").as_slice(),
        crate::texto::caracteres(marca.as_str()).as_slice(),
    );
    let v = crate::texto::unir(v.as_slice(), crate::texto::caracteres(".xlsx").as_slice());
    crate::texto::texto_de(v.as_slice())
}

} // verus!
