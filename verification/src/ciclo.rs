//! Silencio de un grupo de alerta por acción del usuario.
//!
//! El silencio es **ortogonal** al estado: nunca decide si un grupo cuenta para la salud del
//! dispositivo, solo si notifica. Los instantes se expresan en nanosegundos desde la época Unix.
use vstd::prelude::*;

use crate::reglas::{regla_es_ignorable, vetadas};
use crate::texto::iguales;

verus! {

/// El valor especial de silencio indefinido.
pub const SILENCIO_INDEFINIDO: &'static str = "infinite";

/// Un minuto, en nanosegundos.
pub const MINUTO_NS: i128 = 60_000_000_000;

/// El primer instante que `time` representa (`-9999-01-01T00:00:00Z`), en nanosegundos desde la
/// época Unix.
pub const INSTANTE_MINIMO_NS: i128 = -377_705_116_800_000_000_000;

/// El último instante que `time` representa (`9999-12-31T23:59:59.999999999Z`), en nanosegundos
/// desde la época Unix.
pub const INSTANTE_MAXIMO_NS: i128 = 253_402_300_799_999_999_999;

/// El comienzo del año 0 (`0000-01-01T00:00:00Z`), en nanosegundos desde la época Unix: el
/// primer instante que el formato RFC 3339 de `time` sabe escribir.
pub const INICIO_ANIO_CERO_NS: i128 = -62_167_219_200_000_000_000;

/// El instante (nanosegundos desde la época Unix) que denota un texto RFC 3339, o `None` si el
/// texto no es un RFC 3339 válido.
pub uninterp spec fn instante_rfc3339(texto: Seq<char>) -> Option<i128>;

/// El texto RFC 3339, en UTC, de un instante dado en nanosegundos desde la época Unix, o `None`
/// si el instante no se puede representar.
pub uninterp spec fn texto_rfc3339(unix_nanos: i128) -> Option<Seq<char>>;

/// Lee un instante RFC 3339 con `time::OffsetDateTime::parse` y lo devuelve en nanosegundos desde
/// la época Unix (`unix_timestamp_nanos`); si `time` lo rechaza, el texto de su error
/// (`to_string`). El instante se nombra, no se describe: qué textos acepta `time` y qué instante
/// les da queda sin enunciar aquí, y también qué dice el texto del error.
#[verifier::external_body]
pub(crate) fn leer_rfc3339(texto: &str) -> (r: Result<i128, String>)
    ensures
        match r {
            Ok(t) => instante_rfc3339(texto@) == Some(t),
            Err(_) => instante_rfc3339(texto@) is None,
        },
{
    match time::OffsetDateTime::parse(texto, &time::format_description::well_known::Rfc3339) {
        Ok(t) => Ok(t.unix_timestamp_nanos()),
        Err(e) => Err(e.to_string()),
    }
}

/// Escribe en RFC 3339 (UTC) un instante dado en nanosegundos desde la época Unix, con
/// `time::OffsetDateTime::from_unix_timestamp_nanos` y `format`. `None` si `time` rechaza el
/// instante o no sabe escribirlo, lo que ocurre exactamente con los años fuera de `0..=9999`.
/// Qué texto produce queda nombrado; de él se afirma solo que empieza por los cuatro dígitos del
/// año y que `time` lo vuelve a leer como el mismo instante.
#[verifier::external_body]
pub(crate) fn escribir_rfc3339(unix_nanos: i128) -> (r: Option<String>)
    ensures
        r is Some <==> INICIO_ANIO_CERO_NS <= unix_nanos <= INSTANTE_MAXIMO_NS,
        match r {
            Some(s) => {
                &&& texto_rfc3339(unix_nanos) == Some(s@)
                &&& instante_rfc3339(s@) == Some(unix_nanos)
                &&& s@.len() > 0
                &&& '0' <= s@[0] <= '9'
            },
            None => texto_rfc3339(unix_nanos) is None,
        },
{
    let instante = match time::OffsetDateTime::from_unix_timestamp_nanos(unix_nanos) {
        Ok(t) => t,
        Err(_) => return None,
    };
    match instante.format(&time::format_description::well_known::Rfc3339) {
        Ok(s) => Some(s),
        Err(_) => None,
    }
}

/// El texto a guardar en `muted_until`: `"infinite"` sin plazo, o el RFC 3339 del fin del
/// silencio (vacío si no se puede escribir).
pub open spec fn muted_until_para(minutos: Option<u32>, ahora: i128) -> Seq<char> {
    match minutos {
        None => SILENCIO_INDEFINIDO@,
        Some(m) => match texto_rfc3339((ahora + m * MINUTO_NS) as i128) {
            Some(s) => s,
            None => seq![],
        },
    }
}

/// El valor que debe guardarse en `muted_until` para silenciar `minutos` a partir de `ahora`
/// (nanosegundos desde la época Unix), o el silencio indefinido si `minutos` es `None`. Tanto
/// `ahora` como el fin del silencio han de ser instantes que `time` representa.
pub fn calcular_muted_until(minutos: Option<u32>, ahora: i128) -> (r: String)
    requires
        INSTANTE_MINIMO_NS <= ahora <= INSTANTE_MAXIMO_NS,
        minutos matches Some(m) ==> ahora + m * MINUTO_NS <= INSTANTE_MAXIMO_NS,
    ensures
        r@ == muted_until_para(minutos, ahora),
        // Sin plazo, el grupo queda silenciado en cualquier instante.
        minutos is None ==> forall|t: i128| #[trigger] silenciada(Some(r@), t),
        // Con plazo, el fin se escribe siempre que caiga en el año 0 o después (el máximo ya lo
        // exige `requires`).
        minutos matches Some(m) ==> (r@.len() > 0 <==> INICIO_ANIO_CERO_NS <= ahora + m * MINUTO_NS),
        // Con plazo escrito, el grupo está silenciado justo antes del fin y deja de estarlo en
        // cuanto llega: silenciado ahora si `m >= 1`, y ya no pasados `m + 1` minutos.
        minutos matches Some(m) ==> (INICIO_ANIO_CERO_NS <= ahora + m * MINUTO_NS ==> forall|t: i128|
            #[trigger] silenciada(Some(r@), t) <==> t < ahora + m * MINUTO_NS),
        minutos matches Some(m) ==> (m >= 1 && INICIO_ANIO_CERO_NS <= ahora + m * MINUTO_NS
            ==> silenciada(Some(r@), ahora)),
        minutos matches Some(m) ==> (INICIO_ANIO_CERO_NS <= ahora + m * MINUTO_NS ==> !silenciada(
            Some(r@),
            (ahora + (m + 1) * MINUTO_NS) as i128,
        )),
{
    match minutos {
        None => SILENCIO_INDEFINIDO.to_owned(),
        Some(m) => {
            let hasta = ahora + (m as i128) * MINUTO_NS;
            match escribir_rfc3339(hasta) {
                Some(s) => {
                    proof {
                        reveal_strlit("infinite");
                        assert(s@ != SILENCIO_INDEFINIDO@);
                    }
                    s
                },
                None => String::new(),
            }
        },
    }
}

/// Si un grupo está silenciado en el instante `ahora`.
pub open spec fn silenciada(muted_until: Option<Seq<char>>, ahora: i128) -> bool {
    match muted_until {
        None => false,
        Some(s) => if s == SILENCIO_INDEFINIDO@ {
            true
        } else {
            match instante_rfc3339(s) {
                Some(t) => t > ahora,
                None => false,
            }
        },
    }
}

/// Si un grupo está silenciado **ahora mismo** (`ahora` en nanosegundos desde la época Unix):
/// sin silencio no; con silencio indefinido sí; con una fecha, mientras no haya pasado; una fecha
/// ilegible no silencia.
pub fn esta_silenciada(muted_until: Option<&str>, ahora: i128) -> (r: bool)
    ensures
        r == silenciada(
            match muted_until {
                Some(s) => Some(s@),
                None => None,
            },
            ahora,
        ),
{
    match muted_until {
        None => false,
        Some(fecha) => {
            if iguales(fecha, SILENCIO_INDEFINIDO) {
                true
            } else {
                match leer_rfc3339(fecha) {
                    Ok(t) => t > ahora,
                    Err(_) => false,
                }
            }
        },
    }
}

/// El silencio indefinido no expira nunca, y uno con fecha expira en cuanto esa fecha queda
/// atrás.
pub proof fn el_silencio_indefinido_no_expira_y_el_temporal_si(s: Seq<char>, t: i128, a1: i128, a2: i128)
    requires
        instante_rfc3339(s) == Some(t),
        a1 < t <= a2,
    ensures
        silenciada(Some(SILENCIO_INDEFINIDO@), a1),
        silenciada(Some(SILENCIO_INDEFINIDO@), a2),
        s != SILENCIO_INDEFINIDO@ ==> silenciada(Some(s), a1) && !silenciada(Some(s), a2),
{
}

/// Por qué no se pudo ignorar un grupo.
#[derive(Debug, Clone, Copy, PartialEq, Eq, Structural)]
pub enum IgnorarError {
    /// El grupo no existe.
    NoExiste,
    /// La regla del grupo está vetada: no se puede ignorar.
    ReglaNoIgnorable,
}

/// Si un grupo se puede ignorar, dada la regla del grupo (`None` si el grupo no existe). Un
/// grupo ignorable pasa a `ignored` desde cualquier estado.
pub fn comprobar_ignorable(rule_key: Option<&str>) -> (r: Result<(), IgnorarError>)
    ensures
        match rule_key {
            None => r == Err::<(), IgnorarError>(IgnorarError::NoExiste),
            Some(k) => if vetadas().contains(k@) {
                r == Err::<(), IgnorarError>(IgnorarError::ReglaNoIgnorable)
            } else {
                r is Ok
            },
        },
{
    match rule_key {
        None => Err(IgnorarError::NoExiste),
        Some(k) => if regla_es_ignorable(k) {
            Ok(())
        } else {
            Err(IgnorarError::ReglaNoIgnorable)
        },
    }
}

} // verus!
