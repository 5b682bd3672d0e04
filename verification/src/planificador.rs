//! Intervalos de recopilación: frecuencias configurables y su alargamiento en batería. Los
//! intervalos se expresan en nanosegundos (`u128`), la misma cantidad que `Duration::as_nanos`.
use vstd::prelude::*;

verus! {

/// Nanosegundos de un segundo.
pub const SEGUNDO_NS: u128 = 1_000_000_000;

/// El mayor intervalo representable como `std::time::Duration`, en nanosegundos.
pub const DURACION_MAXIMA_NS: u128 = 18_446_744_073_709_551_615_999_999_999;

/// Multiplicador que se aplica en batería a los trabajos no inmunes.
pub const MULTIPLICADOR_BATERIA: u128 = 4;

/// Un trabajo de recopilación con su intervalo por defecto y sus límites válidos (en
/// nanosegundos).
#[derive(Debug, Clone, Copy, PartialEq, Eq, Structural)]
pub struct Trabajo {
    pub por_defecto: u128,
    pub minimo: u128,
    pub maximo: u128,
    /// Si es `true`, la batería no lo altera: alimenta alertas graves.
    pub inmune_a_bateria: bool,
}

/// Lecturas rápidas de métricas: 30 s por defecto, entre 10 s y 5 min; la batería las espacia.
pub open spec fn trabajo_metricas_rapidas() -> Trabajo {
    Trabajo {
        por_defecto: 30_000_000_000,
        minimo: 10_000_000_000,
        maximo: 300_000_000_000,
        inmune_a_bateria: false,
    }
}

pub fn metricas_rapidas() -> (r: Trabajo)
    ensures
        r == trabajo_metricas_rapidas(),
{
    Trabajo {
        por_defecto: 30_000_000_000,
        minimo: 10_000_000_000,
        maximo: 300_000_000_000,
        inmune_a_bateria: false,
    }
}

/// Lectura SMART completa: 5 min por defecto, entre 1 min y 1 h; inmune a la batería.
pub open spec fn trabajo_smart_completo() -> Trabajo {
    Trabajo {
        por_defecto: 300_000_000_000,
        minimo: 60_000_000_000,
        maximo: 3600_000_000_000,
        inmune_a_bateria: true,
    }
}

pub fn smart_completo() -> (r: Trabajo)
    ensures
        r == trabajo_smart_completo(),
{
    Trabajo {
        por_defecto: 300_000_000_000,
        minimo: 60_000_000_000,
        maximo: 3600_000_000_000,
        inmune_a_bateria: true,
    }
}

/// Lectura del registro de eventos: 30 s por defecto, entre 15 s y 5 min; inmune a la batería.
pub open spec fn trabajo_eventos_windows() -> Trabajo {
    Trabajo {
        por_defecto: 30_000_000_000,
        minimo: 15_000_000_000,
        maximo: 300_000_000_000,
        inmune_a_bateria: true,
    }
}

pub fn eventos_windows() -> (r: Trabajo)
    ensures
        r == trabajo_eventos_windows(),
{
    Trabajo {
        por_defecto: 30_000_000_000,
        minimo: 15_000_000_000,
        maximo: 300_000_000_000,
        inmune_a_bateria: true,
    }
}

/// Detección de altas y bajas: 1 min por defecto, entre 30 s y 10 min; la batería la espacia.
pub open spec fn trabajo_altas_y_bajas() -> Trabajo {
    Trabajo {
        por_defecto: 60_000_000_000,
        minimo: 30_000_000_000,
        maximo: 600_000_000_000,
        inmune_a_bateria: false,
    }
}

pub fn altas_y_bajas() -> (r: Trabajo)
    ensures
        r == trabajo_altas_y_bajas(),
{
    Trabajo {
        por_defecto: 60_000_000_000,
        minimo: 30_000_000_000,
        maximo: 600_000_000_000,
        inmune_a_bateria: false,
    }
}

/// `true` si la batería alarga el intervalo de `trabajo`.
pub open spec fn alarga_en_bateria(trabajo: Trabajo, en_bateria: bool) -> bool {
    en_bateria && !trabajo.inmune_a_bateria
}

/// El intervalo configurado, multiplicado por cuatro en batería si el trabajo no es inmune. El
/// intervalo alargado ha de seguir siendo una duración representable.
pub fn intervalo_efectivo(trabajo: Trabajo, configurado: u128, en_bateria: bool) -> (r: u128)
    requires
        configurado <= DURACION_MAXIMA_NS,
        alarga_en_bateria(trabajo, en_bateria) ==> configurado * MULTIPLICADOR_BATERIA
            <= DURACION_MAXIMA_NS,
    ensures
        r == (if alarga_en_bateria(trabajo, en_bateria) {
            configurado * MULTIPLICADOR_BATERIA
        } else {
            configurado as int
        }),
{
    if en_bateria && !trabajo.inmune_a_bateria {
        configurado * MULTIPLICADOR_BATERIA
    } else {
        configurado
    }
}

/// En batería solo se espacian los trabajos que no alimentan alertas graves (métricas rápidas y
/// altas y bajas); la lectura SMART y la de eventos mantienen su intervalo. Fuera de batería, nada
/// cambia. El intervalo por defecto de cada trabajo está dentro de sus límites.
pub proof fn la_bateria_solo_espacia_lo_que_no_es_grave(en_bateria: bool)
    ensures
        alarga_en_bateria(trabajo_metricas_rapidas(), en_bateria) == en_bateria,
        alarga_en_bateria(trabajo_altas_y_bajas(), en_bateria) == en_bateria,
        !alarga_en_bateria(trabajo_smart_completo(), en_bateria),
        !alarga_en_bateria(trabajo_eventos_windows(), en_bateria),
        forall|t: Trabajo| !alarga_en_bateria(t, false),
        forall|t: Trabajo|
            #![trigger t.por_defecto]
            t == trabajo_metricas_rapidas() || t == trabajo_smart_completo() || t
                == trabajo_eventos_windows() || t == trabajo_altas_y_bajas() ==> t.minimo
                <= t.por_defecto <= t.maximo,
{
}

} // verus!
