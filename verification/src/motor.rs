//! Activación y resolución de las reglas SMART sobre series de muestras, la más reciente
//! primero. Las comparaciones de cada muestra con su umbral (números de coma flotante) llegan ya
//! hechas, como un booleano por muestra; aquí se decide qué activa o resuelve cada regla.
use vstd::prelude::*;

use crate::tipos::AlertSeverity;

verus! {

/// Las `n` muestras más recientes cumplen la condición; con menos de `n` muestras, no: un
/// contador que falta no se evalúa.
pub open spec fn racha(cumple: Seq<bool>, n: int) -> bool {
    cumple.len() >= n && forall|i: int| 0 <= i < n ==> cumple[i]
}

/// Si las `n` muestras más recientes cumplen la condición (`cumple[i]`, la más reciente primero).
pub fn primeras_cumplen(cumple: &[bool], n: usize) -> (r: bool)
    ensures
        r == racha(cumple@, n as int),
{
    if cumple.len() < n {
        return false;
    }
    let mut i: usize = 0;
    while i < n
        invariant
            i <= n <= cumple.len(),
            forall|j: int| 0 <= j < i ==> cumple@[j],
        decreases n - i,
    {
        if !cumple[i] {
            return false;
        }
        i += 1;
    }
    true
}

/// Una regla que se activa con `severidad` cuando sus `n` muestras más recientes cumplen la
/// condición (inmediata con `n = 1`; con histéresis de activación si es mayor).
pub fn activacion_por_racha(cumple: &[bool], n: usize, severidad: AlertSeverity) -> (r: Option<
    AlertSeverity,
>)
    ensures
        r == (if racha(cumple@, n as int) {
            Some(severidad)
        } else {
            None
        }),
{
    if primeras_cumplen(cumple, n) {
        Some(severidad)
    } else {
        None
    }
}

/// El nivel de una regla de dos umbrales sobre una magnitud: crítico si alcanza el crítico; si
/// no, aviso si alcanza el de aviso; sin magnitud que medir, nada.
pub open spec fn nivel_por_umbrales(hay_magnitud: bool, alcanza_critico: bool, alcanza_aviso: bool) -> Option<
    AlertSeverity,
> {
    if !hay_magnitud {
        None
    } else if alcanza_critico {
        Some(AlertSeverity::Critical)
    } else if alcanza_aviso {
        Some(AlertSeverity::Warning)
    } else {
        None
    }
}

/// El nivel de una regla de dos umbrales (`smart.wear_high` sobre la última lectura,
/// `smart.media_errors` sobre el incremento entre las dos últimas).
pub fn evaluar_por_umbrales(hay_magnitud: bool, alcanza_critico: bool, alcanza_aviso: bool) -> (r:
    Option<AlertSeverity>)
    ensures
        r == nivel_por_umbrales(hay_magnitud, alcanza_critico, alcanza_aviso),
{
    if !hay_magnitud {
        None
    } else if alcanza_critico {
        Some(AlertSeverity::Critical)
    } else if alcanza_aviso {
        Some(AlertSeverity::Warning)
    } else {
        None
    }
}

/// `smart.error_log` por los aumentos entre lecturas consecutivas (`aumentos[i]`: la lectura `i`
/// supera a la `i + 1`): sin aumento en la última, nada; tres aumentos seguidos, crítico; si no,
/// aviso.
pub open spec fn nivel_por_aumentos(aumentos: Seq<bool>) -> Option<AlertSeverity> {
    if aumentos.len() == 0 || !aumentos[0] {
        None
    } else if racha(aumentos, 3) {
        Some(AlertSeverity::Critical)
    } else {
        Some(AlertSeverity::Warning)
    }
}

/// El nivel de `smart.error_log` por los aumentos entre lecturas consecutivas.
pub fn evaluar_por_aumentos(aumentos: &[bool]) -> (r: Option<AlertSeverity>)
    ensures
        r == nivel_por_aumentos(aumentos@),
{
    if aumentos.len() == 0 || !aumentos[0] {
        None
    } else if primeras_cumplen(aumentos, 3) {
        Some(AlertSeverity::Critical)
    } else {
        Some(AlertSeverity::Warning)
    }
}

/// Con más aumentos seguidos, el nivel de `smart.error_log` nunca baja: si la serie ya era
/// crítica, añadir un aumento más reciente la deja crítica.
pub proof fn los_aumentos_seguidos_no_rebajan_el_nivel(aumentos: Seq<bool>)
    requires
        nivel_por_aumentos(aumentos) == Some(AlertSeverity::Critical),
    ensures
        nivel_por_aumentos(seq![true] + aumentos) == Some(AlertSeverity::Critical),
{
    let s = seq![true] + aumentos;
    assert(s[1] == aumentos[0] && s[2] == aumentos[1]);
}

/// Una sola muestra entre las `n` más recientes que no cumple la condición basta para que no haya
/// racha (y la regla no se active): toda muestra de la racha cuenta, también la última.
pub proof fn una_muestra_que_no_cumple_rompe_la_racha(cumple: Seq<bool>, n: int, i: int)
    requires
        0 <= i < n,
        i < cumple.len(),
        !cumple[i],
    ensures
        !racha(cumple, n),
{
}

/// Con menos de `n` muestras no hay racha de `n`: una muestra que falta no se da por buena.
pub proof fn sin_n_muestras_no_hay_racha(cumple: Seq<bool>, n: int)
    requires
        cumple.len() < n,
    ensures
        !racha(cumple, n),
{
}

/// Si las `n` muestras más recientes cumplen la condición, hay racha de `n`, sea lo que sea lo
/// que digan las más antiguas.
pub proof fn n_muestras_que_cumplen_hacen_racha(cumple: Seq<bool>, n: int)
    requires
        0 <= n <= cumple.len(),
        forall|i: int| 0 <= i < n ==> cumple[i],
    ensures
        racha(cumple, n),
        forall|extra: Seq<bool>| racha(#[trigger] (cumple + extra), n),
{
    assert forall|extra: Seq<bool>| racha(#[trigger] (cumple + extra), n) by {
        assert forall|i: int| 0 <= i < n implies (cumple + extra)[i] by {
            assert((cumple + extra)[i] == cumple[i]);
        }
    }
}

/// Una racha de `n` contiene todas las rachas más cortas: la histéresis más larga es la más
/// exigente.
pub proof fn una_racha_larga_contiene_las_cortas(cumple: Seq<bool>, n: int, m: int)
    requires
        0 <= m <= n,
        racha(cumple, n),
    ensures
        racha(cumple, m),
{
}

/// Una regla inmediata (`n = 1`) se activa exactamente cuando la muestra más reciente cumple la
/// condición: una lectura correcta no activa nada.
pub proof fn la_regla_inmediata_sigue_a_la_ultima_muestra(cumple: Seq<bool>)
    ensures
        racha(cumple, 1) <==> (cumple.len() > 0 && cumple[0]),
{
}

/// Los dos umbrales: crítico exactamente cuando hay magnitud y alcanza el crítico; aviso
/// exactamente cuando la hay y alcanza el aviso pero no el crítico; y nada sin magnitud o sin
/// alcanzar ninguno.
pub proof fn los_dos_umbrales_deciden_el_nivel(hay: bool, critico: bool, aviso: bool)
    ensures
        (nivel_por_umbrales(hay, critico, aviso) == Some(AlertSeverity::Critical)) <==> (hay
            && critico),
        (nivel_por_umbrales(hay, critico, aviso) == Some(AlertSeverity::Warning)) <==> (hay
            && !critico && aviso),
        nivel_por_umbrales(hay, critico, aviso) is None <==> (!hay || (!critico && !aviso)),
{
}

/// `smart.error_log`: alerta exactamente cuando la lectura más reciente supera a la anterior, y
/// es crítica exactamente cuando además las dos anteriores también subieron.
pub proof fn el_registro_de_errores_sigue_sus_aumentos(aumentos: Seq<bool>)
    ensures
        nivel_por_aumentos(aumentos) is Some <==> (aumentos.len() > 0 && aumentos[0]),
        (nivel_por_aumentos(aumentos) == Some(AlertSeverity::Critical)) <==> (aumentos.len() >= 3
            && aumentos[0] && aumentos[1] && aumentos[2]),
        (nivel_por_aumentos(aumentos) == Some(AlertSeverity::Warning)) <==> (aumentos.len() > 0
            && aumentos[0] && !(aumentos.len() >= 3 && aumentos[1] && aumentos[2])),
{
}

} // verus!
