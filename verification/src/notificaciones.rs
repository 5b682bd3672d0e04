//! Decide si una transición de alerta merece una notificación nativa: a partir de la
//! `Transicion`, del silencio del grupo, del apagado explícito de las notificaciones y del
//! cooldown por regla. Las duraciones van en nanosegundos.
use vstd::prelude::*;

use crate::agrupacion::Transicion;
use crate::reglas_eventos::{DIA_NS, HORA_NS, SEMANA_NS};
use crate::ciclo::{esta_silenciada, silenciada};
use crate::texto::iguales;

verus! {

/// Un minuto, en nanosegundos.
pub const MINUTO_NS: i128 = 60_000_000_000;

/// Política de notificación de una ocurrencia repetida. Un episodio nuevo, una recaída o una
/// escalada notifican siempre, sea cual sea la política.
#[derive(Debug, Clone, Copy, PartialEq, Eq, Structural)]
pub enum Notificacion {
    /// Cada ocurrencia notifica.
    Siempre,
    /// Notifica si ha pasado al menos este tiempo (nanosegundos) desde la última.
    TrasCooldown(i128),
    /// **Nunca** en ocurrencia repetida: solo al cruzar un umbral o cambiar de nivel.
    SoloAlCambiarDeNivel,
}

/// Política por regla. Una regla fuera de la lista cae a un cooldown moderado de una hora.
pub open spec fn politica(r: Seq<char>) -> Notificacion {
    if r == "smart.health.failed"@ || r == "nvme.critical_warning"@ {
        Notificacion::Siempre
    } else if r == "smart.media_errors"@ || r == "smart.error_log"@ {
        Notificacion::TrasCooldown(HORA_NS)
    } else if r == "smart.spare_below_threshold"@ || r == "smart.unreadable"@ {
        Notificacion::TrasCooldown((6 * HORA_NS) as i128)
    } else if r == "smart.wear_high"@ {
        Notificacion::TrasCooldown(SEMANA_NS)
    } else if r == "temp.above_configured_warn"@ || r == "temp.above_vendor_limit"@ {
        Notificacion::TrasCooldown((30 * MINUTO_NS) as i128)
    } else if r == "temp.above_configured_crit"@ {
        Notificacion::TrasCooldown((15 * MINUTO_NS) as i128)
    } else if r == "collector.stalled"@ {
        Notificacion::TrasCooldown(HORA_NS)
    } else if r == "capacity.low"@ || r == "capacity.critical"@ {
        Notificacion::SoloAlCambiarDeNivel
    } else if r == "events.disk_error"@ || r == "events.filesystem_error"@ || r
        == "events.controller_reset"@ || r == "events.delayed_write"@ || r
        == "events.storage_space_degraded"@ {
        Notificacion::TrasCooldown(HORA_NS)
    } else if r == "events.paging_error"@ || r == "events.io_retry"@ {
        Notificacion::TrasCooldown((6 * HORA_NS) as i128)
    } else if r == "events.filesystem_repaired"@ || r == "events.disk_predictive"@ {
        Notificacion::TrasCooldown(DIA_NS)
    } else if r == "events.filesystem_repair_storm"@ {
        Notificacion::TrasCooldown((6 * HORA_NS) as i128)
    } else if r == "device.removed_unexpected"@ {
        Notificacion::Siempre
    } else if r == "inventory.duplicate_id"@ {
        Notificacion::SoloAlCambiarDeNivel
    } else {
        Notificacion::TrasCooldown(HORA_NS)
    }
}

/// Política de notificación de una regla (ver `politica`).
pub fn politica_notificacion(rule_key: &str) -> (r: Notificacion)
    ensures
        r == politica(rule_key@),
{
    if iguales(rule_key, "smart.health.failed") || iguales(rule_key, "nvme.critical_warning") {
        Notificacion::Siempre
    } else if iguales(rule_key, "smart.media_errors") || iguales(rule_key, "smart.error_log") {
        Notificacion::TrasCooldown(HORA_NS)
    } else if iguales(rule_key, "smart.spare_below_threshold") || iguales(
        rule_key,
        "smart.unreadable",
    ) {
        Notificacion::TrasCooldown(6 * HORA_NS)
    } else if iguales(rule_key, "smart.wear_high") {
        Notificacion::TrasCooldown(SEMANA_NS)
    } else if iguales(rule_key, "temp.above_configured_warn") || iguales(
        rule_key,
        "temp.above_vendor_limit",
    ) {
        Notificacion::TrasCooldown(30 * MINUTO_NS)
    } else if iguales(rule_key, "temp.above_configured_crit") {
        Notificacion::TrasCooldown(15 * MINUTO_NS)
    } else if iguales(rule_key, "collector.stalled") {
        Notificacion::TrasCooldown(HORA_NS)
    } else if iguales(rule_key, "capacity.low") || iguales(rule_key, "capacity.critical") {
        Notificacion::SoloAlCambiarDeNivel
    } else if iguales(rule_key, "events.disk_error") || iguales(
        rule_key,
        "events.filesystem_error",
    ) || iguales(rule_key, "events.controller_reset") || iguales(
        rule_key,
        "events.delayed_write",
    ) || iguales(rule_key, "events.storage_space_degraded") {
        Notificacion::TrasCooldown(HORA_NS)
    } else if iguales(rule_key, "events.paging_error") || iguales(rule_key, "events.io_retry") {
        Notificacion::TrasCooldown(6 * HORA_NS)
    } else if iguales(rule_key, "events.filesystem_repaired") || iguales(
        rule_key,
        "events.disk_predictive",
    ) {
        Notificacion::TrasCooldown(DIA_NS)
    } else if iguales(rule_key, "events.filesystem_repair_storm") {
        Notificacion::TrasCooldown(6 * HORA_NS)
    } else if iguales(rule_key, "device.removed_unexpected") {
        Notificacion::Siempre
    } else if iguales(rule_key, "inventory.duplicate_id") {
        Notificacion::SoloAlCambiarDeNivel
    } else {
        Notificacion::TrasCooldown(HORA_NS)
    }
}

/// La decisión de enviar, por casos.
pub open spec fn spec_debe_enviar(
    notificaciones_activas: bool,
    silenciada: bool,
    transicion: Transicion,
    politica: Notificacion,
    desde_ultima: Option<i128>,
) -> bool {
    if !notificaciones_activas || silenciada {
        false
    } else {
        match transicion {
            Transicion::CreadaActiva | Transicion::Reactivada | Transicion::Escalada => true,
            Transicion::OcurrenciaRepetida => match politica {
                Notificacion::Siempre => true,
                Notificacion::TrasCooldown(cd) => match desde_ultima {
                    None => true,
                    Some(d) => d >= cd,
                },
                Notificacion::SoloAlCambiarDeNivel => false,
            },
            _ => false,
        }
    }
}

/// ¿Toca enviar el toast? El apagado explícito y el silencio mandan sobre todo; un episodio
/// nuevo, una recaída o una escalada notifican siempre; una ocurrencia repetida sigue la política
/// de su regla (`desde_ultima` es el tiempo, en nanosegundos, desde la última notificación del
/// grupo, `None` si nunca la hubo); el resto nunca notifica.
pub fn debe_enviar(
    notificaciones_activas: bool,
    silenciada: bool,
    transicion: Transicion,
    politica: Notificacion,
    desde_ultima: Option<i128>,
) -> (r: bool)
    ensures
        r == spec_debe_enviar(notificaciones_activas, silenciada, transicion, politica, desde_ultima),
{
    if !notificaciones_activas || silenciada {
        return false;
    }
    match transicion {
        Transicion::CreadaActiva | Transicion::Reactivada | Transicion::Escalada => true,
        Transicion::OcurrenciaRepetida => match politica {
            Notificacion::Siempre => true,
            Notificacion::TrasCooldown(cd) => match desde_ultima {
                None => true,
                Some(d) => d >= cd,
            },
            Notificacion::SoloAlCambiarDeNivel => false,
        },
        Transicion::SinCambio | Transicion::Resuelta | Transicion::OcurrenciaIgnorada => false,
    }
}

/// Silenciar suprime la notificación y apagarlas también, pase lo que pase.
pub proof fn silencio_y_apagado_mandan(
    activas: bool,
    silenciada: bool,
    t: Transicion,
    p: Notificacion,
    d: Option<i128>,
)
    requires
        !activas || silenciada,
    ensures
        !spec_debe_enviar(activas, silenciada, t, p, d),
{
}

/// Con las notificaciones activas y sin silencio, un episodio nuevo, una recaída o una escalada
/// notifican siempre, sea cual sea la política; sin cambio, resuelta u ocurrencia ignorada no
/// notifican nunca.
pub proof fn cambios_de_nivel_siempre_y_el_resto_nunca(t: Transicion, p: Notificacion, d: Option<
    i128,
>)
    ensures
        (t == Transicion::CreadaActiva || t == Transicion::Reactivada || t
            == Transicion::Escalada) ==> spec_debe_enviar(true, false, t, p, d),
        (t == Transicion::SinCambio || t == Transicion::Resuelta || t
            == Transicion::OcurrenciaIgnorada) ==> !spec_debe_enviar(true, false, t, p, d),
{
}

/// En una ocurrencia repetida con cooldown, notificar solo depende de si pasó el cooldown:
/// con más tiempo transcurrido nunca se notifica menos.
pub proof fn el_cooldown_es_monotono(cd: i128, d1: i128, d2: i128)
    requires
        d1 <= d2,
    ensures
        spec_debe_enviar(
            true,
            false,
            Transicion::OcurrenciaRepetida,
            Notificacion::TrasCooldown(cd),
            Some(d1),
        ) ==> spec_debe_enviar(
            true,
            false,
            Transicion::OcurrenciaRepetida,
            Notificacion::TrasCooldown(cd),
            Some(d2),
        ),
{
}

/// Los dos fallos del propio disco (autoevaluación SMART fallida y aviso crítico NVMe) notifican
/// en cada ocurrencia, sin cooldown: con las notificaciones activas y sin silencio, una ocurrencia
/// repetida avisa pase el tiempo que pase desde la última.
pub proof fn los_fallos_del_disco_notifican_cada_vez(r: Seq<char>, d: Option<i128>)
    requires
        r == "smart.health.failed"@ || r == "nvme.critical_warning"@,
    ensures
        politica(r) == Notificacion::Siempre,
        spec_debe_enviar(true, false, Transicion::OcurrenciaRepetida, politica(r), d),
{
}

/// Con la política de cada ocurrencia, toda ocurrencia repetida notifica (si están activas y no
/// silenciada), sin mirar el tiempo; con la de solo cambios de nivel, ninguna.
pub proof fn siempre_notifica_y_solo_cambios_nunca(d: Option<i128>)
    ensures
        spec_debe_enviar(true, false, Transicion::OcurrenciaRepetida, Notificacion::Siempre, d),
        !spec_debe_enviar(
            true,
            false,
            Transicion::OcurrenciaRepetida,
            Notificacion::SoloAlCambiarDeNivel,
            d,
        ),
{
}

/// Toda regla tiene una política con la que se le puede notificar alguna vez: ninguna cae en
/// un cooldown negativo o nulo.
pub proof fn toda_politica_tiene_cooldown_positivo(r: Seq<char>)
    ensures
        politica(r) matches Notificacion::TrasCooldown(cd) ==> cd > 0,
{
}

/// El tiempo desde la última notificación, acotado al rango de `i128` (un valor fuera de rango
/// queda en el extremo, que compara igual contra cualquier cooldown).
pub open spec fn tiempo_desde(ahora: i128, ultima: Option<i128>) -> Option<i128> {
    match ultima {
        None => None,
        Some(u) => if ahora - u > i128::MAX {
            Some(i128::MAX)
        } else if ahora - u < i128::MIN {
            Some(i128::MIN)
        } else {
            Some((ahora - u) as i128)
        },
    }
}

/// La decisión completa para un grupo que acaba de tener una transición: el grupo está
/// silenciado según su `muted_until` en `ahora`, y el tiempo desde su última notificación se
/// mide desde `ultima_notificacion` (nanosegundos desde la época Unix; `None` si nunca la hubo).
pub fn decidir_notificacion(
    notificaciones_activas: bool,
    muted_until: Option<&str>,
    ahora: i128,
    ultima_notificacion: Option<i128>,
    transicion: Transicion,
    rule_key: &str,
) -> (r: bool)
    ensures
        r == spec_debe_enviar(
            notificaciones_activas,
            silenciada(
                match muted_until {
                    Some(m) => Some(m@),
                    None => None,
                },
                ahora,
            ),
            transicion,
            politica(rule_key@),
            tiempo_desde(ahora, ultima_notificacion),
        ),
{
    let silenciado = esta_silenciada(muted_until, ahora);
    let desde_ultima: Option<i128> = match ultima_notificacion {
        None => None,
        Some(u) => match ahora.checked_sub(u) {
            Some(d) => Some(d),
            None => if ahora > u {
                Some(i128::MAX)
            } else {
                Some(i128::MIN)
            },
        },
    };
    debe_enviar(
        notificaciones_activas,
        silenciado,
        transicion,
        politica_notificacion(rule_key),
        desde_ultima,
    )
}

} // verus!
