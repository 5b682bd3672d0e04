//! Agrupación y ciclo de vida de las alertas: deduplicación, contador de ocurrencias y las
//! transiciones de estado de un grupo.
//!
//! Aquí se **decide** qué le pasa a un grupo ante una evaluación; quien persiste ejecuta el plan
//! resultante. Toda ocurrencia se registra siempre, se notifique o no.
use vstd::prelude::*;

use crate::texto::{anexar, cadena_de, caracteres};
use crate::tipos::{AlertSeverity, AlertStatus};

verus! {

/// La vista de una cadena opcional.
pub open spec fn vista_opcional(o: Option<&str>) -> Option<Seq<char>> {
    match o {
        Some(s) => Some(s@),
        None => None,
    }
}

/// `target_type:target_id` de la clave de deduplicación: el disco manda sobre el volumen.
pub open spec fn objetivo_dedup(device: Option<Seq<char>>, volume: Option<Seq<char>>) -> Seq<char> {
    match (device, volume) {
        (Some(d), _) => "device:"@ + d,
        (None, Some(v)) => "volume:"@ + v,
        (None, None) => "sin_objetivo"@,
    }
}

/// `rule_key | target_type:target_id | context`, sin el último tramo si no hay contexto.
pub open spec fn clave_dedup(
    rule_key: Seq<char>,
    device: Option<Seq<char>>,
    volume: Option<Seq<char>>,
    context: Option<Seq<char>>,
) -> Seq<char> {
    let base = rule_key + "|"@ + objetivo_dedup(device, volume);
    match context {
        Some(c) => base + "|"@ + c,
        None => base,
    }
}

/// `deduplication_key = rule_key | target_type:target_id | context`. Se reutiliza como `id`
/// del grupo: ya es única por construcción.
pub fn deduplication_key(
    rule_key: &str,
    target_device_id: Option<&str>,
    target_volume_id: Option<&str>,
    context: Option<&str>,
) -> (r: String)
    ensures
        r@ == clave_dedup(
            rule_key@,
            vista_opcional(target_device_id),
            vista_opcional(target_volume_id),
            vista_opcional(context),
        ),
{
    let mut v = caracteres(rule_key);
    let barra = caracteres("|");
    anexar(&mut v, barra.as_slice());
    match (target_device_id, target_volume_id) {
        (Some(d), _) => {
            let p = caracteres("device:");
            anexar(&mut v, p.as_slice());
            let x = caracteres(d);
            anexar(&mut v, x.as_slice());
        },
        (None, Some(vol)) => {
            let p = caracteres("volume:");
            anexar(&mut v, p.as_slice());
            let x = caracteres(vol);
            anexar(&mut v, x.as_slice());
        },
        (None, None) => {
            let p = caracteres("sin_objetivo");
            anexar(&mut v, p.as_slice());
        },
    }
    match context {
        Some(c) => {
            anexar(&mut v, barra.as_slice());
            let x = caracteres(c);
            anexar(&mut v, x.as_slice());
        },
        None => {},
    }
    proof {
        let ghost d = vista_opcional(target_device_id);
        let ghost vo = vista_opcional(target_volume_id);
        assert(v@ =~= clave_dedup(rule_key@, d, vo, vista_opcional(context)));
    }
    cadena_de(v.as_slice())
}

/// Dos contextos distintos sobre la misma regla y el mismo objetivo dan claves distintas, y con
/// contexto la clave nunca coincide con la de sin contexto: grupos distintos.
pub proof fn contextos_distintos_dan_claves_distintas(
    rule_key: Seq<char>,
    device: Option<Seq<char>>,
    volume: Option<Seq<char>>,
    c1: Option<Seq<char>>,
    c2: Option<Seq<char>>,
)
    requires
        c1 != c2,
    ensures
        clave_dedup(rule_key, device, volume, c1) != clave_dedup(rule_key, device, volume, c2),
{
    reveal_strlit("|");
    let base = rule_key + "|"@ + objetivo_dedup(device, volume);
    let n = base.len() + 1;
    match (c1, c2) {
        (Some(a), Some(b)) => {
            if clave_dedup(rule_key, device, volume, c1) == clave_dedup(rule_key, device, volume, c2) {
                assert((base + "|"@ + a).skip(n as int) =~= a);
                assert((base + "|"@ + b).skip(n as int) =~= b);
            }
        },
        (Some(a), None) => {
            assert((base + "|"@ + a).len() > base.len());
        },
        (None, Some(b)) => {
            assert((base + "|"@ + b).len() > base.len());
        },
        (None, None) => {},
    }
}

pub open spec fn spec_severidad_sube(nueva: AlertSeverity, actual: AlertSeverity) -> bool {
    actual == AlertSeverity::Warning && nueva == AlertSeverity::Critical
}

/// ¿Pasar de `actual` a `nueva` es subir de severidad?
pub fn severidad_sube(nueva: AlertSeverity, actual: AlertSeverity) -> (r: bool)
    ensures
        r == spec_severidad_sube(nueva, actual),
{
    matches!((actual, nueva), (AlertSeverity::Warning, AlertSeverity::Critical))
}

/// Qué le pasó al grupo, para decidir si hay que notificar.
#[derive(Debug, Clone, Copy, PartialEq, Eq, Structural)]
pub enum Transicion {
    /// Nada cambió: ni se activó, ni resolvió, ni hubo ocurrencia nueva.
    SinCambio,
    /// No había grupo y la regla se activó: primer episodio.
    CreadaActiva,
    /// El grupo ya estaba activo o reconocido y se registró una ocurrencia más, sin escalar.
    OcurrenciaRepetida,
    /// Reconocida que sube de severidad y vuelve a `active`.
    Escalada,
    /// Resuelta o archivada que vuelve a cumplirse: nuevo ciclo sobre el mismo grupo.
    Reactivada,
    /// Pasó a `resolved`.
    Resuelta,
    /// El grupo está ignorado: la ocurrencia se registra, pero el grupo no cambia de estado.
    OcurrenciaIgnorada,
}

/// Lo que sabe el motor de un grupo ya persistido.
#[derive(Debug, Clone, Copy, PartialEq, Eq, Structural)]
pub struct GrupoExistente {
    pub status: AlertStatus,
    pub severity: AlertSeverity,
}

/// Un paso de persistencia que ejecuta quien guarda el grupo.
#[derive(Debug, Clone, Copy, PartialEq, Eq, Structural)]
pub enum Accion {
    /// Crear el grupo, activo, en su primer ciclo, con una ocurrencia.
    CrearGrupo { severidad: AlertSeverity },
    /// Registrar una ocurrencia más en el ciclo actual.
    RegistrarOcurrencia,
    /// Cambiar la severidad del grupo.
    CambiarSeveridad { severidad: AlertSeverity },
    /// Cambiar el estado del grupo.
    CambiarEstado { estado: AlertStatus },
    /// Reabrir el grupo como un ciclo nuevo (activo), conservando su historial.
    ReabrirNuevoCiclo,
    /// Anotar en la última ocurrencia el evento del sistema que la provocó.
    EstamparEventoDisparador { evento_id: i64 },
}

/// La decisión ante una evaluación: qué transición es y qué hay que persistir, en orden.
pub struct Plan {
    pub transicion: Transicion,
    pub acciones: Vec<Accion>,
}

pub open spec fn activo_o_reconocido(s: AlertStatus) -> bool {
    s == AlertStatus::Active || s == AlertStatus::Acknowledged
}

/// La transición y las acciones antes de anotar el evento disparador.
pub open spec fn plan_base(
    existente: Option<GrupoExistente>,
    severidad_si_activa: Option<AlertSeverity>,
    resuelto: bool,
) -> (Transicion, Seq<Accion>) {
    match (existente, severidad_si_activa) {
        (None, None) => (Transicion::SinCambio, seq![]),
        (None, Some(s)) => (Transicion::CreadaActiva, seq![Accion::CrearGrupo { severidad: s }]),
        (Some(g), Some(s)) => if activo_o_reconocido(g.status) {
            let escala = g.status == AlertStatus::Acknowledged && spec_severidad_sube(s, g.severity);
            let con_severidad = if s != g.severity {
                seq![Accion::RegistrarOcurrencia, Accion::CambiarSeveridad { severidad: s }]
            } else {
                seq![Accion::RegistrarOcurrencia]
            };
            if escala {
                (
                    Transicion::Escalada,
                    con_severidad.push(Accion::CambiarEstado { estado: AlertStatus::Active }),
                )
            } else {
                (Transicion::OcurrenciaRepetida, con_severidad)
            }
        } else if g.status == AlertStatus::Ignored {
            (Transicion::OcurrenciaIgnorada, seq![Accion::RegistrarOcurrencia])
        } else {
            (
                Transicion::Reactivada,
                seq![Accion::ReabrirNuevoCiclo, Accion::CambiarSeveridad { severidad: s }],
            )
        },
        (Some(g), None) => if activo_o_reconocido(g.status) && resuelto {
            (
                Transicion::Resuelta,
                seq![Accion::CambiarEstado { estado: AlertStatus::Resolved }],
            )
        } else {
            (Transicion::SinCambio, seq![])
        },
    }
}

/// ¿La transición registró una ocurrencia?
pub open spec fn registra_ocurrencia(t: Transicion) -> bool {
    t == Transicion::CreadaActiva || t == Transicion::OcurrenciaRepetida || t
        == Transicion::Escalada || t == Transicion::Reactivada || t
        == Transicion::OcurrenciaIgnorada
}

/// El plan completo: el de `plan_base` y, si se registró una ocurrencia y se conoce el evento
/// del sistema que la provocó, anotarlo en ella.
pub open spec fn plan(
    existente: Option<GrupoExistente>,
    severidad_si_activa: Option<AlertSeverity>,
    resuelto: bool,
    triggering_event_id: Option<i64>,
) -> (Transicion, Seq<Accion>) {
    let (t, a) = plan_base(existente, severidad_si_activa, resuelto);
    match triggering_event_id {
        Some(id) => if registra_ocurrencia(t) {
            (t, a.push(Accion::EstamparEventoDisparador { evento_id: id }))
        } else {
            (t, a)
        },
        None => (t, a),
    }
}

/// Aplica una evaluación al estado del grupo. Cubre las combinaciones reales de la tabla de
/// transiciones; el resto (grupo resuelto o archivado que sigue sin activarse, activo que aún no
/// resuelve) no cambia nada.
pub fn planificar(
    existente: Option<GrupoExistente>,
    severidad_si_activa: Option<AlertSeverity>,
    resuelto: bool,
    triggering_event_id: Option<i64>,
) -> (r: Plan)
    ensures
        (r.transicion, r.acciones@) == plan(
            existente,
            severidad_si_activa,
            resuelto,
            triggering_event_id,
        ),
{
    let mut acciones: Vec<Accion> = Vec::new();
    let transicion = match (existente, severidad_si_activa) {
        (None, None) => Transicion::SinCambio,
        (None, Some(s)) => {
            acciones.push(Accion::CrearGrupo { severidad: s });
            Transicion::CreadaActiva
        },
        (Some(g), Some(s)) => {
            if g.status == AlertStatus::Active || g.status == AlertStatus::Acknowledged {
                acciones.push(Accion::RegistrarOcurrencia);
                if s != g.severity {
                    acciones.push(Accion::CambiarSeveridad { severidad: s });
                }
                let escala = g.status == AlertStatus::Acknowledged && severidad_sube(s, g.severity);
                if escala {
                    acciones.push(Accion::CambiarEstado { estado: AlertStatus::Active });
                    Transicion::Escalada
                } else {
                    Transicion::OcurrenciaRepetida
                }
            } else if g.status == AlertStatus::Ignored {
                acciones.push(Accion::RegistrarOcurrencia);
                Transicion::OcurrenciaIgnorada
            } else {
                acciones.push(Accion::ReabrirNuevoCiclo);
                acciones.push(Accion::CambiarSeveridad { severidad: s });
                Transicion::Reactivada
            }
        },
        (Some(g), None) => {
            if (g.status == AlertStatus::Active || g.status == AlertStatus::Acknowledged)
                && resuelto {
                acciones.push(Accion::CambiarEstado { estado: AlertStatus::Resolved });
                Transicion::Resuelta
            } else {
                Transicion::SinCambio
            }
        },
    };
    let ghost base = acciones@;
    assert((transicion, base) =~= plan_base(existente, severidad_si_activa, resuelto));
    match triggering_event_id {
        Some(id) => {
            if transicion == Transicion::CreadaActiva || transicion == Transicion::OcurrenciaRepetida
                || transicion == Transicion::Escalada || transicion == Transicion::Reactivada
                || transicion == Transicion::OcurrenciaIgnorada {
                acciones.push(Accion::EstamparEventoDisparador { evento_id: id });
            }
        },
        None => {},
    }
    Plan { transicion, acciones }
}

// ---------------------------------------------------------------------------------------------
// Efecto del plan sobre el grupo
// ---------------------------------------------------------------------------------------------

/// Estado del grupo tras ejecutar `acciones` en orden; `None` si no hay grupo.
pub open spec fn estado_tras(previo: Option<AlertStatus>, acciones: Seq<Accion>) -> Option<
    AlertStatus,
>
    decreases acciones.len(),
{
    if acciones.len() == 0 {
        previo
    } else {
        let antes = estado_tras(previo, acciones.drop_last());
        match acciones.last() {
            Accion::CrearGrupo { .. } => Some(AlertStatus::Active),
            Accion::CambiarEstado { estado } => Some(estado),
            Accion::ReabrirNuevoCiclo => Some(AlertStatus::Active),
            _ => antes,
        }
    }
}

/// Severidad del grupo tras ejecutar `acciones` en orden; `None` si no hay grupo.
pub open spec fn severidad_tras(previa: Option<AlertSeverity>, acciones: Seq<Accion>) -> Option<
    AlertSeverity,
>
    decreases acciones.len(),
{
    if acciones.len() == 0 {
        previa
    } else {
        let antes = severidad_tras(previa, acciones.drop_last());
        match acciones.last() {
            Accion::CrearGrupo { severidad } => Some(severidad),
            Accion::CambiarSeveridad { severidad } => Some(severidad),
            _ => antes,
        }
    }
}

pub open spec fn estado_de(g: Option<GrupoExistente>) -> Option<AlertStatus> {
    match g {
        Some(g) => Some(g.status),
        None => None,
    }
}

pub open spec fn severidad_de(g: Option<GrupoExistente>) -> Option<AlertSeverity> {
    match g {
        Some(g) => Some(g.severity),
        None => None,
    }
}

/// Deduplicación: si el grupo ya existe, ninguna evaluación crea otro; si no existe, como mucho
/// uno.
pub proof fn nunca_se_duplica_un_grupo(
    existente: Option<GrupoExistente>,
    sev: Option<AlertSeverity>,
    resuelto: bool,
    trig: Option<i64>,
)
    ensures
        ({
            let a = plan(existente, sev, resuelto, trig).1;
            &&& existente is Some ==> forall|i: int| 0 <= i < a.len() ==> !(#[trigger] a[i] is CrearGrupo)
            &&& forall|i: int, j: int|
                0 <= i < a.len() && 0 <= j < a.len() && #[trigger] a[i] is CrearGrupo
                    && #[trigger] a[j] is CrearGrupo ==> i == j
        }),
{
}

/// El estado de un grupo tras una evaluación: una activación deja el grupo activo salvo que
/// estuviera reconocido sin subir de severidad (sigue reconocido) o ignorado (sigue ignorado);
/// una resolución lo deja resuelto; el resto no lo toca.
pub proof fn estado_tras_una_evaluacion(
    existente: Option<GrupoExistente>,
    sev: Option<AlertSeverity>,
    resuelto: bool,
    trig: Option<i64>,
)
    ensures
        ({
            let (t, a) = plan(existente, sev, resuelto, trig);
            let despues = estado_tras(estado_de(existente), a);
            &&& (t == Transicion::CreadaActiva || t == Transicion::Escalada || t
                == Transicion::Reactivada) ==> despues == Some(AlertStatus::Active)
            &&& t == Transicion::Resuelta ==> despues == Some(AlertStatus::Resolved)
            &&& (t == Transicion::SinCambio || t == Transicion::OcurrenciaRepetida || t
                == Transicion::OcurrenciaIgnorada) ==> despues == estado_de(existente)
        }),
{
    let a = plan(existente, sev, resuelto, trig).1;
    reveal_with_fuel(estado_tras, 5);
    if a.len() > 0 {
        assert(a.drop_last().len() < 4);
    }
}

/// Un grupo reconocido que se vuelve a activar con la misma severidad o más baja sigue
/// reconocido; solo subir de severidad lo devuelve a activo.
pub proof fn reconocida_solo_vuelve_a_activa_si_sube(
    g: GrupoExistente,
    sev: AlertSeverity,
    resuelto: bool,
    trig: Option<i64>,
)
    requires
        g.status == AlertStatus::Acknowledged,
    ensures
        ({
            let (t, a) = plan(Some(g), Some(sev), resuelto, trig);
            &&& spec_severidad_sube(sev, g.severity) ==> t == Transicion::Escalada && estado_tras(
                Some(g.status),
                a,
            ) == Some(AlertStatus::Active)
            &&& !spec_severidad_sube(sev, g.severity) ==> t == Transicion::OcurrenciaRepetida
                && estado_tras(Some(g.status), a) == Some(AlertStatus::Acknowledged)
            &&& severidad_tras(Some(g.severity), a) == Some(sev)
        }),
{
    reveal_with_fuel(estado_tras, 5);
    reveal_with_fuel(severidad_tras, 5);
}

/// Un grupo ignorado nunca cambia de estado ni de severidad por una evaluación: solo acumula
/// ocurrencias.
pub proof fn un_grupo_ignorado_no_cambia(
    g: GrupoExistente,
    sev: Option<AlertSeverity>,
    resuelto: bool,
    trig: Option<i64>,
)
    requires
        g.status == AlertStatus::Ignored,
    ensures
        ({
            let (t, a) = plan(Some(g), sev, resuelto, trig);
            &&& estado_tras(Some(g.status), a) == Some(AlertStatus::Ignored)
            &&& severidad_tras(Some(g.severity), a) == Some(g.severity)
            &&& (t == Transicion::OcurrenciaIgnorada || t == Transicion::SinCambio)
        }),
{
    reveal_with_fuel(estado_tras, 3);
    reveal_with_fuel(severidad_tras, 3);
}

/// Toda activación registra una ocurrencia, se notifique o no: crea el grupo, registra una
/// ocurrencia más o reabre un ciclo; y si se conoce el evento del sistema que la provocó, la
/// última acción lo anota.
pub proof fn toda_activacion_registra_una_ocurrencia(
    existente: Option<GrupoExistente>,
    sev: AlertSeverity,
    resuelto: bool,
    trig: Option<i64>,
)
    ensures
        ({
            let (t, a) = plan(existente, Some(sev), resuelto, trig);
            &&& registra_ocurrencia(t)
            &&& a.len() > 0
            &&& (a[0] is CrearGrupo || a[0] is RegistrarOcurrencia || a[0] is ReabrirNuevoCiclo)
            &&& (trig matches Some(id) ==> a.last() == Accion::EstamparEventoDisparador {
                evento_id: id,
            })
        }),
{
}

/// Una alerta abierta (activa o reconocida) cuya condición se cumple como resuelta pasa a
/// resuelta, con su severidad intacta; sin resolución, queda como estaba.
pub proof fn una_alerta_abierta_se_resuelve_al_despejarse(
    g: GrupoExistente,
    resuelto: bool,
    trig: Option<i64>,
)
    requires
        g.status == AlertStatus::Active || g.status == AlertStatus::Acknowledged,
    ensures
        ({
            let (t, a) = plan(Some(g), None, resuelto, trig);
            &&& resuelto ==> t == Transicion::Resuelta && estado_tras(Some(g.status), a) == Some(
                AlertStatus::Resolved,
            )
            &&& !resuelto ==> t == Transicion::SinCambio && estado_tras(Some(g.status), a) == Some(
                g.status,
            )
            &&& severidad_tras(Some(g.severity), a) == Some(g.severity)
        }),
{
    reveal_with_fuel(estado_tras, 3);
    reveal_with_fuel(severidad_tras, 3);
}

/// Solo se resuelve lo que está abierto y sin activarse en esta evaluación: una evaluación que
/// activa la regla nunca resuelve, y un grupo resuelto, archivado o ignorado no vuelve a
/// resolverse.
pub proof fn solo_se_resuelve_lo_abierto_y_despejado(
    existente: Option<GrupoExistente>,
    sev: Option<AlertSeverity>,
    resuelto: bool,
    trig: Option<i64>,
)
    ensures
        plan(existente, sev, resuelto, trig).0 == Transicion::Resuelta ==> {
            &&& sev is None
            &&& resuelto
            &&& existente matches Some(g) && (g.status == AlertStatus::Active || g.status
                == AlertStatus::Acknowledged)
        },
{
}

/// Qué hace una activación según lo que hubiera: sin grupo, nace uno activo con esa severidad;
/// con un grupo resuelto o archivado, se reabre activo con la severidad nueva (recaída); con uno
/// activo, sigue activo con la severidad nueva (ocurrencia repetida). Sin activación ni grupo, no
/// pasa nada.
pub proof fn lo_que_hace_una_activacion(
    existente: Option<GrupoExistente>,
    s: AlertSeverity,
    resuelto: bool,
    trig: Option<i64>,
)
    ensures
        ({
            let (t, a) = plan(existente, Some(s), resuelto, trig);
            let estado = estado_tras(estado_de(existente), a);
            let severidad = severidad_tras(severidad_de(existente), a);
            &&& existente is None ==> t == Transicion::CreadaActiva && estado == Some(
                AlertStatus::Active,
            ) && severidad == Some(s)
            &&& existente matches Some(g) ==> ((g.status == AlertStatus::Resolved || g.status
                == AlertStatus::Archived) ==> t == Transicion::Reactivada && estado == Some(
                AlertStatus::Active,
            ) && severidad == Some(s))
            &&& existente matches Some(g) ==> (g.status == AlertStatus::Active ==> t
                == Transicion::OcurrenciaRepetida && estado == Some(AlertStatus::Active)
                && severidad == Some(s))
        }),
        plan(None, None, resuelto, trig).0 == Transicion::SinCambio && plan(
            None,
            None,
            resuelto,
            trig,
        ).1.len() == 0,
{
    reveal_with_fuel(estado_tras, 5);
    reveal_with_fuel(severidad_tras, 5);
}

} // verus!
