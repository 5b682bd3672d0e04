//! Puente del registro de eventos de Windows al motor de alertas: las decisiones puras con las
//! que se evalúa cada evento nuevo contra su regla (qué eventos cuentan, con qué severidad, sobre
//! qué objetivo y con qué contexto de deduplicación). Los instantes van en nanosegundos desde la
//! época Unix.
use vstd::prelude::*;

use crate::correlacion_rafaga::{spec_es_extraccion_imprevista, ResultadoCorrelacion};
use crate::reglas_eventos::{
    ClasificacionEvento, ContextoDedup, Evaluacion, FilaTabla, Objetivo,
};
use crate::texto::{
    buscar_desde, lectura_i64, leer_i64, primera_aparicion_desde, tramo,
    es_digito, lema_primera_aparicion_desde,
    anexar, cadena_de, caracteres, decimal_con_signo, decimal_i64, iguales_seq,
    iguales_sin_mayusculas_ascii, minusculas_ascii, seq_a_minusculas_ascii,
};
use crate::ciclo::{instante_rfc3339, leer_rfc3339};
use crate::reglas_eventos::{primera_de_regla, tabla, ventana_resolucion_de};
use crate::agrupacion::Transicion;
use crate::tipos::{AlertSeverity, AlertStatus, EventLevel, MappingConfidence};

verus! {

/// Vista mínima de un evento del sistema para decidir su regla.
#[derive(Debug, Clone)]
pub struct EventoParaRegla {
    /// Identificador persistido del evento.
    pub id: i64,
    pub provider: String,
    pub event_id: i64,
    /// Instante del evento, en nanosegundos desde la época Unix.
    pub occurred_at: i128,
    pub level: EventLevel,
    /// Disco correlacionado, o `None` si la atribución es desconocida.
    pub device_id: Option<String>,
    /// Volumen correlacionado, o `None`.
    pub volume_id: Option<String>,
    pub mapping_confidence: MappingConfidence,
    /// El disco correlacionado es de medio extraíble / bus USB; `false` sin disco.
    pub es_extraible: bool,
    /// Texto humano del evento.
    pub message: Option<String>,
}

/// ¿El bus del disco es de medio extraíble? USB y SD/MMC sí; un bus desconocido o ausente se
/// trata como **no** extraíble, el lado prudente.
pub open spec fn bus_extraible(bus_type: Option<Seq<char>>) -> bool {
    match bus_type {
        Some(b) => minusculas_ascii(b) == "usb"@ || minusculas_ascii(b) == "sd"@
            || minusculas_ascii(b) == "mmc"@,
        None => false,
    }
}

/// ¿El disco es de medio extraíble? Se decide por el tipo de bus, sin distinguir mayúsculas.
pub fn es_disco_extraible(bus_type: Option<&str>) -> (r: bool)
    ensures
        r == bus_extraible(
            match bus_type {
                Some(b) => Some(b@),
                None => None,
            },
        ),
{
    match bus_type {
        None => false,
        Some(b) => {
            let v = caracteres(b);
            let bajo = seq_a_minusculas_ascii(v.as_slice());
            let usb = caracteres("usb");
            let sd = caracteres("sd");
            let mmc = caracteres("mmc");
            iguales_seq(bajo.as_slice(), usb.as_slice()) || iguales_seq(bajo.as_slice(), sd.as_slice())
                || iguales_seq(bajo.as_slice(), mmc.as_slice())
        },
    }
}

/// ¿El proveedor es el clásico `disk` (sin distinguir mayúsculas ASCII)?
pub fn es_proveedor_disk(provider: &str) -> (r: bool)
    ensures
        r == (minusculas_ascii(provider@) == minusculas_ascii("disk"@)),
{
    iguales_sin_mayusculas_ascii(provider, "disk")
}

/// Los índices `0..n` de `eventos` cuyo carácter de causa de ráfaga es `causa`, en orden.
pub open spec fn indices_donde(eventos: Seq<EventoParaRegla>, causa: bool, n: int) -> Seq<usize>
    decreases n,
{
    if n <= 0 {
        seq![]
    } else {
        indices_donde(eventos, causa, n - 1) + if es_causa_de_rafaga(eventos[n - 1]) == causa {
            seq![(n - 1) as usize]
        } else {
            seq![]
        }
    }
}

/// Índices de `eventos` en el orden en que se evalúan: primero las extracciones imprevistas
/// (`disk` 157), luego el resto, cada grupo en su orden original. Así, dentro de una misma ráfaga,
/// los eventos derivados encuentran ya creado el grupo de la extracción.
pub fn orden_de_evaluacion(eventos: &[EventoParaRegla]) -> (r: Vec<usize>)
    ensures
        r@ == indices_donde(eventos@, true, eventos@.len() as int) + indices_donde(
            eventos@,
            false,
            eventos@.len() as int,
        ),
{
    let mut causas: Vec<usize> = Vec::new();
    let mut resto: Vec<usize> = Vec::new();
    let mut i: usize = 0;
    while i < eventos.len()
        invariant
            i <= eventos.len(),
            causas@ == indices_donde(eventos@, true, i as int),
            resto@ == indices_donde(eventos@, false, i as int),
        decreases eventos.len() - i,
    {
        let causa = es_proveedor_disk(eventos[i].provider.as_str())
            && eventos[i].event_id == crate::correlacion_rafaga::EVENT_ID_EXTRACCION_IMPREVISTA;
        assert(causa == es_causa_de_rafaga(eventos@[i as int]));
        if causa {
            causas.push(i);
        } else {
            resto.push(i);
        }
        i += 1;
        assert(causas@ =~= indices_donde(eventos@, true, i as int));
        assert(resto@ =~= indices_donde(eventos@, false, i as int));
    }
    let mut r = causas;
    let ghost inicio = r@;
    let mut j: usize = 0;
    while j < resto.len()
        invariant
            j <= resto.len(),
            r@ == inicio + resto@.take(j as int),
        decreases resto.len() - j,
    {
        r.push(resto[j]);
        j += 1;
        assert(r@ =~= inicio + resto@.take(j as int));
    }
    assert(resto@.take(resto@.len() as int) =~= resto@);
    r
}

/// Un evento es la causa de una ráfaga: `disk` 157.
pub open spec fn es_causa_de_rafaga(e: EventoParaRegla) -> bool {
    spec_es_extraccion_imprevista(
        minusculas_ascii(e.provider@) == minusculas_ascii("disk"@),
        e.event_id,
    )
}

/// Un evento con fila en la tabla se evalúa salvo que sea de nivel Información (la tabla manda
/// sobre el nivel: se registra y no se evalúa) o que su regla solo cuente discos no extraíbles y
/// el disco lo sea.
pub open spec fn se_evalua(f: FilaTabla, level: EventLevel, es_extraible: bool) -> bool {
    level != EventLevel::Information && !(f.solo_no_extraibles && es_extraible)
}

/// ¿Hay que evaluar un evento de nivel `level` con esta clasificación?
pub fn evento_se_evalua(clas: &ClasificacionEvento, level: EventLevel, es_extraible: bool) -> (r:
    bool)
    ensures
        r == se_evalua(clas@, level, es_extraible),
{
    level != EventLevel::Information && !(clas.solo_no_extraibles && es_extraible)
}

/// Qué severidad toca a un evento según la evaluación de su regla.
#[derive(Debug, Clone, Copy, PartialEq, Eq, Structural)]
pub enum Severidad {
    /// La regla se activa con esta severidad.
    Activa(AlertSeverity),
    /// La regla no se activa con este evento (sin disco al que acumular, o bajo el umbral).
    NoSeActiva,
    /// La regla la resuelve un camino propio (`inventory.duplicate_id`).
    CaminoPropio,
}

/// La severidad por casos: inmediata; según extraíble/bus; por frecuencia sobre el disco
/// (`cuenta_en_1h` eventos en la última hora, incluido este; escala a crítico al alcanzar su
/// umbral); especial.
pub open spec fn severidad(
    ev: Evaluacion,
    es_extraible: bool,
    tiene_disco: bool,
    cuenta_en_1h: i64,
) -> Severidad {
    match ev {
        Evaluacion::Inmediata { severidad } => Severidad::Activa(severidad),
        Evaluacion::CondicionalNoExtraible { base, si_no_extraible } => Severidad::Activa(
            if es_extraible {
                base
            } else {
                si_no_extraible
            },
        ),
        Evaluacion::SegunBus { fijo, usb } => Severidad::Activa(
            if es_extraible {
                usb
            } else {
                fijo
            },
        ),
        Evaluacion::PorFrecuencia { min_en_1h, severidad, escala_crit_en_1h } => if !tiene_disco
            || cuenta_en_1h < min_en_1h {
            Severidad::NoSeActiva
        } else {
            match escala_crit_en_1h {
                Some(u) => if cuenta_en_1h >= u {
                    Severidad::Activa(AlertSeverity::Critical)
                } else {
                    Severidad::Activa(severidad)
                },
                None => Severidad::Activa(severidad),
            }
        },
        Evaluacion::Especial => Severidad::CaminoPropio,
    }
}

/// Decide la severidad de un evento según la evaluación de su regla.
pub fn severidad_de_evento(
    ev: Evaluacion,
    es_extraible: bool,
    tiene_disco: bool,
    cuenta_en_1h: i64,
) -> (r: Severidad)
    ensures
        r == severidad(ev, es_extraible, tiene_disco, cuenta_en_1h),
{
    match ev {
        Evaluacion::Inmediata { severidad } => Severidad::Activa(severidad),
        Evaluacion::CondicionalNoExtraible { base, si_no_extraible } => Severidad::Activa(
            if es_extraible {
                base
            } else {
                si_no_extraible
            },
        ),
        Evaluacion::SegunBus { fijo, usb } => Severidad::Activa(
            if es_extraible {
                usb
            } else {
                fijo
            },
        ),
        Evaluacion::PorFrecuencia { min_en_1h, severidad, escala_crit_en_1h } => {
            if !tiene_disco || cuenta_en_1h < min_en_1h as i64 {
                Severidad::NoSeActiva
            } else {
                match escala_crit_en_1h {
                    Some(u) => if cuenta_en_1h >= u as i64 {
                        Severidad::Activa(AlertSeverity::Critical)
                    } else {
                        Severidad::Activa(severidad)
                    },
                    None => Severidad::Activa(severidad),
                }
            }
        },
        Evaluacion::Especial => Severidad::CaminoPropio,
    }
}

/// La severidad de una regla por frecuencia nunca baja al crecer la cuenta de la hora.
pub proof fn la_frecuencia_solo_empeora(ev: Evaluacion, ext: bool, c1: i64, c2: i64)
    requires
        ev is PorFrecuencia,
        c1 <= c2,
    ensures
        severidad(ev, ext, true, c1) matches Severidad::Activa(s1) ==> (severidad(
            ev,
            ext,
            true,
            c2,
        ) matches Severidad::Activa(s2) && (s1 == AlertSeverity::Critical ==> s2
            == AlertSeverity::Critical)),
{
}

/// Una regla condicional al medio (`events.delayed_write`) es más grave en un disco fijo: vale la
/// severidad de «no extraíble» cuando el disco no es extraíble, y la base cuando lo es. Una regla
/// según el bus toma la severidad de disco fijo o la de USB del mismo modo, y una inmediata vale
/// siempre su severidad.
pub proof fn la_severidad_sigue_al_medio_del_disco(
    base: AlertSeverity,
    otra: AlertSeverity,
    tiene_disco: bool,
    cuenta: i64,
)
    ensures
        severidad(
            Evaluacion::CondicionalNoExtraible { base, si_no_extraible: otra },
            false,
            tiene_disco,
            cuenta,
        ) == Severidad::Activa(otra),
        severidad(
            Evaluacion::CondicionalNoExtraible { base, si_no_extraible: otra },
            true,
            tiene_disco,
            cuenta,
        ) == Severidad::Activa(base),
        severidad(Evaluacion::SegunBus { fijo: otra, usb: base }, false, tiene_disco, cuenta)
            == Severidad::Activa(otra),
        severidad(Evaluacion::SegunBus { fijo: otra, usb: base }, true, tiene_disco, cuenta)
            == Severidad::Activa(base),
        forall|ext: bool| #[trigger] severidad(Evaluacion::Inmediata { severidad: base }, ext, tiene_disco, cuenta)
            == Severidad::Activa(base),
        forall|ext: bool| #[trigger] severidad(Evaluacion::Especial, ext, tiene_disco, cuenta)
            == Severidad::CaminoPropio,
{
}

/// Una regla por frecuencia no se activa sin disco al que acumular ni por debajo de su mínimo
/// en la hora; alcanzado el mínimo, se activa con su severidad, y con crítico en cuanto la cuenta
/// alcanza el umbral de escalado.
pub proof fn la_frecuencia_decide_por_la_cuenta_de_la_hora(
    min: u32,
    sev: AlertSeverity,
    escala: Option<u32>,
    ext: bool,
    tiene_disco: bool,
    cuenta: i64,
)
    ensures
        ({
            let ev = Evaluacion::PorFrecuencia { min_en_1h: min, severidad: sev, escala_crit_en_1h: escala };
            &&& (!tiene_disco || cuenta < min) ==> severidad(ev, ext, tiene_disco, cuenta)
                == Severidad::NoSeActiva
            &&& escala matches Some(u) ==> (tiene_disco && cuenta >= min && cuenta >= u
                ==> severidad(ev, ext, tiene_disco, cuenta) == Severidad::Activa(
                AlertSeverity::Critical,
            ))
            &&& (tiene_disco && cuenta >= min && match escala {
                Some(u) => cuenta < u,
                None => true,
            }) ==> severidad(ev, ext, tiene_disco, cuenta) == Severidad::Activa(sev)
        }),
{
}

/// La única evaluación condicional al medio de la tabla es la de `events.delayed_write`: aviso en
/// un volumen extraíble, crítico en uno fijo.
pub proof fn la_escritura_diferida_es_critica_en_un_disco_fijo(j: int, tiene_disco: bool, cuenta: i64)
    requires
        0 <= j < tabla().len(),
        tabla()[j].evaluacion is CondicionalNoExtraible,
    ensures
        tabla()[j].rule_key == "events.delayed_write"@,
        severidad(tabla()[j].evaluacion, false, tiene_disco, cuenta) == Severidad::Activa(
            AlertSeverity::Critical,
        ),
        severidad(tabla()[j].evaluacion, true, tiene_disco, cuenta) == Severidad::Activa(
            AlertSeverity::Warning,
        ),
{
}

/// La decisión sobre un evento: uno de nivel Información nunca se evalúa; sin disco, la ventana
/// de correlación no cuenta (ni pliega el evento en una extracción ni reasigna nada); con disco y
/// una extracción en la ventana, un evento que se evalúa se pliega en ella; y si no, la regla se
/// aplica con la severidad que le toca.
pub proof fn lo_que_se_decide_de_un_evento(
    f: FilaTabla,
    level: EventLevel,
    ext: bool,
    tiene_disco: bool,
    c: ResultadoCorrelacion,
    cuenta: i64,
)
    ensures
        level == EventLevel::Information ==> decision_de_evento(f, level, ext, tiene_disco, c, cuenta)
            == DecisionEvento::NoSeEvalua,
        !tiene_disco ==> !(decision_de_evento(f, level, ext, tiene_disco, c, cuenta) is OcurrenciaDeExtraccion),
        !tiene_disco ==> !(decision_de_evento(f, level, ext, tiene_disco, c, cuenta) matches DecisionEvento::Aplicar { reasignar_derivados: true, .. }),
        (level != EventLevel::Information && !(f.solo_no_extraibles && ext) && tiene_disco
            && c is OcurrenciaDeExtraccion) ==> decision_de_evento(f, level, ext, tiene_disco, c, cuenta)
            == DecisionEvento::OcurrenciaDeExtraccion,
        severidad(f.evaluacion, ext, tiene_disco, cuenta) matches Severidad::Activa(s) ==> (
        level != EventLevel::Information && !(f.solo_no_extraibles && ext) && !(tiene_disco
            && c is OcurrenciaDeExtraccion) ==> decision_de_evento(f, level, ext, tiene_disco, c, cuenta)
            == DecisionEvento::Aplicar {
            severidad: s,
            reasignar_derivados: tiene_disco && c is EsCausaConDerivadosPrevios,
        }),
{
}

/// Qué hacer con un evento nuevo que tiene fila en la tabla.
#[derive(Debug, Clone, Copy, PartialEq, Eq, Structural)]
pub enum DecisionEvento {
    /// Se registra y no se evalúa (nivel Información, o disco extraíble en una regla que solo
    /// cuenta los no extraíbles).
    NoSeEvalua,
    /// Es un síntoma de la extracción imprevista del mismo disco: se pliega como ocurrencia de
    /// `device.removed_unexpected`.
    OcurrenciaDeExtraccion,
    /// La regla la resuelve su camino propio (`inventory.duplicate_id`).
    CaminoPropio,
    /// La regla no se activa con este evento.
    NoSeActiva,
    /// La regla se activa con esta severidad; antes, si `reasignar_derivados`, los grupos de
    /// evento recientes del disco pasan a ser síntomas de esta extracción.
    Aplicar { severidad: AlertSeverity, reasignar_derivados: bool },
}

/// La decisión sobre un evento con fila `f`: primero si se evalúa; después, si tiene disco, lo
/// que dice la ventana de correlación de ráfaga; por último la severidad de su regla
/// (`cuenta_en_1h`: eventos de la regla en la última hora sobre ese disco, incluido este).
pub open spec fn decision_de_evento(
    f: FilaTabla,
    level: EventLevel,
    es_extraible: bool,
    tiene_disco: bool,
    correlacion: ResultadoCorrelacion,
    cuenta_en_1h: i64,
) -> DecisionEvento {
    if !se_evalua(f, level, es_extraible) {
        DecisionEvento::NoSeEvalua
    } else if tiene_disco && correlacion is OcurrenciaDeExtraccion {
        DecisionEvento::OcurrenciaDeExtraccion
    } else {
        match severidad(f.evaluacion, es_extraible, tiene_disco, cuenta_en_1h) {
            Severidad::Activa(s) => DecisionEvento::Aplicar {
                severidad: s,
                reasignar_derivados: tiene_disco && correlacion is EsCausaConDerivadosPrevios,
            },
            Severidad::NoSeActiva => DecisionEvento::NoSeActiva,
            Severidad::CaminoPropio => DecisionEvento::CaminoPropio,
        }
    }
}

/// Decide qué hacer con un evento nuevo de regla `clas`, dado lo que la ventana de correlación
/// dijo de él (solo cuenta si el evento tiene disco) y la cuenta de la regla en la última hora.
pub fn decidir_evento(
    clas: &ClasificacionEvento,
    e: &EventoParaRegla,
    correlacion: ResultadoCorrelacion,
    cuenta_en_1h: i64,
) -> (r: DecisionEvento)
    ensures
        r == decision_de_evento(
            clas@,
            e.level,
            e.es_extraible,
            e.device_id is Some,
            correlacion,
            cuenta_en_1h,
        ),
{
    if !evento_se_evalua(clas, e.level, e.es_extraible) {
        return DecisionEvento::NoSeEvalua;
    }
    let tiene_disco = e.device_id.is_some();
    let mut reasignar = false;
    if tiene_disco {
        match correlacion {
            ResultadoCorrelacion::OcurrenciaDeExtraccion { .. } => {
                return DecisionEvento::OcurrenciaDeExtraccion;
            },
            ResultadoCorrelacion::EsCausaConDerivadosPrevios => {
                reasignar = true;
            },
            ResultadoCorrelacion::SiguePropiaRegla => {},
        }
    }
    match severidad_de_evento(clas.evaluacion, e.es_extraible, tiene_disco, cuenta_en_1h) {
        Severidad::Activa(s) => DecisionEvento::Aplicar { severidad: s, reasignar_derivados: reasignar },
        Severidad::NoSeActiva => DecisionEvento::NoSeActiva,
        Severidad::CaminoPropio => DecisionEvento::CaminoPropio,
    }
}

/// `provider:event_id`.
pub open spec fn texto_provider_event_id(provider: Seq<char>, event_id: i64) -> Seq<char> {
    provider + ":"@ + decimal_con_signo(event_id as int)
}

/// `format!("{provider}:{event_id}")`.
pub fn provider_event_id(provider: &str, event_id: i64) -> (r: String)
    ensures
        r@ == texto_provider_event_id(provider@, event_id),
{
    let mut v = caracteres(provider);
    let dos_puntos = caracteres(":");
    anexar(&mut v, dos_puntos.as_slice());
    let n = decimal_i64(event_id);
    anexar(&mut v, n.as_slice());
    cadena_de(v.as_slice())
}

/// `(target_device_id, target_volume_id, context)` de un evento según su regla. Si la regla
/// apuntaba a un disco o volumen y la correlación no lo pudo determinar, la alerta se crea
/// **sin objeto** y se deduplica por `provider:event_id`.
pub open spec fn objetivo_de_evento(
    f: FilaTabla,
    provider: Seq<char>,
    event_id: i64,
    device_id: Option<Seq<char>>,
    volume_id: Option<Seq<char>>,
) -> (Option<Seq<char>>, Option<Seq<char>>, Option<Seq<char>>) {
    let pe = Some(texto_provider_event_id(provider, event_id));
    let normal = if f.dedup_context == ContextoDedup::ProviderEventId {
        pe
    } else {
        None
    };
    match f.objetivo {
        Objetivo::SinObjeto => (None, None, normal),
        Objetivo::Dispositivo => match device_id {
            Some(id) => (Some(id), None, normal),
            None => (None, None, pe),
        },
        Objetivo::Volumen => match volume_id {
            Some(id) => (None, Some(id), normal),
            None => (None, None, pe),
        },
    }
}

pub open spec fn vista_terna(t: (Option<String>, Option<String>, Option<String>)) -> (Option<Seq<char>>, Option<Seq<char>>, Option<Seq<char>>) {
    (vista_cadena(t.0), vista_cadena(t.1), vista_cadena(t.2))
}

pub open spec fn vista_cadena(o: Option<String>) -> Option<Seq<char>> {
    match o {
        Some(s) => Some(s@),
        None => None,
    }
}

fn copia_opcional(o: &Option<String>) -> (r: Option<String>)
    ensures
        vista_cadena(r) == vista_cadena(*o),
{
    match o {
        Some(s) => {
            let v = caracteres(s.as_str());
            Some(cadena_de(v.as_slice()))
        },
        None => None,
    }
}

/// Decide objetivo y contexto de deduplicación de un evento (ver `objetivo_de_evento`).
pub fn resolver_objetivo(clas: &ClasificacionEvento, e: &EventoParaRegla) -> (r: (
    Option<String>,
    Option<String>,
    Option<String>,
))
    ensures
        vista_terna(r) == objetivo_de_evento(
            clas@,
            e.provider@,
            e.event_id,
            vista_cadena(e.device_id),
            vista_cadena(e.volume_id),
        ),
{
    let normal = if clas.dedup_context == ContextoDedup::ProviderEventId {
        Some(provider_event_id(e.provider.as_str(), e.event_id))
    } else {
        None
    };
    match clas.objetivo {
        Objetivo::SinObjeto => (None, None, normal),
        Objetivo::Dispositivo => match &e.device_id {
            Some(_) => (copia_opcional(&e.device_id), None, normal),
            None => (None, None, Some(provider_event_id(e.provider.as_str(), e.event_id))),
        },
        Objetivo::Volumen => match &e.volume_id {
            Some(_) => (None, copia_opcional(&e.volume_id), normal),
            None => (None, None, Some(provider_event_id(e.provider.as_str(), e.event_id))),
        },
    }
}

/// El evento `(provider, event_id)` es uno de los `pares` de la regla (proveedor sin distinguir
/// mayúsculas ASCII).
pub open spec fn coincide_con_pares(pares: Seq<(Seq<char>, i64)>, provider: Seq<char>, event_id: i64) -> bool {
    exists|k: int|
        0 <= k < pares.len() && minusculas_ascii(#[trigger] pares[k].0) == minusculas_ascii(provider)
            && pares[k].1 == event_id
}

/// Cuántos de `eventos` coinciden con alguno de `pares`.
pub open spec fn cuenta_coincidencias(pares: Seq<(Seq<char>, i64)>, eventos: Seq<(Seq<char>, i64)>) -> nat
    decreases eventos.len(),
{
    if eventos.len() == 0 {
        0
    } else {
        cuenta_coincidencias(pares, eventos.drop_last()) + if coincide_con_pares(
            pares,
            eventos.last().0,
            eventos.last().1,
        ) {
            1nat
        } else {
            0nat
        }
    }
}

pub open spec fn vista_pares(p: Seq<(&'static str, i64)>) -> Seq<(Seq<char>, i64)> {
    p.map_values(|x: (&'static str, i64)| (x.0@, x.1))
}

pub open spec fn vista_eventos(e: Seq<(String, i64)>) -> Seq<(Seq<char>, i64)> {
    e.map_values(|x: (String, i64)| (x.0@, x.1))
}

fn coincide_exec(pares: &[(&'static str, i64)], provider: &str, event_id: i64) -> (r: bool)
    ensures
        r == coincide_con_pares(vista_pares(pares@), provider@, event_id),
{
    let mut k: usize = 0;
    while k < pares.len()
        invariant
            k <= pares.len(),
            forall|j: int|
                0 <= j < k ==> !(minusculas_ascii(#[trigger] vista_pares(pares@)[j].0)
                    == minusculas_ascii(provider@) && vista_pares(pares@)[j].1 == event_id),
        decreases pares.len() - k,
    {
        let (p, id) = pares[k];
        if iguales_sin_mayusculas_ascii(p, provider) && id == event_id {
            assert(vista_pares(pares@)[k as int] == (p@, id));
            assert(minusculas_ascii(vista_pares(pares@)[k as int].0) == minusculas_ascii(provider@)
                && vista_pares(pares@)[k as int].1 == event_id);
            return true;
        }
        assert(vista_pares(pares@)[k as int] == (p@, id));
        k += 1;
    }
    false
}

/// Cuenta los eventos de la ventana de frecuencia que pertenecen a la regla: los que coinciden
/// con alguno de sus pares `(proveedor, event_id)`.
pub fn contar_en_ventana_de_frecuencia(pares: &[(&'static str, i64)], eventos: &[(String, i64)]) -> (r: usize)
    ensures
        r == cuenta_coincidencias(vista_pares(pares@), vista_eventos(eventos@)),
{
    let mut n: usize = 0;
    let mut i: usize = 0;
    while i < eventos.len()
        invariant
            i <= eventos.len(),
            n == cuenta_coincidencias(vista_pares(pares@), vista_eventos(eventos@.take(i as int))),
            n <= i,
        decreases eventos.len() - i,
    {
        assert(vista_eventos(eventos@.take(i + 1)).drop_last() =~= vista_eventos(eventos@.take(i as int)));
        assert(vista_eventos(eventos@.take(i + 1)).last() == (eventos@[i as int].0@, eventos@[i as int].1));
        if coincide_exec(pares, eventos[i].0.as_str(), eventos[i].1) {
            n += 1;
        }
        i += 1;
    }
    assert(eventos@.take(eventos@.len() as int) =~= eventos@);
    n
}


// ---------------------------------------------------------------------------------------------
// Pareja de discos de `inventory.duplicate_id`
// ---------------------------------------------------------------------------------------------

/// `str::to_lowercase` (minúsculas Unicode completas) de un texto. Se nombra, no se describe.
pub uninterp spec fn minusculas_unicode(texto: Seq<char>) -> Seq<char>;

/// Pasa `texto` a minúsculas con `str::to_lowercase`; el resultado es el que nombra
/// `minusculas_unicode`, que no se describe más.
#[verifier::external_body]
fn a_minusculas(texto: &str) -> (r: String)
    ensures
        r@ == minusculas_unicode(texto@),
{
    texto.to_lowercase()
}

/// Primera posición `>= i` que no es un dígito ASCII, o el final.
pub open spec fn fin_digitos(s: Seq<char>, i: int) -> int
    decreases s.len() - i,
{
    if i >= s.len() {
        s.len() as int
    } else if es_digito(s[i]) {
        fin_digitos(s, i + 1)
    } else {
        i
    }
}

pub proof fn lema_fin_digitos_acotado(s: Seq<char>, i: int)
    ensures
        fin_digitos(s, i) <= s.len(),
        i <= s.len() ==> i <= fin_digitos(s, i),
    decreases s.len() - i,
{
    if i < s.len() && es_digito(s[i]) {
        lema_fin_digitos_acotado(s, i + 1);
    }
}

proof fn lema_fin_digitos(s: Seq<char>, i: int)
    requires
        0 <= i <= s.len(),
    ensures
        i <= fin_digitos(s, i) <= s.len(),
        forall|k: int| i <= k < fin_digitos(s, i) ==> es_digito(s[k]),
    decreases s.len() - i,
{
    if i < s.len() && es_digito(s[i]) {
        lema_fin_digitos(s, i + 1);
    }
}

/// Los números que siguen a cada aparición de `marcador` en `s` a partir de `desde`: tras cada
/// aparición se toman los dígitos ASCII seguidos (si los hay y caben en un `i64`) y se sigue
/// buscando después de ellos.
pub open spec fn numeros_tras(s: Seq<char>, marcador: Seq<char>, desde: int) -> Seq<i64>
    decreases s.len() + 1 - desde,
    when 0 <= desde && marcador.len() > 0
{
    match primera_aparicion_desde(s, marcador, desde) {
        None => seq![],
        Some(p) => {
            let a = p + marcador.len();
            let f = fin_digitos(s, a);
            proof {
                lema_fin_digitos_acotado(s, a);
            }
            let cabeza = if f > a {
                match lectura_i64(s.subrange(a, f)) {
                    Some(n) => seq![n],
                    None => seq![],
                }
            } else {
                seq![]
            };
            if f > desde {
                cabeza + numeros_tras(s, marcador, f)
            } else {
                cabeza
            }
        },
    }
}

proof fn lema_aparicion_en_rango(s: Seq<char>, m: Seq<char>, desde: int)
    requires
        0 <= desde,
    ensures
        primera_aparicion_desde(s, m, desde) matches Some(p) ==> desde <= p && p + m.len() <= s.len(),
{
    lema_primera_aparicion_desde(s, m, desde);
}

/// Los números tras cada aparición de `marcador` en `s`.
fn numeros_tras_marcador(s: &[char], marcador: &[char]) -> (r: Vec<i64>)
    requires
        marcador@.len() > 0,
    ensures
        r@ == numeros_tras(s@, marcador@, 0),
{
    let mut r: Vec<i64> = Vec::new();
    let mut desde: usize = 0;
    loop
        invariant
            marcador@.len() > 0,
            desde <= s@.len() + 1,
            r@ + numeros_tras(s@, marcador@, desde as int) == numeros_tras(s@, marcador@, 0),
        decreases s@.len() + 1 - desde,
    {
        proof {
            lema_aparicion_en_rango(s@, marcador@, desde as int);
        }
        let hallado = buscar_desde(s, marcador, desde);
        match hallado {
            None => {
                assert(r@ =~= numeros_tras(s@, marcador@, 0));
                return r;
            },
            Some(p) => {
                let largo_s = s.len();
                assert(p + marcador@.len() <= largo_s);
                let a = p + marcador.len();
                let mut f = a;
                proof {
                    lema_fin_digitos(s@, a as int);
                }
                while f < s.len() && '0' <= s[f] && s[f] <= '9'
                    invariant
                        a <= f <= s@.len(),
                        fin_digitos(s@, a as int) == fin_digitos(s@, f as int),
                    decreases s@.len() - f,
                {
                    f += 1;
                }
                let ghost previo = r@;
                let ghost cabeza = if f > a {
                    match lectura_i64(s@.subrange(a as int, f as int)) {
                        Some(n) => seq![n],
                        None => seq![],
                    }
                } else {
                    seq![]
                };
                if f > a {
                    let digitos = tramo(s, a, f);
                    match leer_i64(digitos.as_slice()) {
                        Some(n) => r.push(n),
                        None => {},
                    }
                }
                assert(r@ =~= previo + cabeza);
                assert(numeros_tras(s@, marcador@, desde as int) =~= cabeza + numeros_tras(s@, marcador@, f as int));
                desde = f;
            },
        }
    }
}

/// `a` es el menor valor de `ns` y `b` el menor de los mayores que `a`.
pub open spec fn dos_menores(ns: Seq<i64>, a: i64, b: i64) -> bool {
    &&& ns.contains(a)
    &&& ns.contains(b)
    &&& a < b
    &&& forall|k: int| 0 <= k < ns.len() ==> a <= #[trigger] ns[k] && (ns[k] != a ==> b <= ns[k])
}

/// Los números de disco que aparecen en un texto ya en minúsculas, tras «disco », «disk » o
/// «harddisk».
pub open spec fn numeros_de_disco(bajo: Seq<char>) -> Seq<i64> {
    numeros_tras(bajo, "disco "@, 0) + numeros_tras(bajo, "disk "@, 0) + numeros_tras(
        bajo,
        "harddisk"@,
        0,
    )
}

/// Extrae los dos números de disco menores y distintos de un mensaje («disco 1… disco 3»,
/// «Harddisk1… Harddisk3»), como `"1+3"`. `None` sin mensaje o si no hay dos distintos.
pub fn par_de_discos_del_mensaje(mensaje: Option<&str>) -> (r: Option<String>)
    ensures
        match mensaje {
            None => r is None,
            Some(m) => {
                let ns = numeros_de_disco(minusculas_unicode(m@));
                match r {
                    Some(t) => exists|a: i64, b: i64|
                        dos_menores(ns, a, b) && t@ == decimal_con_signo(a as int) + "+"@
                            + decimal_con_signo(b as int),
                    None => forall|i: int, j: int|
                        0 <= i < ns.len() && 0 <= j < ns.len() ==> #[trigger] ns[i] == #[trigger] ns[j],
                }
            },
        },
{
    let m = match mensaje {
        Some(m) => m,
        None => return None,
    };
    let bajo = a_minusculas(m);
    let v = caracteres(bajo.as_str());
    let m1 = caracteres("disco ");
    let m2 = caracteres("disk ");
    let m3 = caracteres("harddisk");
    proof {
        reveal_strlit("disco ");
        reveal_strlit("disk ");
        reveal_strlit("harddisk");
    }
    let mut ns = numeros_tras_marcador(v.as_slice(), m1.as_slice());
    let n2 = numeros_tras_marcador(v.as_slice(), m2.as_slice());
    let n3 = numeros_tras_marcador(v.as_slice(), m3.as_slice());
    let ghost antes = ns@;
    let mut i: usize = 0;
    while i < n2.len()
        invariant
            i <= n2.len(),
            ns@ == antes + n2@.take(i as int),
        decreases n2.len() - i,
    {
        ns.push(n2[i]);
        i += 1;
        assert(ns@ =~= antes + n2@.take(i as int));
    }
    assert(n2@.take(n2@.len() as int) =~= n2@);
    let ghost antes2 = ns@;
    let mut i: usize = 0;
    while i < n3.len()
        invariant
            i <= n3.len(),
            ns@ == antes2 + n3@.take(i as int),
        decreases n3.len() - i,
    {
        ns.push(n3[i]);
        i += 1;
        assert(ns@ =~= antes2 + n3@.take(i as int));
    }
    assert(n3@.take(n3@.len() as int) =~= n3@);
    assert(ns@ =~= numeros_de_disco(minusculas_unicode(m@)));
    if ns.len() == 0 {
        return None;
    }
    // El menor.
    let mut a = ns[0];
    let mut k: usize = 1;
    while k < ns.len()
        invariant
            1 <= k <= ns.len(),
            ns@.contains(a),
            forall|j: int| 0 <= j < k ==> a <= #[trigger] ns@[j],
        decreases ns.len() - k,
    {
        if ns[k] < a {
            a = ns[k];
        }
        k += 1;
    }
    // El menor de los mayores que `a`.
    let mut b: Option<i64> = None;
    let mut k: usize = 0;
    while k < ns.len()
        invariant
            k <= ns.len(),
            ns@.contains(a),
            forall|j: int| 0 <= j < ns@.len() ==> a <= #[trigger] ns@[j],
            match b {
                Some(x) => ns@.contains(x) && a < x && forall|j: int|
                    0 <= j < k && #[trigger] ns@[j] != a ==> x <= ns@[j],
                None => forall|j: int| 0 <= j < k ==> #[trigger] ns@[j] == a,
            },
        decreases ns.len() - k,
    {
        if ns[k] != a {
            match b {
                Some(x) => {
                    if ns[k] < x {
                        b = Some(ns[k]);
                    }
                },
                None => {
                    b = Some(ns[k]);
                },
            }
        }
        k += 1;
    }
    match b {
        None => {
            assert forall|i: int, j: int|
                0 <= i < ns@.len() && 0 <= j < ns@.len() implies #[trigger] ns@[i] == #[trigger] ns@[j] by {
            }
            None
        },
        Some(b) => {
            let mut t = decimal_i64(a);
            let mas = caracteres("+");
            anexar(&mut t, mas.as_slice());
            let db = decimal_i64(b);
            anexar(&mut t, db.as_slice());
            assert(dos_menores(ns@, a, b));
            Some(cadena_de(t.as_slice()))
        },
    }
}

// ---------------------------------------------------------------------------------------------
// Resolución por tiempo
// ---------------------------------------------------------------------------------------------

/// Un grupo de una regla de eventos se resuelve por tiempo si sigue activo o reconocido, su
/// regla tiene ventana de resolución y su última ocurrencia (legible) es más antigua que esa
/// ventana.
pub open spec fn vence_por_tiempo(
    status: AlertStatus,
    rule_key: Seq<char>,
    ultima: Seq<char>,
    ahora: i128,
) -> bool {
    &&& (status == AlertStatus::Active || status == AlertStatus::Acknowledged)
    &&& primera_de_regla(tabla(), rule_key, 0) is Some
    &&& primera_de_regla(tabla(), rule_key, 0)->0.ventana_resolucion matches Some(v)
    &&& instante_rfc3339(ultima) matches Some(u)
    &&& ahora - u > v
}

/// Si el grupo de una regla de eventos ha de resolverse ya, sin nuevas ocurrencias desde
/// `last_occurrence_at_utc` (RFC 3339) hasta `ahora` (nanosegundos desde la época Unix).
pub fn grupo_vencido(status: AlertStatus, rule_key: &str, last_occurrence_at_utc: &str, ahora: i128) -> (r: bool)
    ensures
        r == vence_por_tiempo(status, rule_key@, last_occurrence_at_utc@, ahora),
{
    if !(status == AlertStatus::Active || status == AlertStatus::Acknowledged) {
        return false;
    }
    // Sin fila en la tabla no hay ventana: tampoco es una regla de eventos.
    let ventana = match ventana_resolucion_de(rule_key) {
        Some(v) => v,
        None => return false,
    };
    let ultima = match leer_rfc3339(last_occurrence_at_utc) {
        Ok(u) => u,
        Err(_) => return false,
    };
    match ahora.checked_sub(ultima) {
        Some(d) => d > ventana,
        None => ahora > ultima,
    }
}

/// Solo vencen por tiempo los grupos abiertos (activos o reconocidos), y uno abierto vence
/// cuando desde su última ocurrencia ha pasado estrictamente más que la ventana de su regla.
pub proof fn solo_vencen_los_grupos_abiertos_pasada_su_ventana(
    status: AlertStatus,
    rule_key: Seq<char>,
    ultima: Seq<char>,
    ahora: i128,
)
    ensures
        (status == AlertStatus::Resolved || status == AlertStatus::Archived || status
            == AlertStatus::Ignored) ==> !vence_por_tiempo(status, rule_key, ultima, ahora),
        instante_rfc3339(ultima) is None ==> !vence_por_tiempo(status, rule_key, ultima, ahora),
        primera_de_regla(tabla(), rule_key, 0) matches Some(f) ==> (f.ventana_resolucion matches Some(v)
            ==> (instante_rfc3339(ultima) matches Some(u) ==> ((status == AlertStatus::Active
            || status == AlertStatus::Acknowledged) ==> (vence_por_tiempo(status, rule_key, ultima, ahora)
            <==> ahora - u > v)))),
{
}

/// Lo que el barrido de resolución por tiempo lee de un grupo de alerta.
#[derive(Debug, Clone)]
pub struct GrupoDeEvento {
    pub deduplication_key: String,
    pub status: AlertStatus,
    pub rule_key: String,
    /// Instante RFC 3339 de la última ocurrencia.
    pub last_occurrence_at_utc: String,
}

/// Las claves de deduplicación de los grupos de `g` que vencen en `ahora`, en su orden.
pub open spec fn claves_vencidas(g: Seq<GrupoDeEvento>, ahora: i128) -> Seq<Seq<char>>
    decreases g.len(),
{
    if g.len() == 0 {
        seq![]
    } else {
        let previas = claves_vencidas(g.drop_last(), ahora);
        let u = g.last();
        if vence_por_tiempo(u.status, u.rule_key@, u.last_occurrence_at_utc@, ahora) {
            previas.push(u.deduplication_key@)
        } else {
            previas
        }
    }
}

/// Barrido de resolución por tiempo de los grupos de reglas de eventos: los que vencen en
/// `ahora_utc` (RFC 3339), cada uno con la transición `Resuelta`, en el orden dado. Con un
/// `ahora_utc` ilegible no se resuelve nada.
pub fn resolver_grupos_de_eventos_vencidos(grupos: &[GrupoDeEvento], ahora_utc: &str) -> (r: Vec<
    (String, Transicion),
>)
    ensures
        forall|k: int| 0 <= k < r@.len() ==> #[trigger] r@[k].1 == Transicion::Resuelta,
        r@.map_values(|p: (String, Transicion)| p.0@) == match instante_rfc3339(ahora_utc@) {
            Some(a) => claves_vencidas(grupos@, a),
            None => Seq::<Seq<char>>::empty(),
        },
{
    let ahora = match leer_rfc3339(ahora_utc) {
        Ok(a) => a,
        Err(_) => {
            let r: Vec<(String, Transicion)> = Vec::new();
            assert(r@.map_values(|p: (String, Transicion)| p.0@) =~= Seq::<Seq<char>>::empty());
            return r;
        },
    };
    let mut r: Vec<(String, Transicion)> = Vec::new();
    let mut i: usize = 0;
    while i < grupos.len()
        invariant
            i <= grupos.len(),
            forall|k: int| 0 <= k < r@.len() ==> #[trigger] r@[k].1 == Transicion::Resuelta,
            r@.map_values(|p: (String, Transicion)| p.0@) == claves_vencidas(
                grupos@.take(i as int),
                ahora,
            ),
        decreases grupos.len() - i,
    {
        let ghost antes = r@;
        assert(grupos@.take(i as int + 1).drop_last() =~= grupos@.take(i as int));
        let g = &grupos[i];
        if grupo_vencido(g.status, g.rule_key.as_str(), g.last_occurrence_at_utc.as_str(), ahora) {
            let clave = g.deduplication_key.clone();
            r.push((clave, Transicion::Resuelta));
            assert(r@.map_values(|p: (String, Transicion)| p.0@) =~= antes.map_values(
                |p: (String, Transicion)| p.0@,
            ).push(clave@));
        }
        i += 1;
    }
    assert(grupos@.take(grupos@.len() as int) =~= grupos@);
    r
}

// ---------------------------------------------------------------------------------------------
// Extracción imprevista y discos duplicados
// ---------------------------------------------------------------------------------------------

/// La severidad de `device.removed_unexpected` por la desaparición de un disco del inventario:
/// crítica en un disco fijo; un disco USB sin `disk` 157 se retiró como se esperaba y no alerta.
pub fn severidad_por_baja(es_usb: bool) -> (r: Option<AlertSeverity>)
    ensures
        r == (if es_usb {
            None
        } else {
            Some(AlertSeverity::Critical)
        }),
{
    if es_usb {
        None
    } else {
        Some(AlertSeverity::Critical)
    }
}

/// La severidad con la que un evento derivado se pliega en la extracción imprevista de su disco:
/// la misma que daría el `disk` 157 (advertencia en extraíble, crítica en fijo).
pub fn severidad_de_extraccion(es_extraible: bool) -> (r: AlertSeverity)
    ensures
        r == (if es_extraible {
            AlertSeverity::Warning
        } else {
            AlertSeverity::Critical
        }),
{
    if es_extraible {
        AlertSeverity::Warning
    } else {
        AlertSeverity::Critical
    }
}

/// El contexto de `inventory.duplicate_id`: la pareja de discos del mensaje si se puede leer;
/// si no, `provider:event_id`.
pub fn contexto_de_duplicado(provider: &str, event_id: i64, mensaje: Option<&str>) -> (r: String)
    ensures
        match mensaje {
            None => r@ == texto_provider_event_id(provider@, event_id),
            Some(m) => {
                let ns = numeros_de_disco(minusculas_unicode(m@));
                ||| exists|a: i64, b: i64|
                    dos_menores(ns, a, b) && r@ == decimal_con_signo(a as int) + "+"@
                        + decimal_con_signo(b as int)
                ||| (forall|i: int, j: int|
                    0 <= i < ns.len() && 0 <= j < ns.len() ==> #[trigger] ns[i] == #[trigger] ns[j])
                    && r@ == texto_provider_event_id(provider@, event_id)
            },
        },
{
    match par_de_discos_del_mensaje(mensaje) {
        Some(par) => par,
        None => provider_event_id(provider, event_id),
    }
}

} // verus!
