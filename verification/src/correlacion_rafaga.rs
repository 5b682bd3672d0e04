//! Ventana de correlación de ráfagas.
//!
//! Un solo hecho físico —una desconexión en caliente— produce varios eventos distintos del mismo
//! disco en segundos. Los eventos del mismo disco dentro de **60 segundos** se tratan como un
//! suceso, y si entre ellos hay un `disk` 157 (extracción imprevista) **ese es la causa** y los
//! demás pasan a ser ocurrencias suyas. Las duraciones van en nanosegundos.
use vstd::prelude::*;

verus! {

/// El id de evento de «El disco N se ha extraído de forma imprevista» (proveedor clásico `disk`).
pub const EVENT_ID_EXTRACCION_IMPREVISTA: i64 = 157;

/// Ancho de la ventana de correlación: 60 s, en nanosegundos.
pub const VENTANA: i128 = 60_000_000_000;

/// Un evento mínimo para decidir correlación: id y momento.
#[derive(Debug, Clone, Copy, PartialEq, Eq, Structural)]
pub struct EventoEnVentana {
    /// Identificador persistido del evento.
    pub id: i64,
    pub provider_es_disk: bool,
    pub event_id: i64,
    /// Nanosegundos entre este evento y el evento nuevo que se está evaluando (≥ 0).
    pub antiguedad: i128,
}

/// Qué hacer con el evento nuevo tras mirar su ventana de 60 s.
#[derive(Debug, Clone, Copy, PartialEq, Eq, Structural)]
pub enum ResultadoCorrelacion {
    /// No hay causa en la ventana: el evento sigue su propia regla.
    SiguePropiaRegla,
    /// Hay un `disk` 157 en la ventana: este evento es una ocurrencia de la extracción
    /// imprevista del mismo disco. Lleva el identificador de la causa.
    OcurrenciaDeExtraccion { causa_event_id: i64 },
    /// El evento nuevo **es** el `disk` 157 y en su ventana hay grupos de evento del mismo disco
    /// creados justo antes: hay que reasignarlos.
    EsCausaConDerivadosPrevios,
}

pub open spec fn spec_es_extraccion_imprevista(provider_es_disk: bool, event_id: i64) -> bool {
    provider_es_disk && event_id == EVENT_ID_EXTRACCION_IMPREVISTA
}

/// ¿Es este `(provider, event_id)` la causa de una ráfaga (una extracción imprevista)?
pub fn es_extraccion_imprevista(provider_es_disk: bool, event_id: i64) -> (r: bool)
    ensures
        r == spec_es_extraccion_imprevista(provider_es_disk, event_id),
{
    provider_es_disk && event_id == EVENT_ID_EXTRACCION_IMPREVISTA
}

/// El evento de la ventana cuenta como causa: dentro de los 60 s y es un `disk` 157.
pub open spec fn es_causa(e: EventoEnVentana) -> bool {
    e.antiguedad <= VENTANA && spec_es_extraccion_imprevista(e.provider_es_disk, e.event_id)
}

/// La primera causa de la ventana a partir de `i`, en su orden.
pub open spec fn primera_causa(v: Seq<EventoEnVentana>, i: int) -> Option<EventoEnVentana>
    decreases v.len() - i,
    when 0 <= i
{
    if i >= v.len() {
        None
    } else if es_causa(v[i]) {
        Some(v[i])
    } else {
        primera_causa(v, i + 1)
    }
}

/// La decisión de correlación, por casos.
pub open spec fn correlacion(
    nuevo_event_id: i64,
    nuevo_es_disk: bool,
    ventana: Seq<EventoEnVentana>,
    hay_grupos_de_evento_recientes: bool,
) -> ResultadoCorrelacion {
    if spec_es_extraccion_imprevista(nuevo_es_disk, nuevo_event_id) {
        if hay_grupos_de_evento_recientes {
            ResultadoCorrelacion::EsCausaConDerivadosPrevios
        } else {
            ResultadoCorrelacion::SiguePropiaRegla
        }
    } else {
        match primera_causa(ventana, 0) {
            Some(c) => ResultadoCorrelacion::OcurrenciaDeExtraccion { causa_event_id: c.id },
            None => ResultadoCorrelacion::SiguePropiaRegla,
        }
    }
}

/// Decide qué hacer con el evento nuevo dada su ventana de 60 s de eventos del mismo disco ya
/// persistidos. `hay_grupos_de_evento_recientes` lo aporta quien llama: solo importa cuando el
/// evento nuevo **es** el `disk` 157 que llega tarde.
pub fn correlacionar_rafaga(
    evento_nuevo_event_id: i64,
    evento_nuevo_es_disk: bool,
    ventana: &[EventoEnVentana],
    hay_grupos_de_evento_recientes: bool,
) -> (r: ResultadoCorrelacion)
    ensures
        r == correlacion(
            evento_nuevo_event_id,
            evento_nuevo_es_disk,
            ventana@,
            hay_grupos_de_evento_recientes,
        ),
{
    if es_extraccion_imprevista(evento_nuevo_es_disk, evento_nuevo_event_id) {
        if hay_grupos_de_evento_recientes {
            return ResultadoCorrelacion::EsCausaConDerivadosPrevios;
        }
        return ResultadoCorrelacion::SiguePropiaRegla;
    }
    let mut i: usize = 0;
    while i < ventana.len()
        invariant
            i <= ventana.len(),
            !spec_es_extraccion_imprevista(evento_nuevo_es_disk, evento_nuevo_event_id),
            primera_causa(ventana@, 0) == primera_causa(ventana@, i as int),
        decreases ventana.len() - i,
    {
        let e = ventana[i];
        if e.antiguedad <= VENTANA && es_extraccion_imprevista(e.provider_es_disk, e.event_id) {
            return ResultadoCorrelacion::OcurrenciaDeExtraccion { causa_event_id: e.id };
        }
        i += 1;
    }
    ResultadoCorrelacion::SiguePropiaRegla
}

/// Un `disk` 157 nunca se pliega como ocurrencia de otro: o crea su grupo o reasigna los
/// derivados previos.
pub proof fn la_causa_nunca_es_derivada(
    nuevo_event_id: i64,
    nuevo_es_disk: bool,
    ventana: Seq<EventoEnVentana>,
    hay: bool,
)
    requires
        spec_es_extraccion_imprevista(nuevo_es_disk, nuevo_event_id),
    ensures
        !(correlacion(nuevo_event_id, nuevo_es_disk, ventana, hay) is OcurrenciaDeExtraccion),
{
}

/// Un derivado con un `disk` 157 en su ventana se pliega como ocurrencia de esa causa, y sin él
/// sigue su propia regla.
pub proof fn un_derivado_se_pliega_solo_ante_una_causa(
    nuevo_event_id: i64,
    nuevo_es_disk: bool,
    ventana: Seq<EventoEnVentana>,
    hay: bool,
)
    requires
        !spec_es_extraccion_imprevista(nuevo_es_disk, nuevo_event_id),
    ensures
        (correlacion(nuevo_event_id, nuevo_es_disk, ventana, hay) is OcurrenciaDeExtraccion) <==> (
        exists|k: int| 0 <= k < ventana.len() && es_causa(#[trigger] ventana[k])),
{
    lema_primera_causa(ventana, 0);
}

pub proof fn lema_primera_causa(v: Seq<EventoEnVentana>, i: int)
    requires
        0 <= i,
    ensures
        match primera_causa(v, i) {
            Some(c) => exists|k: int| i <= k < v.len() && v[k] == c && es_causa(#[trigger] v[k]),
            None => forall|k: int| i <= k < v.len() ==> !es_causa(#[trigger] v[k]),
        },
    decreases v.len() - i,
{
    if i < v.len() && !es_causa(v[i]) {
        lema_primera_causa(v, i + 1);
    }
}

/// Lo que cuenta como causa en la ventana: un `disk` 157 de hace 60 s como mucho. Otro id, otro
/// proveedor o más de 60 s de antigüedad no lo son.
pub proof fn la_causa_es_un_disk_157_de_hace_60_s_como_mucho(e: EventoEnVentana)
    ensures
        es_causa(e) <==> (e.provider_es_disk && e.event_id == 157 && e.antiguedad
            <= 60_000_000_000),
{
}

/// Un derivado con una causa en su ventana se pliega como ocurrencia de la primera causa de la
/// ventana, y lleva su identificador; el evento 157 nuevo reasigna los derivados previos solo si
/// los hay.
pub proof fn el_derivado_se_pliega_en_la_primera_causa(
    nuevo_event_id: i64,
    nuevo_es_disk: bool,
    ventana: Seq<EventoEnVentana>,
    hay: bool,
    k: int,
)
    requires
        !(nuevo_es_disk && nuevo_event_id == 157),
        0 <= k < ventana.len(),
        ventana[k].provider_es_disk && ventana[k].event_id == 157 && ventana[k].antiguedad
            <= 60_000_000_000,
        forall|j: int| 0 <= j < k ==> !(#[trigger] ventana[j].provider_es_disk && ventana[j].event_id
            == 157 && ventana[j].antiguedad <= 60_000_000_000),
    ensures
        correlacion(nuevo_event_id, nuevo_es_disk, ventana, hay)
            == (ResultadoCorrelacion::OcurrenciaDeExtraccion { causa_event_id: ventana[k].id }),
        correlacion(157, true, ventana, true) == ResultadoCorrelacion::EsCausaConDerivadosPrevios,
        correlacion(157, true, ventana, false) == ResultadoCorrelacion::SiguePropiaRegla,
{
    lema_primera_causa_en(ventana, 0, k);
}

proof fn lema_primera_causa_en(v: Seq<EventoEnVentana>, i: int, k: int)
    requires
        0 <= i <= k < v.len(),
        es_causa(v[k]),
        forall|j: int| 0 <= j < k ==> !es_causa(#[trigger] v[j]),
    ensures
        primera_causa(v, i) == Some(v[k]),
    decreases k - i,
{
    if i < k {
        assert(!es_causa(v[i]));
        lema_primera_causa_en(v, i + 1, k);
    }
}

} // verus!
