//! Tabla `(proveedor, id) → regla de alerta` para los eventos del registro de Windows.
//!
//! La *semántica* de una regla —severidad, resolución, contexto de deduplicación— es dominio
//! normativo y no la edita el usuario; por eso vive en código. Las duraciones se expresan en
//! nanosegundos.
use vstd::prelude::*;

use crate::texto::{iguales, iguales_sin_mayusculas_ascii, minusculas_ascii};
use crate::tipos::AlertSeverity;

verus! {

/// Una hora, en nanosegundos.
pub const HORA_NS: i128 = 3_600_000_000_000;

/// Un día, en nanosegundos.
pub const DIA_NS: i128 = 86_400_000_000_000;

/// Siete días, en nanosegundos.
pub const SEMANA_NS: i128 = 604_800_000_000_000;

/// A qué apunta la alerta de una regla de evento.
#[derive(Debug, Clone, Copy, PartialEq, Eq, Structural)]
pub enum Objetivo {
    /// El disco correlacionado, o sin objeto si la atribución es desconocida.
    Dispositivo,
    /// El volumen, o sin objeto si no se conoce.
    Volumen,
    /// La regla no apunta a ningún disco ni volumen.
    SinObjeto,
}

/// Discriminante de la clave de deduplicación.
#[derive(Debug, Clone, Copy, PartialEq, Eq, Structural)]
pub enum ContextoDedup {
    /// `provider:event_id`: un grupo por tipo de evento sobre el mismo objetivo.
    ProviderEventId,
    /// Un grupo por volumen, sin importar el id concreto del evento.
    VolumeGuid,
    /// El identificador del disco.
    DeviceId,
    /// La pareja de discos con identidad compartida.
    ParDeDiscos,
    /// Sin discriminante: el objetivo ya basta.
    Ninguno,
}

/// Cómo decide la severidad una regla de evento.
#[derive(Debug, Clone, Copy, PartialEq, Eq, Structural)]
pub enum Evaluacion {
    /// Un solo evento activa la regla, siempre con la misma severidad.
    Inmediata { severidad: AlertSeverity },
    /// Activa al alcanzar `min_en_1h` eventos sobre el mismo disco en una hora; con
    /// `escala_crit_en_1h` sube a crítico al alcanzar esa cuenta.
    PorFrecuencia { min_en_1h: u32, severidad: AlertSeverity, escala_crit_en_1h: Option<u32> },
    /// La severidad depende de si el volumen es extraíble.
    CondicionalNoExtraible { base: AlertSeverity, si_no_extraible: AlertSeverity },
    /// La severidad depende del bus del disco.
    SegunBus { fijo: AlertSeverity, usb: AlertSeverity },
    /// La regla la maneja un camino propio.
    Especial,
}

/// Una fila de la tabla: qué combinación de proveedor/id vigila, con qué regla, objetivo,
/// contexto y evaluación.
#[derive(Debug, Clone)]
pub struct ClasificacionEvento {
    pub provider: &'static str,
    pub event_ids: Vec<i64>,
    pub rule_key: &'static str,
    pub objetivo: Objetivo,
    pub dedup_context: ContextoDedup,
    pub evaluacion: Evaluacion,
    /// Ventana «sin repetición» tras la que un grupo activo se resuelve, en nanosegundos. `None`
    /// cuando la regla no se resuelve por tiempo.
    pub ventana_resolucion: Option<i128>,
    /// Solo eventos sobre discos **no** extraíbles cuentan para esta regla.
    pub solo_no_extraibles: bool,
}

/// Modelo de una fila de la tabla.
pub struct FilaTabla {
    pub provider: Seq<char>,
    pub event_ids: Seq<i64>,
    pub rule_key: Seq<char>,
    pub objetivo: Objetivo,
    pub dedup_context: ContextoDedup,
    pub evaluacion: Evaluacion,
    pub ventana_resolucion: Option<i128>,
    pub solo_no_extraibles: bool,
}

impl View for ClasificacionEvento {
    type V = FilaTabla;

    open spec fn view(&self) -> FilaTabla {
        FilaTabla {
            provider: self.provider@,
            event_ids: self.event_ids@,
            rule_key: self.rule_key@,
            objetivo: self.objetivo,
            dedup_context: self.dedup_context,
            evaluacion: self.evaluacion,
            ventana_resolucion: self.ventana_resolucion,
            solo_no_extraibles: self.solo_no_extraibles,
        }
    }
}

pub open spec fn fila(
    provider: &str,
    event_ids: Seq<i64>,
    rule_key: &str,
    objetivo: Objetivo,
    dedup_context: ContextoDedup,
    evaluacion: Evaluacion,
    ventana_resolucion: Option<i128>,
    solo_no_extraibles: bool,
) -> FilaTabla {
    FilaTabla {
        provider: provider@,
        event_ids,
        rule_key: rule_key@,
        objetivo,
        dedup_context,
        evaluacion,
        ventana_resolucion,
        solo_no_extraibles,
    }
}

pub open spec fn inmediata(s: AlertSeverity) -> Evaluacion {
    Evaluacion::Inmediata { severidad: s }
}

pub open spec fn controller_reset() -> Evaluacion {
    Evaluacion::PorFrecuencia {
        min_en_1h: 1,
        severidad: AlertSeverity::Warning,
        escala_crit_en_1h: Some(3),
    }
}

pub open spec fn delayed_write() -> Evaluacion {
    Evaluacion::CondicionalNoExtraible {
        base: AlertSeverity::Warning,
        si_no_extraible: AlertSeverity::Critical,
    }
}

/// La tabla completa: las diez reglas `events.*`, más `disk` 157 (`device.removed_unexpected`)
/// y `disk` 158 (`inventory.duplicate_id`).
pub open spec fn tabla() -> Seq<FilaTabla> {
    let h24 = Some(DIA_NS);
    let d7 = Some(SEMANA_NS);
    seq![
        fila("disk", seq![7], "events.disk_error", Objetivo::Dispositivo, ContextoDedup::ProviderEventId, inmediata(AlertSeverity::Critical), h24, false),
        fila("Microsoft-Windows-NvmeDisk", seq![500], "events.disk_error", Objetivo::Dispositivo, ContextoDedup::ProviderEventId, inmediata(AlertSeverity::Critical), h24, false),
        fila("Microsoft-Windows-StorageSpaces-Driver", seq![202, 203, 209], "events.disk_error", Objetivo::Dispositivo, ContextoDedup::ProviderEventId, inmediata(AlertSeverity::Critical), h24, false),
        fila("Ntfs", seq![55, 131], "events.filesystem_error", Objetivo::Volumen, ContextoDedup::ProviderEventId, inmediata(AlertSeverity::Critical), h24, false),
        fila("Ntfs", seq![130], "events.filesystem_repaired", Objetivo::Volumen, ContextoDedup::VolumeGuid, inmediata(AlertSeverity::Warning), d7, false),
        fila("Ntfs", seq![132], "events.filesystem_repair_storm", Objetivo::Volumen, ContextoDedup::VolumeGuid, inmediata(AlertSeverity::Critical), d7, false),
        fila("Ntfs", seq![50], "events.delayed_write", Objetivo::Volumen, ContextoDedup::VolumeGuid, delayed_write(), h24, false),
        fila("Microsoft-Windows-Ntfs", seq![140], "events.delayed_write", Objetivo::Volumen, ContextoDedup::VolumeGuid, delayed_write(), h24, false),
        fila("disk", seq![11], "events.controller_reset", Objetivo::Dispositivo, ContextoDedup::ProviderEventId, controller_reset(), h24, false),
        fila("stornvme", seq![129], "events.controller_reset", Objetivo::Dispositivo, ContextoDedup::ProviderEventId, controller_reset(), h24, false),
        fila("storahci", seq![129], "events.controller_reset", Objetivo::Dispositivo, ContextoDedup::ProviderEventId, controller_reset(), h24, false),
        fila("disk", seq![51], "events.paging_error", Objetivo::Dispositivo, ContextoDedup::DeviceId, Evaluacion::PorFrecuencia { min_en_1h: 10, severidad: AlertSeverity::Warning, escala_crit_en_1h: None }, h24, true),
        fila("disk", seq![153], "events.io_retry", Objetivo::Dispositivo, ContextoDedup::DeviceId, Evaluacion::PorFrecuencia { min_en_1h: 5, severidad: AlertSeverity::Warning, escala_crit_en_1h: None }, h24, false),
        fila("disk", seq![52], "events.disk_predictive", Objetivo::Dispositivo, ContextoDedup::Ninguno, inmediata(AlertSeverity::Warning), d7, false),
        fila("Microsoft-Windows-StorageSpaces-Driver", seq![300, 301, 302, 303, 304, 305, 306, 307, 308, 309, 310, 311], "events.storage_space_degraded", Objetivo::SinObjeto, ContextoDedup::ProviderEventId, inmediata(AlertSeverity::Critical), h24, false),
        fila("disk", seq![157], "device.removed_unexpected", Objetivo::Dispositivo, ContextoDedup::Ninguno, Evaluacion::SegunBus { fijo: AlertSeverity::Critical, usb: AlertSeverity::Warning }, None, false),
        fila("disk", seq![158], "inventory.duplicate_id", Objetivo::SinObjeto, ContextoDedup::ParDeDiscos, Evaluacion::Especial, d7, false),
    ]
}

fn nueva_fila(
    provider: &'static str,
    event_ids: Vec<i64>,
    rule_key: &'static str,
    objetivo: Objetivo,
    dedup_context: ContextoDedup,
    evaluacion: Evaluacion,
    ventana_resolucion: Option<i128>,
    solo_no_extraibles: bool,
) -> (r: ClasificacionEvento)
    ensures
        r@ == fila(
            provider,
            event_ids@,
            rule_key,
            objetivo,
            dedup_context,
            evaluacion,
            ventana_resolucion,
            solo_no_extraibles,
        ),
{
    ClasificacionEvento {
        provider,
        event_ids,
        rule_key,
        objetivo,
        dedup_context,
        evaluacion,
        ventana_resolucion,
        solo_no_extraibles,
    }
}

/// Los ids dados, en orden.
fn ids(a: &[i64]) -> (r: Vec<i64>)
    ensures
        r@ == a@,
{
    let mut r = Vec::new();
    let mut i: usize = 0;
    while i < a.len()
        invariant
            i <= a.len(),
            r@ == a@.take(i as int),
        decreases a.len() - i,
    {
        r.push(a[i]);
        i += 1;
        assert(r@ =~= a@.take(i as int));
    }
    assert(a@.take(a.len() as int) =~= a@);
    r
}

/// Las filas de la tabla, en su orden.
pub fn tabla_clasificacion() -> (r: Vec<ClasificacionEvento>)
    ensures
        r@.map_values(|c: ClasificacionEvento| c@) == tabla(),
{
    let h24 = Some(DIA_NS);
    let d7 = Some(SEMANA_NS);
    let crit = Evaluacion::Inmediata { severidad: AlertSeverity::Critical };
    let warn = Evaluacion::Inmediata { severidad: AlertSeverity::Warning };
    let reset = Evaluacion::PorFrecuencia {
        min_en_1h: 1,
        severidad: AlertSeverity::Warning,
        escala_crit_en_1h: Some(3),
    };
    let escritura = Evaluacion::CondicionalNoExtraible {
        base: AlertSeverity::Warning,
        si_no_extraible: AlertSeverity::Critical,
    };
    let mut r = Vec::new();
    r.push(nueva_fila("disk", ids(&[7]), "events.disk_error", Objetivo::Dispositivo, ContextoDedup::ProviderEventId, crit, h24, false));
    r.push(nueva_fila("Microsoft-Windows-NvmeDisk", ids(&[500]), "events.disk_error", Objetivo::Dispositivo, ContextoDedup::ProviderEventId, crit, h24, false));
    r.push(nueva_fila("Microsoft-Windows-StorageSpaces-Driver", ids(&[202, 203, 209]), "events.disk_error", Objetivo::Dispositivo, ContextoDedup::ProviderEventId, crit, h24, false));
    r.push(nueva_fila("Ntfs", ids(&[55, 131]), "events.filesystem_error", Objetivo::Volumen, ContextoDedup::ProviderEventId, crit, h24, false));
    r.push(nueva_fila("Ntfs", ids(&[130]), "events.filesystem_repaired", Objetivo::Volumen, ContextoDedup::VolumeGuid, warn, d7, false));
    r.push(nueva_fila("Ntfs", ids(&[132]), "events.filesystem_repair_storm", Objetivo::Volumen, ContextoDedup::VolumeGuid, crit, d7, false));
    r.push(nueva_fila("Ntfs", ids(&[50]), "events.delayed_write", Objetivo::Volumen, ContextoDedup::VolumeGuid, escritura, h24, false));
    r.push(nueva_fila("Microsoft-Windows-Ntfs", ids(&[140]), "events.delayed_write", Objetivo::Volumen, ContextoDedup::VolumeGuid, escritura, h24, false));
    r.push(nueva_fila("disk", ids(&[11]), "events.controller_reset", Objetivo::Dispositivo, ContextoDedup::ProviderEventId, reset, h24, false));
    r.push(nueva_fila("stornvme", ids(&[129]), "events.controller_reset", Objetivo::Dispositivo, ContextoDedup::ProviderEventId, reset, h24, false));
    r.push(nueva_fila("storahci", ids(&[129]), "events.controller_reset", Objetivo::Dispositivo, ContextoDedup::ProviderEventId, reset, h24, false));
    r.push(nueva_fila("disk", ids(&[51]), "events.paging_error", Objetivo::Dispositivo, ContextoDedup::DeviceId, Evaluacion::PorFrecuencia { min_en_1h: 10, severidad: AlertSeverity::Warning, escala_crit_en_1h: None }, h24, true));
    r.push(nueva_fila("disk", ids(&[153]), "events.io_retry", Objetivo::Dispositivo, ContextoDedup::DeviceId, Evaluacion::PorFrecuencia { min_en_1h: 5, severidad: AlertSeverity::Warning, escala_crit_en_1h: None }, h24, false));
    r.push(nueva_fila("disk", ids(&[52]), "events.disk_predictive", Objetivo::Dispositivo, ContextoDedup::Ninguno, warn, d7, false));
    r.push(nueva_fila("Microsoft-Windows-StorageSpaces-Driver", ids(&[300, 301, 302, 303, 304, 305, 306, 307, 308, 309, 310, 311]), "events.storage_space_degraded", Objetivo::SinObjeto, ContextoDedup::ProviderEventId, crit, h24, false));
    r.push(nueva_fila("disk", ids(&[157]), "device.removed_unexpected", Objetivo::Dispositivo, ContextoDedup::Ninguno, Evaluacion::SegunBus { fijo: AlertSeverity::Critical, usb: AlertSeverity::Warning }, None, false));
    r.push(nueva_fila("disk", ids(&[158]), "inventory.duplicate_id", Objetivo::SinObjeto, ContextoDedup::ParDeDiscos, Evaluacion::Especial, d7, false));
    assert(r@[0]@.event_ids =~= tabla()[0].event_ids);
    assert(r@[1]@.event_ids =~= tabla()[1].event_ids);
    assert(r@[2]@.event_ids =~= tabla()[2].event_ids);
    assert(r@[3]@.event_ids =~= tabla()[3].event_ids);
    assert(r@[4]@.event_ids =~= tabla()[4].event_ids);
    assert(r@[5]@.event_ids =~= tabla()[5].event_ids);
    assert(r@[6]@.event_ids =~= tabla()[6].event_ids);
    assert(r@[7]@.event_ids =~= tabla()[7].event_ids);
    assert(r@[8]@.event_ids =~= tabla()[8].event_ids);
    assert(r@[9]@.event_ids =~= tabla()[9].event_ids);
    assert(r@[10]@.event_ids =~= tabla()[10].event_ids);
    assert(r@[11]@.event_ids =~= tabla()[11].event_ids);
    assert(r@[12]@.event_ids =~= tabla()[12].event_ids);
    assert(r@[13]@.event_ids =~= tabla()[13].event_ids);
    assert(r@[14]@.event_ids =~= tabla()[14].event_ids);
    assert(r@[15]@.event_ids =~= tabla()[15].event_ids);
    assert(r@[16]@.event_ids =~= tabla()[16].event_ids);
    assert(r@.map_values(|c: ClasificacionEvento| c@) =~= tabla());
    r
}


impl ClasificacionEvento {
    /// Copia de la fila.
    pub fn copiar(&self) -> (r: ClasificacionEvento)
        ensures
            r@ == self@,
    {
        ClasificacionEvento {
            provider: self.provider,
            event_ids: ids(self.event_ids.as_slice()),
            rule_key: self.rule_key,
            objetivo: self.objetivo,
            dedup_context: self.dedup_context,
            evaluacion: self.evaluacion,
            ventana_resolucion: self.ventana_resolucion,
            solo_no_extraibles: self.solo_no_extraibles,
        }
    }
}

/// La fila vigila al proveedor (sin distinguir mayúsculas ASCII) y al id de evento.
pub open spec fn coincide(f: FilaTabla, provider: Seq<char>, event_id: i64) -> bool {
    minusculas_ascii(f.provider) == minusculas_ascii(provider) && f.event_ids.contains(event_id)
}

/// La primera fila de `t`, a partir de `i`, que vigila `(provider, event_id)`.
pub open spec fn primera_coincidencia(t: Seq<FilaTabla>, provider: Seq<char>, event_id: i64, i: int) -> Option<FilaTabla>
    decreases t.len() - i,
    when 0 <= i
{
    if i >= t.len() {
        None
    } else if coincide(t[i], provider, event_id) {
        Some(t[i])
    } else {
        primera_coincidencia(t, provider, event_id, i + 1)
    }
}

/// La clasificación de un evento: la primera fila de la tabla que lo vigila, o `None` si el
/// evento no está vigilado.
pub open spec fn clasificacion(provider: Seq<char>, event_id: i64) -> Option<FilaTabla> {
    primera_coincidencia(tabla(), provider, event_id, 0)
}

/// La clasificación no distingue mayúsculas ASCII en el proveedor: dos proveedores que solo
/// difieren en ellas dan la misma fila para el mismo id.
pub proof fn clasificar_ignora_mayusculas(p1: Seq<char>, p2: Seq<char>, event_id: i64)
    requires
        minusculas_ascii(p1) == minusculas_ascii(p2),
    ensures
        clasificacion(p1, event_id) == clasificacion(p2, event_id),
{
    lema_misma_coincidencia(tabla(), p1, p2, event_id, 0);
}

proof fn lema_misma_coincidencia(t: Seq<FilaTabla>, p1: Seq<char>, p2: Seq<char>, event_id: i64, i: int)
    requires
        0 <= i,
        minusculas_ascii(p1) == minusculas_ascii(p2),
    ensures
        primera_coincidencia(t, p1, event_id, i) == primera_coincidencia(t, p2, event_id, i),
    decreases t.len() - i,
{
    if i < t.len() {
        lema_misma_coincidencia(t, p1, p2, event_id, i + 1);
    }
}

/// La primera fila de `t`, a partir de `i`, de la regla `rule_key`.
pub open spec fn primera_de_regla(t: Seq<FilaTabla>, rule_key: Seq<char>, i: int) -> Option<FilaTabla>
    decreases t.len() - i,
    when 0 <= i
{
    if i >= t.len() {
        None
    } else if t[i].rule_key == rule_key {
        Some(t[i])
    } else {
        primera_de_regla(t, rule_key, i + 1)
    }
}

/// Los pares `(proveedor, id)` de una fila si es de la regla `rule_key`.
pub open spec fn pares_de_fila(f: FilaTabla, rule_key: Seq<char>) -> Seq<(Seq<char>, i64)> {
    if f.rule_key == rule_key {
        f.event_ids.map_values(|id: i64| (f.provider, id))
    } else {
        seq![]
    }
}

/// Todos los pares `(proveedor, id)` de las filas de `t` de la regla `rule_key`, en orden.
pub open spec fn pares_en(t: Seq<FilaTabla>, rule_key: Seq<char>) -> Seq<(Seq<char>, i64)>
    decreases t.len(),
{
    if t.len() == 0 {
        seq![]
    } else {
        pares_en(t.drop_last(), rule_key) + pares_de_fila(t.last(), rule_key)
    }
}

fn contiene_id(v: &[i64], x: i64) -> (r: bool)
    ensures
        r == v@.contains(x),
{
    let mut i: usize = 0;
    while i < v.len()
        invariant
            i <= v.len(),
            forall|j: int| 0 <= j < i ==> v@[j] != x,
        decreases v.len() - i,
    {
        if v[i] == x {
            assert(v@[i as int] == x);
            return true;
        }
        i += 1;
    }
    false
}

/// Busca la clasificación de un evento por proveedor (sin distinguir mayúsculas ASCII) e id.
/// `None` = evento no vigilado: no es un error, es la exclusión por omisión.
pub fn clasificar(provider: &str, event_id: i64) -> (r: Option<ClasificacionEvento>)
    ensures
        r matches Some(c) ==> clasificacion(provider@, event_id) == Some(c@),
        r is None ==> clasificacion(provider@, event_id) is None,
{
    let mut t = tabla_clasificacion();
    let ghost vt = t@.map_values(|c: ClasificacionEvento| c@);
    let mut i: usize = 0;
    while i < t.len()
        invariant
            i <= t.len(),
            t@.map_values(|c: ClasificacionEvento| c@) == tabla(),
            primera_coincidencia(tabla(), provider@, event_id, 0) == primera_coincidencia(tabla(), provider@, event_id, i as int),
        decreases t.len() - i,
    {
        assert(t@[i as int]@ == tabla()[i as int]);
        if iguales_sin_mayusculas_ascii(t[i].provider, provider) && contiene_id(t[i].event_ids.as_slice(), event_id) {
            let f = t.remove(i);
            return Some(f);
        }
        i += 1;
    }
    None
}

/// ¿`rule_key` es una de las reglas cuya fuente es el registro de eventos de Windows?
pub fn es_regla_de_eventos(rule_key: &str) -> (r: bool)
    ensures
        r == exists|j: int| 0 <= j < tabla().len() && #[trigger] tabla()[j].rule_key == rule_key@,
{
    let t = tabla_clasificacion();
    let mut i: usize = 0;
    while i < t.len()
        invariant
            i <= t.len(),
            t@.map_values(|c: ClasificacionEvento| c@) == tabla(),
            forall|j: int| 0 <= j < i ==> #[trigger] tabla()[j].rule_key != rule_key@,
        decreases t.len() - i,
    {
        assert(t@[i as int]@ == tabla()[i as int]);
        if iguales(t[i].rule_key, rule_key) {
            assert(tabla()[i as int].rule_key == rule_key@);
            return true;
        }
        i += 1;
    }
    false
}

/// Ventana de resolución «sin repetición» de una regla, en nanosegundos. `None` si la regla no
/// está en la tabla o no se resuelve por tiempo.
pub fn ventana_resolucion_de(rule_key: &str) -> (r: Option<i128>)
    ensures
        r == (match primera_de_regla(tabla(), rule_key@, 0) {
            Some(f) => f.ventana_resolucion,
            None => None,
        }),
{
    let t = tabla_clasificacion();
    let mut i: usize = 0;
    while i < t.len()
        invariant
            i <= t.len(),
            t@.map_values(|c: ClasificacionEvento| c@) == tabla(),
            primera_de_regla(tabla(), rule_key@, 0) == primera_de_regla(tabla(), rule_key@, i as int),
        decreases t.len() - i,
    {
        assert(t@[i as int]@ == tabla()[i as int]);
        if iguales(t[i].rule_key, rule_key) {
            return t[i].ventana_resolucion;
        }
        i += 1;
    }
    None
}

/// Todos los pares `(proveedor, event_id)` que activan una misma regla, en el orden de la tabla.
pub fn pares_de(rule_key: &str) -> (r: Vec<(&'static str, i64)>)
    ensures
        r@.map_values(|p: (&'static str, i64)| (p.0@, p.1)) == pares_en(tabla(), rule_key@),
{
    let t = tabla_clasificacion();
    let mut r: Vec<(&'static str, i64)> = Vec::new();
    let mut i: usize = 0;
    while i < t.len()
        invariant
            i <= t.len(),
            t@.map_values(|c: ClasificacionEvento| c@) == tabla(),
            r@.map_values(|p: (&'static str, i64)| (p.0@, p.1)) == pares_en(tabla().take(i as int), rule_key@),
        decreases t.len() - i,
    {
        assert(t@[i as int]@ == tabla()[i as int]);
        assert(tabla().take(i + 1).drop_last() =~= tabla().take(i as int));
        let ghost antes = r@.map_values(|p: (&'static str, i64)| (p.0@, p.1));
        if iguales(t[i].rule_key, rule_key) {
            let fila = &t[i];
            let mut k: usize = 0;
            while k < fila.event_ids.len()
                invariant
                    k <= fila.event_ids.len(),
                    fila@ == tabla()[i as int],
                    fila.rule_key@ == rule_key@,
                    r@.map_values(|p: (&'static str, i64)| (p.0@, p.1)) == antes + fila.event_ids@.take(k as int).map_values(|id: i64| (fila.provider@, id)),
                decreases fila.event_ids.len() - k,
            {
                let ghost previo = r@;
                let id = fila.event_ids[k];
                r.push((fila.provider, id));
                assert(r@ =~= previo.push((fila.provider, id)));
                assert(r@.map_values(|p: (&'static str, i64)| (p.0@, p.1)) =~= previo.map_values(|p: (&'static str, i64)| (p.0@, p.1)).push((fila.provider@, id)));
                assert(fila.event_ids@.take(k + 1).map_values(|id: i64| (fila.provider@, id)) =~= fila.event_ids@.take(k as int).map_values(|id: i64| (fila.provider@, id)).push((fila.provider@, id)));
                k += 1;
                assert(r@.map_values(|p: (&'static str, i64)| (p.0@, p.1)) =~= antes + fila.event_ids@.take(k as int).map_values(|id: i64| (fila.provider@, id)));
            }
            assert(fila.event_ids@.take(fila.event_ids.len() as int) =~= fila.event_ids@);
        } else {
            assert(pares_de_fila(tabla()[i as int], rule_key@) =~= seq![]);
            assert(r@.map_values(|p: (&'static str, i64)| (p.0@, p.1)) =~= antes + pares_de_fila(tabla()[i as int], rule_key@));
        }
        i += 1;
    }
    assert(tabla().take(t.len() as int) =~= tabla());
    r
}

// ---------------------------------------------------------------------------------------------
// Pares de una regla y clasificación
// ---------------------------------------------------------------------------------------------

/// La regla de la tabla que vigila el id de evento `x`: ningún id aparece en dos filas de reglas
/// distintas.
spec fn regla_de_id(x: i64) -> Seq<char> {
    if x == 7 || x == 500 || x == 202 || x == 203 || x == 209 {
        "events.disk_error"@
    } else if x == 55 || x == 131 {
        "events.filesystem_error"@
    } else if x == 130 {
        "events.filesystem_repaired"@
    } else if x == 132 {
        "events.filesystem_repair_storm"@
    } else if x == 50 || x == 140 {
        "events.delayed_write"@
    } else if x == 11 || x == 129 {
        "events.controller_reset"@
    } else if x == 51 {
        "events.paging_error"@
    } else if x == 153 {
        "events.io_retry"@
    } else if x == 52 {
        "events.disk_predictive"@
    } else if 300 <= x <= 311 {
        "events.storage_space_degraded"@
    } else if x == 157 {
        "device.removed_unexpected"@
    } else {
        "inventory.duplicate_id"@
    }
}

/// Toda fila que vigila el id `x` es de la regla `regla_de_id(x)`.
proof fn lema_regla_de_id(j: int, x: i64)
    requires
        0 <= j < tabla().len(),
        tabla()[j].event_ids.contains(x),
    ensures
        tabla()[j].rule_key == regla_de_id(x),
{
    let ids = tabla()[j].event_ids;
    let k = choose|k: int| 0 <= k < ids.len() && ids[k] == x;
    assert(ids[k] == x);
}

/// Cada par de `pares_en(t, rule_key)` sale de una fila de `t` de esa regla, con ese proveedor
/// y que vigila ese id.
proof fn lema_origen_de_par(t: Seq<FilaTabla>, rule_key: Seq<char>, k: int)
    requires
        0 <= k < pares_en(t, rule_key).len(),
    ensures
        exists|j: int|
            0 <= j < t.len() && #[trigger] t[j].rule_key == rule_key && t[j].provider
                == pares_en(t, rule_key)[k].0 && t[j].event_ids.contains(pares_en(t, rule_key)[k].1),
    decreases t.len(),
{
    let previos = pares_en(t.drop_last(), rule_key);
    if k < previos.len() {
        lema_origen_de_par(t.drop_last(), rule_key, k);
        let j = choose|j: int|
            0 <= j < t.drop_last().len() && #[trigger] t.drop_last()[j].rule_key == rule_key
                && t.drop_last()[j].provider == previos[k].0 && t.drop_last()[j].event_ids.contains(
                previos[k].1,
            );
        assert(t[j] == t.drop_last()[j]);
        assert(t[j].rule_key == rule_key);
    } else {
        let f = t.last();
        let i = k - previos.len();
        assert(f.rule_key == rule_key);
        assert(f.event_ids[i] == pares_en(t, rule_key)[k].1);
        assert(t[t.len() - 1].rule_key == rule_key);
    }
}

/// Si alguna fila de `t` desde `i` hasta `j` vigila `(provider, event_id)`, la búsqueda desde
/// `i` da una fila de `t` en ese tramo que lo vigila.
proof fn lema_hay_coincidencia(t: Seq<FilaTabla>, provider: Seq<char>, event_id: i64, i: int, j: int)
    requires
        0 <= i <= j < t.len(),
        coincide(t[j], provider, event_id),
    ensures
        primera_coincidencia(t, provider, event_id, i) matches Some(f) && coincide(f, provider, event_id)
            && exists|m: int| i <= m <= j && #[trigger] t[m] == f,
    decreases j - i,
{
    if !coincide(t[i], provider, event_id) {
        lema_hay_coincidencia(t, provider, event_id, i + 1, j);
    } else {
        assert(t[i] == t[i]);
    }
}

/// Cada par `(proveedor, id)` que `pares_de` da para una regla se clasifica, con `clasificar`,
/// en esa misma regla.
pub proof fn pares_de_se_clasifican_en_su_regla(rule_key: Seq<char>, k: int)
    requires
        0 <= k < pares_en(tabla(), rule_key).len(),
    ensures
        clasificacion(pares_en(tabla(), rule_key)[k].0, pares_en(tabla(), rule_key)[k].1) matches Some(
            f,
        ) && f.rule_key == rule_key,
{
    let par = pares_en(tabla(), rule_key)[k];
    lema_origen_de_par(tabla(), rule_key, k);
    let j = choose|j: int|
        0 <= j < tabla().len() && #[trigger] tabla()[j].rule_key == rule_key && tabla()[j].provider
            == par.0 && tabla()[j].event_ids.contains(par.1);
    assert(coincide(tabla()[j], par.0, par.1));
    lema_hay_coincidencia(tabla(), par.0, par.1, 0, j);
    let f = primera_coincidencia(tabla(), par.0, par.1, 0)->0;
    let m = choose|m: int| 0 <= m <= j && #[trigger] tabla()[m] == f;
    lema_regla_de_id(j, par.1);
    lema_regla_de_id(m, par.1);
}

} // verus!
