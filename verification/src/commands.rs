//! Lo que la interfaz recibe y las decisiones de sus comandos que no dependen de la base de
//! datos: tipos de la respuesta, claves de ajustes por ámbito, niveles de evento, cursores de
//! paginación, estado de las fuentes de datos y la huella de deduplicación de un evento.
use vstd::prelude::*;
use vstd::utf8::encode_utf8;
use sha2::Digest;
use crate::texto::{
    anexar, buscar, buscar_char, cadena_de, caracteres, comprobar_prefijo, comprobar_sufijo,
    decimal, decimal_con_signo, decimal_i64, empieza_por, iguales, iguales_seq, lectura_i64,
    lectura_u32,
    lema_lectura_de_decimal, leer_i64, primera_aparicion, primera_pos_char, recortado, termina_en,
    tramo,
};
use crate::tipos::{
    AlertSeverity, AlertStatus, AppError, EventLevel, MappingConfidence, MetricSource,
    VistaAppError,
};
use crate::ciclo::{instante_rfc3339, leer_rfc3339};
use crate::reglas_eventos::{DIA_NS, HORA_NS};
use crate::windows_storage::{ruta_smartctl, vista_opcional};

verus! {

// ---------------------------------------------------------------------------------------------
// Tipos de la respuesta
// ---------------------------------------------------------------------------------------------

pub struct AppearanceSettings {
    pub theme: String,
    pub language: Option<String>,
    /// Configuración regional del sistema (BCP-47).
    pub system_locale: String,
    pub use_system_accent: bool,
}

pub struct VolumeSummary {
    pub id: String,
    pub label: String,
    pub drive_letters: Vec<String>,
    pub capacity_bytes: Option<i64>,
    pub free_bytes: Option<i64>,
    /// `chkdsk /scan` solo existe en NTFS.
    pub chkdsk_available: bool,
    pub mapping_confidence: MappingConfidence,
}

pub struct Provenance {
    pub source: MetricSource,
    pub quality: String,
    pub read_at: Option<String>,
}

#[derive(Debug, Clone, Copy, PartialEq, Eq, Structural)]
pub enum DeviceCapabilityKey {
    Smart,
    NvmeLog,
    SelfTestShort,
    ChkdskScan,
    Temperature,
}

pub struct DeviceCapability {
    pub key: DeviceCapabilityKey,
    pub available: bool,
    pub reason_key: Option<String>,
}

#[derive(Debug, Clone, Copy, PartialEq, Eq, Structural)]
pub enum SourceStatus {
    /// Sin fallos en el último ciclo (se muestra como `ok`).
    Nominal,
    Partial,
    Unsupported,
    Timeout,
    Error,
}

/// El estado de una fuente de datos tras su último ciclo.
#[derive(Debug)]
pub struct SourceHealth {
    pub source: MetricSource,
    pub status: SourceStatus,
    pub last_success_at: Option<String>,
    pub last_attempt_at: Option<String>,
    pub error: Option<AppError>,
}

pub struct AppInfo {
    pub name: String,
    pub version: String,
    pub author: String,
}

pub struct AlertGroupWire {
    pub id: String,
    pub rule_key: String,
    pub deduplication_key: String,
    pub severity: AlertSeverity,
    pub status: AlertStatus,
    pub count: i64,
    pub first_occurred_at: String,
    pub last_occurred_at: String,
    pub target: String,
    pub muted_until: Option<String>,
    pub cycle: Option<i64>,
}

pub struct AlertFact {
    pub label_key: String,
    pub value: Option<String>,
}

pub struct ScheduleSettingsWire {
    pub metrics_fast_seconds: i64,
    pub smart_full_seconds: i64,
    pub events_seconds: i64,
    pub discovery_seconds: i64,
}

pub struct RetentionSettingsWire {
    pub raw_days: i64,
    pub five_minutes_days: i64,
    pub hourly_days: i64,
    pub free_space_warn_bytes: i64,
    pub free_space_halt_bytes: i64,
}

pub struct LifecycleSettingsWire {
    pub close_action: String,
    pub close_action_remembered: bool,
}

pub struct NotificationSettingsWire {
    pub sound_enabled: bool,
}

pub struct LoggingSettingsWire {
    pub verbose: bool,
}

pub struct SystemEventWire {
    pub id: String,
    pub occurred_at: String,
    pub provider: String,
    pub event_id: i64,
    pub level: String,
    pub message: String,
    pub device_id: Option<String>,
    pub volume_id: Option<String>,
    pub mapping_confidence: MappingConfidence,
    pub has_raw_xml: bool,
}

pub struct SystemEventPageWire {
    pub events: Vec<SystemEventWire>,
    pub next_cursor: Option<String>,
    pub total: Option<i64>,
}

pub struct DiagnosticPreviewEntryWire {
    pub path: String,
    pub size_bytes: i64,
    pub description_key: String,
}

pub struct DiagnosticPreviewWire {
    pub entries: Vec<DiagnosticPreviewEntryWire>,
    pub total_bytes: i64,
    pub redacted_fields: Vec<String>,
}

/// Un evento del sistema ya persistido.
pub struct SystemEvent {
    pub id: i64,
    pub channel: String,
    pub record_id: i64,
    pub occurred_at_utc: String,
    pub provider: String,
    pub event_id: i64,
    pub level: EventLevel,
    pub message: Option<String>,
    pub raw_xml: Option<String>,
    pub device_id: Option<String>,
    pub volume_id: Option<String>,
    pub mapping_confidence: MappingConfidence,
    pub dedup_hash: String,
}

// ---------------------------------------------------------------------------------------------
// Claves de ajustes por ámbito
// ---------------------------------------------------------------------------------------------

pub open spec fn claves_schedule() -> Seq<Seq<char>> {
    seq![
        "schedule.metrics_fast_seconds"@,
        "schedule.smart_full_seconds"@,
        "schedule.events_seconds"@,
        "schedule.discovery_seconds"@,
    ]
}

pub open spec fn claves_alerts() -> Seq<Seq<char>> {
    seq![
        "alerts.temp_configured_warn_c"@,
        "alerts.temp_configured_crit_c"@,
        "alerts.capacity_warn_percent"@,
        "alerts.capacity_crit_percent"@,
        "alerts.capacity_absolute_floor_min_capacity_bytes"@,
        "alerts.capacity_absolute_floor_warn_bytes"@,
        "alerts.capacity_absolute_floor_crit_bytes"@,
    ]
}

pub open spec fn claves_retention() -> Seq<Seq<char>> {
    seq![
        "retention.raw_days"@,
        "retention.five_minutes_days"@,
        "retention.hourly_days"@,
        "storage.free_space_warn_bytes"@,
        "storage.free_space_halt_bytes"@,
    ]
}

pub open spec fn claves_resto() -> Seq<Seq<char>> {
    seq![
        "lifecycle.close_action"@,
        "lifecycle.close_action_remembered"@,
        "notifications.sound_enabled"@,
        "logging.verbose"@,
    ]
}

/// Las claves que restaurar en un ámbito: las de `schedule`, `alerts` o `retention`; cualquier
/// otro ámbito (también `all`, o uno desconocido) restaura todas, más ciclo de vida,
/// notificaciones y registro.
pub open spec fn claves_de_ambito(scope: Seq<char>) -> Seq<Seq<char>> {
    if scope == "schedule"@ {
        claves_schedule()
    } else if scope == "alerts"@ {
        claves_alerts()
    } else if scope == "retention"@ {
        claves_retention()
    } else {
        claves_schedule() + claves_alerts() + claves_retention() + claves_resto()
    }
}

/// Las vistas de una secuencia de textos estáticos.
pub open spec fn vistas_str(v: Seq<&'static str>) -> Seq<Seq<char>> {
    v.map_values(|s: &'static str| s@)
}

fn anadir_claves(destino: &mut Vec<&'static str>, origen: &[&'static str])
    ensures
        vistas_str(final(destino)@) == vistas_str(old(destino)@) + vistas_str(origen@),
{
    let ghost inicial = destino@;
    let mut i: usize = 0;
    while i < origen.len()
        invariant
            i <= origen.len(),
            destino@ == inicial + origen@.take(i as int),
        decreases origen.len() - i,
    {
        destino.push(origen[i]);
        i += 1;
        assert(destino@ =~= inicial + origen@.take(i as int));
    }
    assert(origen@.take(origen@.len() as int) =~= origen@);
    assert(vistas_str(destino@) =~= vistas_str(inicial) + vistas_str(origen@));
}

/// Las claves que `reset_settings` borra para el ámbito dado.
pub fn claves_por_ambito(scope: &str) -> (r: Vec<&'static str>)
    ensures
        vistas_str(r@) == claves_de_ambito(scope@),
{
    let schedule = vec![
        "schedule.metrics_fast_seconds",
        "schedule.smart_full_seconds",
        "schedule.events_seconds",
        "schedule.discovery_seconds",
    ];
    let alerts = vec![
        "alerts.temp_configured_warn_c",
        "alerts.temp_configured_crit_c",
        "alerts.capacity_warn_percent",
        "alerts.capacity_crit_percent",
        "alerts.capacity_absolute_floor_min_capacity_bytes",
        "alerts.capacity_absolute_floor_warn_bytes",
        "alerts.capacity_absolute_floor_crit_bytes",
    ];
    let retention = vec![
        "retention.raw_days",
        "retention.five_minutes_days",
        "retention.hourly_days",
        "storage.free_space_warn_bytes",
        "storage.free_space_halt_bytes",
    ];
    let resto = vec![
        "lifecycle.close_action",
        "lifecycle.close_action_remembered",
        "notifications.sound_enabled",
        "logging.verbose",
    ];
    assert(vistas_str(schedule@) =~= claves_schedule());
    assert(vistas_str(alerts@) =~= claves_alerts());
    assert(vistas_str(retention@) =~= claves_retention());
    assert(vistas_str(resto@) =~= claves_resto());
    if iguales(scope, "schedule") {
        schedule
    } else if iguales(scope, "alerts") {
        alerts
    } else if iguales(scope, "retention") {
        retention
    } else {
        let mut todas: Vec<&'static str> = Vec::new();
        assert(vistas_str(todas@) =~= seq![]);
        anadir_claves(&mut todas, schedule.as_slice());
        anadir_claves(&mut todas, alerts.as_slice());
        anadir_claves(&mut todas, retention.as_slice());
        anadir_claves(&mut todas, resto.as_slice());
        assert(vistas_str(todas@) =~= claves_schedule() + claves_alerts() + claves_retention()
            + claves_resto());
        todas
    }
}

// ---------------------------------------------------------------------------------------------
// Número de disco de la ruta de `smartctl`
// ---------------------------------------------------------------------------------------------

/// El número tras el prefijo `/dev/pd` de una ruta, leído como `i64`.
pub open spec fn numero_de_disco(path: Seq<char>) -> Option<i64> {
    if empieza_por(path, "/dev/pd"@) {
        lectura_i64(path.subrange("/dev/pd"@.len() as int, path.len() as int))
    } else {
        None
    }
}

/// El número de disco de una ruta `/dev/pdN` de `smartctl`: la misma numeración que usa
/// `Get-Partition` para decir a qué disco pertenece un volumen.
pub fn disk_number_from_smartctl_path(path: &str) -> (r: Option<i64>)
    ensures
        r == numero_de_disco(path@),
{
    let c = caracteres(path);
    let prefijo = caracteres("/dev/pd");
    if !comprobar_prefijo(c.as_slice(), prefijo.as_slice()) {
        return None;
    }
    let resto = tramo(c.as_slice(), prefijo.len(), c.len());
    leer_i64(resto.as_slice())
}

/// La ruta de `smartctl` que se construye a partir del `DeviceId` de un disco devuelve, al
/// leerla, el mismo índice: es así como se enlazan discos y volúmenes.
pub proof fn la_ruta_de_smartctl_lleva_el_indice_del_disco(device_id: Seq<char>)
    ensures
        match lectura_u32(recortado(device_id)) {
            Some(n) => ruta_smartctl(Some(device_id)) matches Some(p) && numero_de_disco(p) == Some(
                n as i64,
            ),
            None => ruta_smartctl(Some(device_id)) is None,
        },
{
    reveal_strlit("/dev/pd");
    match lectura_u32(recortado(device_id)) {
        Some(n) => {
            lema_lectura_de_decimal(n as nat);
            let p = "/dev/pd"@ + decimal(n as nat);
            assert(p.subrange(0, 7) =~= "/dev/pd"@);
            assert(p.subrange(7, p.len() as int) =~= decimal(n as nat));
        },
        None => {},
    }
}

// ---------------------------------------------------------------------------------------------
// Series de métricas: cadencia y unidad
// ---------------------------------------------------------------------------------------------

/// Las métricas que se leen cada 30 s.
pub open spec fn metricas_rapidas() -> Seq<Seq<char>> {
    seq![
        "temperature_celsius"@,
        "activity_percent"@,
        "read_bytes_per_second"@,
        "write_bytes_per_second"@,
        "read_latency_ms"@,
        "write_latency_ms"@,
        "volume_free_bytes"@,
        "volume_free_percent"@,
    ]
}

/// Cadencia esperada de una métrica, en ms: 30 s para las rápidas, 5 min para el resto.
pub open spec fn cadencia(metric_key: Seq<char>) -> i64 {
    if metricas_rapidas().contains(metric_key) {
        30_000
    } else {
        300_000
    }
}

fn esta_en(lista: &[&'static str], clave: &str) -> (r: bool)
    ensures
        r == vistas_str(lista@).contains(clave@),
{
    let mut i: usize = 0;
    while i < lista.len()
        invariant
            i <= lista.len(),
            forall|k: int| 0 <= k < i ==> lista@[k]@ != clave@,
        decreases lista.len() - i,
    {
        if iguales(lista[i], clave) {
            assert(vistas_str(lista@)[i as int] == clave@);
            return true;
        }
        i += 1;
    }
    proof {
        if vistas_str(lista@).contains(clave@) {
            let k = choose|k: int| 0 <= k < vistas_str(lista@).len() && vistas_str(lista@)[k] == clave@;
            assert(lista@[k]@ == clave@);
        }
    }
    false
}

/// Cadencia esperada de la métrica, en milisegundos.
pub fn cadencia_esperada_ms(metric_key: &str) -> (r: i64)
    ensures
        r == cadencia(metric_key@),
{
    let rapidas = vec![
        "temperature_celsius",
        "activity_percent",
        "read_bytes_per_second",
        "write_bytes_per_second",
        "read_latency_ms",
        "write_latency_ms",
        "volume_free_bytes",
        "volume_free_percent",
    ];
    assert(vistas_str(rapidas@) =~= metricas_rapidas());
    if esta_en(rapidas.as_slice(), metric_key) {
        30_000
    } else {
        300_000
    }
}

/// La unidad de una métrica.
pub open spec fn unidad(metric_key: Seq<char>) -> Seq<char> {
    if metric_key == "temperature_celsius"@ {
        "celsius"@
    } else if metric_key == "activity_percent"@ || metric_key == "percentage_used"@ || metric_key
        == "volume_free_percent"@ {
        "percent"@
    } else if metric_key == "read_bytes_per_second"@ || metric_key == "write_bytes_per_second"@ {
        "bytes_per_second"@
    } else if metric_key == "read_latency_ms"@ || metric_key == "write_latency_ms"@ {
        "milliseconds"@
    } else if metric_key == "power_on_hours"@ {
        "hours"@
    } else if termina_en(metric_key, "_bytes_total"@) || metric_key == "volume_free_bytes"@ {
        "bytes"@
    } else {
        "count"@
    }
}

/// La unidad de la métrica, también para una serie sin ninguna muestra.
pub fn unidad_para(metric_key: &str) -> (r: &'static str)
    ensures
        r@ == unidad(metric_key@),
{
    if iguales(metric_key, "temperature_celsius") {
        "celsius"
    } else if iguales(metric_key, "activity_percent") || iguales(metric_key, "percentage_used")
        || iguales(metric_key, "volume_free_percent") {
        "percent"
    } else if iguales(metric_key, "read_bytes_per_second") || iguales(
        metric_key,
        "write_bytes_per_second",
    ) {
        "bytes_per_second"
    } else if iguales(metric_key, "read_latency_ms") || iguales(metric_key, "write_latency_ms") {
        "milliseconds"
    } else if iguales(metric_key, "power_on_hours") {
        "hours"
    } else {
        let c = caracteres(metric_key);
        let sufijo = caracteres("_bytes_total");
        if comprobar_sufijo(c.as_slice(), sufijo.as_slice()) || iguales(
            metric_key,
            "volume_free_bytes",
        ) {
            "bytes"
        } else {
            "count"
        }
    }
}

// ---------------------------------------------------------------------------------------------
// Niveles de evento en la interfaz
// ---------------------------------------------------------------------------------------------

/// El nivel en la interfaz, que solo tiene tres: el crítico se pliega en `error`.
pub open spec fn nivel_wire(v: EventLevel) -> Seq<char> {
    match v {
        EventLevel::Critical => "error"@,
        EventLevel::Error => "error"@,
        EventLevel::Warning => "warning"@,
        EventLevel::Information => "info"@,
    }
}

/// El nivel que significa un texto de la interfaz: `error`, `warning`, y cualquier otro,
/// informativo.
pub open spec fn nivel_de_wire(s: Seq<char>) -> EventLevel {
    if s == "error"@ {
        EventLevel::Error
    } else if s == "warning"@ {
        EventLevel::Warning
    } else {
        EventLevel::Information
    }
}

pub fn nivel_a_wire(v: EventLevel) -> (r: &'static str)
    ensures
        r@ == nivel_wire(v),
{
    match v {
        EventLevel::Critical => "error",
        EventLevel::Error => "error",
        EventLevel::Warning => "warning",
        EventLevel::Information => "info",
    }
}

pub fn nivel_desde_wire(s: &str) -> (r: EventLevel)
    ensures
        r == nivel_de_wire(s@),
{
    if iguales(s, "error") {
        EventLevel::Error
    } else if iguales(s, "warning") {
        EventLevel::Warning
    } else {
        EventLevel::Information
    }
}

/// Ida y vuelta por la interfaz: cada nivel vuelve igual salvo el crítico, que vuelve como error.
pub proof fn ida_y_vuelta_del_nivel(v: EventLevel)
    ensures
        nivel_de_wire(nivel_wire(v)) == (match v {
            EventLevel::Critical => EventLevel::Error,
            otro => otro,
        }),
{
    reveal_strlit("error");
    reveal_strlit("warning");
    reveal_strlit("info");
    assert("info"@.len() != "error"@.len());
    assert("info"@.len() != "warning"@.len());
    assert("warning"@.len() != "error"@.len());
}

// ---------------------------------------------------------------------------------------------
// Eventos del sistema hacia la interfaz
// ---------------------------------------------------------------------------------------------

pub(crate) fn copia_opcional(o: &Option<String>) -> (r: Option<String>)
    ensures
        vista_opcional(r) == vista_opcional(*o),
{
    match o {
        Some(s) => Some(s.clone()),
        None => None,
    }
}

/// El evento tal como lo ve la interfaz.
pub fn evento_a_wire(e: &SystemEvent) -> (r: SystemEventWire)
    ensures
        r.id@ == decimal_con_signo(e.id as int),
        r.occurred_at@ == e.occurred_at_utc@,
        r.provider@ == e.provider@,
        r.event_id == e.event_id,
        r.level@ == nivel_wire(e.level),
        r.message@ == (match e.message {
            Some(m) => m@,
            None => seq![],
        }),
        vista_opcional(r.device_id) == vista_opcional(e.device_id),
        vista_opcional(r.volume_id) == vista_opcional(e.volume_id),
        r.mapping_confidence == e.mapping_confidence,
        r.has_raw_xml == e.raw_xml is Some,
{
    let id = decimal_i64(e.id);
    SystemEventWire {
        id: cadena_de(id.as_slice()),
        occurred_at: e.occurred_at_utc.clone(),
        provider: e.provider.clone(),
        event_id: e.event_id,
        level: nivel_a_wire(e.level).to_owned(),
        message: match &e.message {
            Some(m) => m.clone(),
            None => String::new(),
        },
        device_id: copia_opcional(&e.device_id),
        volume_id: copia_opcional(&e.volume_id),
        mapping_confidence: e.mapping_confidence,
        has_raw_xml: e.raw_xml.is_some(),
    }
}

/// Un cursor `tiempo|id`: lo anterior al primer `|` y el número que sigue.
pub open spec fn cursor_leido(cursor: Seq<char>) -> Option<(Seq<char>, i64)> {
    match primera_pos_char(cursor, '|', 0) {
        None => None,
        Some(p) => match lectura_i64(cursor.subrange(p + 1, cursor.len() as int)) {
            Some(id) => Some((cursor.subrange(0, p), id)),
            None => None,
        },
    }
}

/// Separa un cursor de paginación `occurred_at_utc|id` en sus dos partes.
pub fn parsear_cursor(cursor: &str) -> (r: Option<(String, i64)>)
    ensures
        match r {
            Some((t, id)) => cursor_leido(cursor@) == Some((t@, id)),
            None => cursor_leido(cursor@) is None,
        },
{
    let c = caracteres(cursor);
    let largo = c.len();
    let p = match buscar_char(c.as_slice(), '|', 0) {
        Some(p) => p,
        None => return None,
    };
    assert(p < largo);
    let resto = tramo(c.as_slice(), p + 1, largo);
    match leer_i64(resto.as_slice()) {
        Some(id) => {
            let t = tramo(c.as_slice(), 0, p);
            Some((cadena_de(t.as_slice()), id))
        },
        None => None,
    }
}

// ---------------------------------------------------------------------------------------------
// Paquete de diagnóstico y borrado de datos
// ---------------------------------------------------------------------------------------------

/// El nombre del índice del paquete de diagnóstico, sin extensión.
pub open spec fn nombre_del_indice() -> Seq<char> {
    seq!['m', 'a', 'n', 'i', 'f', 'e', 's', 't']
}

/// La clave de i18n que describe una entrada del paquete de diagnóstico por su ruta: el índice
/// (`<nombre del índice>.json`), los ajustes, los eventos, y las carpetas `smart/` y `logs/`.
pub open spec fn clave_de_entrada(ruta: Seq<char>) -> Seq<char> {
    if ruta == nombre_del_indice() + ".json"@ {
        "diagnostic.entry."@ + nombre_del_indice()
    } else if ruta == "settings.json"@ {
        "diagnostic.entry.settings"@
    } else if ruta == "events.json"@ {
        "diagnostic.entry.events"@
    } else if empieza_por(ruta, "smart/"@) {
        "diagnostic.entry.smart"@
    } else if empieza_por(ruta, "logs/"@) {
        "diagnostic.entry.logs"@
    } else {
        "diagnostic.entry.other"@
    }
}

pub fn clave_descripcion_entrada(ruta: &str) -> (r: String)
    ensures
        r@ == clave_de_entrada(ruta@),
{
    let c = caracteres(ruta);
    let smart = caracteres("smart/");
    let logs = caracteres("logs/");
    let indice = vec!['m', 'a', 'n', 'i', 'f', 'e', 's', 't'];
    let mut ruta_indice = indice.clone();
    let json = caracteres(".json");
    anexar(&mut ruta_indice, json.as_slice());
    if iguales_seq(c.as_slice(), ruta_indice.as_slice()) {
        let mut clave = caracteres("diagnostic.entry.");
        anexar(&mut clave, indice.as_slice());
        cadena_de(clave.as_slice())
    } else if iguales(ruta, "settings.json") {
        "diagnostic.entry.settings".to_owned()
    } else if iguales(ruta, "events.json") {
        "diagnostic.entry.events".to_owned()
    } else if comprobar_prefijo(c.as_slice(), smart.as_slice()) {
        "diagnostic.entry.smart".to_owned()
    } else if comprobar_prefijo(c.as_slice(), logs.as_slice()) {
        "diagnostic.entry.logs".to_owned()
    } else {
        "diagnostic.entry.other".to_owned()
    }
}

/// La frase que hay que escribir para borrar todos los datos: el nombre de la aplicación.
pub const FRASE_CONFIRMACION_BORRAR_TODO: &'static str = "SmartDisk Monitor";

/// Acepta la frase de confirmación solo si es exactamente la esperada (se distinguen
/// mayúsculas); si no, el error de esquema con la clave de frase incorrecta.
pub fn comprobar_frase_confirmacion(frase: &str) -> (r: Result<(), AppError>)
    ensures
        r is Ok <==> frase@ == FRASE_CONFIRMACION_BORRAR_TODO@,
        r matches Err(e) ==> e@ == (VistaAppError {
            code: "ipc.schema_mismatch"@,
            message_key: "error.confirmationPhraseMismatch"@,
            detail: Some("la frase escrita no coincide"@),
            retryable: false,
        }),
{
    if iguales(frase, FRASE_CONFIRMACION_BORRAR_TODO) {
        Ok(())
    } else {
        Err(
            AppError::new("ipc.schema_mismatch", "error.confirmationPhraseMismatch").with_detail(
                "la frase escrita no coincide".to_owned(),
            ),
        )
    }
}

// ---------------------------------------------------------------------------------------------
// Errores de la base de datos
// ---------------------------------------------------------------------------------------------

/// Un mensaje de error de la base de datos indica bloqueo si menciona `database is locked` o
/// `busy`.
pub open spec fn indica_bloqueo(mensaje: Seq<char>) -> bool {
    primera_aparicion(mensaje, "database is locked"@) is Some || primera_aparicion(
        mensaje,
        "busy"@,
    ) is Some
}

/// El error de la interfaz para un fallo de la base de datos con ese mensaje: bloqueo
/// (reintentable) o consulta fallida, con el mensaje como detalle.
pub fn error_de_base_de_datos(mensaje: &str) -> (r: AppError)
    ensures
        r@ == (if indica_bloqueo(mensaje@) {
            VistaAppError {
                code: "db.locked"@,
                message_key: "error.dbLocked"@,
                detail: Some(mensaje@),
                retryable: true,
            }
        } else {
            VistaAppError {
                code: "db.query_failed"@,
                message_key: "error.dbQueryFailed"@,
                detail: Some(mensaje@),
                retryable: false,
            }
        }),
{
    let c = caracteres(mensaje);
    let bloqueo = caracteres("database is locked");
    let ocupada = caracteres("busy");
    let bloqueado = buscar(c.as_slice(), bloqueo.as_slice()).is_some() || buscar(
        c.as_slice(),
        ocupada.as_slice(),
    ).is_some();
    if bloqueado {
        AppError::new("db.locked", "error.dbLocked").with_detail(mensaje.to_owned()).retryable()
    } else {
        AppError::new("db.query_failed", "error.dbQueryFailed").with_detail(mensaje.to_owned())
    }
}

// ---------------------------------------------------------------------------------------------
// Ámbito de una actualización manual
// ---------------------------------------------------------------------------------------------

/// Lo que hay que actualizar.
pub enum AmbitoRefresco {
    /// Inventario, eventos, SMART y rendimiento de todos los discos.
    Todo,
    /// SMART y rendimiento de un disco.
    Dispositivo(String),
}

/// Por qué no se acepta un ámbito.
#[derive(Debug, Clone, Copy, PartialEq, Eq, Structural)]
pub enum ErrorAmbito {
    /// Ámbito `device` sin disco: se responde como disco inexistente.
    DispositivoNoIndicado,
    /// Un ámbito fuera del contrato (`all` o `device`): se declara no implementado.
    NoImplementado,
}

/// El ámbito de una actualización manual: solo `all` y `device` (con su disco) son del contrato.
pub fn ambito_de_refresco(scope: &str, device_id: Option<String>) -> (r: Result<
    AmbitoRefresco,
    ErrorAmbito,
>)
    ensures
        scope@ == "all"@ ==> r matches Ok(AmbitoRefresco::Todo),
        scope@ == "device"@ ==> match device_id {
            Some(id) => r matches Ok(AmbitoRefresco::Dispositivo(d)) && d@ == id@,
            None => r == Err::<AmbitoRefresco, ErrorAmbito>(ErrorAmbito::DispositivoNoIndicado),
        },
        scope@ != "all"@ && scope@ != "device"@ ==> r == Err::<AmbitoRefresco, ErrorAmbito>(
            ErrorAmbito::NoImplementado,
        ),
{
    proof {
        reveal_strlit("all");
        reveal_strlit("device");
        assert("all"@.len() != "device"@.len());
    }
    if iguales(scope, "all") {
        Ok(AmbitoRefresco::Todo)
    } else if iguales(scope, "device") {
        match device_id {
            Some(id) => Ok(AmbitoRefresco::Dispositivo(id)),
            None => Err(ErrorAmbito::DispositivoNoIndicado),
        }
    } else {
        Err(ErrorAmbito::NoImplementado)
    }
}

/// El error de la interfaz para un disco que falta o no existe.
pub fn error_dispositivo_no_encontrado() -> (r: AppError)
    ensures
        r@ == (VistaAppError {
            code: "device.not_found"@,
            message_key: "error.deviceNotFound"@,
            detail: None,
            retryable: false,
        }),
{
    AppError::new("device.not_found", "error.deviceNotFound")
}

// ---------------------------------------------------------------------------------------------
// Estado de las fuentes de datos
// ---------------------------------------------------------------------------------------------

/// Un `SourceHealth` con sus textos como secuencias.
pub struct VistaSalud {
    pub source: MetricSource,
    pub status: SourceStatus,
    pub last_success_at: Option<Seq<char>>,
    pub last_attempt_at: Option<Seq<char>>,
    pub error: Option<VistaAppError>,
}

pub open spec fn vista_error(e: Option<AppError>) -> Option<VistaAppError> {
    match e {
        Some(x) => Some(x@),
        None => None,
    }
}

impl View for SourceHealth {
    type V = VistaSalud;

    open spec fn view(&self) -> VistaSalud {
        VistaSalud {
            source: self.source,
            status: self.status,
            last_success_at: vista_opcional(self.last_success_at),
            last_attempt_at: vista_opcional(self.last_attempt_at),
            error: vista_error(self.error),
        }
    }
}

impl SourceHealth {
    /// Una copia con los mismos campos.
    pub fn copia(&self) -> (r: SourceHealth)
        ensures
            r@ == self@,
    {
        SourceHealth {
            source: self.source,
            status: self.status,
            last_success_at: copia_opcional(&self.last_success_at),
            last_attempt_at: copia_opcional(&self.last_attempt_at),
            error: match &self.error {
                Some(e) => Some(e.copia()),
                None => None,
            },
        }
    }
}

/// El último estado conocido de cada fuente de datos (una entrada por fuente, como mucho).
pub struct EstadoFuentes {
    smartctl: Option<SourceHealth>,
    windows_storage: Option<SourceHealth>,
    performance_counter: Option<SourceHealth>,
}

pub open spec fn vista_salud(h: Option<SourceHealth>) -> Option<VistaSalud> {
    match h {
        Some(x) => Some(x@),
        None => None,
    }
}

impl EstadoFuentes {
    /// El estado guardado de la fuente `s`, si lo hay.
    pub closed spec fn de(self, s: MetricSource) -> Option<VistaSalud> {
        match s {
            MetricSource::Smartctl => vista_salud(self.smartctl),
            MetricSource::WindowsStorage => vista_salud(self.windows_storage),
            MetricSource::PerformanceCounter => vista_salud(self.performance_counter),
        }
    }

    /// Sin ninguna fuente registrada.
    pub fn new() -> (r: EstadoFuentes)
        ensures
            forall|s: MetricSource| #[trigger] r.de(s) is None,
    {
        EstadoFuentes { smartctl: None, windows_storage: None, performance_counter: None }
    }

    /// Una copia del estado guardado de la fuente `s`.
    pub fn get(&self, s: MetricSource) -> (r: Option<SourceHealth>)
        ensures
            vista_salud(r) == self.de(s),
    {
        let h = match s {
            MetricSource::Smartctl => &self.smartctl,
            MetricSource::WindowsStorage => &self.windows_storage,
            MetricSource::PerformanceCounter => &self.performance_counter,
        };
        match h {
            Some(x) => Some(x.copia()),
            None => None,
        }
    }

    /// Guarda `h` como el estado de su fuente, sin tocar las demás.
    fn poner(&mut self, h: SourceHealth)
        ensures
            final(self).de(h.source) == Some(h@),
            forall|s: MetricSource| s != h.source ==> #[trigger] final(self).de(s) == old(self).de(s),
    {
        match h.source {
            MetricSource::Smartctl => self.smartctl = Some(h),
            MetricSource::WindowsStorage => self.windows_storage = Some(h),
            MetricSource::PerformanceCounter => self.performance_counter = Some(h),
        }
    }

    /// Copias de los estados guardados, en el orden smartctl, inventario, contadores.
    pub fn fuentes(&self) -> (r: Vec<SourceHealth>)
        ensures
            r@.map_values(|h: SourceHealth| h@) == como_seq(self.de(MetricSource::Smartctl))
                + como_seq(self.de(MetricSource::WindowsStorage)) + como_seq(
                self.de(MetricSource::PerformanceCounter),
            ),
    {
        let mut r: Vec<SourceHealth> = Vec::new();
        let a = self.get(MetricSource::Smartctl);
        let b = self.get(MetricSource::WindowsStorage);
        let c = self.get(MetricSource::PerformanceCounter);
        if let Some(x) = a {
            r.push(x);
        }
        let ghost tras_a = r@.map_values(|h: SourceHealth| h@);
        assert(tras_a =~= como_seq(self.de(MetricSource::Smartctl)));
        if let Some(x) = b {
            r.push(x);
        }
        let ghost tras_b = r@.map_values(|h: SourceHealth| h@);
        assert(tras_b =~= tras_a + como_seq(self.de(MetricSource::WindowsStorage)));
        if let Some(x) = c {
            r.push(x);
        }
        assert(r@.map_values(|h: SourceHealth| h@) =~= tras_b + como_seq(
            self.de(MetricSource::PerformanceCounter),
        ));
        r
    }
}

/// Una opción como secuencia de cero o un elementos.
pub open spec fn como_seq(o: Option<VistaSalud>) -> Seq<VistaSalud> {
    match o {
        Some(x) => seq![x],
        None => seq![],
    }
}

/// `timeout` y `error` son estados degradados.
pub open spec fn degradado(s: SourceStatus) -> bool {
    s == SourceStatus::Timeout || s == SourceStatus::Error
}

/// El estado de una fuente tras un ciclo con `intentos` intentos y `fallos` fallos: correcto sin
/// fallos; con fallos, `timeout` si el último error es reintentable y `error` si no. El último
/// éxito es ahora si algún intento salió bien; si no, el anterior. El último intento es ahora.
pub open spec fn salud_tras_ciclo(
    anterior: Option<VistaSalud>,
    source: MetricSource,
    intentos: u32,
    fallos: u32,
    ultimo_error: Option<VistaAppError>,
    ahora: Seq<char>,
) -> VistaSalud {
    VistaSalud {
        source,
        status: if fallos == 0 {
            SourceStatus::Nominal
        } else if ultimo_error matches Some(e) && e.retryable {
            SourceStatus::Timeout
        } else {
            SourceStatus::Error
        },
        last_success_at: if fallos < intentos {
            Some(ahora)
        } else {
            match anterior {
                Some(a) => a.last_success_at,
                None => None,
            }
        },
        last_attempt_at: Some(ahora),
        error: ultimo_error,
    }
}

/// Se avisa de una degradación solo en el flanco de subida: la fuente queda degradada y antes no
/// lo estaba.
pub open spec fn aviso_de_degradacion(anterior: Option<VistaSalud>, nueva: VistaSalud) -> bool {
    degradado(nueva.status) && !(anterior matches Some(a) && degradado(a.status))
}

/// Registra el resultado de un ciclo de una fuente. Sin intentos no cambia nada (no tener
/// dispositivos elegibles no es fallar). Devuelve el nuevo estado solo si la fuente acaba de
/// degradarse.
pub fn actualizar_source_health(
    mapa: &mut EstadoFuentes,
    source: MetricSource,
    intentos: u32,
    fallos: u32,
    ultimo_error: Option<AppError>,
    ahora: &str,
) -> (r: Option<SourceHealth>)
    ensures
        intentos == 0 ==> r is None && forall|s: MetricSource| #[trigger] final(mapa).de(s) == old(
            mapa,
        ).de(s),
        intentos > 0 ==> {
            let nueva = salud_tras_ciclo(
                old(mapa).de(source),
                source,
                intentos,
                fallos,
                vista_error(ultimo_error),
                ahora@,
            );
            &&& final(mapa).de(source) == Some(nueva)
            &&& forall|s: MetricSource| s != source ==> #[trigger] final(mapa).de(s) == old(
                mapa,
            ).de(s)
            &&& (r is Some <==> aviso_de_degradacion(old(mapa).de(source), nueva))
            &&& (r matches Some(h) ==> h@ == nueva)
        },
{
    if intentos == 0 {
        return None;
    }
    let anterior = mapa.get(source);
    let anterior_degradada = match &anterior {
        Some(a) => a.status == SourceStatus::Timeout || a.status == SourceStatus::Error,
        None => false,
    };
    let hubo_exito = fallos < intentos;
    let reintentable = match &ultimo_error {
        Some(e) => e.retryable,
        None => false,
    };
    let status = if fallos == 0 {
        SourceStatus::Nominal
    } else if reintentable {
        SourceStatus::Timeout
    } else {
        SourceStatus::Error
    };
    let nueva_degradada = status == SourceStatus::Timeout || status == SourceStatus::Error;
    let last_success_at = if hubo_exito {
        Some(ahora.to_owned())
    } else {
        match anterior {
            Some(a) => a.last_success_at,
            None => None,
        }
    };
    let nueva = SourceHealth {
        source,
        status,
        last_success_at,
        last_attempt_at: Some(ahora.to_owned()),
        error: ultimo_error,
    };
    let devuelta = nueva.copia();
    mapa.poner(nueva);
    if nueva_degradada && !anterior_degradada {
        Some(devuelta)
    } else {
        None
    }
}

/// Una fuente que sigue fallando ciclo tras ciclo se anuncia como degradada una sola vez: tras
/// un ciclo con fallos, otro ciclo con fallos no vuelve a avisar.
pub proof fn una_degradacion_se_anuncia_una_vez(
    anterior: Option<VistaSalud>,
    source: MetricSource,
    intentos1: u32,
    fallos1: u32,
    error1: Option<VistaAppError>,
    ahora1: Seq<char>,
    intentos2: u32,
    fallos2: u32,
    error2: Option<VistaAppError>,
    ahora2: Seq<char>,
)
    requires
        fallos1 > 0,
        fallos2 > 0,
    ensures
        ({
            let primera = salud_tras_ciclo(anterior, source, intentos1, fallos1, error1, ahora1);
            let segunda = salud_tras_ciclo(
                Some(primera),
                source,
                intentos2,
                fallos2,
                error2,
                ahora2,
            );
            !aviso_de_degradacion(Some(primera), segunda)
        }),
{
}

/// Una degradación se anuncia exactamente en el flanco de subida: si la fuente queda en
/// `timeout` o `error` y antes estaba correcta (o no se sabía nada de ella), se anuncia; si ya
/// estaba en `timeout` o `error`, no se repite; y si queda correcta, no se anuncia nada.
pub proof fn la_degradacion_se_anuncia_al_entrar_en_ella(anterior: Option<VistaSalud>, nueva: VistaSalud)
    ensures
        (nueva.status == SourceStatus::Timeout || nueva.status == SourceStatus::Error) && (
        anterior is None || anterior->0.status == SourceStatus::Nominal) ==> aviso_de_degradacion(
            anterior,
            nueva,
        ),
        (anterior matches Some(a) && (a.status == SourceStatus::Timeout || a.status
            == SourceStatus::Error)) ==> !aviso_de_degradacion(anterior, nueva),
        nueva.status == SourceStatus::Nominal ==> !aviso_de_degradacion(anterior, nueva),
{
}

/// Una fuente que se recupera y vuelve a fallar se anuncia otra vez: tras un ciclo sin fallos,
/// el siguiente ciclo con fallos avisa de la degradación, y conserva como último éxito el del
/// ciclo en que se recuperó.
pub proof fn una_fuente_recuperada_se_anuncia_al_volver_a_fallar(
    anterior: Option<VistaSalud>,
    source: MetricSource,
    intentos1: u32,
    error1: Option<VistaAppError>,
    ahora1: Seq<char>,
    intentos2: u32,
    fallos2: u32,
    error2: Option<VistaAppError>,
    ahora2: Seq<char>,
)
    requires
        intentos1 > 0,
        fallos2 > 0,
        fallos2 >= intentos2,
    ensures
        ({
            let recuperada = salud_tras_ciclo(anterior, source, intentos1, 0, error1, ahora1);
            let otra_vez = salud_tras_ciclo(
                Some(recuperada),
                source,
                intentos2,
                fallos2,
                error2,
                ahora2,
            );
            &&& recuperada.status == SourceStatus::Nominal
            &&& aviso_de_degradacion(Some(recuperada), otra_vez)
            &&& otra_vez.last_success_at == Some(ahora1)
        }),
{
}

// ---------------------------------------------------------------------------------------------
// Huella de deduplicación de un evento
// ---------------------------------------------------------------------------------------------

/// SHA-256 de unos bytes (los 32 bytes del resumen). Se nombra; no se describe.
pub uninterp spec fn sha256(datos: Seq<u8>) -> Seq<u8>;

/// Resumen SHA-256 de `datos` con `sha2::Sha256::digest`; tiene 32 bytes y es el que nombra
/// `sha256`.
#[verifier::external_body]
fn resumen_sha256(datos: &[u8]) -> (r: Vec<u8>)
    ensures
        r@ == sha256(datos@),
        r@.len() == 32,
{
    sha2::Sha256::digest(datos).to_vec()
}

/// Dígito hexadecimal en minúscula de `d` (`0`–`15`).
pub open spec fn digito_hex(d: int) -> char {
    if d < 10 {
        ((48 + d) as u32) as char
    } else {
        ((87 + d) as u32) as char
    }
}

/// Cada byte como dos dígitos hexadecimales en minúscula, el alto primero.
pub open spec fn hex_minusculas(b: Seq<u8>) -> Seq<char>
    decreases b.len(),
{
    if b.len() == 0 {
        seq![]
    } else {
        hex_minusculas(b.drop_last()) + seq![
            digito_hex(b.last() as int / 16),
            digito_hex(b.last() as int % 16),
        ]
    }
}

/// Cada byte da exactamente dos dígitos.
pub proof fn lema_longitud_hex(b: Seq<u8>)
    ensures
        hex_minusculas(b).len() == 2 * b.len(),
    decreases b.len(),
{
    if b.len() > 0 {
        lema_longitud_hex(b.drop_last());
    }
}

fn char_hex(d: u8) -> (r: char)
    requires
        d < 16,
    ensures
        r == digito_hex(d as int),
{
    if d < 10 {
        (48u8 + d) as char
    } else {
        (87u8 + d) as char
    }
}

/// `b` en hexadecimal, en minúsculas.
pub fn a_hex(b: &[u8]) -> (r: String)
    ensures
        r@ == hex_minusculas(b@),
{
    let mut t: Vec<char> = Vec::new();
    let mut i: usize = 0;
    while i < b.len()
        invariant
            i <= b.len(),
            t@ == hex_minusculas(b@.take(i as int)),
        decreases b.len() - i,
    {
        let ghost siguientes = b@.take(i as int + 1);
        assert(siguientes.drop_last() =~= b@.take(i as int));
        t.push(char_hex(b[i] / 16));
        t.push(char_hex(b[i] % 16));
        i += 1;
        assert(t@ =~= hex_minusculas(siguientes));
    }
    assert(b@.take(b@.len() as int) =~= b@);
    cadena_de(t.as_slice())
}

/// Los bytes que identifican un evento: proveedor, id, fecha y mensaje (vacío si no hay), en
/// UTF-8 y separados por `|`.
pub open spec fn bytes_de_evento(
    provider: Seq<char>,
    event_id: i64,
    occurred_at_utc: Seq<char>,
    message: Option<Seq<char>>,
) -> Seq<u8> {
    encode_utf8(provider) + seq![124u8] + encode_utf8(decimal_con_signo(event_id as int)) + seq![
        124u8,
    ] + encode_utf8(occurred_at_utc) + seq![124u8] + encode_utf8(
        match message {
            Some(m) => m,
            None => seq![],
        },
    )
}

fn anexar_bytes(a: &mut Vec<u8>, b: &[u8])
    ensures
        final(a)@ == old(a)@ + b@,
{
    let mut i: usize = 0;
    while i < b.len()
        invariant
            i <= b.len(),
            a@ == old(a)@ + b@.take(i as int),
        decreases b.len() - i,
    {
        a.push(b[i]);
        i += 1;
        assert(a@ =~= old(a)@ + b@.take(i as int));
    }
    assert(b@.take(b.len() as int) =~= b@);
}

/// La huella de deduplicación de un evento del sistema: el SHA-256 de sus bytes identificativos,
/// en hexadecimal en minúsculas.
pub fn hash_de_deduplicacion(
    provider: &str,
    event_id: i64,
    occurred_at_utc: &str,
    message: Option<&str>,
) -> (r: String)
    ensures
        r@ == hex_minusculas(
            sha256(
                bytes_de_evento(
                    provider@,
                    event_id,
                    occurred_at_utc@,
                    match message {
                        Some(m) => Some(m@),
                        None => None,
                    },
                ),
            ),
        ),
        r@.len() == 64,
{
    let mut datos: Vec<u8> = Vec::new();
    let separador: Vec<u8> = vec![124u8];
    assert(separador@ =~= seq![124u8]);
    anexar_bytes(&mut datos, provider.as_bytes());
    anexar_bytes(&mut datos, separador.as_slice());
    let id = decimal_i64(event_id);
    let id = cadena_de(id.as_slice());
    let id_str = id.as_str();
    assert(id_str@ == decimal_con_signo(event_id as int));
    anexar_bytes(&mut datos, id_str.as_bytes());
    anexar_bytes(&mut datos, separador.as_slice());
    anexar_bytes(&mut datos, occurred_at_utc.as_bytes());
    anexar_bytes(&mut datos, separador.as_slice());
    let vacio = String::new();
    let m: &str = match message {
        Some(m) => m,
        None => vacio.as_str(),
    };
    assert(m@ == match message {
        Some(x) => x@,
        None => seq![],
    });
    anexar_bytes(&mut datos, m.as_bytes());
    assert(datos@ =~= bytes_de_evento(
        provider@,
        event_id,
        occurred_at_utc@,
        match message {
            Some(x) => Some(x@),
            None => None,
        },
    ));
    let resumen = resumen_sha256(datos.as_slice());
    proof {
        lema_longitud_hex(resumen@);
    }
    a_hex(resumen.as_slice())
}

// ---------------------------------------------------------------------------------------------
// Resolución de una serie de métricas
// ---------------------------------------------------------------------------------------------

/// Resolución de los puntos de una serie.
#[derive(Debug, Clone, Copy, PartialEq, Eq, Structural)]
pub enum Resolution {
    Raw,
    FiveMinutes,
    Hourly,
}

/// De dónde se leen los puntos de una serie de un disco.
#[derive(Debug, Clone, Copy, PartialEq, Eq, Structural)]
pub enum FuenteSerie {
    /// Las muestras tal cual.
    Crudas,
    /// Los agregados de cinco minutos.
    CincoMinutos,
    /// Los agregados de cinco minutos; si no hay ninguno, los horarios.
    CincoMinutosOHoraria,
    /// Los agregados horarios.
    Horaria,
}

/// Si `e` es el error de un rango con una fecha ilegible: `ipc.schema_mismatch`, no
/// reintentable, con el texto del error de lectura como detalle.
pub open spec fn es_rango_ilegible(e: VistaAppError) -> bool {
    &&& e.code == "ipc.schema_mismatch"@
    &&& e.message_key == "error.schemaMismatch"@
    &&& e.detail is Some
    &&& !e.retryable
}

/// Lee los dos extremos RFC 3339 de un rango pedido por la interfaz y los devuelve en
/// nanosegundos desde la época Unix. Si alguno no se puede leer (primero `from_utc`, luego
/// `to_utc`), el error es `ipc.schema_mismatch` con el error de lectura como detalle.
pub fn parsear_rango(from_utc: &str, to_utc: &str) -> (r: Result<(i128, i128), AppError>)
    ensures
        r is Ok <==> instante_rfc3339(from_utc@) is Some && instante_rfc3339(to_utc@) is Some,
        r matches Ok((a, b)) ==> instante_rfc3339(from_utc@) == Some(a) && instante_rfc3339(
            to_utc@,
        ) == Some(b),
        r matches Err(e) ==> es_rango_ilegible(e@),
{
    let desde = match leer_rfc3339(from_utc) {
        Ok(t) => t,
        Err(detalle) => {
            return Err(
                AppError::new("ipc.schema_mismatch", "error.schemaMismatch").with_detail(detalle),
            );
        },
    };
    let hasta = match leer_rfc3339(to_utc) {
        Ok(t) => t,
        Err(detalle) => {
            return Err(
                AppError::new("ipc.schema_mismatch", "error.schemaMismatch").with_detail(detalle),
            );
        },
    };
    Ok((desde, hasta))
}

/// La fuente de una serie entre `desde` y `hasta` pedida en `ahora` (nanosegundos desde la época
/// Unix): muestras crudas para un rango de 24 h como mucho que empiece en los últimos siete días;
/// si no, agregados de cinco minutos hasta siete días de ancho; hasta noventa, los de cinco
/// minutos con los horarios de respaldo; y más allá, horarios.
pub open spec fn fuente_de(desde: i128, hasta: i128, ahora: i128) -> FuenteSerie {
    let ancho = hasta - desde;
    if ancho <= 24 * HORA_NS && desde >= ahora - 7 * DIA_NS {
        FuenteSerie::Crudas
    } else if ancho <= 7 * DIA_NS {
        FuenteSerie::CincoMinutos
    } else if ancho <= 90 * DIA_NS {
        FuenteSerie::CincoMinutosOHoraria
    } else {
        FuenteSerie::Horaria
    }
}

/// Si `hasta - desde <= d`, sin desbordar (`d` no negativo).
fn a_lo_sumo(desde: i128, hasta: i128, d: i128) -> (r: bool)
    requires
        d >= 0,
    ensures
        r == (hasta - desde <= d),
{
    match desde.checked_add(d) {
        Some(tope) => hasta <= tope,
        // `desde + d` pasa del máximo representable, que `hasta` no supera.
        None => true,
    }
}

/// La fuente de la que leer la serie.
pub fn fuente_de_serie(desde: i128, hasta: i128, ahora: i128) -> (r: FuenteSerie)
    ensures
        r == fuente_de(desde, hasta, ahora),
{
    if a_lo_sumo(desde, hasta, 24 * HORA_NS) && a_lo_sumo(desde, ahora, 7 * DIA_NS) {
        FuenteSerie::Crudas
    } else if a_lo_sumo(desde, hasta, 7 * DIA_NS) {
        FuenteSerie::CincoMinutos
    } else if a_lo_sumo(desde, hasta, 90 * DIA_NS) {
        FuenteSerie::CincoMinutosOHoraria
    } else {
        FuenteSerie::Horaria
    }
}

/// La fuente de una serie por el ancho del rango: como mucho un día y empezado en la última
/// semana, muestras crudas; más de noventa días, agregados horarios; y un rango más ancho nunca
/// se lee de una fuente más fina que uno más estrecho con el mismo inicio.
pub proof fn la_fuente_de_una_serie_sigue_su_ancho(desde: i128, hasta1: i128, hasta2: i128, ahora: i128)
    ensures
        hasta1 - desde <= 86_400_000_000_000 && ahora - desde <= 604_800_000_000_000
            ==> fuente_de(desde, hasta1, ahora) == FuenteSerie::Crudas,
        hasta1 - desde > 7_776_000_000_000_000 ==> fuente_de(desde, hasta1, ahora)
            == FuenteSerie::Horaria,
        hasta1 <= hasta2 ==> ({
            let fina = |f: FuenteSerie| match f {
                FuenteSerie::Crudas => 0int,
                FuenteSerie::CincoMinutos => 1int,
                FuenteSerie::CincoMinutosOHoraria => 2int,
                FuenteSerie::Horaria => 3int,
            };
            fina(fuente_de(desde, hasta1, ahora)) <= fina(fuente_de(desde, hasta2, ahora))
        }),
{
}

/// La resolución con la que sale una serie de esa fuente (`hay_cinco_minutos`: si se encontró
/// algún agregado de cinco minutos).
pub open spec fn resolucion_de(f: FuenteSerie, hay_cinco_minutos: bool) -> Resolution {
    match f {
        FuenteSerie::Crudas => Resolution::Raw,
        FuenteSerie::CincoMinutos => Resolution::FiveMinutes,
        FuenteSerie::CincoMinutosOHoraria => if hay_cinco_minutos {
            Resolution::FiveMinutes
        } else {
            Resolution::Hourly
        },
        FuenteSerie::Horaria => Resolution::Hourly,
    }
}

pub fn resolucion_de_serie(f: FuenteSerie, hay_cinco_minutos: bool) -> (r: Resolution)
    ensures
        r == resolucion_de(f, hay_cinco_minutos),
{
    match f {
        FuenteSerie::Crudas => Resolution::Raw,
        FuenteSerie::CincoMinutos => Resolution::FiveMinutes,
        FuenteSerie::CincoMinutosOHoraria => if hay_cinco_minutos {
            Resolution::FiveMinutes
        } else {
            Resolution::Hourly
        },
        FuenteSerie::Horaria => Resolution::Hourly,
    }
}

/// El intervalo esperado entre puntos, en ms: la cadencia de la métrica para las muestras
/// crudas, cinco minutos u una hora para los agregados.
pub fn intervalo_esperado_ms(r: Resolution, metric_key: &str) -> (ms: i64)
    ensures
        ms == match r {
            Resolution::Raw => cadencia(metric_key@),
            Resolution::FiveMinutes => 300_000,
            Resolution::Hourly => 3_600_000,
        },
{
    match r {
        Resolution::Raw => cadencia_esperada_ms(metric_key),
        Resolution::FiveMinutes => 300_000,
        Resolution::Hourly => 3_600_000,
    }
}

} // verus!
