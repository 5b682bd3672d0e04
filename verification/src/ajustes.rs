//! Ajustes editables: qué regla sigue cada clave (qué tipo de valor admite, contra qué se
//! valida y qué otras claves intervienen), y las validaciones de texto que son de esta capa.
use vstd::prelude::*;
use crate::planificador::{
    altas_y_bajas, eventos_windows, metricas_rapidas, smart_completo, trabajo_altas_y_bajas,
    trabajo_eventos_windows, trabajo_metricas_rapidas, trabajo_smart_completo, Trabajo,
};
use crate::texto::{anexar, cadena_de, caracteres, iguales};
use crate::tipos::{AppError, VistaAppError};

verus! {

/// La regla de validación de una clave de ajuste.
#[derive(Debug, Clone, Copy, PartialEq, Eq, Structural)]
pub enum ReglaAjuste {
    /// Segundos entre lecturas de un trabajo, dentro de sus límites.
    FrecuenciaMetricasRapidas,
    FrecuenciaSmartCompleto,
    FrecuenciaEventos,
    FrecuenciaAltasYBajas,
    /// Umbrales de temperatura: el crítico ha de ser más severo que el aviso guardado.
    TemperaturaAviso,
    TemperaturaCritico,
    /// Umbrales porcentuales de capacidad, validados contra su pareja guardada.
    CapacidadAvisoPorcentaje,
    CapacidadCriticoPorcentaje,
    /// Suelo absoluto de capacidad: capacidad mínima, aviso y crítico, validados juntos.
    SueloCapacidadMinima,
    SueloAviso,
    SueloCritico,
    /// Días de retención de cada resolución.
    RetencionCruda,
    RetencionCincoMinutos,
    RetencionHoraria,
    /// Bytes que solo han de ser positivos.
    BytesPositivos,
    /// `minimize` o `exit`.
    AccionCierre,
    /// Un booleano sin más.
    Booleano,
    /// `light`, `dark` o `system`.
    Tema,
    /// `es` o `en`.
    Idioma,
}

/// La regla de cada clave editable; `None` para una clave desconocida (también
/// `logging.verbose`, que solo cambia el comando de nivel de registro).
pub open spec fn regla_de(key: Seq<char>) -> Option<ReglaAjuste> {
    if key == "schedule.metrics_fast_seconds"@ {
        Some(ReglaAjuste::FrecuenciaMetricasRapidas)
    } else if key == "schedule.smart_full_seconds"@ {
        Some(ReglaAjuste::FrecuenciaSmartCompleto)
    } else if key == "schedule.events_seconds"@ {
        Some(ReglaAjuste::FrecuenciaEventos)
    } else if key == "schedule.discovery_seconds"@ {
        Some(ReglaAjuste::FrecuenciaAltasYBajas)
    } else if key == "alerts.temp_configured_warn_c"@ {
        Some(ReglaAjuste::TemperaturaAviso)
    } else if key == "alerts.temp_configured_crit_c"@ {
        Some(ReglaAjuste::TemperaturaCritico)
    } else if key == "alerts.capacity_warn_percent"@ {
        Some(ReglaAjuste::CapacidadAvisoPorcentaje)
    } else if key == "alerts.capacity_crit_percent"@ {
        Some(ReglaAjuste::CapacidadCriticoPorcentaje)
    } else if key == "alerts.capacity_absolute_floor_min_capacity_bytes"@ {
        Some(ReglaAjuste::SueloCapacidadMinima)
    } else if key == "alerts.capacity_absolute_floor_warn_bytes"@ {
        Some(ReglaAjuste::SueloAviso)
    } else if key == "alerts.capacity_absolute_floor_crit_bytes"@ {
        Some(ReglaAjuste::SueloCritico)
    } else if key == "retention.raw_days"@ {
        Some(ReglaAjuste::RetencionCruda)
    } else if key == "retention.five_minutes_days"@ {
        Some(ReglaAjuste::RetencionCincoMinutos)
    } else if key == "retention.hourly_days"@ {
        Some(ReglaAjuste::RetencionHoraria)
    } else if key == "storage.free_space_warn_bytes"@ || key == "storage.free_space_halt_bytes"@ {
        Some(ReglaAjuste::BytesPositivos)
    } else if key == "lifecycle.close_action"@ {
        Some(ReglaAjuste::AccionCierre)
    } else if key == "lifecycle.close_action_remembered"@ || key
        == "notifications.sound_enabled"@ || key == "settings.appearance.use_system_accent"@ {
        Some(ReglaAjuste::Booleano)
    } else if key == "settings.appearance.theme"@ {
        Some(ReglaAjuste::Tema)
    } else if key == "settings.appearance.language"@ {
        Some(ReglaAjuste::Idioma)
    } else {
        None
    }
}

/// La regla de validación de una clave de ajuste, o `None` si no es editable.
pub fn regla_de_ajuste(key: &str) -> (r: Option<ReglaAjuste>)
    ensures
        r == regla_de(key@),
{
    if iguales(key, "schedule.metrics_fast_seconds") {
        Some(ReglaAjuste::FrecuenciaMetricasRapidas)
    } else if iguales(key, "schedule.smart_full_seconds") {
        Some(ReglaAjuste::FrecuenciaSmartCompleto)
    } else if iguales(key, "schedule.events_seconds") {
        Some(ReglaAjuste::FrecuenciaEventos)
    } else if iguales(key, "schedule.discovery_seconds") {
        Some(ReglaAjuste::FrecuenciaAltasYBajas)
    } else if iguales(key, "alerts.temp_configured_warn_c") {
        Some(ReglaAjuste::TemperaturaAviso)
    } else if iguales(key, "alerts.temp_configured_crit_c") {
        Some(ReglaAjuste::TemperaturaCritico)
    } else if iguales(key, "alerts.capacity_warn_percent") {
        Some(ReglaAjuste::CapacidadAvisoPorcentaje)
    } else if iguales(key, "alerts.capacity_crit_percent") {
        Some(ReglaAjuste::CapacidadCriticoPorcentaje)
    } else if iguales(key, "alerts.capacity_absolute_floor_min_capacity_bytes") {
        Some(ReglaAjuste::SueloCapacidadMinima)
    } else if iguales(key, "alerts.capacity_absolute_floor_warn_bytes") {
        Some(ReglaAjuste::SueloAviso)
    } else if iguales(key, "alerts.capacity_absolute_floor_crit_bytes") {
        Some(ReglaAjuste::SueloCritico)
    } else if iguales(key, "retention.raw_days") {
        Some(ReglaAjuste::RetencionCruda)
    } else if iguales(key, "retention.five_minutes_days") {
        Some(ReglaAjuste::RetencionCincoMinutos)
    } else if iguales(key, "retention.hourly_days") {
        Some(ReglaAjuste::RetencionHoraria)
    } else if iguales(key, "storage.free_space_warn_bytes") || iguales(
        key,
        "storage.free_space_halt_bytes",
    ) {
        Some(ReglaAjuste::BytesPositivos)
    } else if iguales(key, "lifecycle.close_action") {
        Some(ReglaAjuste::AccionCierre)
    } else if iguales(key, "lifecycle.close_action_remembered") || iguales(
        key,
        "notifications.sound_enabled",
    ) || iguales(key, "settings.appearance.use_system_accent") {
        Some(ReglaAjuste::Booleano)
    } else if iguales(key, "settings.appearance.theme") {
        Some(ReglaAjuste::Tema)
    } else if iguales(key, "settings.appearance.language") {
        Some(ReglaAjuste::Idioma)
    } else {
        None
    }
}

/// El tipo de valor que admite una regla.
#[derive(Debug, Clone, Copy, PartialEq, Eq, Structural)]
pub enum TipoValor {
    Entero,
    Numero,
    Booleano,
    Cadena,
}

pub open spec fn tipo_de(r: ReglaAjuste) -> TipoValor {
    match r {
        ReglaAjuste::TemperaturaAviso | ReglaAjuste::TemperaturaCritico
        | ReglaAjuste::CapacidadAvisoPorcentaje | ReglaAjuste::CapacidadCriticoPorcentaje => {
            TipoValor::Numero
        },
        ReglaAjuste::AccionCierre | ReglaAjuste::Tema | ReglaAjuste::Idioma => TipoValor::Cadena,
        ReglaAjuste::Booleano => TipoValor::Booleano,
        _ => TipoValor::Entero,
    }
}

/// El tipo de valor que admite la regla.
pub fn tipo_de_valor(r: ReglaAjuste) -> (t: TipoValor)
    ensures
        t == tipo_de(r),
{
    match r {
        ReglaAjuste::TemperaturaAviso | ReglaAjuste::TemperaturaCritico
        | ReglaAjuste::CapacidadAvisoPorcentaje | ReglaAjuste::CapacidadCriticoPorcentaje => {
            TipoValor::Numero
        },
        ReglaAjuste::AccionCierre | ReglaAjuste::Tema | ReglaAjuste::Idioma => TipoValor::Cadena,
        ReglaAjuste::Booleano => TipoValor::Booleano,
        _ => TipoValor::Entero,
    }
}

/// El detalle del error de un valor del tipo equivocado.
pub open spec fn esperado(t: TipoValor) -> Seq<char> {
    match t {
        TipoValor::Entero => "se esperaba un entero"@,
        TipoValor::Numero => "se esperaba un número"@,
        TipoValor::Booleano => "se esperaba un booleano"@,
        TipoValor::Cadena => "se esperaba una cadena"@,
    }
}

/// Error de esquema con el detalle dado.
pub open spec fn error_de_esquema(detalle: Seq<char>) -> VistaAppError {
    VistaAppError {
        code: "ipc.schema_mismatch"@,
        message_key: "error.schemaMismatch"@,
        detail: Some(detalle),
        retryable: false,
    }
}

fn error_esquema(detalle: &str) -> (r: AppError)
    ensures
        r@ == error_de_esquema(detalle@),
{
    AppError::new("ipc.schema_mismatch", "error.schemaMismatch").with_detail(detalle.to_owned())
}

/// El error de un valor que no es del tipo que la clave admite.
pub fn error_de_tipo(t: TipoValor) -> (r: AppError)
    ensures
        r@ == error_de_esquema(esperado(t)),
{
    match t {
        TipoValor::Entero => error_esquema("se esperaba un entero"),
        TipoValor::Numero => error_esquema("se esperaba un número"),
        TipoValor::Booleano => error_esquema("se esperaba un booleano"),
        TipoValor::Cadena => error_esquema("se esperaba una cadena"),
    }
}

/// El error de una clave que no es editable.
pub fn error_clave_desconocida(key: &str) -> (r: AppError)
    ensures
        r@ == error_de_esquema("clave de ajuste desconocida: "@ + key@),
{
    let mut d = caracteres("clave de ajuste desconocida: ");
    let k = caracteres(key);
    anexar(&mut d, k.as_slice());
    let detalle = cadena_de(d.as_slice());
    AppError::new("ipc.schema_mismatch", "error.schemaMismatch").with_detail(detalle)
}

/// El trabajo cuyos límites valen para una regla de frecuencia.
pub fn trabajo_de(r: ReglaAjuste) -> (t: Option<Trabajo>)
    ensures
        match r {
            ReglaAjuste::FrecuenciaMetricasRapidas => t == Some(trabajo_metricas_rapidas()),
            ReglaAjuste::FrecuenciaSmartCompleto => t == Some(trabajo_smart_completo()),
            ReglaAjuste::FrecuenciaEventos => t == Some(trabajo_eventos_windows()),
            ReglaAjuste::FrecuenciaAltasYBajas => t == Some(trabajo_altas_y_bajas()),
            _ => t is None,
        },
{
    match r {
        ReglaAjuste::FrecuenciaMetricasRapidas => Some(metricas_rapidas()),
        ReglaAjuste::FrecuenciaSmartCompleto => Some(smart_completo()),
        ReglaAjuste::FrecuenciaEventos => Some(eventos_windows()),
        ReglaAjuste::FrecuenciaAltasYBajas => Some(altas_y_bajas()),
        _ => None,
    }
}

/// Las claves guardadas contra las que se valida el nuevo valor, en el orden en que intervienen.
pub open spec fn claves_relacionadas(r: ReglaAjuste) -> Seq<Seq<char>> {
    match r {
        ReglaAjuste::TemperaturaAviso => seq!["alerts.temp_configured_crit_c"@],
        ReglaAjuste::TemperaturaCritico => seq!["alerts.temp_configured_warn_c"@],
        ReglaAjuste::CapacidadAvisoPorcentaje => seq!["alerts.capacity_crit_percent"@],
        ReglaAjuste::CapacidadCriticoPorcentaje => seq!["alerts.capacity_warn_percent"@],
        ReglaAjuste::SueloCapacidadMinima => seq![
            "alerts.capacity_absolute_floor_warn_bytes"@,
            "alerts.capacity_absolute_floor_crit_bytes"@,
        ],
        ReglaAjuste::SueloAviso => seq![
            "alerts.capacity_absolute_floor_min_capacity_bytes"@,
            "alerts.capacity_absolute_floor_crit_bytes"@,
        ],
        ReglaAjuste::SueloCritico => seq![
            "alerts.capacity_absolute_floor_min_capacity_bytes"@,
            "alerts.capacity_absolute_floor_warn_bytes"@,
        ],
        _ => seq![],
    }
}

pub open spec fn vistas_str(v: Seq<&'static str>) -> Seq<Seq<char>> {
    v.map_values(|s: &'static str| s@)
}

/// Las claves guardadas que hay que leer para validar un valor nuevo de la regla.
pub fn claves_de_validacion(r: ReglaAjuste) -> (v: Vec<&'static str>)
    ensures
        vistas_str(v@) == claves_relacionadas(r),
{
    let v = match r {
        ReglaAjuste::TemperaturaAviso => vec!["alerts.temp_configured_crit_c"],
        ReglaAjuste::TemperaturaCritico => vec!["alerts.temp_configured_warn_c"],
        ReglaAjuste::CapacidadAvisoPorcentaje => vec!["alerts.capacity_crit_percent"],
        ReglaAjuste::CapacidadCriticoPorcentaje => vec!["alerts.capacity_warn_percent"],
        ReglaAjuste::SueloCapacidadMinima => vec![
            "alerts.capacity_absolute_floor_warn_bytes",
            "alerts.capacity_absolute_floor_crit_bytes",
        ],
        ReglaAjuste::SueloAviso => vec![
            "alerts.capacity_absolute_floor_min_capacity_bytes",
            "alerts.capacity_absolute_floor_crit_bytes",
        ],
        ReglaAjuste::SueloCritico => vec![
            "alerts.capacity_absolute_floor_min_capacity_bytes",
            "alerts.capacity_absolute_floor_warn_bytes",
        ],
        _ => Vec::new(),
    };
    assert(vistas_str(v@) =~= claves_relacionadas(r));
    v
}

/// Un valor de bytes sin límites propios solo ha de ser positivo.
pub fn bytes_positivos_validos(bytes: i64) -> (r: bool)
    ensures
        r == (bytes > 0),
{
    bytes > 0
}

/// La validación de un valor de texto: acción de cierre `minimize` o `exit`, tema `light`,
/// `dark` o `system`, idioma `es` o `en`; las demás reglas no se validan aquí.
pub open spec fn texto_valido(r: ReglaAjuste, valor: Seq<char>) -> Result<(), Seq<char>> {
    match r {
        ReglaAjuste::AccionCierre => if valor == "minimize"@ || valor == "exit"@ {
            Ok(())
        } else {
            Err("se esperaba \"minimize\" o \"exit\""@)
        },
        ReglaAjuste::Tema => if valor == "light"@ || valor == "dark"@ || valor == "system"@ {
            Ok(())
        } else {
            Err("se esperaba \"light\", \"dark\" o \"system\""@)
        },
        ReglaAjuste::Idioma => if valor == "es"@ || valor == "en"@ {
            Ok(())
        } else {
            Err("se esperaba \"es\" o \"en\""@)
        },
        _ => Ok(()),
    }
}

/// Valida un valor de texto para la regla; el error es de esquema, con el detalle de lo que se
/// esperaba.
pub fn validar_texto(r: ReglaAjuste, valor: &str) -> (res: Result<(), AppError>)
    ensures
        match res {
            Ok(()) => texto_valido(r, valor@) is Ok,
            Err(e) => texto_valido(r, valor@) matches Err(d) && e@ == error_de_esquema(d),
        },
{
    match r {
        ReglaAjuste::AccionCierre => if iguales(valor, "minimize") || iguales(valor, "exit") {
            Ok(())
        } else {
            Err(error_esquema("se esperaba \"minimize\" o \"exit\""))
        },
        ReglaAjuste::Tema => if iguales(valor, "light") || iguales(valor, "dark") || iguales(
            valor,
            "system",
        ) {
            Ok(())
        } else {
            Err(error_esquema("se esperaba \"light\", \"dark\" o \"system\""))
        },
        ReglaAjuste::Idioma => if iguales(valor, "es") || iguales(valor, "en") {
            Ok(())
        } else {
            Err(error_esquema("se esperaba \"es\" o \"en\""))
        },
        _ => Ok(()),
    }
}

/// Un valor de ajuste tal como llega, por su tipo: un entero, otro número (cuyo valor decide una
/// regla numérica de dominio), un booleano, un texto u otra cosa.
pub enum ValorAjuste {
    Entero(i64),
    NumeroNoEntero,
    Booleano(bool),
    Texto(String),
    Otro,
}

/// Si un valor es del tipo que admite la regla: un número admite también un entero.
pub open spec fn admite_tipo(t: TipoValor, v: ValorAjuste) -> bool {
    match t {
        TipoValor::Entero => v is Entero,
        TipoValor::Numero => v is Entero || v is NumeroNoEntero,
        TipoValor::Booleano => v is Booleano,
        TipoValor::Cadena => v is Texto,
    }
}

/// Lo que queda por hacer con un valor admitido.
#[derive(Debug, Clone, Copy, PartialEq, Eq, Structural)]
pub enum Admision {
    /// Se guarda tal cual.
    Guardar,
    /// Se guarda si lo admite la validación de dominio de la regla (límites de frecuencia, de
    /// temperatura, de capacidad o de retención, contra las claves de `claves_relacionadas`).
    ValidarConDominio(ReglaAjuste),
}

/// El detalle de un valor de bytes no positivo: los límites `1` y el mayor número representable,
/// tal como se escriben.
pub const DETALLE_BYTES_FUERA_DE_LIMITES: &'static str = "debe estar entre 1 y 179769313486231570000000000000000000000000000000000000000000000000000000000000000000000000000000000000000000000000000000000000000000000000000000000000000000000000000000000000000000000000000000000000000000000000000000000000000000000000000000000000000000000000000000000000000000000000000000000000000000000000000";

/// Error de un valor fuera de sus límites, con el detalle dado.
pub open spec fn error_fuera_de_limites(detalle: Seq<char>) -> VistaAppError {
    VistaAppError {
        code: "settings.out_of_range"@,
        message_key: "error.settingsOutOfRange"@,
        detail: Some(detalle),
        retryable: false,
    }
}

/// El resultado de escribir `valor` en la clave `key`: clave desconocida; valor de otro tipo;
/// bytes no positivos (fuera de límites); texto no admitido; y si no, guardarlo o pasarlo a la
/// validación de dominio de su regla.
pub open spec fn resultado_de_ajuste(key: Seq<char>, valor: ValorAjuste) -> Result<Admision, VistaAppError> {
    match regla_de(key) {
        None => Err(error_de_esquema("clave de ajuste desconocida: "@ + key)),
        Some(r) => if !admite_tipo(tipo_de(r), valor) {
            Err(error_de_esquema(esperado(tipo_de(r))))
        } else {
            match r {
                ReglaAjuste::BytesPositivos => if valor matches ValorAjuste::Entero(b) && b > 0 {
                    Ok(Admision::Guardar)
                } else {
                    Err(error_fuera_de_limites(DETALLE_BYTES_FUERA_DE_LIMITES@))
                },
                ReglaAjuste::AccionCierre | ReglaAjuste::Tema | ReglaAjuste::Idioma => match valor {
                    ValorAjuste::Texto(t) => match texto_valido(r, t@) {
                        Ok(()) => Ok(Admision::Guardar),
                        Err(d) => Err(error_de_esquema(d)),
                    },
                    _ => Ok(Admision::Guardar),
                },
                ReglaAjuste::Booleano => Ok(Admision::Guardar),
                _ => Ok(Admision::ValidarConDominio(r)),
            }
        },
    }
}

fn admite_tipo_exec(t: TipoValor, v: &ValorAjuste) -> (r: bool)
    ensures
        r == admite_tipo(t, *v),
{
    match t {
        TipoValor::Entero => matches!(v, ValorAjuste::Entero(_)),
        TipoValor::Numero => matches!(v, ValorAjuste::Entero(_) | ValorAjuste::NumeroNoEntero),
        TipoValor::Booleano => matches!(v, ValorAjuste::Booleano(_)),
        TipoValor::Cadena => matches!(v, ValorAjuste::Texto(_)),
    }
}

/// Decide la escritura de un ajuste: el error con el que se rechaza, o qué queda por hacer con
/// el valor.
pub fn validar_ajuste(key: &str, valor: &ValorAjuste) -> (r: Result<Admision, AppError>)
    ensures
        match r {
            Ok(a) => resultado_de_ajuste(key@, *valor) == Ok::<Admision, VistaAppError>(a),
            Err(e) => resultado_de_ajuste(key@, *valor) == Err::<Admision, VistaAppError>(e@),
        },
{
    let regla = match regla_de_ajuste(key) {
        None => return Err(error_clave_desconocida(key)),
        Some(r) => r,
    };
    let tipo = tipo_de_valor(regla);
    if !admite_tipo_exec(tipo, valor) {
        return Err(error_de_tipo(tipo));
    }
    match regla {
        ReglaAjuste::BytesPositivos => match valor {
            ValorAjuste::Entero(b) => if bytes_positivos_validos(*b) {
                Ok(Admision::Guardar)
            } else {
                Err(
                    AppError::new("settings.out_of_range", "error.settingsOutOfRange").with_detail(
                        DETALLE_BYTES_FUERA_DE_LIMITES.to_owned(),
                    ),
                )
            },
            _ => Err(
                AppError::new("settings.out_of_range", "error.settingsOutOfRange").with_detail(
                    DETALLE_BYTES_FUERA_DE_LIMITES.to_owned(),
                ),
            ),
        },
        ReglaAjuste::AccionCierre | ReglaAjuste::Tema | ReglaAjuste::Idioma => match valor {
            ValorAjuste::Texto(t) => match validar_texto(regla, t.as_str()) {
                Ok(()) => Ok(Admision::Guardar),
                Err(e) => Err(e),
            },
            _ => Ok(Admision::Guardar),
        },
        ReglaAjuste::Booleano => Ok(Admision::Guardar),
        _ => Ok(Admision::ValidarConDominio(regla)),
    }
}

/// Una clave de bytes sin límites propios solo admite enteros positivos: un entero que no lo es
/// se rechaza como fuera de límites, uno positivo se guarda tal cual, y lo que no es un entero es
/// un error de esquema.
pub proof fn los_bytes_han_de_ser_positivos(key: Seq<char>, valor: ValorAjuste)
    requires
        regla_de(key) == Some(ReglaAjuste::BytesPositivos),
    ensures
        valor matches ValorAjuste::Entero(b) ==> (b <= 0 ==> (resultado_de_ajuste(key, valor) matches Err(
            e,
        ) && e.code == "settings.out_of_range"@ && e.message_key == "error.settingsOutOfRange"@)),
        valor matches ValorAjuste::Entero(b) ==> (b > 0 ==> resultado_de_ajuste(key, valor) == Ok::<
            Admision,
            VistaAppError,
        >(Admision::Guardar)),
        !(valor is Entero) ==> (resultado_de_ajuste(key, valor) matches Err(e) && e.code
            == "ipc.schema_mismatch"@ && e.detail == Some("se esperaba un entero"@)),
{
}

/// Un tema solo admite `light`, `dark` o `system`; cualquier otro texto se rechaza con un error
/// de esquema, y lo que no es texto también.
pub proof fn el_tema_es_claro_oscuro_o_del_sistema(key: Seq<char>, t: String)
    requires
        regla_de(key) == Some(ReglaAjuste::Tema),
    ensures
        (resultado_de_ajuste(key, ValorAjuste::Texto(t)) is Ok) <==> (t@ == "light"@ || t@
            == "dark"@ || t@ == "system"@),
        resultado_de_ajuste(key, ValorAjuste::Texto(t)) matches Err(e) ==> e.code
            == "ipc.schema_mismatch"@,
        resultado_de_ajuste(key, ValorAjuste::Otro) is Err,
{
}

/// `logging.verbose` no se cambia con el ajuste genérico: solo con su propio comando, que además
/// recarga el filtro de registro.
pub proof fn el_nivel_de_registro_no_es_un_ajuste_generico()
    ensures
        regla_de("logging.verbose"@) is None,
{
    reveal_strlit("logging.verbose");
    reveal_strlit("schedule.metrics_fast_seconds");
    reveal_strlit("schedule.smart_full_seconds");
    reveal_strlit("schedule.events_seconds");
    reveal_strlit("schedule.discovery_seconds");
    reveal_strlit("alerts.temp_configured_warn_c");
    reveal_strlit("alerts.temp_configured_crit_c");
    reveal_strlit("alerts.capacity_warn_percent");
    reveal_strlit("alerts.capacity_crit_percent");
    reveal_strlit("alerts.capacity_absolute_floor_min_capacity_bytes");
    reveal_strlit("alerts.capacity_absolute_floor_warn_bytes");
    reveal_strlit("alerts.capacity_absolute_floor_crit_bytes");
    reveal_strlit("retention.raw_days");
    reveal_strlit("retention.five_minutes_days");
    reveal_strlit("retention.hourly_days");
    reveal_strlit("storage.free_space_warn_bytes");
    reveal_strlit("storage.free_space_halt_bytes");
    reveal_strlit("lifecycle.close_action");
    reveal_strlit("lifecycle.close_action_remembered");
    reveal_strlit("notifications.sound_enabled");
    reveal_strlit("settings.appearance.use_system_accent");
    reveal_strlit("settings.appearance.theme");
    reveal_strlit("settings.appearance.language");
    let k = "logging.verbose"@;
    assert(k[0] == 'l' && k[1] == 'o');
    assert("lifecycle.close_action"@[1] == 'i');
    assert("lifecycle.close_action_remembered"@[1] == 'i');
}

} // verus!
