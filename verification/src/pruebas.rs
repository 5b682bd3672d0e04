//! Pruebas manuales bajo demanda: benchmark de un volumen, `chkdsk /scan` y el autotest corto
//! SMART. Aquí se decide si una prueba se admite (y con qué error se rechaza), con qué
//! parámetros corre, y cómo su desenlace se traduce en estado y resumen.
use vstd::prelude::*;

use crate::inventario::{letra_de_unidad, primera_letra_unidad, Volumen};
use crate::texto::iguales;
use crate::tipos::AppError;
use crate::windows_storage::vista_opcional;

verus! {

/// Estado de una ejecución de prueba.
#[derive(Debug, Clone, Copy, PartialEq, Eq, Structural)]
pub enum TestStatus {
    Running,
    Completed,
    Cancelled,
    Failed,
}

/// Resumen de una prueba terminada, sin las medidas de rendimiento (que son de coma flotante y
/// las añade quien ejecuta el benchmark).
#[derive(Debug, Clone)]
pub struct ResumenPrueba {
    pub passed: Option<bool>,
    pub stopped_reason: Option<String>,
    pub output: Option<String>,
    pub output_encoding: Option<String>,
}

/// Un `ResumenPrueba` con sus textos como secuencias.
pub struct VistaResumenPrueba {
    pub passed: Option<bool>,
    pub stopped_reason: Option<Seq<char>>,
    pub output: Option<Seq<char>>,
    pub output_encoding: Option<Seq<char>>,
}

impl View for ResumenPrueba {
    type V = VistaResumenPrueba;

    open spec fn view(&self) -> VistaResumenPrueba {
        VistaResumenPrueba {
            passed: self.passed,
            stopped_reason: vista_opcional(self.stopped_reason),
            output: vista_opcional(self.output),
            output_encoding: vista_opcional(self.output_encoding),
        }
    }
}

/// Lo que la admisión del autotest sabe del dispositivo elegido: la ruta con la que `smartctl`
/// le habla.
#[derive(Debug, Clone)]
pub struct DispositivoDePrueba {
    pub smartctl_path: Option<String>,
}

/// Un error sin detalle con el código y la clave de mensaje dados.
pub open spec fn es_error(e: AppError, code: Seq<char>, message_key: Seq<char>) -> bool {
    &&& e.code@ == code
    &&& e.message_key@ == message_key
    &&& e.detail is None
    &&& !e.retryable
}

/// Los parámetros con los que corre un benchmark.
#[derive(Debug, Clone, Copy, PartialEq, Eq, Structural)]
pub struct ParametrosBenchmark {
    /// La unidad donde se escribe el archivo temporal.
    pub letra: char,
    pub size_bytes: u64,
    pub block_size_bytes: u64,
    /// Acceso aleatorio (`mode == "random"`) o secuencial.
    pub aleatorio: bool,
    pub passes: u32,
}

/// El tamaño de bloque pedido, o 1 MiB si no es positivo.
pub open spec fn bloque_efectivo(block_size_bytes: i64) -> u64 {
    if block_size_bytes > 0 {
        block_size_bytes as u64
    } else {
        1_048_576
    }
}

/// El número de pasadas pedido, llevado al intervalo `1..=10`.
pub open spec fn pasadas_efectivas(passes: i64) -> u32 {
    if passes < 1 {
        1
    } else if passes > 10 {
        10
    } else {
        passes as u32
    }
}

/// Por qué se rechaza un benchmark, como `(código, clave de mensaje)`, en el orden en que se
/// comprueba: el volumen no existe; hay otra prueba en curso sobre él; no tiene letra de
/// unidad; no cabe el archivo temporal (`tamano_resuelto` es `None`). `None` si se admite.
pub open spec fn rechazo_benchmark(
    letra: Option<Option<char>>,
    prueba_activa: bool,
    tamano_resuelto: Option<u64>,
) -> Option<(Seq<char>, Seq<char>)> {
    match letra {
        None => Some(("volume.not_found"@, "error.volumeNotFound"@)),
        Some(l) => if prueba_activa {
            Some(("test.busy"@, "error.testBusy"@))
        } else if l is None {
            Some(("path.invalid"@, "error.pathInvalid"@))
        } else if tamano_resuelto is None {
            Some(("test.insufficient_space"@, "error.testInsufficientSpace"@))
        } else {
            None
        },
    }
}

/// La letra de unidad de un volumen que puede no existir: `None` si no existe.
pub open spec fn letra_de(volumen: Option<&Volumen>) -> Option<Option<char>> {
    match volumen {
        None => None,
        Some(v) => Some(letra_de_unidad(vista_opcional(v.drive_letters_json))),
    }
}

/// Admite (o rechaza) un benchmark sobre `volumen` (`None` si no existe) y fija sus
/// parámetros. `tamano_resuelto` es el tamaño del archivo temporal que resolvió la política de
/// espacio libre, o `None` si no cabe; `prueba_activa`, si el disco ya tiene una prueba en
/// curso.
pub fn preparar_benchmark(
    volumen: Option<&Volumen>,
    prueba_activa: bool,
    tamano_resuelto: Option<u64>,
    block_size_bytes: i64,
    mode: &str,
    passes: i64,
) -> (r: Result<ParametrosBenchmark, AppError>)
    ensures
        r is Ok <==> rechazo_benchmark(letra_de(volumen), prueba_activa, tamano_resuelto) is None,
        r matches Err(e) ==> rechazo_benchmark(letra_de(volumen), prueba_activa, tamano_resuelto)
            matches Some((c, k)) && es_error(e, c, k),
        r matches Ok(p) ==> {
            &&& letra_de(volumen) == Some(Some(p.letra))
            &&& tamano_resuelto == Some(p.size_bytes)
            &&& p.block_size_bytes == bloque_efectivo(block_size_bytes)
            &&& p.passes == pasadas_efectivas(passes)
            &&& (p.aleatorio <==> mode@ == "random"@)
        },
{
    let v = match volumen {
        None => {
            return Err(AppError::new("volume.not_found", "error.volumeNotFound"));
        },
        Some(v) => v,
    };
    if prueba_activa {
        return Err(AppError::new("test.busy", "error.testBusy"));
    }
    let letra = match primera_letra_unidad(v) {
        None => {
            return Err(AppError::new("path.invalid", "error.pathInvalid"));
        },
        Some(l) => l,
    };
    let tamano = match tamano_resuelto {
        None => {
            return Err(AppError::new("test.insufficient_space", "error.testInsufficientSpace"));
        },
        Some(t) => t,
    };
    let bloque: u64 = if block_size_bytes > 0 {
        block_size_bytes as u64
    } else {
        1_048_576
    };
    let pasadas: u32 = if passes < 1 {
        1
    } else if passes > 10 {
        10
    } else {
        passes as u32
    };
    Ok(ParametrosBenchmark {
        letra,
        size_bytes: tamano,
        block_size_bytes: bloque,
        aleatorio: iguales(mode, "random"),
        passes: pasadas,
    })
}

/// Por qué se detuvo un benchmark que llegó a ejecutarse.
#[derive(Debug, Clone, Copy, PartialEq, Eq, Structural)]
pub enum RazonParada {
    Completed,
    Cancelled,
    /// La guardia térmica lo detuvo.
    Thermal,
    /// Se quedó sin espacio.
    Space,
    Error,
}

/// El estado final de un benchmark detenido por `razon`: completado, cancelado, o fallido por
/// temperatura, espacio o error.
pub open spec fn estado_por_razon(razon: RazonParada) -> TestStatus {
    match razon {
        RazonParada::Completed => TestStatus::Completed,
        RazonParada::Cancelled => TestStatus::Cancelled,
        _ => TestStatus::Failed,
    }
}

/// El texto de `stopped_reason` de cada razón de parada.
pub open spec fn texto_de_razon(razon: RazonParada) -> Seq<char> {
    match razon {
        RazonParada::Completed => "completed"@,
        RazonParada::Cancelled => "cancelled"@,
        RazonParada::Thermal => "thermal"@,
        RazonParada::Space => "space"@,
        RazonParada::Error => "error"@,
    }
}

/// Estado final y `stopped_reason` de un benchmark que se detuvo por `razon`.
pub fn estado_de_benchmark(razon: RazonParada) -> (r: (TestStatus, &'static str))
    ensures
        r.0 == estado_por_razon(razon),
        r.1@ == texto_de_razon(razon),
{
    match razon {
        RazonParada::Completed => (TestStatus::Completed, "completed"),
        RazonParada::Cancelled => (TestStatus::Cancelled, "cancelled"),
        RazonParada::Thermal => (TestStatus::Failed, "thermal"),
        RazonParada::Space => (TestStatus::Failed, "space"),
        RazonParada::Error => (TestStatus::Failed, "error"),
    }
}

/// El desenlace de una prueba que falló con un error de E/S o de arranque: fallida, con
/// `stopped_reason` `"error"` y el texto del error como salida.
pub fn resumen_de_fallo(detalle: String) -> (r: (TestStatus, ResumenPrueba))
    ensures
        r.0 == TestStatus::Failed,
        r.1@.passed is None,
        r.1@.stopped_reason == Some("error"@),
        r.1@.output == Some(detalle@),
        r.1@.output_encoding is None,
{
    (
        TestStatus::Failed,
        ResumenPrueba {
            passed: None,
            stopped_reason: Some("error".to_owned()),
            output: Some(detalle),
            output_encoding: None,
        },
    )
}

/// El desenlace de una prueba cancelada: `stopped_reason` `"cancelled"` y nada más.
pub fn resumen_de_cancelacion() -> (r: (TestStatus, ResumenPrueba))
    ensures
        r.0 == TestStatus::Cancelled,
        r.1@.passed is None,
        r.1@.stopped_reason == Some("cancelled"@),
        r.1@.output is None,
        r.1@.output_encoding is None,
{
    (
        TestStatus::Cancelled,
        ResumenPrueba {
            passed: None,
            stopped_reason: Some("cancelled".to_owned()),
            output: None,
            output_encoding: None,
        },
    )
}

/// Por qué se rechaza `chkdsk /scan`, en el orden en que se comprueba: el volumen no existe;
/// su sistema de archivos no lo admite; no tiene letra de unidad; hay otra prueba en curso.
pub open spec fn rechazo_chkdsk(
    letra: Option<Option<char>>,
    admite_scan: bool,
    prueba_activa: bool,
) -> Option<(Seq<char>, Seq<char>)> {
    match letra {
        None => Some(("volume.not_found"@, "error.volumeNotFound"@)),
        Some(l) => if !admite_scan {
            Some(("test.unsupported"@, "error.testUnsupported"@))
        } else if l is None {
            Some(("path.invalid"@, "error.pathInvalid"@))
        } else if prueba_activa {
            Some(("test.busy"@, "error.testBusy"@))
        } else {
            None
        },
    }
}

/// Admite (o rechaza) `chkdsk /scan` sobre `volumen` (`None` si no existe); si se admite,
/// devuelve la letra de la unidad a examinar.
pub fn admitir_chkdsk(volumen: Option<&Volumen>, admite_scan: bool, prueba_activa: bool) -> (r:
    Result<char, AppError>)
    ensures
        r is Ok <==> rechazo_chkdsk(letra_de(volumen), admite_scan, prueba_activa) is None,
        r matches Err(e) ==> rechazo_chkdsk(letra_de(volumen), admite_scan, prueba_activa)
            matches Some((c, k)) && es_error(e, c, k),
        r matches Ok(l) ==> letra_de(volumen) == Some(Some(l)),
{
    let v = match volumen {
        None => {
            return Err(AppError::new("volume.not_found", "error.volumeNotFound"));
        },
        Some(v) => v,
    };
    if !admite_scan {
        return Err(AppError::new("test.unsupported", "error.testUnsupported"));
    }
    let letra = match primera_letra_unidad(v) {
        None => {
            return Err(AppError::new("path.invalid", "error.pathInvalid"));
        },
        Some(l) => l,
    };
    if prueba_activa {
        return Err(AppError::new("test.busy", "error.testBusy"));
    }
    Ok(letra)
}

/// Cómo acabó `chkdsk /scan`.
pub enum ResultadoChkdsk {
    /// El proceso terminó con `exit_status`; `texto` es su salida ya decodificada, en la
    /// `codificacion` que se detectó.
    Terminado { exit_status: i32, texto: String, codificacion: String },
    Cancelado,
    /// No se pudo lanzar o leer el proceso.
    Io(String),
}

/// Estado y resumen de un `chkdsk /scan`: terminado siempre cuenta como completado, aprobado
/// solo con código de salida 0 (`"completed"`, si no `"error"`) y con la salida y su
/// codificación; cancelado; o fallido con el texto del error.
pub fn resumen_chkdsk(resultado: ResultadoChkdsk) -> (r: (TestStatus, ResumenPrueba))
    ensures
        match resultado {
            ResultadoChkdsk::Terminado { exit_status, texto, codificacion } => {
                &&& r.0 == TestStatus::Completed
                &&& r.1@.passed == Some(exit_status == 0)
                &&& r.1@.stopped_reason == Some(
                    if exit_status == 0 {
                        "completed"@
                    } else {
                        "error"@
                    },
                )
                &&& r.1@.output == Some(texto@)
                &&& r.1@.output_encoding == Some(codificacion@)
            },
            ResultadoChkdsk::Cancelado => {
                &&& r.0 == TestStatus::Cancelled
                &&& r.1@.passed is None
                &&& r.1@.stopped_reason == Some("cancelled"@)
                &&& r.1@.output is None
                &&& r.1@.output_encoding is None
            },
            ResultadoChkdsk::Io(e) => {
                &&& r.0 == TestStatus::Failed
                &&& r.1@.passed is None
                &&& r.1@.stopped_reason == Some("error"@)
                &&& r.1@.output == Some(e@)
                &&& r.1@.output_encoding is None
            },
        },
{
    match resultado {
        ResultadoChkdsk::Terminado { exit_status, texto, codificacion } => {
            let aprobado = exit_status == 0;
            (
                TestStatus::Completed,
                ResumenPrueba {
                    passed: Some(aprobado),
                    stopped_reason: Some(
                        if aprobado {
                            "completed".to_owned()
                        } else {
                            "error".to_owned()
                        },
                    ),
                    output: Some(texto),
                    output_encoding: Some(codificacion),
                },
            )
        },
        ResultadoChkdsk::Cancelado => resumen_de_cancelacion(),
        ResultadoChkdsk::Io(e) => resumen_de_fallo(e),
    }
}

/// Por qué se rechaza el autotest corto, en el orden en que se comprueba: el dispositivo no
/// existe; no lo admite; hay otra prueba en curso; y, admitido y libre, no tiene ruta de
/// `smartctl` con la que lanzarlo (el veredicto de admisión ya la exige, así que entonces tampoco
/// lo admite).
pub open spec fn rechazo_autotest(existe: bool, admite: bool, prueba_activa: bool, tiene_ruta: bool) -> Option<
    (Seq<char>, Seq<char>),
> {
    if !existe {
        Some(("device.not_found"@, "error.deviceNotFound"@))
    } else if !admite {
        Some(("test.unsupported"@, "error.testUnsupported"@))
    } else if prueba_activa {
        Some(("test.busy"@, "error.testBusy"@))
    } else if !tiene_ruta {
        Some(("test.unsupported"@, "error.testUnsupported"@))
    } else {
        None
    }
}

/// Si el dispositivo, de existir, tiene ruta de `smartctl`.
pub open spec fn tiene_ruta(dispositivo: Option<&DispositivoDePrueba>) -> bool {
    dispositivo matches Some(d) && d.smartctl_path is Some
}

/// Admite (o rechaza) el autotest corto sobre `dispositivo` (`None` si no existe) y devuelve la
/// ruta de `smartctl` con la que lanzarlo. `admite` es el veredicto de si el dispositivo admite
/// el autotest, que exige tener ruta de `smartctl`.
pub fn admitir_autotest(dispositivo: Option<&DispositivoDePrueba>, admite: bool, prueba_activa: bool) -> (r:
    Result<String, AppError>)
    ensures
        r is Ok <==> rechazo_autotest(dispositivo is Some, admite, prueba_activa, tiene_ruta(dispositivo))
            is None,
        r matches Err(e) ==> rechazo_autotest(
            dispositivo is Some,
            admite,
            prueba_activa,
            tiene_ruta(dispositivo),
        ) matches Some((c, k)) && es_error(e, c, k),
        r matches Ok(ruta) ==> dispositivo matches Some(d) && d.smartctl_path matches Some(p)
            && ruta@ == p@,
{
    let d = match dispositivo {
        None => {
            return Err(AppError::new("device.not_found", "error.deviceNotFound"));
        },
        Some(d) => d,
    };
    if !admite {
        return Err(AppError::new("test.unsupported", "error.testUnsupported"));
    }
    if prueba_activa {
        return Err(AppError::new("test.busy", "error.testBusy"));
    }
    match &d.smartctl_path {
        Some(p) => Ok(p.clone()),
        None => Err(AppError::new("test.unsupported", "error.testUnsupported")),
    }
}

/// El texto con el que falla un autotest que no informa de un resultado final a tiempo.
pub const SIN_RESULTADO: &'static str =
    "El autotest no informó de un resultado final dentro del tiempo máximo de sondeo.";

/// Cómo acabó el sondeo del autotest corto.
pub enum ResultadoAutotest {
    /// No se pudo lanzar `smartctl`.
    FalloAlIniciar(String),
    Cancelado,
    /// El disco informó del resultado final, con su descripción si la dio.
    Terminado { passed: bool, descripcion: Option<String> },
    /// Se agotó el tiempo máximo de sondeo sin resultado final.
    SinResultado,
}

/// Estado y resumen del autotest corto: terminado cuenta como completado, aprobado o no
/// (`"completed"` o `"error"`), con la descripción del disco como salida; cancelado; fallido
/// con el error de arranque, o con el aviso de tiempo agotado.
pub fn resumen_autotest(resultado: ResultadoAutotest) -> (r: (TestStatus, ResumenPrueba))
    ensures
        match resultado {
            ResultadoAutotest::Terminado { passed, descripcion } => {
                &&& r.0 == TestStatus::Completed
                &&& r.1@.passed == Some(passed)
                &&& r.1@.stopped_reason == Some(
                    if passed {
                        "completed"@
                    } else {
                        "error"@
                    },
                )
                &&& r.1@.output == vista_opcional(descripcion)
                &&& r.1@.output_encoding is None
            },
            ResultadoAutotest::Cancelado => {
                &&& r.0 == TestStatus::Cancelled
                &&& r.1@.passed is None
                &&& r.1@.stopped_reason == Some("cancelled"@)
                &&& r.1@.output is None
                &&& r.1@.output_encoding is None
            },
            ResultadoAutotest::FalloAlIniciar(e) => {
                &&& r.0 == TestStatus::Failed
                &&& r.1@.passed is None
                &&& r.1@.stopped_reason == Some("error"@)
                &&& r.1@.output == Some(e@)
                &&& r.1@.output_encoding is None
            },
            ResultadoAutotest::SinResultado => {
                &&& r.0 == TestStatus::Failed
                &&& r.1@.passed is None
                &&& r.1@.stopped_reason == Some("error"@)
                &&& r.1@.output == Some(SIN_RESULTADO@)
                &&& r.1@.output_encoding is None
            },
        },
{
    match resultado {
        ResultadoAutotest::Terminado { passed, descripcion } => (
            TestStatus::Completed,
            ResumenPrueba {
                passed: Some(passed),
                stopped_reason: Some(
                    if passed {
                        "completed".to_owned()
                    } else {
                        "error".to_owned()
                    },
                ),
                output: descripcion,
                output_encoding: None,
            },
        ),
        ResultadoAutotest::Cancelado => resumen_de_cancelacion(),
        ResultadoAutotest::FalloAlIniciar(e) => resumen_de_fallo(e),
        ResultadoAutotest::SinResultado => resumen_de_fallo(SIN_RESULTADO.to_owned()),
    }
}

/// El benchmark corre siempre con un bloque positivo y entre una y diez pasadas: el bloque
/// pedido si es positivo, 1 MiB si no; las pasadas pedidas si están entre 1 y 10, y si no la
/// más cercana de esas.
pub proof fn los_parametros_del_benchmark_quedan_acotados(block_size_bytes: i64, passes: i64)
    ensures
        bloque_efectivo(block_size_bytes) > 0,
        block_size_bytes > 0 ==> bloque_efectivo(block_size_bytes) == block_size_bytes,
        block_size_bytes <= 0 ==> bloque_efectivo(block_size_bytes) == 1_048_576,
        1 <= pasadas_efectivas(passes) <= 10,
        1 <= passes <= 10 ==> pasadas_efectivas(passes) == passes,
        passes < 1 ==> pasadas_efectivas(passes) == 1,
        passes > 10 ==> pasadas_efectivas(passes) == 10,
{
}

/// El orden de los rechazos del benchmark: un volumen que no existe se rechaza como tal pase lo
/// que pase; uno ocupado, como ocupado aunque tampoco tenga letra ni espacio; y se admite
/// exactamente cuando existe, está libre, tiene letra y hay espacio.
pub proof fn el_benchmark_se_rechaza_por_orden(
    letra: Option<Option<char>>,
    prueba_activa: bool,
    tamano: Option<u64>,
)
    ensures
        letra is None ==> rechazo_benchmark(letra, prueba_activa, tamano) == Some(
            ("volume.not_found"@, "error.volumeNotFound"@),
        ),
        letra is Some && prueba_activa ==> rechazo_benchmark(letra, prueba_activa, tamano) == Some(
            ("test.busy"@, "error.testBusy"@),
        ),
        letra == Some(None::<char>) && !prueba_activa ==> rechazo_benchmark(letra, prueba_activa, tamano)
            == Some(("path.invalid"@, "error.pathInvalid"@)),
        rechazo_benchmark(letra, prueba_activa, tamano) is None <==> (letra matches Some(Some(_))
            && !prueba_activa && tamano is Some),
{
}

/// El orden de los rechazos de `chkdsk /scan`: volumen inexistente; sistema de archivos que no
/// lo admite, aunque esté ocupado o sin letra; sin letra; ocupado. Se admite exactamente cuando
/// existe, lo admite, tiene letra y está libre.
pub proof fn chkdsk_se_rechaza_por_orden(letra: Option<Option<char>>, admite: bool, activa: bool)
    ensures
        letra is None ==> rechazo_chkdsk(letra, admite, activa) == Some(
            ("volume.not_found"@, "error.volumeNotFound"@),
        ),
        letra is Some && !admite ==> rechazo_chkdsk(letra, admite, activa) == Some(
            ("test.unsupported"@, "error.testUnsupported"@),
        ),
        letra == Some(None::<char>) && admite ==> rechazo_chkdsk(letra, admite, activa) == Some(
            ("path.invalid"@, "error.pathInvalid"@),
        ),
        rechazo_chkdsk(letra, admite, activa) is None <==> (letra matches Some(Some(_)) && admite
            && !activa),
{
}

/// El orden de los rechazos del autotest: dispositivo inexistente; no admitido, aunque esté
/// ocupado; ocupado. Se admite exactamente cuando existe, lo admite, está libre y tiene ruta.
pub proof fn el_autotest_se_rechaza_por_orden(existe: bool, admite: bool, activa: bool, ruta: bool)
    ensures
        !existe ==> rechazo_autotest(existe, admite, activa, ruta) == Some(
            ("device.not_found"@, "error.deviceNotFound"@),
        ),
        existe && !admite ==> rechazo_autotest(existe, admite, activa, ruta) == Some(
            ("test.unsupported"@, "error.testUnsupported"@),
        ),
        existe && admite && activa ==> rechazo_autotest(existe, admite, activa, ruta) == Some(
            ("test.busy"@, "error.testBusy"@),
        ),
        rechazo_autotest(existe, admite, activa, ruta) is None <==> (existe && admite && !activa
            && ruta),
{
}

/// Solo el benchmark completado y el cancelado no fallan: temperatura, espacio y error dejan la
/// prueba fallida, y cada razón tiene su propio texto.
pub proof fn el_benchmark_falla_por_temperatura_espacio_o_error(r: RazonParada)
    ensures
        (estado_por_razon(r) == TestStatus::Failed) <==> (r == RazonParada::Thermal || r
            == RazonParada::Space || r == RazonParada::Error),
        estado_por_razon(RazonParada::Completed) == TestStatus::Completed,
        estado_por_razon(RazonParada::Cancelled) == TestStatus::Cancelled,
        forall|q: RazonParada| q != r ==> texto_de_razon(q) != texto_de_razon(r),
{
    reveal_strlit("completed");
    reveal_strlit("cancelled");
    reveal_strlit("thermal");
    reveal_strlit("space");
    reveal_strlit("error");
    assert forall|q: RazonParada| q != r implies texto_de_razon(q) != texto_de_razon(r) by {
        let a = texto_de_razon(q);
        let b = texto_de_razon(r);
        assert(a.len() != b.len() || a[0] != b[0] || a[1] != b[1]);
    }
}

} // verus!
