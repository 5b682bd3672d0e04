//! Vocabulario del dominio compartido por alertas, colectores y comandos.
use vstd::prelude::*;

verus! {

/// Severidad de una alerta.
#[derive(Debug, Clone, Copy, PartialEq, Eq, Hash, Structural)]
pub enum AlertSeverity {
    Warning,
    Critical,
}

/// Estado del ciclo de vida de un grupo de alerta.
#[derive(Debug, Clone, Copy, PartialEq, Eq, Hash, Structural)]
pub enum AlertStatus {
    Active,
    Acknowledged,
    Resolved,
    Archived,
    Ignored,
}

/// Nivel de un evento del registro de Windows.
#[derive(Debug, Clone, Copy, PartialEq, Eq, Hash, Structural)]
pub enum EventLevel {
    Critical,
    Error,
    Warning,
    Information,
}

/// Confianza de la atribución de un evento o volumen a un disco.
#[derive(Debug, Clone, Copy, PartialEq, Eq, Hash, Structural)]
pub enum MappingConfidence {
    Exact,
    Unknown,
}

/// Fuente de una métrica.
#[derive(Debug, Clone, Copy, PartialEq, Eq, Hash, Structural)]
pub enum MetricSource {
    Smartctl,
    WindowsStorage,
    PerformanceCounter,
}

/// Tipo de dispositivo de almacenamiento.
#[derive(Debug, Clone, Copy, PartialEq, Eq, Hash, Structural)]
pub enum DeviceType {
    Nvme,
    SataSsd,
    Hdd,
    Usb,
    RaidLogical,
    Virtual,
    Unknown,
}

/// Error que viaja a la interfaz: un código estable, la clave de i18n del mensaje, un detalle
/// opcional y si tiene sentido reintentar.
#[derive(Debug, Clone)]
pub struct AppError {
    pub code: String,
    pub message_key: String,
    pub detail: Option<String>,
    pub retryable: bool,
}

impl AppError {
    /// Error sin detalle y no reintentable.
    pub fn new(code: &str, message_key: &str) -> (r: AppError)
        ensures
            r.code@ == code@,
            r.message_key@ == message_key@,
            r.detail is None,
            !r.retryable,
    {
        AppError {
            code: code.to_owned(),
            message_key: message_key.to_owned(),
            detail: None,
            retryable: false,
        }
    }

    /// El mismo error con `detail`.
    pub fn with_detail(self, detail: String) -> (r: AppError)
        ensures
            r.code == self.code,
            r.message_key == self.message_key,
            r.detail == Some(detail),
            r.retryable == self.retryable,
    {
        AppError { detail: Some(detail), ..self }
    }

    /// El mismo error marcado como reintentable.
    pub fn retryable(self) -> (r: AppError)
        ensures
            r.code == self.code,
            r.message_key == self.message_key,
            r.detail == self.detail,
            r.retryable,
    {
        AppError { retryable: true, ..self }
    }
}

/// Un `AppError` con sus textos como secuencias.
pub struct VistaAppError {
    pub code: Seq<char>,
    pub message_key: Seq<char>,
    pub detail: Option<Seq<char>>,
    pub retryable: bool,
}

impl View for AppError {
    type V = VistaAppError;

    open spec fn view(&self) -> VistaAppError {
        VistaAppError {
            code: self.code@,
            message_key: self.message_key@,
            detail: match self.detail {
                Some(d) => Some(d@),
                None => None,
            },
            retryable: self.retryable,
        }
    }
}

impl AppError {
    /// Una copia con los mismos campos.
    pub fn copia(&self) -> (r: AppError)
        ensures
            r@ == self@,
    {
        AppError {
            code: self.code.clone(),
            message_key: self.message_key.clone(),
            detail: match &self.detail {
                Some(d) => Some(d.clone()),
                None => None,
            },
            retryable: self.retryable,
        }
    }
}

} // verus!
