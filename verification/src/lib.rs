//! Núcleo verificado de un monitor de salud de discos: reglas de alerta, su agrupación y ciclo
//! de vida, la correlación de eventos del sistema y el análisis de lo que entregan los
//! colectores.
use vstd::prelude::*;

pub mod agrupacion;
pub mod ajustes;
pub mod capacidad;
pub mod ciclo;
pub mod commands;
pub mod correlacion_rafaga;
pub mod deteccion;
pub mod event_log;
pub mod eventos;
pub mod inventario;
pub mod motor;
pub mod notificaciones;
pub mod perf_counters;
pub mod planificador;
pub mod pruebas;
pub mod reglas;
pub mod reglas_eventos;
pub mod smartctl;
pub mod smartctl_parser;
pub mod texto;
pub mod tipos;
pub mod windows_storage;

verus! {
} // verus!
