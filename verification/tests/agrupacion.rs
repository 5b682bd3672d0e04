use smartdisk::agrupacion::{
    deduplication_key, planificar, severidad_sube, Accion, GrupoExistente, Transicion,
};
use smartdisk::tipos::{AlertSeverity, AlertStatus};

fn grupo(status: AlertStatus, severity: AlertSeverity) -> Option<GrupoExistente> {
    Some(GrupoExistente { status, severity })
}

#[test]
fn la_clave_de_deduplicacion_prefiere_el_disco_al_volumen() {
    assert_eq!(
        deduplication_key("smart.wear_high", Some("d1"), Some("v1"), None),
        "smart.wear_high|device:d1"
    );
    assert_eq!(
        deduplication_key("capacity.low", None, Some("v1"), None),
        "capacity.low|volume:v1"
    );
    assert_eq!(
        deduplication_key("collector.stalled", None, None, Some("smartctl")),
        "collector.stalled|sin_objetivo|smartctl"
    );
}

#[test]
fn distinto_contexto_da_distinta_clave() {
    let a = deduplication_key("events.disk_error", Some("d1"), None, Some("disk:7"));
    let b = deduplication_key("events.disk_error", Some("d1"), None, Some("disk:51"));
    let c = deduplication_key("events.disk_error", Some("d1"), None, None);
    assert_ne!(a, b);
    assert_ne!(a, c);
}

#[test]
fn solo_sube_de_aviso_a_critico() {
    assert!(severidad_sube(AlertSeverity::Critical, AlertSeverity::Warning));
    assert!(!severidad_sube(AlertSeverity::Warning, AlertSeverity::Critical));
    assert!(!severidad_sube(AlertSeverity::Critical, AlertSeverity::Critical));
}

#[test]
fn una_activacion_sin_grupo_previo_crea_un_grupo_activo() {
    let p = planificar(None, Some(AlertSeverity::Critical), false, None);
    assert_eq!(p.transicion, Transicion::CreadaActiva);
    assert_eq!(p.acciones, vec![Accion::CrearGrupo { severidad: AlertSeverity::Critical }]);
    let nada = planificar(None, None, true, Some(3));
    assert_eq!(nada.transicion, Transicion::SinCambio);
    assert!(nada.acciones.is_empty());
}

#[test]
fn repetir_la_activacion_registra_una_ocurrencia_sobre_el_mismo_grupo() {
    let p = planificar(
        grupo(AlertStatus::Active, AlertSeverity::Warning),
        Some(AlertSeverity::Warning),
        false,
        Some(42),
    );
    assert_eq!(p.transicion, Transicion::OcurrenciaRepetida);
    assert_eq!(
        p.acciones,
        vec![Accion::RegistrarOcurrencia, Accion::EstamparEventoDisparador { evento_id: 42 }]
    );
}

#[test]
fn reconocida_que_sube_de_severidad_vuelve_a_activa() {
    let p = planificar(
        grupo(AlertStatus::Acknowledged, AlertSeverity::Warning),
        Some(AlertSeverity::Critical),
        false,
        None,
    );
    assert_eq!(p.transicion, Transicion::Escalada);
    assert_eq!(
        p.acciones,
        vec![
            Accion::RegistrarOcurrencia,
            Accion::CambiarSeveridad { severidad: AlertSeverity::Critical },
            Accion::CambiarEstado { estado: AlertStatus::Active },
        ]
    );
}

#[test]
fn reconocida_que_baja_de_severidad_se_queda_reconocida() {
    let p = planificar(
        grupo(AlertStatus::Acknowledged, AlertSeverity::Critical),
        Some(AlertSeverity::Warning),
        false,
        None,
    );
    assert_eq!(p.transicion, Transicion::OcurrenciaRepetida);
    assert_eq!(
        p.acciones,
        vec![
            Accion::RegistrarOcurrencia,
            Accion::CambiarSeveridad { severidad: AlertSeverity::Warning },
        ]
    );
}

#[test]
fn recaer_tras_resolverse_abre_un_ciclo_nuevo() {
    for estado in [AlertStatus::Resolved, AlertStatus::Archived] {
        let p = planificar(grupo(estado, AlertSeverity::Warning), Some(AlertSeverity::Critical), false, None);
        assert_eq!(p.transicion, Transicion::Reactivada);
        assert_eq!(
            p.acciones,
            vec![
                Accion::ReabrirNuevoCiclo,
                Accion::CambiarSeveridad { severidad: AlertSeverity::Critical },
            ]
        );
    }
}

#[test]
fn resolver_solo_cambia_un_grupo_activo_o_reconocido() {
    let p = planificar(grupo(AlertStatus::Active, AlertSeverity::Warning), None, true, Some(1));
    assert_eq!(p.transicion, Transicion::Resuelta);
    assert_eq!(p.acciones, vec![Accion::CambiarEstado { estado: AlertStatus::Resolved }]);
    let aun_no = planificar(grupo(AlertStatus::Active, AlertSeverity::Warning), None, false, None);
    assert_eq!(aun_no.transicion, Transicion::SinCambio);
    let ya_resuelto = planificar(grupo(AlertStatus::Resolved, AlertSeverity::Warning), None, true, None);
    assert_eq!(ya_resuelto.transicion, Transicion::SinCambio);
}

#[test]
fn un_grupo_ignorado_registra_la_ocurrencia_sin_cambiar_de_estado() {
    let p = planificar(
        grupo(AlertStatus::Ignored, AlertSeverity::Warning),
        Some(AlertSeverity::Critical),
        false,
        Some(9),
    );
    assert_eq!(p.transicion, Transicion::OcurrenciaIgnorada);
    assert_eq!(
        p.acciones,
        vec![Accion::RegistrarOcurrencia, Accion::EstamparEventoDisparador { evento_id: 9 }]
    );
}
