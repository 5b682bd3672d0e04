use smartdisk::correlacion_rafaga::ResultadoCorrelacion as RC;
use smartdisk::eventos::{decidir_evento, DecisionEvento};
use smartdisk::eventos::{
    contar_en_ventana_de_frecuencia, contexto_de_duplicado, evento_se_evalua, orden_de_evaluacion,
    provider_event_id, resolver_objetivo, severidad_de_evento, severidad_de_extraccion,
    severidad_por_baja, EventoParaRegla, Severidad,
};
use smartdisk::reglas_eventos::{clasificar, pares_de, Evaluacion};
use smartdisk::tipos::{AlertSeverity, EventLevel, MappingConfidence};

fn evento(id: i64, provider: &str, event_id: i64, device: Option<&str>, volume: Option<&str>) -> EventoParaRegla {
    EventoParaRegla {
        id,
        provider: provider.to_string(),
        event_id,
        occurred_at: 0,
        level: EventLevel::Warning,
        device_id: device.map(str::to_string),
        volume_id: volume.map(str::to_string),
        mapping_confidence: MappingConfidence::Exact,
        es_extraible: false,
        message: None,
    }
}

#[test]
fn las_extracciones_imprevistas_se_evaluan_primero() {
    let eventos = vec![
        evento(1, "Ntfs", 55, None, None),
        evento(2, "disk", 157, None, None),
        evento(3, "disk", 7, None, None),
        evento(4, "Disk", 157, None, None),
    ];
    assert_eq!(orden_de_evaluacion(&eventos), vec![1, 3, 0, 2]);
    assert!(orden_de_evaluacion(&[]).is_empty());
}

#[test]
fn la_informacion_y_los_extraibles_de_reglas_fijas_no_se_evaluan() {
    let paging = clasificar("disk", 51).expect("disk 51 tiene fila");
    assert!(evento_se_evalua(&paging, EventLevel::Warning, false));
    assert!(!evento_se_evalua(&paging, EventLevel::Warning, true));
    assert!(!evento_se_evalua(&paging, EventLevel::Information, false));
    let disk_error = clasificar("disk", 7).expect("disk 7 tiene fila");
    assert!(evento_se_evalua(&disk_error, EventLevel::Error, true));
}

#[test]
fn la_severidad_depende_de_la_evaluacion_de_la_regla() {
    let inmediata = Evaluacion::Inmediata { severidad: AlertSeverity::Critical };
    assert_eq!(
        severidad_de_evento(inmediata, true, false, 0),
        Severidad::Activa(AlertSeverity::Critical)
    );
    let por_bus = Evaluacion::SegunBus { fijo: AlertSeverity::Critical, usb: AlertSeverity::Warning };
    assert_eq!(severidad_de_evento(por_bus, true, true, 0), Severidad::Activa(AlertSeverity::Warning));
    assert_eq!(severidad_de_evento(por_bus, false, true, 0), Severidad::Activa(AlertSeverity::Critical));
    let frecuencia = Evaluacion::PorFrecuencia {
        min_en_1h: 1,
        severidad: AlertSeverity::Warning,
        escala_crit_en_1h: Some(3),
    };
    assert_eq!(severidad_de_evento(frecuencia, false, true, 1), Severidad::Activa(AlertSeverity::Warning));
    assert_eq!(severidad_de_evento(frecuencia, false, true, 3), Severidad::Activa(AlertSeverity::Critical));
    assert_eq!(severidad_de_evento(frecuencia, false, false, 3), Severidad::NoSeActiva);
    let umbral = Evaluacion::PorFrecuencia {
        min_en_1h: 5,
        severidad: AlertSeverity::Warning,
        escala_crit_en_1h: None,
    };
    assert_eq!(severidad_de_evento(umbral, false, true, 4), Severidad::NoSeActiva);
    assert_eq!(severidad_de_evento(umbral, false, true, 5), Severidad::Activa(AlertSeverity::Warning));
    assert_eq!(severidad_de_evento(Evaluacion::Especial, false, true, 0), Severidad::CaminoPropio);
}

#[test]
fn el_objetivo_sin_atribucion_cae_a_provider_event_id() {
    assert_eq!(provider_event_id("disk", 7), "disk:7");
    let disk_error = clasificar("disk", 7).unwrap();
    let con_disco = resolver_objetivo(&disk_error, &evento(1, "disk", 7, Some("d1"), None));
    assert_eq!(con_disco, (Some("d1".to_string()), None, Some("disk:7".to_string())));
    let sin_disco = resolver_objetivo(&disk_error, &evento(1, "disk", 7, None, None));
    assert_eq!(sin_disco, (None, None, Some("disk:7".to_string())));
}

#[test]
fn la_ventana_de_frecuencia_cuenta_todas_las_variantes_de_la_regla() {
    let pares = pares_de("events.controller_reset");
    let eventos = vec![
        ("disk".to_string(), 11),
        ("StorNVMe".to_string(), 129),
        ("disk".to_string(), 7),
        ("storahci".to_string(), 129),
    ];
    assert_eq!(contar_en_ventana_de_frecuencia(&pares, &eventos), 3);
    assert_eq!(contar_en_ventana_de_frecuencia(&pares, &[]), 0);
}

#[test]
fn la_baja_de_un_disco_fijo_es_critica_y_la_de_un_usb_no_alerta() {
    assert_eq!(severidad_por_baja(false), Some(AlertSeverity::Critical));
    assert_eq!(severidad_por_baja(true), None);
    assert_eq!(severidad_de_extraccion(true), AlertSeverity::Warning);
    assert_eq!(severidad_de_extraccion(false), AlertSeverity::Critical);
}

#[test]
fn duplicate_id_sin_par_legible_cae_a_provider_event_id() {
    assert_eq!(
        contexto_de_duplicado("disk", 158, Some("El disco 2 tiene el mismo id que el disco 1")),
        "1+2"
    );
    assert_eq!(contexto_de_duplicado("disk", 158, Some("sin pareja")), "disk:158");
    assert_eq!(contexto_de_duplicado("disk", 158, None), "disk:158");
}

#[test]
fn la_decision_sobre_un_evento_sigue_nivel_correlacion_y_frecuencia() {
    let error_disco = clasificar("disk", 7).unwrap();
    let e = evento(1, "disk", 7, Some("d1"), None);
    assert_eq!(
        decidir_evento(&error_disco, &e, RC::SiguePropiaRegla, 0),
        DecisionEvento::Aplicar { severidad: AlertSeverity::Critical, reasignar_derivados: false }
    );
    assert_eq!(
        decidir_evento(&error_disco, &e, RC::OcurrenciaDeExtraccion { causa_event_id: 9 }, 0),
        DecisionEvento::OcurrenciaDeExtraccion
    );
    // Sin disco, la correlación no cuenta.
    let sin_disco = evento(2, "disk", 7, None, None);
    assert_eq!(
        decidir_evento(&error_disco, &sin_disco, RC::OcurrenciaDeExtraccion { causa_event_id: 9 }, 0),
        DecisionEvento::Aplicar { severidad: AlertSeverity::Critical, reasignar_derivados: false }
    );
    let mut informativo = evento(3, "disk", 7, Some("d1"), None);
    informativo.level = EventLevel::Information;
    assert_eq!(decidir_evento(&error_disco, &informativo, RC::SiguePropiaRegla, 0), DecisionEvento::NoSeEvalua);

    let extraccion = clasificar("disk", 157).unwrap();
    let causa = evento(4, "disk", 157, Some("d1"), None);
    assert_eq!(
        decidir_evento(&extraccion, &causa, RC::EsCausaConDerivadosPrevios, 0),
        DecisionEvento::Aplicar { severidad: AlertSeverity::Critical, reasignar_derivados: true }
    );

    let reset = clasificar("disk", 11).unwrap();
    let r = evento(5, "disk", 11, Some("d1"), None);
    assert_eq!(decidir_evento(&reset, &r, RC::SiguePropiaRegla, 0), DecisionEvento::NoSeActiva);
    assert_eq!(
        decidir_evento(&reset, &r, RC::SiguePropiaRegla, 3),
        DecisionEvento::Aplicar { severidad: AlertSeverity::Critical, reasignar_derivados: false }
    );
    let duplicado = clasificar("disk", 158).unwrap();
    let d = evento(6, "disk", 158, None, None);
    assert_eq!(decidir_evento(&duplicado, &d, RC::SiguePropiaRegla, 0), DecisionEvento::CaminoPropio);
}
