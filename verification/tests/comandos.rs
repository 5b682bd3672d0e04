use smartdisk::ajustes::{validar_ajuste, Admision, ValorAjuste};
use smartdisk::ajustes::{
    claves_de_validacion, error_clave_desconocida, error_de_tipo, regla_de_ajuste,
    tipo_de_valor, trabajo_de, validar_texto, ReglaAjuste, TipoValor,
};
use smartdisk::commands::{
    actualizar_source_health, ambito_de_refresco, cadencia_esperada_ms, clave_descripcion_entrada,
    claves_por_ambito, comprobar_frase_confirmacion, disk_number_from_smartctl_path,
    error_de_base_de_datos, evento_a_wire, hash_de_deduplicacion, nivel_a_wire, nivel_desde_wire,
    fuente_de_serie, intervalo_esperado_ms, parsear_cursor, resolucion_de_serie, unidad_para,
    AmbitoRefresco, ErrorAmbito, EstadoFuentes, FuenteSerie, Resolution, SourceStatus,
    SystemEvent, FRASE_CONFIRMACION_BORRAR_TODO,
};
use smartdisk::planificador::smart_completo;
use smartdisk::tipos::{AppError, EventLevel, MappingConfidence as MC, MetricSource};

#[test]
fn un_ambito_fuera_del_contrato_normativo_no_se_implementa_en_silencio() {
    fn clasificar(scope: &str) -> Result<(), ()> {
        match ambito_de_refresco(scope, Some("d1".to_string())) {
            Ok(_) => Ok(()),
            Err(_) => Err(()),
        }
    }
    for ambito_invalido in ["inventory", "smart", "metrics", "events", ""] {
        assert!(clasificar(ambito_invalido).is_err(), "«{ambito_invalido}» no es del contrato");
    }
    assert!(clasificar("all").is_ok());
    assert!(clasificar("device").is_ok());
}

#[test]
fn el_ambito_device_exige_un_disco() {
    assert!(matches!(ambito_de_refresco("all", None), Ok(AmbitoRefresco::Todo)));
    match ambito_de_refresco("device", Some("d7".to_string())) {
        Ok(AmbitoRefresco::Dispositivo(id)) => assert_eq!(id, "d7"),
        _ => panic!("se esperaba el disco d7"),
    }
    assert!(matches!(
        ambito_de_refresco("device", None),
        Err(ErrorAmbito::DispositivoNoIndicado)
    ));
    assert!(matches!(
        ambito_de_refresco("smart", None),
        Err(ErrorAmbito::NoImplementado)
    ));
}

#[test]
fn clave_de_descripcion_distingue_cada_categoria_de_entrada() {
    let indice: String = ['m', 'a', 'n', 'i', 'f', 'e', 's', 't'].iter().collect();
    assert_eq!(
        clave_descripcion_entrada(&format!("{indice}.json")),
        format!("diagnostic.entry.{indice}")
    );
    assert_eq!(clave_descripcion_entrada("settings.json"), "diagnostic.entry.settings");
    assert_eq!(clave_descripcion_entrada("events.json"), "diagnostic.entry.events");
    assert_eq!(clave_descripcion_entrada("smart/d1.json"), "diagnostic.entry.smart");
    assert_eq!(
        clave_descripcion_entrada("logs/smartdisk.log.2026-09-04"),
        "diagnostic.entry.logs"
    );
}

#[test]
fn una_entrada_desconocida_tiene_su_propia_clave() {
    assert_eq!(clave_descripcion_entrada("otro.bin"), "diagnostic.entry.other");
    assert_eq!(clave_descripcion_entrada("smart"), "diagnostic.entry.other");
}

#[test]
fn la_frase_de_confirmacion_es_el_nombre_de_la_aplicacion_y_nada_mas() {
    assert_eq!(FRASE_CONFIRMACION_BORRAR_TODO, "SmartDisk Monitor");
    assert_ne!(FRASE_CONFIRMACION_BORRAR_TODO, "smartdisk monitor");
}

#[test]
fn solo_la_frase_exacta_permite_borrar_todo() {
    assert!(comprobar_frase_confirmacion("SmartDisk Monitor").is_ok());
    let err = comprobar_frase_confirmacion("smartdisk monitor").unwrap_err();
    assert_eq!(err.code, "ipc.schema_mismatch");
    assert_eq!(err.message_key, "error.confirmationPhraseMismatch");
    assert_eq!(err.detail.as_deref(), Some("la frase escrita no coincide"));
    assert!(!err.retryable);
}

#[test]
fn nivel_de_evento_ida_y_vuelta_normaliza_critico_a_error() {
    assert_eq!(nivel_a_wire(EventLevel::Critical), "error");
    assert_eq!(nivel_a_wire(EventLevel::Error), "error");
    assert_eq!(nivel_a_wire(EventLevel::Warning), "warning");
    assert_eq!(nivel_a_wire(EventLevel::Information), "info");

    assert_eq!(nivel_desde_wire("error"), EventLevel::Error);
    assert_eq!(nivel_desde_wire("warning"), EventLevel::Warning);
    assert_eq!(nivel_desde_wire("info"), EventLevel::Information);
    assert_eq!(nivel_desde_wire("lo-que-sea"), EventLevel::Information);
}

#[test]
fn parsear_cursor_separa_tiempo_e_id_y_rechaza_lo_que_no_encaja() {
    assert_eq!(
        parsear_cursor("2026-09-04T00:00:00Z|42"),
        Some(("2026-09-04T00:00:00Z".to_string(), 42))
    );
    assert_eq!(parsear_cursor("sin separador"), None);
    assert_eq!(parsear_cursor("2026-09-04T00:00:00Z|no-es-numero"), None);
}

#[test]
fn el_cursor_se_corta_en_el_primer_separador() {
    assert_eq!(parsear_cursor("|7"), Some((String::new(), 7)));
    assert_eq!(parsear_cursor("a|b|3"), None);
    assert_eq!(parsear_cursor("a|-3"), Some(("a".to_string(), -3)));
}

fn evento(id: i64, record_id: i64) -> SystemEvent {
    SystemEvent {
        id,
        channel: "System".to_string(),
        record_id,
        occurred_at_utc: "2026-09-04T00:00:00Z".to_string(),
        provider: "disk".to_string(),
        event_id: 51,
        level: EventLevel::Warning,
        message: Some("mensaje de prueba".to_string()),
        raw_xml: Some("<Event/>".to_string()),
        device_id: None,
        volume_id: None,
        mapping_confidence: MC::Unknown,
        dedup_hash: format!("hash-{record_id}"),
    }
}

#[test]
fn evento_a_wire_traduce_el_nivel_y_declara_si_tiene_xml() {
    let wire = evento_a_wire(&evento(1, 100));
    assert_eq!(wire.level, "warning");
    assert_eq!(wire.message, "mensaje de prueba");
    assert!(wire.has_raw_xml);
}

#[test]
fn evento_a_wire_sin_mensaje_ni_xml() {
    let mut e = evento(-12, 100);
    e.message = None;
    e.raw_xml = None;
    e.level = EventLevel::Critical;
    let wire = evento_a_wire(&e);
    assert_eq!(wire.id, "-12");
    assert_eq!(wire.message, "");
    assert_eq!(wire.level, "error");
    assert!(!wire.has_raw_xml);
    assert_eq!(wire.occurred_at, "2026-09-04T00:00:00Z");
    assert_eq!(wire.provider, "disk");
    assert_eq!(wire.event_id, 51);
}

#[test]
fn claves_por_ambito_all_incluye_los_tres_grupos_mas_ciclo_de_vida_y_registro() {
    let claves = claves_por_ambito("all");
    assert!(claves.contains(&"schedule.metrics_fast_seconds"));
    assert!(claves.contains(&"alerts.temp_configured_warn_c"));
    assert!(claves.contains(&"retention.raw_days"));
    assert!(claves.contains(&"lifecycle.close_action"));
    assert!(claves.contains(&"logging.verbose"));
}

#[test]
fn claves_por_ambito_un_ambito_desconocido_cae_a_todas() {
    assert_eq!(claves_por_ambito("lo-que-sea"), claves_por_ambito("all"));
}

#[test]
fn cada_ambito_restaura_solo_su_grupo() {
    assert_eq!(claves_por_ambito("schedule").len(), 4);
    assert_eq!(claves_por_ambito("alerts").len(), 7);
    assert_eq!(claves_por_ambito("retention").len(), 5);
    assert_eq!(claves_por_ambito("all").len(), 20);
    assert!(!claves_por_ambito("retention").contains(&"logging.verbose"));
}

#[test]
fn la_ruta_de_smartctl_da_el_numero_de_disco() {
    assert_eq!(disk_number_from_smartctl_path("/dev/pd0"), Some(0));
    assert_eq!(disk_number_from_smartctl_path("/dev/pd12"), Some(12));
    assert_eq!(disk_number_from_smartctl_path("/dev/sda"), None);
    assert_eq!(disk_number_from_smartctl_path(r"\\.\PhysicalDrive0"), None);
    assert_eq!(disk_number_from_smartctl_path("/dev/pd"), None);
}

#[test]
fn cadencia_y_unidad_de_cada_metrica() {
    assert_eq!(cadencia_esperada_ms("temperature_celsius"), 30_000);
    assert_eq!(cadencia_esperada_ms("volume_free_percent"), 30_000);
    assert_eq!(cadencia_esperada_ms("percentage_used"), 300_000);
    assert_eq!(unidad_para("temperature_celsius"), "celsius");
    assert_eq!(unidad_para("percentage_used"), "percent");
    assert_eq!(unidad_para("read_bytes_per_second"), "bytes_per_second");
    assert_eq!(unidad_para("write_latency_ms"), "milliseconds");
    assert_eq!(unidad_para("power_on_hours"), "hours");
    assert_eq!(unidad_para("data_read_bytes_total"), "bytes");
    assert_eq!(unidad_para("volume_free_bytes"), "bytes");
    assert_eq!(unidad_para("power_cycles"), "count");
}

#[test]
fn un_error_de_bloqueo_de_la_base_se_marca_reintentable() {
    let e = error_de_base_de_datos("database is locked");
    assert_eq!(e.code, "db.locked");
    assert_eq!(e.message_key, "error.dbLocked");
    assert!(e.retryable);
    let e = error_de_base_de_datos("no such table: devices");
    assert_eq!(e.code, "db.query_failed");
    assert_eq!(e.message_key, "error.dbQueryFailed");
    assert_eq!(e.detail.as_deref(), Some("no such table: devices"));
    assert!(!e.retryable);
    assert!(error_de_base_de_datos("database busy").retryable);
}

#[test]
fn la_huella_de_deduplicacion_es_el_sha256_en_hexadecimal() {
    let h = hash_de_deduplicacion("disk", 7, "2026-09-04T00:00:00Z", Some("m"));
    assert_eq!(h.len(), 64);
    assert!(h.chars().all(|c| c.is_ascii_digit() || ('a'..='f').contains(&c)));
    assert_eq!(
        hash_de_deduplicacion("", 0, "", None),
        hash_de_deduplicacion("", 0, "", Some(""))
    );
    assert_ne!(
        hash_de_deduplicacion("disk", 7, "t", None),
        hash_de_deduplicacion("disk", 8, "t", None)
    );
    assert_eq!(
        hash_de_deduplicacion("a", 1, "b", Some("c")),
        "cf35257535fe65f2c8e70c9d90b678b7d66a67c91082bf26c889ba8129c96f50"
    );
    assert_eq!(
        hash_de_deduplicacion("disk", -7, "2026-09-04T00:00:00Z", None),
        "da0b2db181dbdef6d00aed2a34f4db9b6f8cc77422cd6680cdf3e7da0bfc962a"
    );
    assert_eq!(
        hash_de_deduplicacion("Ñ", 0, "", Some("m")),
        "109dba1428092549dd0c79a9c7dec1289d7c352e0e9bc4a0bb24d02fa6692c9d"
    );
}

// ---- estado de las fuentes ----

#[test]
fn una_fuente_que_empieza_a_fallar_avisa_una_sola_vez() {
    let mut mapa = EstadoFuentes::new();
    let error = AppError::new("smart.timeout", "error.timeout").retryable();
    let r = actualizar_source_health(
        &mut mapa,
        MetricSource::Smartctl,
        2,
        2,
        Some(error.copia()),
        "2026-09-04T00:00:00Z",
    );
    let degradada = r.expect("flanco de subida");
    assert_eq!(degradada.status, SourceStatus::Timeout);
    assert_eq!(degradada.last_success_at, None);
    let otra = actualizar_source_health(
        &mut mapa,
        MetricSource::Smartctl,
        2,
        2,
        None,
        "2026-09-04T00:05:00Z",
    );
    assert!(otra.is_none(), "ya estaba degradada");
    assert_eq!(mapa.get(MetricSource::Smartctl).unwrap().status, SourceStatus::Error);
    assert!(mapa.get(MetricSource::WindowsStorage).is_none());
}

#[test]
fn sin_intentos_no_se_toca_nada_y_un_exito_guarda_la_fecha() {
    let mut mapa = EstadoFuentes::new();
    assert!(actualizar_source_health(&mut mapa, MetricSource::Smartctl, 0, 0, None, "t0").is_none());
    assert!(mapa.fuentes().is_empty());
    assert!(actualizar_source_health(&mut mapa, MetricSource::PerformanceCounter, 3, 1, None, "t1")
        .is_some());
    let h = mapa.get(MetricSource::PerformanceCounter).unwrap();
    assert_eq!(h.status, SourceStatus::Error);
    assert_eq!(h.last_success_at.as_deref(), Some("t1"));
    assert_eq!(h.last_attempt_at.as_deref(), Some("t1"));
    actualizar_source_health(&mut mapa, MetricSource::PerformanceCounter, 3, 3, None, "t2");
    let h = mapa.get(MetricSource::PerformanceCounter).unwrap();
    assert_eq!(h.last_success_at.as_deref(), Some("t1"), "el último éxito se conserva");
    actualizar_source_health(&mut mapa, MetricSource::WindowsStorage, 1, 0, None, "t3");
    assert_eq!(mapa.get(MetricSource::WindowsStorage).unwrap().status, SourceStatus::Nominal);
    let fuentes = mapa.fuentes();
    assert_eq!(fuentes.len(), 2);
    assert_eq!(fuentes[0].source, MetricSource::WindowsStorage);
    assert_eq!(fuentes[1].source, MetricSource::PerformanceCounter);
}

// ---- ajustes ----

#[test]
fn cada_clave_de_ajuste_tiene_su_regla() {
    assert_eq!(
        regla_de_ajuste("schedule.smart_full_seconds"),
        Some(ReglaAjuste::FrecuenciaSmartCompleto)
    );
    assert_eq!(regla_de_ajuste("storage.free_space_halt_bytes"), Some(ReglaAjuste::BytesPositivos));
    assert_eq!(regla_de_ajuste("settings.appearance.theme"), Some(ReglaAjuste::Tema));
    assert_eq!(regla_de_ajuste("logging.verbose"), None);
    assert_eq!(regla_de_ajuste("clave.inventada"), None);
    assert_eq!(tipo_de_valor(ReglaAjuste::TemperaturaAviso), TipoValor::Numero);
    assert_eq!(tipo_de_valor(ReglaAjuste::Idioma), TipoValor::Cadena);
    assert_eq!(tipo_de_valor(ReglaAjuste::RetencionCruda), TipoValor::Entero);
    let t = trabajo_de(ReglaAjuste::FrecuenciaSmartCompleto).unwrap();
    assert_eq!(t.por_defecto, smart_completo().por_defecto);
    assert!(trabajo_de(ReglaAjuste::Tema).is_none());
    assert_eq!(
        claves_de_validacion(ReglaAjuste::SueloAviso),
        vec![
            "alerts.capacity_absolute_floor_min_capacity_bytes",
            "alerts.capacity_absolute_floor_crit_bytes"
        ]
    );
}

#[test]
fn los_valores_de_texto_se_validan_con_su_detalle() {
    assert!(validar_texto(ReglaAjuste::AccionCierre, "exit").is_ok());
    let e = validar_texto(ReglaAjuste::AccionCierre, "close").unwrap_err();
    assert_eq!(e.code, "ipc.schema_mismatch");
    assert_eq!(e.detail.as_deref(), Some("se esperaba \"minimize\" o \"exit\""));
    assert!(validar_texto(ReglaAjuste::Tema, "system").is_ok());
    assert!(validar_texto(ReglaAjuste::Tema, "System").is_err());
    assert!(validar_texto(ReglaAjuste::Idioma, "fr").is_err());
    assert_eq!(
        error_de_tipo(TipoValor::Booleano).detail.as_deref(),
        Some("se esperaba un booleano")
    );
    assert_eq!(
        error_clave_desconocida("x.y").detail.as_deref(),
        Some("clave de ajuste desconocida: x.y")
    );
}

// ---- series de métricas ----

fn instante(rfc3339: &str) -> i128 {
    time::OffsetDateTime::parse(rfc3339, &time::format_description::well_known::Rfc3339)
        .unwrap()
        .unix_timestamp_nanos()
}

#[test]
fn la_resolucion_de_una_serie_depende_de_su_ancho_y_su_antiguedad() {
    let ahora = instante("2026-09-10T00:00:00Z");
    assert_eq!(
        fuente_de_serie(instante("2026-09-09T00:00:00Z"), ahora, ahora),
        FuenteSerie::Crudas
    );
    // Corto pero de hace más de siete días: agregados.
    assert_eq!(
        fuente_de_serie(instante("2026-09-01T00:00:00Z"), instante("2026-09-01T12:00:00Z"), ahora),
        FuenteSerie::CincoMinutos
    );
    assert_eq!(
        fuente_de_serie(instante("2026-08-11T00:00:00Z"), ahora, ahora),
        FuenteSerie::CincoMinutosOHoraria
    );
    assert_eq!(
        fuente_de_serie(instante("2026-05-01T00:00:00Z"), ahora, ahora),
        FuenteSerie::Horaria
    );
    assert_eq!(resolucion_de_serie(FuenteSerie::CincoMinutosOHoraria, false), Resolution::Hourly);
    assert_eq!(
        resolucion_de_serie(FuenteSerie::CincoMinutosOHoraria, true),
        Resolution::FiveMinutes
    );
    assert_eq!(resolucion_de_serie(FuenteSerie::Crudas, false), Resolution::Raw);
    assert_eq!(intervalo_esperado_ms(Resolution::Raw, "temperature_celsius"), 30_000);
    assert_eq!(intervalo_esperado_ms(Resolution::Raw, "percentage_used"), 300_000);
    assert_eq!(intervalo_esperado_ms(Resolution::Hourly, "temperature_celsius"), 3_600_000);
}

#[test]
fn la_escritura_de_un_ajuste_se_decide_por_clave_tipo_y_limites() {
    let e = validar_ajuste("storage.free_space_warn_bytes", &ValorAjuste::Entero(0)).unwrap_err();
    assert_eq!(e.code, "settings.out_of_range");
    assert_eq!(e.message_key, "error.settingsOutOfRange");
    assert_eq!(
        e.detail.as_deref(),
        Some(format!("debe estar entre {} y {}", 1.0f64, f64::MAX).as_str())
    );
    assert_eq!(
        validar_ajuste("storage.free_space_halt_bytes", &ValorAjuste::Entero(1)).unwrap(),
        Admision::Guardar
    );
    let e = validar_ajuste("storage.free_space_halt_bytes", &ValorAjuste::NumeroNoEntero).unwrap_err();
    assert_eq!(e.code, "ipc.schema_mismatch");
    assert_eq!(e.detail.as_deref(), Some("se esperaba un entero"));
    let e = validar_ajuste("logging.verbose", &ValorAjuste::Booleano(true)).unwrap_err();
    assert_eq!(e.detail.as_deref(), Some("clave de ajuste desconocida: logging.verbose"));
    let e = validar_ajuste("settings.appearance.theme", &ValorAjuste::Texto("rosa".to_string())).unwrap_err();
    assert_eq!(e.detail.as_deref(), Some("se esperaba \"light\", \"dark\" o \"system\""));
    assert_eq!(
        validar_ajuste("settings.appearance.theme", &ValorAjuste::Texto("dark".to_string())).unwrap(),
        Admision::Guardar
    );
    assert_eq!(
        validar_ajuste("notifications.sound_enabled", &ValorAjuste::Booleano(false)).unwrap(),
        Admision::Guardar
    );
    assert_eq!(
        validar_ajuste("alerts.temp_configured_warn_c", &ValorAjuste::NumeroNoEntero).unwrap(),
        Admision::ValidarConDominio(ReglaAjuste::TemperaturaAviso)
    );
    let e = validar_ajuste("alerts.temp_configured_warn_c", &ValorAjuste::Otro).unwrap_err();
    assert_eq!(e.detail.as_deref(), Some("se esperaba un número"));
}
