use smartdisk::motor::{
    activacion_por_racha, evaluar_por_aumentos, evaluar_por_umbrales, primeras_cumplen,
};
use smartdisk::agrupacion::Transicion;
use smartdisk::eventos::{resolver_grupos_de_eventos_vencidos, GrupoDeEvento};
use smartdisk::reglas::{regla_es_ignorable, reglas_no_ignorables};
use smartdisk::reglas_eventos::{
    clasificar, es_regla_de_eventos, pares_de, tabla_clasificacion, ventana_resolucion_de,
    ContextoDedup, Objetivo,
};
use smartdisk::correlacion_rafaga::{
    correlacionar_rafaga, es_extraccion_imprevista, EventoEnVentana, ResultadoCorrelacion,
};
use smartdisk::eventos::{es_disco_extraible, grupo_vencido, par_de_discos_del_mensaje};
use smartdisk::tipos::{AlertSeverity, AlertStatus};

// ---- reglas vetadas ----

const TODAS_LAS_REGLAS: &[&str] = &[
    "smart.health.failed",
    "nvme.critical_warning",
    "smart.media_errors",
    "smart.error_log",
    "smart.spare_below_threshold",
    "smart.wear_high",
    "temp.above_vendor_limit",
    "temp.above_vendor_critical",
    "temp.above_configured_warn",
    "temp.above_configured_crit",
    "capacity.low",
    "capacity.critical",
    "device.removed_unexpected",
    "events.disk_error",
    "events.filesystem_error",
    "events.filesystem_repaired",
    "events.filesystem_repair_storm",
    "events.controller_reset",
    "events.paging_error",
    "events.io_retry",
    "events.delayed_write",
    "events.disk_predictive",
    "events.storage_space_degraded",
    "inventory.duplicate_id",
    "smart.unreadable",
    "collector.stalled",
];

#[test]
fn exactamente_seis_reglas_estan_vetadas() {
    assert_eq!(reglas_no_ignorables().len(), 6);
}

#[test]
fn el_conjunto_vetado_son_senales_de_fallo_fisico_o_prediccion() {
    for regla in reglas_no_ignorables() {
        assert!(!regla_es_ignorable(regla), "{regla} debería estar vetada");
    }
}

#[test]
fn toda_regla_conocida_fuera_del_conjunto_es_ignorable() {
    let vetadas = reglas_no_ignorables();
    for regla in TODAS_LAS_REGLAS {
        let esperado = !vetadas.contains(regla);
        assert_eq!(
            regla_es_ignorable(regla),
            esperado,
            "{regla}: ignorable esperado = {esperado}"
        );
    }
}

#[test]
fn eventos_de_sistema_de_archivos_y_de_disco_si_son_ignorables() {
    assert!(regla_es_ignorable("events.filesystem_error"));
    assert!(regla_es_ignorable("events.disk_error"));
}

#[test]
fn smart_error_log_es_ignorable() {
    assert!(regla_es_ignorable("smart.error_log"));
    assert!(!regla_es_ignorable("smart.media_errors"));
}

#[test]
fn una_regla_desconocida_se_considera_ignorable_por_defecto() {
    assert!(regla_es_ignorable("regla.que.no.existe"));
}

// ---- tabla de reglas de eventos ----

struct Esperado {
    rule_key: &'static str,
    objetivo: Objetivo,
    dedup: ContextoDedup,
    ventana: Option<time::Duration>,
}

fn esperados() -> Vec<Esperado> {
    vec![
        Esperado {
            rule_key: "events.disk_error",
            objetivo: Objetivo::Dispositivo,
            dedup: ContextoDedup::ProviderEventId,
            ventana: Some(time::Duration::hours(24)),
        },
        Esperado {
            rule_key: "events.filesystem_error",
            objetivo: Objetivo::Volumen,
            dedup: ContextoDedup::ProviderEventId,
            ventana: Some(time::Duration::hours(24)),
        },
        Esperado {
            rule_key: "events.filesystem_repaired",
            objetivo: Objetivo::Volumen,
            dedup: ContextoDedup::VolumeGuid,
            ventana: Some(time::Duration::days(7)),
        },
        Esperado {
            rule_key: "events.filesystem_repair_storm",
            objetivo: Objetivo::Volumen,
            dedup: ContextoDedup::VolumeGuid,
            ventana: Some(time::Duration::days(7)),
        },
        Esperado {
            rule_key: "events.controller_reset",
            objetivo: Objetivo::Dispositivo,
            dedup: ContextoDedup::ProviderEventId,
            ventana: Some(time::Duration::hours(24)),
        },
        Esperado {
            rule_key: "events.paging_error",
            objetivo: Objetivo::Dispositivo,
            dedup: ContextoDedup::DeviceId,
            ventana: Some(time::Duration::hours(24)),
        },
        Esperado {
            rule_key: "events.io_retry",
            objetivo: Objetivo::Dispositivo,
            dedup: ContextoDedup::DeviceId,
            ventana: Some(time::Duration::hours(24)),
        },
        Esperado {
            rule_key: "events.delayed_write",
            objetivo: Objetivo::Volumen,
            dedup: ContextoDedup::VolumeGuid,
            ventana: Some(time::Duration::hours(24)),
        },
        Esperado {
            rule_key: "events.disk_predictive",
            objetivo: Objetivo::Dispositivo,
            dedup: ContextoDedup::Ninguno,
            ventana: Some(time::Duration::days(7)),
        },
        Esperado {
            rule_key: "events.storage_space_degraded",
            objetivo: Objetivo::SinObjeto,
            dedup: ContextoDedup::ProviderEventId,
            ventana: Some(time::Duration::hours(24)),
        },
        Esperado {
            rule_key: "device.removed_unexpected",
            objetivo: Objetivo::Dispositivo,
            dedup: ContextoDedup::Ninguno,
            ventana: None,
        },
        Esperado {
            rule_key: "inventory.duplicate_id",
            objetivo: Objetivo::SinObjeto,
            dedup: ContextoDedup::ParDeDiscos,
            ventana: Some(time::Duration::days(7)),
        },
    ]
}

fn en_ns(d: Option<time::Duration>) -> Option<i128> {
    d.map(|d| d.whole_nanoseconds())
}

const EXCLUIDOS_EXPLICITOS: &[(&str, i64)] = &[
    ("Microsoft-Windows-Ntfs", 98),
    ("Microsoft-Windows-NvmeDisk", 501),
    ("Volsnap", 25),
    ("Volsnap", 33),
    ("Volsnap", 36),
    ("volmgr", 161),
    ("Microsoft-Windows-Disk", 1),
];

#[test]
fn cada_regla_de_eventos_de_alert_rules_tiene_al_menos_una_fila() {
    let tabla = tabla_clasificacion();
    for e in esperados() {
        assert!(
            tabla.iter().any(|c| c.rule_key == e.rule_key),
            "falta una fila para la regla {}",
            e.rule_key
        );
    }
}

#[test]
fn ninguna_fila_lleva_un_rule_key_fuera_de_alert_rules() {
    let esperados = esperados();
    for c in tabla_clasificacion() {
        assert!(
            esperados.iter().any(|e| e.rule_key == c.rule_key),
            "la tabla tiene un rule_key desconocido: {}",
            c.rule_key
        );
    }
}

#[test]
fn cada_fila_es_fiel_a_alert_rules_md_2() {
    let esperados = esperados();
    for c in tabla_clasificacion() {
        let e = esperados
            .iter()
            .find(|e| e.rule_key == c.rule_key)
            .unwrap_or_else(|| panic!("sin valores esperados para {}", c.rule_key));
        assert_eq!(c.objetivo, e.objetivo, "objetivo de {}", c.rule_key);
        assert_eq!(c.dedup_context, e.dedup, "contexto de dedup de {}", c.rule_key);
        assert_eq!(
            c.ventana_resolucion,
            en_ns(e.ventana),
            "ventana de resolución de {}",
            c.rule_key
        );
    }
}

#[test]
fn los_eventos_excluidos_de_seccion_3_3_no_tienen_fila() {
    for (provider, id) in EXCLUIDOS_EXPLICITOS {
        assert!(
            clasificar(provider, *id).is_none(),
            "{provider} {id} no genera alerta pero tiene fila"
        );
    }
}

#[test]
fn clasificar_ignora_mayusculas_del_proveedor() {
    assert!(clasificar("NTFS", 55).is_some());
    assert!(clasificar("disk", 7).is_some());
    assert!(clasificar("disk", 99999).is_none());
}

#[test]
fn paging_error_es_la_unica_regla_marcada_solo_no_extraibles() {
    for c in tabla_clasificacion() {
        assert_eq!(
            c.solo_no_extraibles,
            c.rule_key == "events.paging_error",
            "solo_no_extraibles mal puesto en {}",
            c.rule_key
        );
    }
}

#[test]
fn las_reglas_de_eventos_y_su_ventana_se_consultan_por_clave() {
    assert!(es_regla_de_eventos("events.disk_error"));
    assert!(!es_regla_de_eventos("smart.wear_high"));
    assert_eq!(
        ventana_resolucion_de("events.filesystem_repaired"),
        Some(time::Duration::days(7).whole_nanoseconds())
    );
    assert_eq!(ventana_resolucion_de("device.removed_unexpected"), None);
    assert_eq!(ventana_resolucion_de("regla.que.no.existe"), None);
}

#[test]
fn controller_reset_reune_todos_sus_pares() {
    let pares = pares_de("events.controller_reset");
    assert!(pares.contains(&("disk", 11)));
    assert!(pares.contains(&("stornvme", 129)));
    assert!(pares.contains(&("storahci", 129)));
    assert!(pares_de("regla.que.no.existe").is_empty());
}

// ---- ráfaga de eventos ----

fn en_ventana(id: i64, es_disk: bool, event_id: i64, hace_s: i64) -> EventoEnVentana {
    EventoEnVentana {
        id,
        provider_es_disk: es_disk,
        event_id,
        antiguedad: time::Duration::seconds(hace_s).whole_nanoseconds(),
    }
}

#[test]
fn sin_causa_en_la_ventana_cada_evento_sigue_su_regla() {
    let ventana = [en_ventana(1, false, 55, 3)];
    assert_eq!(
        correlacionar_rafaga(7, true, &ventana, false),
        ResultadoCorrelacion::SiguePropiaRegla
    );
}

#[test]
fn un_derivado_con_disk_157_en_la_ventana_es_ocurrencia_de_la_extraccion() {
    let ventana = [en_ventana(99, true, 157, 5), en_ventana(50, false, 50, 2)];
    assert_eq!(
        correlacionar_rafaga(51, true, &ventana, false),
        ResultadoCorrelacion::OcurrenciaDeExtraccion { causa_event_id: 99 }
    );
}

#[test]
fn el_disk_157_sin_derivados_previos_crea_su_propio_grupo() {
    assert_eq!(
        correlacionar_rafaga(157, true, &[], false),
        ResultadoCorrelacion::SiguePropiaRegla
    );
}

#[test]
fn el_disk_157_que_llega_tarde_reasigna_los_grupos_derivados() {
    let ventana = [en_ventana(50, false, 50, 10)];
    assert_eq!(
        correlacionar_rafaga(157, true, &ventana, true),
        ResultadoCorrelacion::EsCausaConDerivadosPrevios
    );
}

#[test]
fn un_disk_157_fuera_de_la_ventana_de_60s_ya_no_es_causa() {
    let ventana = [en_ventana(99, true, 157, 75)];
    assert_eq!(
        correlacionar_rafaga(50, false, &ventana, false),
        ResultadoCorrelacion::SiguePropiaRegla
    );
}

#[test]
fn el_157_de_otro_proveedor_no_cuenta_como_extraccion() {
    assert!(!es_extraccion_imprevista(false, 157));
    let ventana = [en_ventana(1, false, 157, 3)];
    assert_eq!(
        correlacionar_rafaga(50, false, &ventana, false),
        ResultadoCorrelacion::SiguePropiaRegla
    );
}

#[test]
fn un_disk_157_justo_en_el_limite_de_la_ventana_sigue_siendo_causa() {
    let ventana = [en_ventana(99, true, 157, 60)];
    assert_eq!(
        correlacionar_rafaga(50, false, &ventana, false),
        ResultadoCorrelacion::OcurrenciaDeExtraccion { causa_event_id: 99 }
    );
}

// ---- extraíbles y pareja de discos ----

#[test]
fn el_bus_usb_es_extraible_y_los_fijos_no() {
    assert!(es_disco_extraible(Some("USB")));
    assert!(es_disco_extraible(Some("usb")));
    assert!(es_disco_extraible(Some("SD")));
    assert!(!es_disco_extraible(Some("SATA")));
    assert!(!es_disco_extraible(Some("NVMe")));
    assert!(!es_disco_extraible(Some("RAID")));
}

#[test]
fn un_bus_desconocido_o_ausente_se_trata_como_no_extraible() {
    assert!(!es_disco_extraible(None));
    assert!(!es_disco_extraible(Some("")));
    assert!(!es_disco_extraible(Some("algo-raro")));
}

#[test]
fn la_pareja_de_discos_sale_ordenada_y_sin_repetir() {
    assert_eq!(
        par_de_discos_del_mensaje(Some("El disco 3 y el disco 1 comparten identidad")),
        Some("1+3".to_string())
    );
    assert_eq!(
        par_de_discos_del_mensaje(Some(r"\Device\Harddisk3 y \Device\Harddisk1")),
        Some("1+3".to_string())
    );
    assert_eq!(
        par_de_discos_del_mensaje(Some("disk 2, disk 2, disk 5, disk 0")),
        Some("0+2".to_string())
    );
}

#[test]
fn sin_dos_discos_distintos_no_hay_pareja() {
    assert_eq!(par_de_discos_del_mensaje(None), None);
    assert_eq!(par_de_discos_del_mensaje(Some("sin números")), None);
    assert_eq!(par_de_discos_del_mensaje(Some("disco 4 y disco 4")), None);
}

// ---- resolución por tiempo ----

fn nanos(rfc3339: &str) -> i128 {
    time::OffsetDateTime::parse(rfc3339, &time::format_description::well_known::Rfc3339)
        .unwrap()
        .unix_timestamp_nanos()
}

#[test]
fn un_grupo_de_evento_pasada_su_ventana_vence() {
    let ahora = nanos("2026-09-05T10:00:01Z");
    assert!(grupo_vencido(
        AlertStatus::Active,
        "events.disk_error",
        "2026-09-04T10:00:00Z",
        ahora
    ));
    assert!(!grupo_vencido(
        AlertStatus::Active,
        "events.disk_error",
        "2026-09-04T10:00:01Z",
        ahora
    ));
}

#[test]
fn la_ventana_larga_de_siete_dias_y_las_reglas_sin_ventana() {
    let ahora = nanos("2026-09-05T10:00:01Z");
    assert!(!grupo_vencido(
        AlertStatus::Acknowledged,
        "events.filesystem_repaired",
        "2026-09-04T10:00:00Z",
        ahora
    ));
    assert!(!grupo_vencido(
        AlertStatus::Active,
        "device.removed_unexpected",
        "2026-01-01T00:00:00Z",
        ahora
    ));
    assert!(!grupo_vencido(
        AlertStatus::Active,
        "smart.wear_high",
        "2026-01-01T00:00:00Z",
        ahora
    ));
}

#[test]
fn solo_vencen_los_grupos_activos_o_reconocidos() {
    let ahora = nanos("2026-09-05T10:00:01Z");
    for estado in [AlertStatus::Resolved, AlertStatus::Archived, AlertStatus::Ignored] {
        assert!(!grupo_vencido(
            estado,
            "events.disk_error",
            "2026-01-01T00:00:00Z",
            ahora
        ));
    }
    assert!(!grupo_vencido(
        AlertStatus::Active,
        "events.disk_error",
        "fecha ilegible",
        ahora
    ));
}

#[test]
fn el_barrido_resuelve_en_orden_solo_los_grupos_vencidos() {
    let grupo = |clave: &str, status: AlertStatus, regla: &str, ultima: &str| GrupoDeEvento {
        deduplication_key: clave.to_string(),
        status,
        rule_key: regla.to_string(),
        last_occurrence_at_utc: ultima.to_string(),
    };
    let grupos = vec![
        grupo("a", AlertStatus::Active, "events.disk_error", "2026-09-04T10:00:00Z"),
        grupo("b", AlertStatus::Resolved, "events.disk_error", "2026-09-01T00:00:00Z"),
        grupo("c", AlertStatus::Active, "events.disk_error", "2026-09-05T09:00:00Z"),
        grupo("d", AlertStatus::Acknowledged, "events.filesystem_repaired", "2026-08-01T00:00:00Z"),
        grupo("e", AlertStatus::Active, "device.removed_unexpected", "2026-01-01T00:00:00Z"),
    ];
    let r = resolver_grupos_de_eventos_vencidos(&grupos, "2026-09-05T10:00:01Z");
    assert_eq!(
        r,
        vec![("a".to_string(), Transicion::Resuelta), ("d".to_string(), Transicion::Resuelta)]
    );
    assert!(resolver_grupos_de_eventos_vencidos(&grupos, "ahora no").is_empty());
}

#[test]
fn las_reglas_smart_deciden_por_rachas_umbrales_y_aumentos() {
    assert!(primeras_cumplen(&[true, true, true, false], 3));
    assert!(!primeras_cumplen(&[true, true], 3));
    assert!(!primeras_cumplen(&[true, false, true], 3));
    assert_eq!(activacion_por_racha(&[true], 1, AlertSeverity::Critical), Some(AlertSeverity::Critical));
    assert_eq!(activacion_por_racha(&[], 1, AlertSeverity::Critical), None);
    assert_eq!(evaluar_por_umbrales(true, true, true), Some(AlertSeverity::Critical));
    assert_eq!(evaluar_por_umbrales(true, false, true), Some(AlertSeverity::Warning));
    assert_eq!(evaluar_por_umbrales(true, false, false), None);
    assert_eq!(evaluar_por_umbrales(false, true, true), None);
    assert_eq!(evaluar_por_aumentos(&[true, true, true]), Some(AlertSeverity::Critical));
    assert_eq!(evaluar_por_aumentos(&[true, true]), Some(AlertSeverity::Warning));
    assert_eq!(evaluar_por_aumentos(&[false, true, true]), None);
    assert_eq!(evaluar_por_aumentos(&[]), None);
}
