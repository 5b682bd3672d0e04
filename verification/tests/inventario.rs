use smartdisk::commands::parsear_rango;
use smartdisk::event_log::de_wide;
use smartdisk::capacidad::VolumenLeido;
use smartdisk::inventario::{
    enlaces_de_discos, fusionar_dispositivo, fusionar_volumen, primera_letra_unidad, Dispositivo,
};
use smartdisk::tipos::MappingConfidence;
use smartdisk::reglas::regla_de_aviso_de_temperatura;
use smartdisk::reglas_eventos::{clasificar, pares_de, tabla_clasificacion};
use smartdisk::tipos::DeviceType;
use smartdisk::windows_storage::DiscoFisico;

fn disco(modelo: &str, serie: Option<&str>, ruta: Option<&str>) -> DiscoFisico {
    DiscoFisico {
        model: modelo.to_string(),
        manufacturer: Some("Fabricante".to_string()),
        serial_number: serie.map(str::to_string),
        firmware: Some("1.0".to_string()),
        capacity_bytes: Some(1_000_000_000),
        bus_type: "NVMe".to_string(),
        device_type: DeviceType::Nvme,
        wwn_o_pnp_device_id: "PCI\\VEN_1".to_string(),
        smartctl_device_path: ruta.map(str::to_string),
    }
}

#[test]
fn parsear_rango_rechaza_una_fecha_ilegible_con_schema_mismatch() {
    let err = parsear_rango("no-es-una-fecha", "2026-09-04T10:00:00Z").unwrap_err();
    assert_eq!(err.code, "ipc.schema_mismatch");

    let err = parsear_rango("2026-09-04T00:00:00Z", "tampoco-esta").unwrap_err();
    assert_eq!(err.code, "ipc.schema_mismatch");
}

#[test]
fn parsear_rango_devuelve_los_dos_instantes() {
    let (desde, hasta) = parsear_rango("1970-01-01T00:00:00Z", "1970-01-01T00:01:00.5Z").unwrap();
    assert_eq!(desde, 0);
    assert_eq!(hasta, 60_500_000_000);
    let err = parsear_rango("ayer", "hoy").unwrap_err();
    assert_eq!(err.message_key, "error.schemaMismatch");
    assert!(err.detail.is_some());
    assert!(!err.retryable);
}

#[test]
fn un_disco_nuevo_toma_la_huella_como_id_y_queda_vigilado() {
    let d = fusionar_dispositivo(
        None,
        &disco("Disco A", Some("S1"), Some("/dev/pd0")),
        "huella-a",
        "2026-09-04T10:00:00Z",
    );
    assert_eq!(d.id, "huella-a");
    assert_eq!(d.fingerprint, "huella-a");
    assert_eq!(d.model, "Disco A");
    assert_eq!(d.serial_number.as_deref(), Some("S1"));
    assert_eq!(d.bus_type.as_deref(), Some("NVMe"));
    assert_eq!(d.smartctl_path.as_deref(), Some("/dev/pd0"));
    assert_eq!(d.alias, None);
    assert!(d.monitoring_enabled);
    assert_eq!(d.first_seen_at, "2026-09-04T10:00:00Z");
    assert_eq!(d.last_seen_at, "2026-09-04T10:00:00Z");
    assert_eq!(d.removed_at, None);
    assert_eq!(d.capabilities_json, None);
}

#[test]
fn un_disco_conocido_conserva_id_alias_vigilancia_y_primera_vez() {
    let antes = Dispositivo {
        id: "id-viejo".to_string(),
        fingerprint: "huella-a".to_string(),
        serial_number: None,
        model: "Viejo".to_string(),
        manufacturer: None,
        firmware: None,
        device_type: DeviceType::Unknown,
        bus_type: None,
        smartctl_path: Some("/dev/pd3".to_string()),
        capacity_bytes: None,
        alias: Some("Copias".to_string()),
        monitoring_enabled: false,
        first_seen_at: "2026-01-01T00:00:00Z".to_string(),
        last_seen_at: "2026-02-01T00:00:00Z".to_string(),
        removed_at: Some("2026-02-02T00:00:00Z".to_string()),
        capabilities_json: Some("{}".to_string()),
    };
    let d = fusionar_dispositivo(
        Some(&antes),
        &disco("Disco A", None, Some("/dev/pd1")),
        "huella-a",
        "2026-09-04T10:01:00Z",
    );
    assert_eq!(d.id, "id-viejo");
    assert_eq!(d.alias.as_deref(), Some("Copias"));
    assert!(!d.monitoring_enabled);
    assert_eq!(d.first_seen_at, "2026-01-01T00:00:00Z");
    assert_eq!(d.last_seen_at, "2026-09-04T10:01:00Z");
    assert_eq!(d.removed_at, None);
    assert_eq!(d.capabilities_json, None);
    assert_eq!(d.model, "Disco A");
    assert_eq!(d.serial_number, None);
    assert_eq!(d.device_type, DeviceType::Nvme);
    assert_eq!(d.smartctl_path.as_deref(), Some("/dev/pd1"));
}

#[test]
fn cada_par_de_una_regla_se_clasifica_en_esa_regla() {
    for fila in tabla_clasificacion() {
        for (proveedor, id) in pares_de(fila.rule_key) {
            let c = clasificar(proveedor, id).unwrap();
            assert_eq!(c.rule_key, fila.rule_key);
        }
    }
    assert_eq!(
        pares_de("events.controller_reset"),
        vec![("disk", 11), ("stornvme", 129), ("storahci", 129)]
    );
}

#[test]
fn el_aviso_de_temperatura_sigue_el_limite_del_fabricante_si_existe() {
    assert_eq!(regla_de_aviso_de_temperatura(true), "temp.above_vendor_limit");
    assert_eq!(regla_de_aviso_de_temperatura(false), "temp.above_configured_warn");
}

#[test]
fn un_sustituto_desparejado_se_cambia_por_el_caracter_de_sustitucion() {
    let buf: Vec<u16> = vec![0x0061, 0xD800, 0x0062, 0xD83D, 0xDE00, 0xDC00, 0];
    assert_eq!(de_wide(&buf), "a\u{FFFD}b\u{1F600}\u{FFFD}");
}

fn leido(guid: &str, letra: Option<char>, disco: Option<i64>, libres: i64) -> VolumenLeido {
    VolumenLeido {
        volume_guid: guid.to_string(),
        label: Some("Datos".to_string()),
        filesystem: Some("NTFS".to_string()),
        drive_letter: letra,
        capacity_bytes: Some(1_000_000_000),
        free_bytes: Some(libres),
        disk_number: disco,
    }
}

#[test]
fn los_enlaces_salen_de_la_ruta_de_smartctl_y_el_ultimo_manda() {
    let a = fusionar_dispositivo(None, &disco("A", None, Some("/dev/pd0")), "h-a", "t");
    let b = fusionar_dispositivo(None, &disco("B", None, Some("/dev/sda")), "h-b", "t");
    let c = fusionar_dispositivo(None, &disco("C", None, Some("/dev/pd0")), "h-c", "t");
    let d = fusionar_dispositivo(None, &disco("D", None, Some("/dev/pd2")), "h-d", "t");
    let enlaces = enlaces_de_discos(&[a, b, c, d]);
    assert_eq!(enlaces, vec![(0, "h-a".to_string()), (0, "h-c".to_string()), (2, "h-d".to_string())]);

    let (v, enlace) = fusionar_volumen(None, &leido("vol-1", Some('C'), Some(0), 5), &enlaces, "t1");
    assert_eq!(enlace.as_deref(), Some("h-c"));
    assert_eq!(v.device_mapping_confidence, Some(MappingConfidence::Exact));
    let (v, enlace) = fusionar_volumen(None, &leido("vol-2", None, Some(7), 5), &enlaces, "t1");
    assert_eq!(enlace, None);
    assert_eq!(v.device_mapping_confidence, Some(MappingConfidence::Unknown));
    assert_eq!(v.drive_letters_json, None);
}

#[test]
fn reconciliar_volumenes_dos_veces_actualiza_el_espacio_libre_sin_duplicar() {
    let enlaces = vec![(0, "h-a".to_string())];
    let (primero, _) =
        fusionar_volumen(None, &leido("vol-1", Some('D'), Some(0), 1), &enlaces, "2026-09-04T10:00:00Z");
    assert_eq!(primero.drive_letters_json.as_deref(), Some("[\"D:\"]"));
    assert_eq!(primera_letra_unidad(&primero), Some('D'));
    let (segundo, _) = fusionar_volumen(
        Some(&primero),
        &leido("vol-1", Some('D'), Some(0), 100_000_000),
        &enlaces,
        "2026-09-04T10:05:00Z",
    );
    assert_eq!(segundo.id, primero.id);
    assert_eq!(segundo.free_bytes, Some(100_000_000));
    assert_eq!(segundo.first_seen_at, "2026-09-04T10:00:00Z");
    assert_eq!(segundo.last_seen_at, "2026-09-04T10:05:00Z");
}
