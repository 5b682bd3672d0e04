use smartdisk::capacidad::{normalizar_volumen, normalizar_volumenes, VolumenCrudo};
use smartdisk::deteccion::{clasificar_baja, detectar_cambios, TipoBaja};
use smartdisk::event_log::{
    construir_filtro, de_wide, extraer_atributo, extraer_texto, nivel_desde_numero,
    parse_event_xml, proveedores_vigilados, ErrorParseoEvento,
};
use smartdisk::perf_counters::{
    clasificar_muestra, tras_recogida, ClaseMuestra, ConsultaActividad, ErrorPdh, Recogida,
    PDH_CSTATUS_INVALID_DATA, PDH_INVALID_DATA,
};
use smartdisk::planificador::{
    altas_y_bajas, eventos_windows, intervalo_efectivo, metricas_rapidas, smart_completo,
};
use smartdisk::smartctl::{build_args, cascada_modos, intento_utilizable, modo_del_intento};
use smartdisk::smartctl_parser::version_como_texto;
use smartdisk::tipos::{DeviceType, EventLevel};
use smartdisk::windows_storage::{clasificar, normalizar_disco, normalizar_discos, DiscoFisicoCrudo};
use std::time::Duration;

// ---- altas y bajas ----

#[test]
fn sin_evento_de_extraccion_imprevista_la_baja_es_segura() {
    assert_eq!(clasificar_baja(false), TipoBaja::Segura);
}

#[test]
fn con_evento_de_extraccion_imprevista_la_baja_es_sin_aviso() {
    assert_eq!(clasificar_baja(true), TipoBaja::SinAviso);
}

#[test]
fn detectar_cambios_delega_en_la_reconciliacion_de_dominio() {
    let antes = vec!["a".to_string()];
    let ahora = vec!["b".to_string()];
    let r = detectar_cambios(&antes, &ahora);
    assert_eq!(r.altas, vec!["b".to_string()]);
    assert_eq!(r.bajas, vec!["a".to_string()]);
}

#[test]
fn lo_que_sigue_presente_no_es_alta_ni_baja() {
    let antes = vec!["a".to_string(), "b".to_string(), "c".to_string()];
    let ahora = vec!["c".to_string(), "d".to_string(), "a".to_string()];
    let r = detectar_cambios(&antes, &ahora);
    assert_eq!(r.altas, vec!["d".to_string()]);
    assert_eq!(r.bajas, vec!["b".to_string()]);
    let igual = detectar_cambios(&antes, &antes);
    assert!(igual.altas.is_empty() && igual.bajas.is_empty());
}

// ---- registro de eventos ----

const EVENTO_NTFS_98: &str = r#"<Event xmlns='http://schemas.microsoft.com/win/2004/08/events/event'><System><Provider Name='Microsoft-Windows-Ntfs' Guid='{3ff37a1c-a68d-4d6e-8c9b-f79e8b16c482}'/><EventID>98</EventID><Version>0</Version><Level>4</Level><Task>0</Task><Opcode>0</Opcode><Keywords>0x8000000000000002</Keywords><TimeCreated SystemTime='2026-09-05T05:57:42.9900998Z'/><EventRecordID>811025</EventRecordID><Correlation/><Execution ProcessID='4' ThreadID='23724'/><Channel>System</Channel><Computer>Ryzen</Computer><Security UserID='S-1-5-18'/></System><EventData><Data Name='DriveName'>E:</Data><Data Name='DeviceName'>\Device\HarddiskVolume24</Data><Data Name='CorruptionActionState'>0</Data></EventData></Event>"#;

const EVENTO_DISK_158: &str = r#"<Event xmlns='http://schemas.microsoft.com/win/2004/08/events/event'><System><Provider Name='disk'/><EventID Qualifiers='32772'>158</EventID><Version>0</Version><Level>3</Level><Task>0</Task><Opcode>0</Opcode><Keywords>0x80000000000000</Keywords><TimeCreated SystemTime='2026-09-05T05:57:38.5428166Z'/><EventRecordID>811020</EventRecordID><Correlation/><Execution ProcessID='4' ThreadID='38720'/><Channel>System</Channel><Computer>Ryzen</Computer><Security/></System><EventData><Data>\Device\Harddisk1\DR19</Data><Data>1</Data><Binary>1B00000002003000000000009E000480000000000000000000000000000000000000000000000000</Binary></EventData></Event>"#;

#[test]
fn un_evento_con_manifiesto_se_parsea_completo() {
    let e = parse_event_xml(EVENTO_NTFS_98, "System", Some("mensaje".to_string())).unwrap();
    assert_eq!(e.provider, "Microsoft-Windows-Ntfs");
    assert_eq!(e.event_id, 98);
    assert_eq!(e.level, EventLevel::Information);
    assert_eq!(e.record_id, 811025);
    assert_eq!(e.channel, "System");
    assert_eq!(e.occurred_at_utc, "2026-09-05T05:57:42.9900998Z");
}

#[test]
fn un_proveedor_clasico_con_qualifiers_se_parsea_igual() {
    let e = parse_event_xml(EVENTO_DISK_158, "System", None).unwrap();
    assert_eq!(e.provider, "disk");
    assert_eq!(e.event_id, 158, "el bajo orden del id, sin los qualifiers");
    assert_eq!(e.level, EventLevel::Warning);
    assert_eq!(e.record_id, 811020);
    assert_eq!(e.message, None);
}

#[test]
fn un_xml_sin_bloque_system_falla_en_vez_de_inventar_campos() {
    let err = parse_event_xml("<Event></Event>", "System", None).unwrap_err();
    assert!(matches!(err, ErrorParseoEvento::CampoAusente("System")));
}

#[test]
fn los_niveles_numericos_se_traducen_segun_la_convencion_de_windows() {
    for (n, esperado) in [
        (1u8, EventLevel::Critical),
        (2, EventLevel::Error),
        (3, EventLevel::Warning),
        (4, EventLevel::Information),
        (0, EventLevel::Information),
        (5, EventLevel::Information),
    ] {
        assert_eq!(nivel_desde_numero(n), esperado);
    }
}

#[test]
fn el_filtro_encadena_los_proveedores_vigilados_con_or() {
    let filtro = construir_filtro(&["disk", "Ntfs"]);
    assert_eq!(filtro, "*[System[Provider[@Name='disk' or @Name='Ntfs']]]");
}

#[test]
fn extraer_atributo_ignora_otras_etiquetas_con_el_mismo_nombre_de_atributo() {
    let xml = r#"<System><Provider Name='disk'/><Other Name='no-este'/></System>"#;
    assert_eq!(extraer_atributo(xml, "Provider", "Name").as_deref(), Some("disk"));
}

#[test]
fn cada_campo_ausente_se_nombra_en_su_orden() {
    let sin_proveedor = "<System><EventID>1</EventID></System>";
    assert!(matches!(
        parse_event_xml(sin_proveedor, "System", None).unwrap_err(),
        ErrorParseoEvento::CampoAusente("Provider/@Name")
    ));
    let id_ilegible = "<System><Provider Name='disk'/><EventID>x</EventID></System>";
    assert!(matches!(
        parse_event_xml(id_ilegible, "System", None).unwrap_err(),
        ErrorParseoEvento::CampoAusente("EventID")
    ));
    let sin_fecha = "<System><Provider Name='disk'/><EventID>7</EventID></System>";
    assert!(matches!(
        parse_event_xml(sin_fecha, "System", None).unwrap_err(),
        ErrorParseoEvento::CampoAusente("TimeCreated/@SystemTime")
    ));
    let sin_registro = "<System><Provider Name='disk'/><EventID>7</EventID><TimeCreated SystemTime='t'/></System>";
    assert!(matches!(
        parse_event_xml(sin_registro, "System", None).unwrap_err(),
        ErrorParseoEvento::CampoAusente("EventRecordID")
    ));
    let sin_cierre = "<System><Provider Name='disk'/>";
    assert!(matches!(
        parse_event_xml(sin_cierre, "System", None).unwrap_err(),
        ErrorParseoEvento::CampoAusente("System")
    ));
}

#[test]
fn sin_nivel_ni_canal_se_usan_informativo_y_el_canal_esperado() {
    let xml = "<System><Provider Name=\"disk\"/><EventID>7</EventID><TimeCreated SystemTime='t0'/><EventRecordID>12</EventRecordID></System>";
    let e = parse_event_xml(xml, "Application", Some("m".to_string())).unwrap();
    assert_eq!(e.provider, "disk");
    assert_eq!(e.level, EventLevel::Information);
    assert_eq!(e.channel, "Application");
    assert_eq!(e.occurred_at_utc, "t0");
    assert_eq!(e.message.as_deref(), Some("m"));
    assert_eq!(e.raw_xml, xml);
}

#[test]
fn extraer_texto_admite_etiquetas_con_atributos() {
    assert_eq!(
        extraer_texto("<a><EventID Qualifiers='1'>158</EventID></a>", "EventID").as_deref(),
        Some("158")
    );
    assert_eq!(extraer_texto("<a><Level>3</Level></a>", "Level").as_deref(), Some("3"));
    assert_eq!(extraer_texto("<a><Level>3</a>", "Level"), None);
}

#[test]
fn los_proveedores_vigilados_empiezan_por_disk_y_ntfs() {
    let p = proveedores_vigilados();
    assert_eq!(p.len(), 8);
    assert_eq!(p[0], "disk");
    assert_eq!(p[1], "Ntfs");
    assert_eq!(p[7], "Microsoft-Windows-StorageSpaces-Driver");
}

#[test]
fn el_texto_ancho_se_corta_en_el_primer_cero() {
    let buf: Vec<u16> = "hola\0basura".encode_utf16().collect();
    assert_eq!(de_wide(&buf), "hola");
    let sin_cero: Vec<u16> = "entero".encode_utf16().collect();
    assert_eq!(de_wide(&sin_cero), "entero");
}

// ---- planificador ----

fn ns(d: Duration) -> u128 {
    d.as_nanos()
}

#[test]
fn en_red_electrica_no_cambia_el_intervalo() {
    let efectivo = intervalo_efectivo(metricas_rapidas(), ns(Duration::from_secs(30)), false);
    assert_eq!(efectivo, ns(Duration::from_secs(30)));
}

#[test]
fn en_bateria_las_metricas_rapidas_se_multiplican_por_cuatro() {
    let efectivo = intervalo_efectivo(metricas_rapidas(), ns(Duration::from_secs(30)), true);
    assert_eq!(efectivo, ns(Duration::from_secs(120)));
}

#[test]
fn en_bateria_smart_completo_no_se_altera() {
    let efectivo = intervalo_efectivo(smart_completo(), ns(Duration::from_secs(300)), true);
    assert_eq!(efectivo, ns(Duration::from_secs(300)));
}

#[test]
fn en_bateria_eventos_de_windows_no_se_altera() {
    let efectivo = intervalo_efectivo(eventos_windows(), ns(Duration::from_secs(30)), true);
    assert_eq!(efectivo, ns(Duration::from_secs(30)));
}

#[test]
fn en_bateria_altas_y_bajas_si_se_multiplica() {
    let efectivo = intervalo_efectivo(altas_y_bajas(), ns(Duration::from_secs(60)), true);
    assert_eq!(efectivo, ns(Duration::from_secs(240)));
}

#[test]
fn los_trabajos_tienen_sus_limites() {
    let t = smart_completo();
    assert_eq!(t.por_defecto, ns(Duration::from_secs(300)));
    assert_eq!(t.minimo, ns(Duration::from_secs(60)));
    assert_eq!(t.maximo, ns(Duration::from_secs(3600)));
    assert!(t.inmune_a_bateria);
    assert!(!metricas_rapidas().inmune_a_bateria);
}

// ---- smartctl ----

#[test]
fn construye_los_argumentos_sin_modo() {
    assert_eq!(
        build_args(r"\\.\PhysicalDrive0", None),
        vec!["-a", "-j", r"\\.\PhysicalDrive0"]
    );
}

#[test]
fn construye_los_argumentos_con_modo() {
    assert_eq!(
        build_args(r"\\.\PhysicalDrive0", Some("sat")),
        vec!["-a", "-j", "-d", "sat", r"\\.\PhysicalDrive0"]
    );
}

#[test]
fn exit_status_cero_es_utilizable() {
    assert!(intento_utilizable(Some(0)));
}

#[test]
fn exit_status_con_hallazgos_smart_sigue_siendo_utilizable() {
    assert!(intento_utilizable(Some(0b0100)));
}

#[test]
fn exit_status_de_apertura_fallida_no_es_utilizable() {
    assert!(!intento_utilizable(Some(0b0010)));
    assert!(!intento_utilizable(Some(0b0011)));
}

#[test]
fn un_proceso_sin_codigo_de_salida_no_es_utilizable() {
    assert!(!intento_utilizable(None));
    assert!(!intento_utilizable(Some(-1)));
    assert!(intento_utilizable(Some(0b1000_0000)));
    assert!(!intento_utilizable(Some(0b1000_0001)));
}

#[test]
fn la_cascada_prueba_sat_antes_que_nvme() {
    let cascada = cascada_modos();
    assert_eq!(cascada[0], "sat");
    assert_eq!(cascada[1], "nvme");
}

#[test]
fn los_intentos_empiezan_por_la_autodeteccion_y_recorren_la_cascada() {
    assert_eq!(modo_del_intento(0), Some(None));
    assert_eq!(modo_del_intento(1), Some(Some("sat")));
    assert_eq!(modo_del_intento(2), Some(Some("nvme")));
    assert_eq!(modo_del_intento(3), Some(Some("sntjmicron")));
    assert_eq!(modo_del_intento(4), Some(Some("csmi")));
    assert_eq!(modo_del_intento(5), None);
}

#[test]
fn version_de_smartctl_se_compone_como_texto_con_puntos() {
    assert_eq!(version_como_texto(&[7, 5]), "7.5");
    assert_eq!(version_como_texto(&[7]), "7");
    assert_eq!(version_como_texto(&[]), "");
    assert_eq!(version_como_texto(&[7, 10, -1]), "7.10.-1");
}

// ---- inventario de discos ----

#[test]
fn sata_sin_media_type_reconocible_es_unknown_no_hdd_por_defecto() {
    let device_type = clasificar("SATA", Some("Unspecified"));
    assert_eq!(device_type, DeviceType::Unknown);
}

#[test]
fn hdd_sata_se_reconoce() {
    assert_eq!(clasificar("SATA", Some("HDD")), DeviceType::Hdd);
}

#[test]
fn raid_y_virtual_se_reconocen() {
    assert_eq!(clasificar("RAID", None), DeviceType::RaidLogical);
    assert_eq!(clasificar("File Backed Virtual", None), DeviceType::Virtual);
}

#[test]
fn nvme_y_usb_se_reconocen_por_el_bus() {
    assert_eq!(clasificar("NVMe", Some("SSD")), DeviceType::Nvme);
    assert_eq!(clasificar("USB", Some("HDD")), DeviceType::Usb);
    assert_eq!(clasificar("SAS", Some("SSD")), DeviceType::SataSsd);
    assert_eq!(clasificar("Unknown", Some("SSD")), DeviceType::Unknown);
}

fn crudo() -> DiscoFisicoCrudo {
    DiscoFisicoCrudo {
        friendly_name: Some("SAMSUNG MZVL21T0".to_string()),
        manufacturer: Some("SAMSUNG".to_string()),
        model: Some("SAMSUNG MZVL21T0".to_string()),
        serial_number: Some("S6B2NS0T123456".to_string()),
        size: Some(1024209543168),
        bus_type: Some("NVMe".to_string()),
        media_type: Some("SSD".to_string()),
        device_id: Some("0".to_string()),
        unique_id: Some("eui.0025388801234567".to_string()),
        firmware_version: Some("GXA7801Q".to_string()),
    }
}

#[test]
fn un_disco_completo_se_normaliza_tal_cual() {
    let d = normalizar_disco(crudo());
    assert_eq!(d.model, "SAMSUNG MZVL21T0");
    assert_eq!(d.device_type, DeviceType::Nvme);
    assert_eq!(d.capacity_bytes, Some(1024209543168));
    assert_eq!(d.serial_number.as_deref(), Some("S6B2NS0T123456"));
    assert_eq!(d.smartctl_device_path.as_deref(), Some("/dev/pd0"));
    assert_eq!(d.wwn_o_pnp_device_id, "eui.0025388801234567");
    assert_eq!(d.bus_type, "NVMe");
}

#[test]
fn los_campos_ausentes_caen_a_sus_valores_por_defecto() {
    let mut c = crudo();
    c.model = None;
    c.serial_number = Some("   ".to_string());
    c.size = Some(u64::MAX);
    c.bus_type = None;
    c.unique_id = None;
    c.device_id = Some(r"\\.\RAIDVolume1".to_string());
    let d = normalizar_disco(c);
    assert_eq!(d.model, "SAMSUNG MZVL21T0", "el nombre sustituye al modelo");
    assert_eq!(d.serial_number, None);
    assert_eq!(d.capacity_bytes, None);
    assert_eq!(d.bus_type, "Unknown");
    assert_eq!(d.device_type, DeviceType::Unknown);
    assert_eq!(d.wwn_o_pnp_device_id, r"\\.\RAIDVolume1");
    assert_eq!(d.smartctl_device_path, None);
}

#[test]
fn el_indice_del_disco_admite_espacios_alrededor() {
    let mut c = crudo();
    c.device_id = Some(" 12 ".to_string());
    c.friendly_name = None;
    c.model = None;
    let d = normalizar_disco(c);
    assert_eq!(d.smartctl_device_path.as_deref(), Some("/dev/pd12"));
    assert_eq!(d.model, "Desconocido");
    let dos = normalizar_discos(vec![crudo(), crudo()]);
    assert_eq!(dos.len(), 2);
}

// ---- volúmenes ----

fn volumen(unique_id: Option<&str>, etiqueta: Option<&str>, letra: Option<&str>) -> VolumenCrudo {
    VolumenCrudo {
        disk_number: Some(0),
        drive_letter: letra.map(str::to_string),
        file_system_label: etiqueta.map(str::to_string),
        file_system: Some("NTFS".to_string()),
        size: Some(2000398934016),
        size_remaining: Some(1204000000000),
        unique_id: unique_id.map(str::to_string),
    }
}

#[test]
fn un_volumen_se_normaliza_con_su_letra_y_etiqueta() {
    let v = normalizar_volumen(volumen(Some("u1"), Some("Sistema"), Some("C"))).unwrap();
    assert_eq!(v.volume_guid, "u1");
    assert_eq!(v.disk_number, Some(0));
    assert_eq!(v.drive_letter, Some('C'));
    assert_eq!(v.label.as_deref(), Some("Sistema"));
    assert_eq!(v.capacity_bytes, Some(2000398934016));
    assert_eq!(v.free_bytes, Some(1204000000000));
}

#[test]
fn un_volumen_sin_identidad_estable_se_omite() {
    assert!(normalizar_volumen(volumen(None, Some("Sistema"), Some("E"))).is_none());
    let lista = normalizar_volumenes(vec![
        volumen(Some("u1"), None, Some("C")),
        volumen(None, None, Some("E")),
        volumen(Some("u2"), Some("   "), Some("")),
    ]);
    assert_eq!(lista.len(), 2);
    assert_eq!(lista[0].volume_guid, "u1");
    assert_eq!(lista[1].volume_guid, "u2");
    assert_eq!(lista[1].label, None, "etiqueta en blanco, ausente");
    assert_eq!(lista[1].drive_letter, None);
}

// ---- contadores de rendimiento ----

#[test]
fn los_codigos_de_los_contadores_se_clasifican() {
    assert_eq!(clasificar_muestra(0, 0), ClaseMuestra::Valida);
    assert_eq!(clasificar_muestra(0, 1), ClaseMuestra::Valida);
    assert_eq!(clasificar_muestra(0, PDH_CSTATUS_INVALID_DATA), ClaseMuestra::AunNoLista);
    assert_eq!(clasificar_muestra(PDH_INVALID_DATA, 0), ClaseMuestra::AunNoLista);
    assert_eq!(
        clasificar_muestra(0, 7),
        ClaseMuestra::Fallo(ErrorPdh::Codigo {
            funcion: "PdhGetFormattedCounterValue(c_status)",
            codigo: 7
        })
    );
    assert_eq!(
        clasificar_muestra(5, 0),
        ClaseMuestra::Fallo(ErrorPdh::Codigo { funcion: "PdhGetFormattedCounterValue", codigo: 5 })
    );
}

#[test]
fn la_primera_recogida_solo_ceba() {
    assert_eq!(tras_recogida(0, false), (Recogida::Cebado, true));
    assert_eq!(tras_recogida(0, true), (Recogida::Lista, true));
    assert_eq!(
        tras_recogida(9, false),
        (
            Recogida::Fallida(ErrorPdh::Codigo { funcion: "PdhCollectQueryData", codigo: 9 }),
            false
        )
    );
}

#[test]
fn la_consulta_de_actividad_recuerda_sus_discos() {
    let discos = vec![("d1".to_string(), 0), ("d2".to_string(), 3)];
    let consulta = ConsultaActividad::reconstruir(&discos).unwrap();
    assert_eq!(consulta.discos(), discos);
}

#[test]
fn reconstruir_con_conserva_en_orden_los_discos_cuyo_contador_se_anadio() {
    let discos = vec![("d0".to_string(), 0), ("d1".to_string(), 1), ("d2".to_string(), 2)];
    let c = ConsultaActividad::reconstruir_con(&discos, 0, &[true, false, true]).unwrap();
    assert_eq!(c.discos(), vec![("d0".to_string(), 0), ("d2".to_string(), 2)]);
    match ConsultaActividad::reconstruir_con(&discos, 0xC000_0BB8, &[true, true, true]) {
        Err(ErrorPdh::Codigo { funcion, codigo }) => {
            assert_eq!(funcion, "PdhOpenQueryW");
            assert_eq!(codigo, 0xC000_0BB8);
        }
        Ok(_) => panic!("una consulta que no se abre no se construye"),
    }
}

#[test]
fn el_muestreo_repetido_conserva_los_discos_y_el_primero_solo_ceba() {
    let discos = vec![("d0".to_string(), 0), ("d1".to_string(), 1)];
    let mut c = ConsultaActividad::reconstruir(&discos).unwrap();
    let paso = c.recoger(0);
    assert_eq!(paso, Recogida::Cebado);
    let m = c.muestras(&paso, &[]);
    assert_eq!(
        m,
        vec![("d0".to_string(), ClaseMuestra::AunNoLista), ("d1".to_string(), ClaseMuestra::AunNoLista)]
    );
    assert_eq!(c.discos(), discos);
    let paso = c.recoger(0);
    assert_eq!(paso, Recogida::Lista);
    let m = c.muestras(&paso, &[(0, 0), (PDH_INVALID_DATA, 0)]);
    assert_eq!(
        m,
        vec![("d0".to_string(), ClaseMuestra::Valida), ("d1".to_string(), ClaseMuestra::AunNoLista)]
    );
    let paso = c.recoger(7);
    let m = c.muestras(&paso, &[]);
    assert!(m.iter().all(|(_, clase)| *clase
        == ClaseMuestra::Fallo(ErrorPdh::Codigo { funcion: "PdhCollectQueryData", codigo: 7 })));
    assert_eq!(c.discos(), discos);
}
