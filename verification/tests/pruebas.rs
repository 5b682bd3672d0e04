use smartdisk::inventario::{primera_letra_unidad, Volumen};
use smartdisk::pruebas::{
    admitir_autotest, admitir_chkdsk, estado_de_benchmark, preparar_benchmark, resumen_autotest,
    resumen_chkdsk, DispositivoDePrueba, RazonParada, ResultadoAutotest, ResultadoChkdsk,
    TestStatus, SIN_RESULTADO,
};
use smartdisk::tipos::MappingConfidence as MC;

fn con_letras(json: Option<&str>) -> Volumen {
    Volumen {
        id: "v1".to_string(),
        volume_guid: "guid-v1".to_string(),
        label: None,
        filesystem: Some("NTFS".to_string()),
        drive_letters_json: json.map(str::to_string),
        capacity_bytes: Some(1_000_000_000),
        free_bytes: Some(500_000_000),
        device_mapping_confidence: Some(MC::Exact),
        first_seen_at: "2026-09-04T00:00:00Z".to_string(),
        last_seen_at: "2026-09-04T00:00:00Z".to_string(),
    }
}

fn volumen(letras: Option<&str>) -> Volumen {
    con_letras(letras.map(|l| format!("[\"{l}\"]")).as_deref())
}

#[test]
fn primera_letra_unidad_toma_la_primera_de_la_lista() {
    assert_eq!(primera_letra_unidad(&volumen(Some("D:"))), Some('D'));
}

#[test]
fn primera_letra_unidad_sin_letras_es_ninguna() {
    assert_eq!(primera_letra_unidad(&volumen(None)), None);
}

#[test]
fn primera_letra_unidad_de_varias_y_de_listas_raras() {
    assert_eq!(primera_letra_unidad(&con_letras(Some("[\"E:\", \"F:\"]"))), Some('E'));
    assert_eq!(primera_letra_unidad(&con_letras(Some("[]"))), None);
    assert_eq!(primera_letra_unidad(&con_letras(Some("no es json"))), None);
    assert_eq!(primera_letra_unidad(&con_letras(Some("[\"\"]"))), None);
}

fn codigo<T: std::fmt::Debug>(r: Result<T, smartdisk::tipos::AppError>) -> (String, String) {
    let e = r.unwrap_err();
    assert!(e.detail.is_none());
    assert!(!e.retryable);
    (e.code, e.message_key)
}

#[test]
fn el_benchmark_rechaza_en_orden_volumen_ocupado_ruta_y_espacio() {
    let d = volumen(Some("D:"));
    let sin_letra = volumen(None);
    assert_eq!(
        codigo(preparar_benchmark(None, true, None, 0, "random", 1)),
        ("volume.not_found".to_string(), "error.volumeNotFound".to_string())
    );
    assert_eq!(
        codigo(preparar_benchmark(Some(&sin_letra), true, None, 0, "random", 1)),
        ("test.busy".to_string(), "error.testBusy".to_string())
    );
    assert_eq!(
        codigo(preparar_benchmark(Some(&sin_letra), false, None, 0, "random", 1)),
        ("path.invalid".to_string(), "error.pathInvalid".to_string())
    );
    assert_eq!(
        codigo(preparar_benchmark(Some(&d), false, None, 0, "random", 1)),
        (
            "test.insufficient_space".to_string(),
            "error.testInsufficientSpace".to_string()
        )
    );
}

#[test]
fn el_benchmark_admitido_fija_bloque_pasadas_y_modo() {
    let d = volumen(Some("D:"));
    let p = preparar_benchmark(Some(&d), false, Some(1_000_000), 0, "random", 0).unwrap();
    assert_eq!(p.letra, 'D');
    assert_eq!(p.size_bytes, 1_000_000);
    assert_eq!(p.block_size_bytes, 1_048_576);
    assert_eq!(p.passes, 1);
    assert!(p.aleatorio);

    let p = preparar_benchmark(Some(&d), false, Some(5), 4096, "sequential", 25).unwrap();
    assert_eq!(p.block_size_bytes, 4096);
    assert_eq!(p.passes, 10);
    assert!(!p.aleatorio);

    let p = preparar_benchmark(Some(&d), false, Some(5), -3, "RANDOM", 7).unwrap();
    assert_eq!(p.block_size_bytes, 1_048_576);
    assert_eq!(p.passes, 7);
    assert!(!p.aleatorio);
}

#[test]
fn cada_razon_de_parada_del_benchmark_tiene_su_estado() {
    assert_eq!(estado_de_benchmark(RazonParada::Completed), (TestStatus::Completed, "completed"));
    assert_eq!(estado_de_benchmark(RazonParada::Cancelled), (TestStatus::Cancelled, "cancelled"));
    assert_eq!(estado_de_benchmark(RazonParada::Thermal), (TestStatus::Failed, "thermal"));
    assert_eq!(estado_de_benchmark(RazonParada::Space), (TestStatus::Failed, "space"));
    assert_eq!(estado_de_benchmark(RazonParada::Error), (TestStatus::Failed, "error"));
}

#[test]
fn chkdsk_rechaza_en_orden_volumen_soporte_ruta_y_ocupado() {
    let d = volumen(Some("D:"));
    let sin_letra = volumen(None);
    assert_eq!(codigo(admitir_chkdsk(None, false, true)).0, "volume.not_found");
    assert_eq!(
        codigo(admitir_chkdsk(Some(&sin_letra), false, true)),
        ("test.unsupported".to_string(), "error.testUnsupported".to_string())
    );
    assert_eq!(codigo(admitir_chkdsk(Some(&sin_letra), true, true)).0, "path.invalid");
    assert_eq!(
        codigo(admitir_chkdsk(Some(&d), true, true)),
        ("test.busy".to_string(), "error.testBusy".to_string())
    );
    assert_eq!(admitir_chkdsk(Some(&d), true, false).unwrap(), 'D');
}

#[test]
fn el_resultado_de_chkdsk_se_traduce_en_estado_y_resumen() {
    let (estado, r) = resumen_chkdsk(ResultadoChkdsk::Terminado {
        exit_status: 0,
        texto: "sin problemas".to_string(),
        codificacion: "cp850".to_string(),
    });
    assert_eq!(estado, TestStatus::Completed);
    assert_eq!(r.passed, Some(true));
    assert_eq!(r.stopped_reason.as_deref(), Some("completed"));
    assert_eq!(r.output.as_deref(), Some("sin problemas"));
    assert_eq!(r.output_encoding.as_deref(), Some("cp850"));

    let (estado, r) = resumen_chkdsk(ResultadoChkdsk::Terminado {
        exit_status: 3,
        texto: "errores".to_string(),
        codificacion: "utf-8".to_string(),
    });
    assert_eq!(estado, TestStatus::Completed);
    assert_eq!(r.passed, Some(false));
    assert_eq!(r.stopped_reason.as_deref(), Some("error"));

    let (estado, r) = resumen_chkdsk(ResultadoChkdsk::Cancelado);
    assert_eq!(estado, TestStatus::Cancelled);
    assert_eq!(r.stopped_reason.as_deref(), Some("cancelled"));
    assert!(r.passed.is_none() && r.output.is_none() && r.output_encoding.is_none());

    let (estado, r) = resumen_chkdsk(ResultadoChkdsk::Io("acceso denegado".to_string()));
    assert_eq!(estado, TestStatus::Failed);
    assert_eq!(r.stopped_reason.as_deref(), Some("error"));
    assert_eq!(r.output.as_deref(), Some("acceso denegado"));
}

#[test]
fn el_autotest_rechaza_en_orden_dispositivo_soporte_y_ocupado() {
    let con_ruta = DispositivoDePrueba { smartctl_path: Some("/dev/pd0".to_string()) };
    let sin_ruta = DispositivoDePrueba { smartctl_path: None };
    assert_eq!(
        codigo(admitir_autotest(None, false, true)),
        ("device.not_found".to_string(), "error.deviceNotFound".to_string())
    );
    assert_eq!(codigo(admitir_autotest(Some(&sin_ruta), false, true)).0, "test.unsupported");
    assert_eq!(codigo(admitir_autotest(Some(&con_ruta), true, true)).0, "test.busy");
    assert_eq!(codigo(admitir_autotest(Some(&sin_ruta), true, false)).0, "test.unsupported");
    assert_eq!(admitir_autotest(Some(&con_ruta), true, false).unwrap(), "/dev/pd0");
}

#[test]
fn el_resultado_del_autotest_se_traduce_en_estado_y_resumen() {
    let (estado, r) = resumen_autotest(ResultadoAutotest::Terminado {
        passed: true,
        descripcion: Some("Completed without error".to_string()),
    });
    assert_eq!(estado, TestStatus::Completed);
    assert_eq!(r.passed, Some(true));
    assert_eq!(r.stopped_reason.as_deref(), Some("completed"));
    assert_eq!(r.output.as_deref(), Some("Completed without error"));

    let (estado, r) = resumen_autotest(ResultadoAutotest::Terminado { passed: false, descripcion: None });
    assert_eq!(estado, TestStatus::Completed);
    assert_eq!(r.passed, Some(false));
    assert_eq!(r.stopped_reason.as_deref(), Some("error"));
    assert!(r.output.is_none());

    let (estado, r) = resumen_autotest(ResultadoAutotest::Cancelado);
    assert_eq!(estado, TestStatus::Cancelled);
    assert_eq!(r.stopped_reason.as_deref(), Some("cancelled"));

    let (estado, r) = resumen_autotest(ResultadoAutotest::FalloAlIniciar("no existe".to_string()));
    assert_eq!(estado, TestStatus::Failed);
    assert_eq!(r.output.as_deref(), Some("no existe"));

    let (estado, r) = resumen_autotest(ResultadoAutotest::SinResultado);
    assert_eq!(estado, TestStatus::Failed);
    assert_eq!(r.stopped_reason.as_deref(), Some("error"));
    assert_eq!(r.output.as_deref(), Some(SIN_RESULTADO));
}
