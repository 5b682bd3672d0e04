//! La fusión de lo que se lee del sistema (discos y volúmenes) con lo que el inventario ya
//! sabía de ello, y el enlace de cada volumen con el disco al que pertenece.
use vstd::prelude::*;

use crate::capacidad::{VistaVolumen, VolumenLeido};
use crate::commands::{copia_opcional, disk_number_from_smartctl_path, numero_de_disco};
use crate::texto::{cadena_de, caracteres};
use crate::tipos::{DeviceType, MappingConfidence};
use crate::windows_storage::{vista_opcional, DiscoFisico, VistaDisco};

verus! {

/// Un dispositivo del inventario.
#[derive(Debug, Clone)]
pub struct Dispositivo {
    pub id: String,
    /// La huella con la que se reconoce el disco entre lecturas.
    pub fingerprint: String,
    pub serial_number: Option<String>,
    pub model: String,
    pub manufacturer: Option<String>,
    pub firmware: Option<String>,
    pub device_type: DeviceType,
    pub bus_type: Option<String>,
    pub smartctl_path: Option<String>,
    pub capacity_bytes: Option<i64>,
    /// Nombre que le dio el usuario.
    pub alias: Option<String>,
    pub monitoring_enabled: bool,
    pub first_seen_at: String,
    pub last_seen_at: String,
    pub removed_at: Option<String>,
    pub capabilities_json: Option<String>,
}

/// Un `Dispositivo` con sus textos como secuencias.
pub struct VistaDispositivo {
    pub id: Seq<char>,
    pub fingerprint: Seq<char>,
    pub serial_number: Option<Seq<char>>,
    pub model: Seq<char>,
    pub manufacturer: Option<Seq<char>>,
    pub firmware: Option<Seq<char>>,
    pub device_type: DeviceType,
    pub bus_type: Option<Seq<char>>,
    pub smartctl_path: Option<Seq<char>>,
    pub capacity_bytes: Option<i64>,
    pub alias: Option<Seq<char>>,
    pub monitoring_enabled: bool,
    pub first_seen_at: Seq<char>,
    pub last_seen_at: Seq<char>,
    pub removed_at: Option<Seq<char>>,
    pub capabilities_json: Option<Seq<char>>,
}

impl View for Dispositivo {
    type V = VistaDispositivo;

    open spec fn view(&self) -> VistaDispositivo {
        VistaDispositivo {
            id: self.id@,
            fingerprint: self.fingerprint@,
            serial_number: vista_opcional(self.serial_number),
            model: self.model@,
            manufacturer: vista_opcional(self.manufacturer),
            firmware: vista_opcional(self.firmware),
            device_type: self.device_type,
            bus_type: vista_opcional(self.bus_type),
            smartctl_path: vista_opcional(self.smartctl_path),
            capacity_bytes: self.capacity_bytes,
            alias: vista_opcional(self.alias),
            monitoring_enabled: self.monitoring_enabled,
            first_seen_at: self.first_seen_at@,
            last_seen_at: self.last_seen_at@,
            removed_at: vista_opcional(self.removed_at),
            capabilities_json: vista_opcional(self.capabilities_json),
        }
    }
}

/// La vista de un dispositivo que puede no existir.
pub open spec fn vista_existente(existente: Option<&Dispositivo>) -> Option<VistaDispositivo> {
    match existente {
        Some(d) => Some(d@),
        None => None,
    }
}

/// El dispositivo que resulta de leer `disco`, con huella `huella`, en el instante `ahora`,
/// sabiendo lo que el inventario guardaba con esa huella (`existente`). Lo que describe el
/// hardware se toma siempre de la lectura (también la ruta de `smartctl`, porque el índice que
/// le da Windows puede cambiar entre arranques); el identificador, el alias, si se vigila y
/// cuándo se vio por primera vez se conservan, y un disco nuevo toma la huella como
/// identificador, sin alias, vigilado y visto por primera vez ahora. Queda presente (sin
/// fecha de baja) y visto por última vez ahora.
pub open spec fn fusion(
    existente: Option<VistaDispositivo>,
    disco: VistaDisco,
    huella: Seq<char>,
    ahora: Seq<char>,
) -> VistaDispositivo {
    VistaDispositivo {
        id: match existente {
            Some(e) => e.id,
            None => huella,
        },
        fingerprint: huella,
        serial_number: disco.serial_number,
        model: disco.model,
        manufacturer: disco.manufacturer,
        firmware: disco.firmware,
        device_type: disco.device_type,
        bus_type: Some(disco.bus_type),
        smartctl_path: disco.smartctl_device_path,
        capacity_bytes: disco.capacity_bytes,
        alias: match existente {
            Some(e) => e.alias,
            None => None,
        },
        monitoring_enabled: match existente {
            Some(e) => e.monitoring_enabled,
            None => true,
        },
        first_seen_at: match existente {
            Some(e) => e.first_seen_at,
            None => ahora,
        },
        last_seen_at: ahora,
        removed_at: None,
        capabilities_json: None,
    }
}

/// El dispositivo del inventario tras leer `disco` (con huella `huella`) en `ahora`, dado el
/// que el inventario tenía con esa huella, si tenía alguno.
pub fn fusionar_dispositivo(
    existente: Option<&Dispositivo>,
    disco: &DiscoFisico,
    huella: &str,
    ahora: &str,
) -> (r: Dispositivo)
    ensures
        r@ == fusion(vista_existente(existente), disco@, huella@, ahora@),
{
    let (id, alias, monitoring_enabled, first_seen_at) = match existente {
        Some(e) => (e.id.clone(), copia_opcional(&e.alias), e.monitoring_enabled, e.first_seen_at.clone()),
        None => (huella.to_owned(), None, true, ahora.to_owned()),
    };
    Dispositivo {
        id,
        fingerprint: huella.to_owned(),
        serial_number: copia_opcional(&disco.serial_number),
        model: disco.model.clone(),
        manufacturer: copia_opcional(&disco.manufacturer),
        firmware: copia_opcional(&disco.firmware),
        device_type: disco.device_type,
        bus_type: Some(disco.bus_type.clone()),
        smartctl_path: copia_opcional(&disco.smartctl_device_path),
        capacity_bytes: disco.capacity_bytes,
        alias,
        monitoring_enabled,
        first_seen_at,
        last_seen_at: ahora.to_owned(),
        removed_at: None,
        capabilities_json: None,
    }
}

// ---------------------------------------------------------------------------------------------
// Volúmenes
// ---------------------------------------------------------------------------------------------

/// Un volumen del inventario.
#[derive(Debug, Clone)]
pub struct Volumen {
    pub id: String,
    pub volume_guid: String,
    pub label: Option<String>,
    pub filesystem: Option<String>,
    /// Las letras de unidad, como array JSON de textos (`["D:"]`).
    pub drive_letters_json: Option<String>,
    pub capacity_bytes: Option<i64>,
    pub free_bytes: Option<i64>,
    /// Con qué confianza se sabe a qué disco pertenece.
    pub device_mapping_confidence: Option<MappingConfidence>,
    pub first_seen_at: String,
    pub last_seen_at: String,
}

/// Un `Volumen` con sus textos como secuencias.
pub struct VistaVolumenInventario {
    pub id: Seq<char>,
    pub volume_guid: Seq<char>,
    pub label: Option<Seq<char>>,
    pub filesystem: Option<Seq<char>>,
    pub drive_letters_json: Option<Seq<char>>,
    pub capacity_bytes: Option<i64>,
    pub free_bytes: Option<i64>,
    pub device_mapping_confidence: Option<MappingConfidence>,
    pub first_seen_at: Seq<char>,
    pub last_seen_at: Seq<char>,
}

impl View for Volumen {
    type V = VistaVolumenInventario;

    open spec fn view(&self) -> VistaVolumenInventario {
        VistaVolumenInventario {
            id: self.id@,
            volume_guid: self.volume_guid@,
            label: vista_opcional(self.label),
            filesystem: vista_opcional(self.filesystem),
            drive_letters_json: vista_opcional(self.drive_letters_json),
            capacity_bytes: self.capacity_bytes,
            free_bytes: self.free_bytes,
            device_mapping_confidence: self.device_mapping_confidence,
            first_seen_at: self.first_seen_at@,
            last_seen_at: self.last_seen_at@,
        }
    }
}

/// Las vistas de una lista de textos.
pub open spec fn vistas_textos(v: Seq<String>) -> Seq<Seq<char>> {
    v.map_values(|s: String| s@)
}

/// La lista de textos que `serde_json` lee de un array JSON de cadenas, o `None` si el texto no
/// es tal array.
pub uninterp spec fn lista_json_de_textos(texto: Seq<char>) -> Option<Seq<Seq<char>>>;

/// El array JSON que `serde_json` escribe para una lista de textos.
pub uninterp spec fn json_de_lista_de_textos(textos: Seq<Seq<char>>) -> Seq<char>;

/// Lee un array JSON de cadenas con `serde_json::from_str::<Vec<String>>`; `None` si falla. Qué
/// textos acepta y qué lista les da queda nombrado, sin enunciar.
#[verifier::external_body]
fn leer_lista_de_textos(texto: &str) -> (r: Option<Vec<String>>)
    ensures
        match r {
            Some(v) => lista_json_de_textos(texto@) == Some(vistas_textos(v@)),
            None => lista_json_de_textos(texto@) is None,
        },
{
    serde_json::from_str::<Vec<String>>(texto).ok()
}

/// Escribe una lista de textos como array JSON con `serde_json::to_string`. Según su
/// documentación solo falla si un `Serialize` decide fallar o hay un mapa con claves que no son
/// texto, y una lista de textos no tiene ninguna de las dos cosas: siempre da `Some`. El texto se
/// nombra; de él se afirma que `serde_json` vuelve a leerlo como la misma lista.
#[verifier::external_body]
fn escribir_lista_de_textos(textos: &Vec<String>) -> (r: Option<String>)
    ensures
        r is Some,
        r matches Some(s) ==> s@ == json_de_lista_de_textos(vistas_textos(textos@)),
        r matches Some(s) ==> lista_json_de_textos(s@) == Some(vistas_textos(textos@)),
{
    serde_json::to_string(textos).ok()
}

/// La letra de unidad de una lista de letras guardada: el primer carácter de su primera
/// entrada, si la lista se puede leer y lo tiene.
pub open spec fn letra_de_unidad(drive_letters_json: Option<Seq<char>>) -> Option<char> {
    match drive_letters_json {
        None => None,
        Some(t) => match lista_json_de_textos(t) {
            Some(l) => if l.len() > 0 && l[0].len() > 0 {
                Some(l[0][0])
            } else {
                None
            },
            None => None,
        },
    }
}

/// La letra con la que se llega al volumen: el primer carácter de la primera entrada de su
/// lista de letras. Sin lista, con una lista ilegible o vacía, ninguna.
pub fn primera_letra_unidad(v: &Volumen) -> (r: Option<char>)
    ensures
        r == letra_de_unidad(vista_opcional(v.drive_letters_json)),
{
    match &v.drive_letters_json {
        None => None,
        Some(t) => match leer_lista_de_textos(t.as_str()) {
            None => None,
            Some(l) => {
                if l.len() == 0 {
                    None
                } else {
                    let cs = caracteres(l[0].as_str());
                    if cs.len() == 0 {
                        None
                    } else {
                        Some(cs[0])
                    }
                }
            },
        },
    }
}

/// La lista de letras que se guarda para un volumen con letra `c`: `["c:"]`.
pub open spec fn letras_guardadas(c: char) -> Seq<char> {
    json_de_lista_de_textos(seq![seq![c, ':']])
}

/// Los pares `(número de disco, id)` de los dispositivos cuya ruta de `smartctl` da un número de
/// disco, en su orden.
pub open spec fn enlaces_de(ds: Seq<Dispositivo>) -> Seq<(i64, Seq<char>)>
    decreases ds.len(),
{
    if ds.len() == 0 {
        seq![]
    } else {
        let previos = enlaces_de(ds.drop_last());
        let d = ds.last();
        match d.smartctl_path {
            Some(ruta) => match numero_de_disco(ruta@) {
                Some(n) => previos.push((n, d.id@)),
                None => previos,
            },
            None => previos,
        }
    }
}

/// Las vistas de una lista de enlaces.
pub open spec fn vistas_enlaces(v: Seq<(i64, String)>) -> Seq<(i64, Seq<char>)> {
    v.map_values(|e: (i64, String)| (e.0, e.1@))
}

/// Qué dispositivo pertenece a cada número de disco, según su ruta de `smartctl`.
pub fn enlaces_de_discos(dispositivos: &[Dispositivo]) -> (r: Vec<(i64, String)>)
    ensures
        vistas_enlaces(r@) == enlaces_de(dispositivos@),
{
    let mut r: Vec<(i64, String)> = Vec::new();
    let mut i: usize = 0;
    while i < dispositivos.len()
        invariant
            i <= dispositivos.len(),
            vistas_enlaces(r@) == enlaces_de(dispositivos@.take(i as int)),
        decreases dispositivos.len() - i,
    {
        let ghost antes = r@;
        assert(dispositivos@.take(i as int + 1).drop_last() =~= dispositivos@.take(i as int));
        let d = &dispositivos[i];
        if let Some(ruta) = &d.smartctl_path {
            if let Some(n) = disk_number_from_smartctl_path(ruta.as_str()) {
                let id = d.id.clone();
                r.push((n, id));
                assert(vistas_enlaces(r@) =~= vistas_enlaces(antes).push((n, id@)));
            }
        }
        i += 1;
    }
    assert(dispositivos@.take(dispositivos@.len() as int) =~= dispositivos@);
    r
}

/// El dispositivo enlazado al número de disco `n`: el del último enlace con ese número (cada
/// enlace posterior sustituye a los anteriores).
pub open spec fn enlazado(enlaces: Seq<(i64, Seq<char>)>, n: i64) -> Option<Seq<char>>
    decreases enlaces.len(),
{
    if enlaces.len() == 0 {
        None
    } else if enlaces.last().0 == n {
        Some(enlaces.last().1)
    } else {
        enlazado(enlaces.drop_last(), n)
    }
}

/// El dispositivo al que pertenece un volumen de número de disco `disk_number`, o `None`.
fn dispositivo_de_volumen(disk_number: Option<i64>, enlaces: &[(i64, String)]) -> (r: Option<String>)
    ensures
        vista_opcional(r) == match disk_number {
            Some(n) => enlazado(vistas_enlaces(enlaces@), n),
            None => None,
        },
{
    let n = match disk_number {
        Some(n) => n,
        None => return None,
    };
    let mut i: usize = enlaces.len();
    assert(enlaces@.take(i as int) =~= enlaces@);
    while i > 0
        invariant
            i <= enlaces.len(),
            disk_number == Some(n),
            enlazado(vistas_enlaces(enlaces@), n) == enlazado(vistas_enlaces(enlaces@.take(i as int)), n),
        decreases i,
    {
        assert(vistas_enlaces(enlaces@.take(i as int)).drop_last() =~= vistas_enlaces(
            enlaces@.take(i as int - 1),
        ));
        if enlaces[i - 1].0 == n {
            let id = enlaces[i - 1].1.clone();
            assert(vistas_enlaces(enlaces@.take(i as int)).last() == (n, id@));
            assert(enlazado(vistas_enlaces(enlaces@.take(i as int)), n) == Some(id@));
            return Some(id);
        }
        i -= 1;
    }
    None
}

/// El volumen que resulta de leer `leido` en `ahora`, dado el que el inventario tenía con el
/// mismo GUID (`existente`) y el dispositivo al que pertenece (`enlace`). Todo sale de la
/// lectura salvo cuándo se vio por primera vez, que se conserva. La confianza del enlace es
/// exacta si se conoce el disco y desconocida si no: se recalcula en cada lectura.
pub open spec fn fusion_volumen(
    existente: Option<VistaVolumenInventario>,
    leido: VistaVolumen,
    enlace: Option<Seq<char>>,
    ahora: Seq<char>,
) -> VistaVolumenInventario {
    VistaVolumenInventario {
        id: leido.volume_guid,
        volume_guid: leido.volume_guid,
        label: leido.label,
        filesystem: leido.filesystem,
        drive_letters_json: match leido.drive_letter {
            Some(c) => Some(letras_guardadas(c)),
            None => None,
        },
        capacity_bytes: leido.capacity_bytes,
        free_bytes: leido.free_bytes,
        device_mapping_confidence: Some(
            if enlace is Some {
                MappingConfidence::Exact
            } else {
                MappingConfidence::Unknown
            },
        ),
        first_seen_at: match existente {
            Some(e) => e.first_seen_at,
            None => ahora,
        },
        last_seen_at: ahora,
    }
}

/// La vista de un volumen que puede no existir.
pub open spec fn vista_volumen_existente(existente: Option<&Volumen>) -> Option<VistaVolumenInventario> {
    match existente {
        Some(v) => Some(v@),
        None => None,
    }
}

/// El volumen del inventario tras leer `leido` en `ahora`, y el dispositivo con el que queda
/// enlazado (por su número de disco y los `enlaces` de esta lectura), si se conoce. La letra
/// guardada es la leída: es la que vuelve a dar `primera_letra_unidad`.
pub fn fusionar_volumen(
    existente: Option<&Volumen>,
    leido: &VolumenLeido,
    enlaces: &[(i64, String)],
    ahora: &str,
) -> (r: (Volumen, Option<String>))
    ensures
        vista_opcional(r.1) == match leido.disk_number {
            Some(n) => enlazado(vistas_enlaces(enlaces@), n),
            None => None,
        },
        r.0@ == fusion_volumen(vista_volumen_existente(existente), leido@, vista_opcional(r.1), ahora@),
        letra_de_unidad(r.0@.drive_letters_json) == leido.drive_letter,
{
    let enlace = dispositivo_de_volumen(leido.disk_number, enlaces);
    let drive_letters_json = match leido.drive_letter {
        Some(c) => {
            let letra: Vec<char> = vec![c, ':'];
            let entrada = cadena_de(letra.as_slice());
            let lista: Vec<String> = vec![entrada];
            assert(vistas_textos(lista@) =~= seq![seq![c, ':']]);
            escribir_lista_de_textos(&lista)
        },
        None => None,
    };
    let confianza = if enlace.is_some() {
        MappingConfidence::Exact
    } else {
        MappingConfidence::Unknown
    };
    let first_seen_at = match existente {
        Some(e) => e.first_seen_at.clone(),
        None => ahora.to_owned(),
    };
    let v = Volumen {
        id: leido.volume_guid.clone(),
        volume_guid: leido.volume_guid.clone(),
        label: copia_opcional(&leido.label),
        filesystem: copia_opcional(&leido.filesystem),
        drive_letters_json,
        capacity_bytes: leido.capacity_bytes,
        free_bytes: leido.free_bytes,
        device_mapping_confidence: Some(confianza),
        first_seen_at,
        last_seen_at: ahora.to_owned(),
    };
    (v, enlace)
}

/// Un disco que el inventario ya conocía conserva su identificador, su alias, si se vigila y
/// cuándo se vio por primera vez; uno nuevo toma la huella como identificador, queda vigilado,
/// sin alias y visto por primera vez ahora. Ambos quedan presentes, vistos por última vez ahora y
/// con lo que describe el hardware tal como se leyó.
pub proof fn la_fusion_conserva_lo_del_usuario(
    e: VistaDispositivo,
    disco: VistaDisco,
    huella: Seq<char>,
    ahora: Seq<char>,
)
    ensures
        ({
            let f = fusion(Some(e), disco, huella, ahora);
            &&& f.id == e.id && f.alias == e.alias && f.monitoring_enabled == e.monitoring_enabled
            &&& f.first_seen_at == e.first_seen_at
        }),
        ({
            let n = fusion(None, disco, huella, ahora);
            &&& n.id == huella && n.alias is None && n.monitoring_enabled
            &&& n.first_seen_at == ahora
        }),
        forall|x: Option<VistaDispositivo>| {
            let f = #[trigger] fusion(x, disco, huella, ahora);
            &&& f.fingerprint == huella && f.last_seen_at == ahora && f.removed_at is None
            &&& f.model == disco.model && f.serial_number == disco.serial_number
            &&& f.smartctl_path == disco.smartctl_device_path
            &&& f.capacity_bytes == disco.capacity_bytes && f.device_type == disco.device_type
        },
{
}

/// Un volumen conserva cuándo se vio por primera vez y toma todo lo demás de la lectura; su
/// enlace es exacto exactamente cuando se conoce su disco.
pub proof fn la_fusion_de_un_volumen(
    e: VistaVolumenInventario,
    leido: VistaVolumen,
    enlace: Option<Seq<char>>,
    ahora: Seq<char>,
)
    ensures
        fusion_volumen(Some(e), leido, enlace, ahora).first_seen_at == e.first_seen_at,
        fusion_volumen(None, leido, enlace, ahora).first_seen_at == ahora,
        forall|x: Option<VistaVolumenInventario>| {
            let v = #[trigger] fusion_volumen(x, leido, enlace, ahora);
            &&& v.id == leido.volume_guid && v.last_seen_at == ahora
            &&& v.free_bytes == leido.free_bytes && v.capacity_bytes == leido.capacity_bytes
            &&& (v.device_mapping_confidence == Some(MappingConfidence::Exact) <==> enlace is Some)
            &&& (v.drive_letters_json is Some <==> leido.drive_letter is Some)
        },
{
}

} // verus!
