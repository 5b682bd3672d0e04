//! Inventario de discos físicos: la clase de cada disco según su bus y su medio, y la
//! normalización de lo que entrega `Get-PhysicalDisk` (ya leído del JSON) a un `DiscoFisico`.
use vstd::prelude::*;
use crate::texto::{
    anexar, cadena_de, caracteres, decimal, decimal_u64, en_blanco, lectura_u32, leer_u32,
    minusculas_ascii, primera_aparicion, recortado, recortar, buscar, seq_a_minusculas_ascii,
};
use crate::tipos::DeviceType;

verus! {

/// `s` contiene `p`.
pub open spec fn contiene(s: Seq<char>, p: Seq<char>) -> bool {
    primera_aparicion(s, p) is Some
}

fn contiene_exec(s: &[char], p: &str) -> (r: bool)
    ensures
        r == contiene(s@, p@),
{
    let v = caracteres(p);
    buscar(s, v.as_slice()).is_some()
}

/// La clase de un disco según su bus y su medio, comparados en minúsculas ASCII: NVMe, USB,
/// RAID y virtual por el bus; en SATA/ATA/SAS, SSD o HDD según el medio; lo demás, desconocido.
pub open spec fn tipo_dispositivo(bus_type: Seq<char>, media_type: Seq<char>) -> DeviceType {
    let bus = minusculas_ascii(bus_type);
    let medio = minusculas_ascii(media_type);
    if contiene(bus, "nvme"@) {
        DeviceType::Nvme
    } else if contiene(bus, "usb"@) {
        DeviceType::Usb
    } else if contiene(bus, "raid"@) {
        DeviceType::RaidLogical
    } else if contiene(bus, "file backed virtual"@) || contiene(bus, "virtual"@) {
        DeviceType::Virtual
    } else if contiene(bus, "sata"@) || contiene(bus, "ata"@) || contiene(bus, "sas"@) {
        if contiene(medio, "ssd"@) {
            DeviceType::SataSsd
        } else if contiene(medio, "hdd"@) {
            DeviceType::Hdd
        } else {
            DeviceType::Unknown
        }
    } else {
        DeviceType::Unknown
    }
}

/// La clase del disco con ese bus y ese medio (un medio ausente cuenta como vacío).
pub fn clasificar(bus_type: &str, media_type: Option<&str>) -> (r: DeviceType)
    ensures
        r == tipo_dispositivo(
            bus_type@,
            match media_type {
                Some(m) => m@,
                None => seq![],
            },
        ),
{
    let b = caracteres(bus_type);
    let bus = seq_a_minusculas_ascii(b.as_slice());
    let m = match media_type {
        Some(m) => caracteres(m),
        None => Vec::new(),
    };
    let medio = seq_a_minusculas_ascii(m.as_slice());
    let bus = bus.as_slice();
    let medio = medio.as_slice();
    if contiene_exec(bus, "nvme") {
        DeviceType::Nvme
    } else if contiene_exec(bus, "usb") {
        DeviceType::Usb
    } else if contiene_exec(bus, "raid") {
        DeviceType::RaidLogical
    } else if contiene_exec(bus, "file backed virtual") || contiene_exec(bus, "virtual") {
        DeviceType::Virtual
    } else if contiene_exec(bus, "sata") || contiene_exec(bus, "ata") || contiene_exec(bus, "sas") {
        if contiene_exec(medio, "ssd") {
            DeviceType::SataSsd
        } else if contiene_exec(medio, "hdd") {
            DeviceType::Hdd
        } else {
            DeviceType::Unknown
        }
    } else {
        DeviceType::Unknown
    }
}

/// Lo que entrega `Get-PhysicalDisk` de un disco, tal cual, sin normalizar.
#[derive(Debug, Clone, PartialEq, Eq)]
pub struct DiscoFisicoCrudo {
    pub friendly_name: Option<String>,
    pub manufacturer: Option<String>,
    pub model: Option<String>,
    pub serial_number: Option<String>,
    pub size: Option<u64>,
    pub bus_type: Option<String>,
    pub media_type: Option<String>,
    pub device_id: Option<String>,
    pub unique_id: Option<String>,
    pub firmware_version: Option<String>,
}

/// Disco físico ya normalizado, todavía sin identificador ni fechas.
#[derive(Debug, Clone, PartialEq, Eq)]
pub struct DiscoFisico {
    pub model: String,
    pub manufacturer: Option<String>,
    pub serial_number: Option<String>,
    pub firmware: Option<String>,
    pub capacity_bytes: Option<i64>,
    pub bus_type: String,
    pub device_type: DeviceType,
    /// WWN o `PNPDeviceID`: identifica el disco de forma estable cuando no hay número de serie.
    pub wwn_o_pnp_device_id: String,
    /// Ruta con la que `smartctl` habla con el disco (`/dev/pdN`, por el índice que le da
    /// Windows ahora).
    pub smartctl_device_path: Option<String>,
}

pub open spec fn vista_opcional(o: Option<String>) -> Option<Seq<char>> {
    match o {
        Some(s) => Some(s@),
        None => None,
    }
}

/// Un `DiscoFisicoCrudo` con sus textos como secuencias.
pub struct VistaDiscoCrudo {
    pub friendly_name: Option<Seq<char>>,
    pub manufacturer: Option<Seq<char>>,
    pub model: Option<Seq<char>>,
    pub serial_number: Option<Seq<char>>,
    pub size: Option<u64>,
    pub bus_type: Option<Seq<char>>,
    pub media_type: Option<Seq<char>>,
    pub device_id: Option<Seq<char>>,
    pub unique_id: Option<Seq<char>>,
    pub firmware_version: Option<Seq<char>>,
}

impl View for DiscoFisicoCrudo {
    type V = VistaDiscoCrudo;

    open spec fn view(&self) -> VistaDiscoCrudo {
        VistaDiscoCrudo {
            friendly_name: vista_opcional(self.friendly_name),
            manufacturer: vista_opcional(self.manufacturer),
            model: vista_opcional(self.model),
            serial_number: vista_opcional(self.serial_number),
            size: self.size,
            bus_type: vista_opcional(self.bus_type),
            media_type: vista_opcional(self.media_type),
            device_id: vista_opcional(self.device_id),
            unique_id: vista_opcional(self.unique_id),
            firmware_version: vista_opcional(self.firmware_version),
        }
    }
}

/// Un `DiscoFisico` con sus textos como secuencias.
pub struct VistaDisco {
    pub model: Seq<char>,
    pub manufacturer: Option<Seq<char>>,
    pub serial_number: Option<Seq<char>>,
    pub firmware: Option<Seq<char>>,
    pub capacity_bytes: Option<i64>,
    pub bus_type: Seq<char>,
    pub device_type: DeviceType,
    pub wwn_o_pnp_device_id: Seq<char>,
    pub smartctl_device_path: Option<Seq<char>>,
}

impl View for DiscoFisico {
    type V = VistaDisco;

    open spec fn view(&self) -> VistaDisco {
        VistaDisco {
            model: self.model@,
            manufacturer: vista_opcional(self.manufacturer),
            serial_number: vista_opcional(self.serial_number),
            firmware: vista_opcional(self.firmware),
            capacity_bytes: self.capacity_bytes,
            bus_type: self.bus_type@,
            device_type: self.device_type,
            wwn_o_pnp_device_id: self.wwn_o_pnp_device_id@,
            smartctl_device_path: vista_opcional(self.smartctl_device_path),
        }
    }
}

/// Un texto opcional que no esté en blanco.
pub open spec fn no_en_blanco(o: Option<Seq<char>>) -> Option<Seq<char>> {
    match o {
        Some(s) => if recortado(s).len() > 0 {
            Some(s)
        } else {
            None
        },
        None => None,
    }
}

/// Un tamaño sin signo que quepa en un `i64`.
pub open spec fn en_i64(o: Option<u64>) -> Option<i64> {
    match o {
        Some(n) => if n <= i64::MAX {
            Some(n as i64)
        } else {
            None
        },
        None => None,
    }
}

/// `/dev/pdN` si el `DeviceId`, sin espacios alrededor, es un índice `u32`.
pub open spec fn ruta_smartctl(device_id: Option<Seq<char>>) -> Option<Seq<char>> {
    match device_id {
        Some(id) => match lectura_u32(recortado(id)) {
            Some(n) => Some("/dev/pd"@ + decimal(n as nat)),
            None => None,
        },
        None => None,
    }
}

/// El primero presente de dos textos opcionales, o `otro`.
pub open spec fn primero_o(a: Option<Seq<char>>, b: Option<Seq<char>>, otro: Seq<char>) -> Seq<
    char,
> {
    match a {
        Some(x) => x,
        None => match b {
            Some(y) => y,
            None => otro,
        },
    }
}

/// El disco normalizado: modelo (o nombre, o «Desconocido»), número de serie solo si no está en
/// blanco, capacidad solo si cabe en `i64`, bus «Unknown» si falta, su clase, identificador
/// estable (`UniqueId`, o `DeviceId`, o vacío) y ruta de `smartctl`.
pub open spec fn disco_normalizado(c: VistaDiscoCrudo) -> VistaDisco {
    let bus = match c.bus_type {
        Some(b) => b,
        None => "Unknown"@,
    };
    VistaDisco {
        model: primero_o(c.model, c.friendly_name, "Desconocido"@),
        manufacturer: c.manufacturer,
        serial_number: no_en_blanco(c.serial_number),
        firmware: c.firmware_version,
        capacity_bytes: en_i64(c.size),
        bus_type: bus,
        device_type: tipo_dispositivo(
            bus,
            match c.media_type {
                Some(m) => m,
                None => seq![],
            },
        ),
        wwn_o_pnp_device_id: primero_o(c.unique_id, c.device_id, seq![]),
        smartctl_device_path: ruta_smartctl(c.device_id),
    }
}

pub(crate) fn tamano_en_i64(o: Option<u64>) -> (r: Option<i64>)
    ensures
        r == en_i64(o),
{
    match o {
        Some(n) => if n <= 0x7fff_ffff_ffff_ffff {
            Some(n as i64)
        } else {
            None
        },
        None => None,
    }
}

fn ruta_de(device_id: &Option<String>) -> (r: Option<String>)
    ensures
        vista_opcional(r) == ruta_smartctl(vista_opcional(*device_id)),
{
    match device_id {
        Some(id) => {
            let c = caracteres(id.as_str());
            let t = recortar(c.as_slice());
            match leer_u32(t.as_slice()) {
                Some(n) => {
                    let mut r = caracteres("/dev/pd");
                    let d = decimal_u64(n as u64);
                    anexar(&mut r, d.as_slice());
                    Some(cadena_de(r.as_slice()))
                },
                None => None,
            }
        },
        None => None,
    }
}

/// Normaliza lo que entrega `Get-PhysicalDisk` de un disco.
pub fn normalizar_disco(c: DiscoFisicoCrudo) -> (r: DiscoFisico)
    ensures
        r@ == disco_normalizado(c@),
{
    let bus_type = match c.bus_type {
        Some(b) => b,
        None => "Unknown".to_owned(),
    };
    let medio: Option<&str> = match &c.media_type {
        Some(m) => Some(m.as_str()),
        None => None,
    };
    let device_type = clasificar(bus_type.as_str(), medio);
    let smartctl_device_path = ruta_de(&c.device_id);
    let model = match c.model {
        Some(m) => m,
        None => match c.friendly_name {
            Some(f) => f,
            None => "Desconocido".to_owned(),
        },
    };
    let serial_number = match c.serial_number {
        Some(s) => if en_blanco(s.as_str()) {
            None
        } else {
            Some(s)
        },
        None => None,
    };
    let wwn_o_pnp_device_id = match c.unique_id {
        Some(u) => u,
        None => match c.device_id {
            Some(d) => d,
            None => String::new(),
        },
    };
    DiscoFisico {
        model,
        manufacturer: c.manufacturer,
        serial_number,
        firmware: c.firmware_version,
        capacity_bytes: tamano_en_i64(c.size),
        bus_type,
        device_type,
        wwn_o_pnp_device_id,
        smartctl_device_path,
    }
}

/// Normaliza, en orden, los discos que entrega `Get-PhysicalDisk`.
pub fn normalizar_discos(crudos: Vec<DiscoFisicoCrudo>) -> (r: Vec<DiscoFisico>)
    ensures
        r@.len() == crudos@.len(),
        forall|i: int| 0 <= i < r@.len() ==> #[trigger] r@[i]@ == disco_normalizado(crudos@[i]@),
{
    let mut r: Vec<DiscoFisico> = Vec::new();
    let mut resto = crudos;
    let ghost todos = resto@;
    while resto.len() > 0
        invariant
            r@.len() + resto@.len() == todos.len(),
            resto@ == todos.subrange(r@.len() as int, todos.len() as int),
            forall|k: int| 0 <= k < r@.len() ==> #[trigger] r@[k]@ == disco_normalizado(todos[k]@),
        decreases resto@.len(),
    {
        let c = resto.remove(0);
        r.push(normalizar_disco(c));
        assert(resto@ =~= todos.subrange(r@.len() as int, todos.len() as int));
    }
    r
}

} // verus!
