//! Capacidad de los volúmenes: la normalización de lo que entrega la consulta combinada de
//! particiones y volúmenes (ya leída del JSON) a un `VolumenLeido`.
use vstd::prelude::*;
use crate::texto::en_blanco;
use crate::windows_storage::{en_i64, no_en_blanco, tamano_en_i64, vista_opcional};

verus! {

/// Lo que entrega la consulta de un volumen, tal cual, sin normalizar.
#[derive(Debug, Clone, PartialEq, Eq)]
pub struct VolumenCrudo {
    pub disk_number: Option<i64>,
    pub drive_letter: Option<String>,
    pub file_system_label: Option<String>,
    pub file_system: Option<String>,
    pub size: Option<u64>,
    pub size_remaining: Option<u64>,
    pub unique_id: Option<String>,
}

/// Volumen ya normalizado, todavía sin identificador propio.
#[derive(Debug, Clone, PartialEq, Eq)]
pub struct VolumenLeido {
    /// `\\?\Volume{guid}\`: identidad estable del volumen, a diferencia de su letra.
    pub volume_guid: String,
    pub label: Option<String>,
    pub filesystem: Option<String>,
    pub drive_letter: Option<char>,
    pub capacity_bytes: Option<i64>,
    pub free_bytes: Option<i64>,
    /// El disco físico al que pertenece, en la numeración efímera de Windows.
    pub disk_number: Option<i64>,
}

/// Un `VolumenCrudo` con sus textos como secuencias.
pub struct VistaVolumenCrudo {
    pub disk_number: Option<i64>,
    pub drive_letter: Option<Seq<char>>,
    pub file_system_label: Option<Seq<char>>,
    pub file_system: Option<Seq<char>>,
    pub size: Option<u64>,
    pub size_remaining: Option<u64>,
    pub unique_id: Option<Seq<char>>,
}

impl View for VolumenCrudo {
    type V = VistaVolumenCrudo;

    open spec fn view(&self) -> VistaVolumenCrudo {
        VistaVolumenCrudo {
            disk_number: self.disk_number,
            drive_letter: vista_opcional(self.drive_letter),
            file_system_label: vista_opcional(self.file_system_label),
            file_system: vista_opcional(self.file_system),
            size: self.size,
            size_remaining: self.size_remaining,
            unique_id: vista_opcional(self.unique_id),
        }
    }
}

/// Un `VolumenLeido` con sus textos como secuencias.
pub struct VistaVolumen {
    pub volume_guid: Seq<char>,
    pub label: Option<Seq<char>>,
    pub filesystem: Option<Seq<char>>,
    pub drive_letter: Option<char>,
    pub capacity_bytes: Option<i64>,
    pub free_bytes: Option<i64>,
    pub disk_number: Option<i64>,
}

impl View for VolumenLeido {
    type V = VistaVolumen;

    open spec fn view(&self) -> VistaVolumen {
        VistaVolumen {
            volume_guid: self.volume_guid@,
            label: vista_opcional(self.label),
            filesystem: vista_opcional(self.filesystem),
            drive_letter: self.drive_letter,
            capacity_bytes: self.capacity_bytes,
            free_bytes: self.free_bytes,
            disk_number: self.disk_number,
        }
    }
}

/// El primer carácter de un texto opcional, si lo tiene.
pub open spec fn primera_letra(o: Option<Seq<char>>) -> Option<char> {
    match o {
        Some(s) => if s.len() > 0 {
            Some(s[0])
        } else {
            None
        },
        None => None,
    }
}

/// El volumen normalizado, o `None` si no trae `UniqueId` (sin identidad estable no se guarda):
/// etiqueta solo si no está en blanco, letra de unidad por su primer carácter y tamaños solo si
/// caben en `i64`.
pub open spec fn volumen_normalizado(v: VistaVolumenCrudo) -> Option<VistaVolumen> {
    match v.unique_id {
        None => None,
        Some(guid) => Some(
            VistaVolumen {
                volume_guid: guid,
                label: no_en_blanco(v.file_system_label),
                filesystem: v.file_system,
                drive_letter: primera_letra(v.drive_letter),
                capacity_bytes: en_i64(v.size),
                free_bytes: en_i64(v.size_remaining),
                disk_number: v.disk_number,
            },
        ),
    }
}

fn primer_caracter(o: &Option<String>) -> (r: Option<char>)
    ensures
        r == primera_letra(vista_opcional(*o)),
{
    match o {
        Some(s) => {
            let c = crate::texto::caracteres(s.as_str());
            if c.len() > 0 {
                Some(c[0])
            } else {
                None
            }
        },
        None => None,
    }
}

/// Normaliza un volumen; `None` si no tiene `UniqueId`.
pub fn normalizar_volumen(v: VolumenCrudo) -> (r: Option<VolumenLeido>)
    ensures
        match r {
            Some(l) => volumen_normalizado(v@) == Some(l@),
            None => volumen_normalizado(v@) is None,
        },
{
    let volume_guid = match v.unique_id {
        Some(u) => u,
        None => return None,
    };
    let drive_letter = primer_caracter(&v.drive_letter);
    let label = match v.file_system_label {
        Some(s) => if en_blanco(s.as_str()) {
            None
        } else {
            Some(s)
        },
        None => None,
    };
    Some(
        VolumenLeido {
            volume_guid,
            label,
            filesystem: v.file_system,
            drive_letter,
            capacity_bytes: tamano_en_i64(v.size),
            free_bytes: tamano_en_i64(v.size_remaining),
            disk_number: v.disk_number,
        },
    )
}

/// Los volúmenes normalizados de una lista, en su orden, sin los que carecen de `UniqueId`.
pub open spec fn volumenes_normalizados(vs: Seq<VistaVolumenCrudo>) -> Seq<VistaVolumen>
    decreases vs.len(),
{
    if vs.len() == 0 {
        seq![]
    } else {
        let previos = volumenes_normalizados(vs.drop_last());
        match volumen_normalizado(vs.last()) {
            Some(l) => previos.push(l),
            None => previos,
        }
    }
}

pub open spec fn vistas_crudos(vs: Seq<VolumenCrudo>) -> Seq<VistaVolumenCrudo> {
    vs.map_values(|v: VolumenCrudo| v@)
}

pub open spec fn vistas_leidos(vs: Seq<VolumenLeido>) -> Seq<VistaVolumen> {
    vs.map_values(|v: VolumenLeido| v@)
}

/// Normaliza, en orden, los volúmenes de la consulta y omite los que no tienen `UniqueId`.
pub fn normalizar_volumenes(crudos: Vec<VolumenCrudo>) -> (r: Vec<VolumenLeido>)
    ensures
        vistas_leidos(r@) == volumenes_normalizados(vistas_crudos(crudos@)),
{
    let mut r: Vec<VolumenLeido> = Vec::new();
    let mut resto = crudos;
    let ghost todos = resto@;
    let mut hechos: usize = 0;
    let total = resto.len();
    while resto.len() > 0
        invariant
            todos.len() == total,
            hechos + resto@.len() == todos.len(),
            resto@ == todos.subrange(hechos as int, todos.len() as int),
            vistas_leidos(r@) == volumenes_normalizados(vistas_crudos(todos.take(hechos as int))),
        decreases resto@.len(),
    {
        let v = resto.remove(0);
        let ghost tomados = vistas_crudos(todos.take(hechos as int + 1));
        assert(tomados.drop_last() =~= vistas_crudos(todos.take(hechos as int)));
        assert(tomados.last() == v@);
        match normalizar_volumen(v) {
            Some(l) => {
                r.push(l);
            },
            None => {},
        }
        hechos += 1;
        assert(vistas_leidos(r@) =~= volumenes_normalizados(tomados));
        assert(resto@ =~= todos.subrange(hechos as int, todos.len() as int));
    }
    assert(todos.take(todos.len() as int) =~= todos);
    r
}

} // verus!
