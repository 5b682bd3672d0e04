//! Consulta a `smartctl -j`: la línea de órdenes de cada intento, la cascada de modos de acceso
//! que se prueba tras la autodetección y qué código de salida deja aceptar un intento.
use vstd::prelude::*;

verus! {

/// `std::io::Error`, que la consulta devuelve cuando no se pudo lanzar el proceso.
#[verifier::external_type_specification]
#[verifier::external_body]
pub struct ExErrorIo(std::io::Error);

/// Tiempo máximo de cada intento, en nanosegundos (15 s).
pub const TIEMPO_MAXIMO_POR_INTENTO_NS: u128 = 15_000_000_000;

/// Los modos de acceso que se prueban, en orden, cuando la autodetección no basta.
pub open spec fn modos_cascada() -> Seq<Seq<char>> {
    seq!["sat"@, "nvme"@, "sntjmicron"@, "csmi"@]
}

/// Las vistas de una secuencia de textos estáticos.
pub open spec fn vistas_str(v: Seq<&'static str>) -> Seq<Seq<char>> {
    v.map_values(|s: &'static str| s@)
}

/// Los modos de la cascada, en el orden en que se prueban.
pub fn cascada_modos() -> (r: Vec<&'static str>)
    ensures
        vistas_str(r@) == modos_cascada(),
{
    let r = vec!["sat", "nvme", "sntjmicron", "csmi"];
    assert(vistas_str(r@) =~= modos_cascada());
    r
}

/// Los argumentos de una consulta: `-a -j`, luego `-d <modo>` si hay modo, y la ruta.
pub open spec fn argumentos(device_path: Seq<char>, modo: Option<Seq<char>>) -> Seq<Seq<char>> {
    match modo {
        Some(m) => seq!["-a"@, "-j"@, "-d"@, m, device_path],
        None => seq!["-a"@, "-j"@, device_path],
    }
}

/// Las vistas de una secuencia de cadenas.
pub open spec fn vistas_string(v: Seq<String>) -> Seq<Seq<char>> {
    v.map_values(|s: String| s@)
}

/// Construye los argumentos de una consulta.
pub fn build_args(device_path: &str, modo: Option<&str>) -> (r: Vec<String>)
    ensures
        vistas_string(r@) == argumentos(
            device_path@,
            match modo {
                Some(m) => Some(m@),
                None => None,
            },
        ),
{
    let mut args: Vec<String> = Vec::new();
    args.push("-a".to_owned());
    args.push("-j".to_owned());
    if let Some(m) = modo {
        args.push("-d".to_owned());
        args.push(m.to_owned());
    }
    args.push(device_path.to_owned());
    assert(vistas_string(args@) =~= argumentos(
        device_path@,
        match modo {
            Some(m) => Some(m@),
            None => None,
        },
    ));
    args
}

/// El modo del intento número `i`: el primero es la autodetección (sin modo), los siguientes
/// recorren la cascada; pasada la cascada no quedan intentos.
pub open spec fn modo_de_intento(i: int) -> Option<Option<Seq<char>>> {
    if i == 0 {
        Some(None)
    } else if 1 <= i <= modos_cascada().len() {
        Some(Some(modos_cascada()[i - 1]))
    } else {
        None
    }
}

/// El modo con el que se lanza el intento número `i`, o `None` si ya no quedan intentos.
pub fn modo_del_intento(i: usize) -> (r: Option<Option<&'static str>>)
    ensures
        modo_de_intento(i as int) == match r {
            Some(Some(m)) => Some(Some(m@)),
            Some(None) => Some(None),
            None => None,
        },
{
    if i == 0 {
        return Some(None);
    }
    let modos = cascada_modos();
    if i <= modos.len() {
        assert(vistas_str(modos@)[i - 1] == modos@[i - 1]@);
        Some(Some(modos[i - 1]))
    } else {
        None
    }
}

/// Un código de salida permite aceptar el intento si existe (el proceso no murió por una señal)
/// y no tiene activos los bits de sintaxis (0) ni de apertura (1): el resto son hallazgos SMART
/// de un dispositivo que sí respondió.
pub open spec fn codigo_es_utilizable(codigo: Option<i32>) -> bool {
    match codigo {
        Some(c) => c >= 0 && c % 4 == 0,
        None => false,
    }
}

/// `true` si el intento que terminó con `codigo` se acepta.
pub fn intento_utilizable(codigo: Option<i32>) -> (r: bool)
    ensures
        r == codigo_es_utilizable(codigo),
{
    let bits: i32 = match codigo {
        Some(c) => c,
        None => -1,
    };
    if bits < 0 {
        return false;
    }
    let bajos = bits & 3;
    assert(bajos == bits % 4) by (bit_vector)
        requires
            bits >= 0,
            bajos == bits & 3,
    ;
    bajos == 0
}

#[derive(Debug)]
pub enum ErrorConsulta {
    /// No se pudo lanzar o esperar el proceso.
    Io(std::io::Error),
    /// Ningún modo de la cascada logró hablar con el dispositivo.
    NingunModoFunciono,
}

impl From<std::io::Error> for ErrorConsulta {
    fn from(e: std::io::Error) -> (r: Self) {
        ErrorConsulta::Io(e)
    }
}

impl vstd::std_specs::convert::FromSpecImpl<std::io::Error> for ErrorConsulta {
    open spec fn obeys_from_spec() -> bool {
        true
    }

    open spec fn from_spec(e: std::io::Error) -> Self {
        ErrorConsulta::Io(e)
    }
}

/// Se acepta un intento exactamente cuando el proceso terminó con un código y ese código no
/// tiene el bit de sintaxis (1) ni el de apertura (2): 0, 4, 8… sí; 1, 2, 3, 5, 6, 7 o una señal
/// no.
pub proof fn solo_se_aceptan_codigos_sin_error_de_sintaxis_ni_apertura(c: i32)
    ensures
        !codigo_es_utilizable(None),
        c < 0 ==> !codigo_es_utilizable(Some(c)),
        c >= 0 ==> (codigo_es_utilizable(Some(c)) <==> c % 4 == 0),
        codigo_es_utilizable(Some(0)) && codigo_es_utilizable(Some(4)) && !codigo_es_utilizable(
            Some(1),
        ) && !codigo_es_utilizable(Some(2)) && !codigo_es_utilizable(Some(3)),
{
}

} // verus!
