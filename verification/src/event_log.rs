//! Lectura del registro de eventos del sistema: los proveedores vigilados, el filtro de la
//! consulta y la normalización del XML de cada evento (bloque `<System>`) a un `EventoLeido`.
//! La correlación con un disco no se decide aquí.
use vstd::prelude::*;
use crate::texto::{
    anexar, buscar, buscar_char, buscar_desde, cadena_de, caracteres, leer_i64, leer_u8,
    lectura_i64, lectura_u8, primera_aparicion, primera_aparicion_desde, primera_pos_char, tramo,
};
use crate::tipos::EventLevel;

verus! {

/// Los proveedores de almacenamiento vigilados.
pub open spec fn proveedores() -> Seq<Seq<char>> {
    seq![
        "disk"@,
        "Ntfs"@,
        "Microsoft-Windows-Ntfs"@,
        "volmgr"@,
        "Microsoft-Windows-NvmeDisk"@,
        "stornvme"@,
        "storahci"@,
        "Microsoft-Windows-StorageSpaces-Driver"@,
    ]
}

/// Las vistas de una secuencia de textos estáticos.
pub open spec fn vistas_str(v: Seq<&'static str>) -> Seq<Seq<char>> {
    v.map_values(|s: &'static str| s@)
}

/// Los proveedores de almacenamiento vigilados, en orden.
pub fn proveedores_vigilados() -> (r: Vec<&'static str>)
    ensures
        vistas_str(r@) == proveedores(),
{
    let r = vec![
        "disk",
        "Ntfs",
        "Microsoft-Windows-Ntfs",
        "volmgr",
        "Microsoft-Windows-NvmeDisk",
        "stornvme",
        "storahci",
        "Microsoft-Windows-StorageSpaces-Driver",
    ];
    assert(vistas_str(r@) =~= proveedores());
    r
}

/// Evento ya normalizado, sin correlación con un disco todavía. `record_id` y `channel` son su
/// identidad; `raw_xml` se conserva completo.
#[derive(Debug, Clone, PartialEq)]
pub struct EventoLeido {
    pub channel: String,
    pub record_id: i64,
    pub occurred_at_utc: String,
    pub provider: String,
    pub event_id: i64,
    pub level: EventLevel,
    pub message: Option<String>,
    pub raw_xml: String,
}

/// Un `EventoLeido` con sus textos como secuencias de caracteres.
pub struct VistaEvento {
    pub channel: Seq<char>,
    pub record_id: i64,
    pub occurred_at_utc: Seq<char>,
    pub provider: Seq<char>,
    pub event_id: i64,
    pub level: EventLevel,
    pub message: Option<Seq<char>>,
    pub raw_xml: Seq<char>,
}

pub open spec fn vista_opcional(o: Option<String>) -> Option<Seq<char>> {
    match o {
        Some(s) => Some(s@),
        None => None,
    }
}

impl View for EventoLeido {
    type V = VistaEvento;

    open spec fn view(&self) -> VistaEvento {
        VistaEvento {
            channel: self.channel@,
            record_id: self.record_id,
            occurred_at_utc: self.occurred_at_utc@,
            provider: self.provider@,
            event_id: self.event_id,
            level: self.level,
            message: vista_opcional(self.message),
            raw_xml: self.raw_xml@,
        }
    }
}

/// El nivel numérico de Windows: 1 crítico, 2 error, 3 advertencia; cualquier otro
/// (4, 5, 0 o fuera de rango), informativo.
pub open spec fn nivel(n: u8) -> EventLevel {
    if n == 1 {
        EventLevel::Critical
    } else if n == 2 {
        EventLevel::Error
    } else if n == 3 {
        EventLevel::Warning
    } else {
        EventLevel::Information
    }
}

/// Traduce el nivel numérico de Windows.
pub fn nivel_desde_numero(n: u8) -> (r: EventLevel)
    ensures
        r == nivel(n),
{
    match n {
        1 => EventLevel::Critical,
        2 => EventLevel::Error,
        3 => EventLevel::Warning,
        _ => EventLevel::Information,
    }
}

// ---------------------------------------------------------------------------------------------
// Extracción de etiquetas y atributos
// ---------------------------------------------------------------------------------------------

/// Contenido de la primera etiqueta `<tag>…</tag>` (o, si no la hay, `<tag …>…</tag>`): desde
/// el primer `>` tras la apertura hasta el primer cierre `</tag>` que le sigue.
pub open spec fn texto_extraido(xml: Seq<char>, tag: Seq<char>) -> Option<Seq<char>> {
    let corta = seq!['<'] + tag + seq!['>'];
    let con_atributos = seq!['<'] + tag + seq![' '];
    let cierre = seq!['<', '/'] + tag + seq!['>'];
    let apertura = match primera_aparicion(xml, corta) {
        Some(p) => Some(p),
        None => primera_aparicion(xml, con_atributos),
    };
    match apertura {
        None => None,
        Some(ia) => match primera_pos_char(xml, '>', ia) {
            None => None,
            Some(g) => match primera_aparicion_desde(xml, cierre, g + 1) {
                None => None,
                Some(f) => Some(xml.subrange(g + 1, f)),
            },
        },
    }
}

/// Valor del atributo `atributo` entre comillas simples (o, si no aparece así, dobles) dentro
/// de la primera etiqueta `<tag …>`: desde tras `atributo='` hasta la comilla que cierra.
pub open spec fn atributo_extraido(xml: Seq<char>, tag: Seq<char>, atributo: Seq<char>) -> Option<
    Seq<char>,
> {
    let apertura = seq!['<'] + tag + seq![' '];
    match primera_aparicion(xml, apertura) {
        None => None,
        Some(it) => match primera_pos_char(xml, '>', it) {
            None => None,
            Some(ft) => {
                let bloque = xml.subrange(it, ft);
                let simple = atributo + seq!['=', '\''];
                let doble = atributo + seq!['=', '"'];
                match primera_aparicion(bloque, simple) {
                    Some(p) => valor_entre_comillas(bloque, p + simple.len(), '\''),
                    None => match primera_aparicion(bloque, doble) {
                        Some(p) => valor_entre_comillas(bloque, p + doble.len(), '"'),
                        None => None,
                    },
                }
            },
        },
    }
}

/// El texto de `bloque` desde `inicio` hasta la primera `comilla` que sigue.
pub open spec fn valor_entre_comillas(bloque: Seq<char>, inicio: int, comilla: char) -> Option<
    Seq<char>,
> {
    match primera_pos_char(bloque, comilla, inicio) {
        Some(f) => Some(bloque.subrange(inicio, f)),
        None => None,
    }
}

/// `<`, el texto y el carácter final dado.
fn etiqueta(prefijo: &[char], tag: &[char], fin: char) -> (r: Vec<char>)
    ensures
        r@ == prefijo@ + tag@ + seq![fin],
{
    let mut r: Vec<char> = Vec::new();
    anexar(&mut r, prefijo);
    anexar(&mut r, tag);
    r.push(fin);
    r
}

fn texto_de_etiqueta(xml: &[char], tag: &[char]) -> (r: Option<Vec<char>>)
    ensures
        match r {
            Some(v) => texto_extraido(xml@, tag@) == Some(v@),
            None => texto_extraido(xml@, tag@) is None,
        },
{
    let abre = vec!['<'];
    let abre_cierre = vec!['<', '/'];
    let corta = etiqueta(abre.as_slice(), tag, '>');
    let con_atributos = etiqueta(abre.as_slice(), tag, ' ');
    let cierre = etiqueta(abre_cierre.as_slice(), tag, '>');
    assert(corta@ == seq!['<'] + tag@ + seq!['>']);
    assert(con_atributos@ == seq!['<'] + tag@ + seq![' ']);
    assert(cierre@ == seq!['<', '/'] + tag@ + seq!['>']);
    let largo = xml.len();
    let ia = match buscar(xml, corta.as_slice()) {
        Some(p) => p,
        None => match buscar(xml, con_atributos.as_slice()) {
            Some(p) => p,
            None => return None,
        },
    };
    let g = match buscar_char(xml, '>', ia) {
        Some(g) => g,
        None => return None,
    };
    assert(g < largo);
    let ic = g + 1;
    let f = match buscar_desde(xml, cierre.as_slice(), ic) {
        Some(f) => f,
        None => return None,
    };
    Some(tramo(xml, ic, f))
}

fn valor_de_atributo(xml: &[char], tag: &[char], atributo: &[char]) -> (r: Option<Vec<char>>)
    ensures
        match r {
            Some(v) => atributo_extraido(xml@, tag@, atributo@) == Some(v@),
            None => atributo_extraido(xml@, tag@, atributo@) is None,
        },
{
    let abre = vec!['<'];
    let apertura = etiqueta(abre.as_slice(), tag, ' ');
    assert(apertura@ == seq!['<'] + tag@ + seq![' ']);
    let it = match buscar(xml, apertura.as_slice()) {
        Some(p) => p,
        None => return None,
    };
    let ft = match buscar_char(xml, '>', it) {
        Some(f) => f,
        None => return None,
    };
    let bloque = tramo(xml, it, ft);
    let igual = vec!['='];
    let simple = etiqueta(atributo, igual.as_slice(), '\'');
    let doble = etiqueta(atributo, igual.as_slice(), '"');
    assert(simple@ == atributo@ + seq!['=', '\'']);
    assert(doble@ == atributo@ + seq!['=', '"']);
    let (inicio, comilla) = match buscar(bloque.as_slice(), simple.as_slice()) {
        Some(p) => (p + simple.len(), '\''),
        None => match buscar(bloque.as_slice(), doble.as_slice()) {
            Some(p) => (p + doble.len(), '"'),
            None => return None,
        },
    };
    let fin = match buscar_char(bloque.as_slice(), comilla, inicio) {
        Some(f) => f,
        None => return None,
    };
    Some(tramo(bloque.as_slice(), inicio, fin))
}

/// Valor del atributo `atributo` en la primera etiqueta `<tag …>` de `xml`.
pub fn extraer_atributo(xml: &str, tag: &str, atributo: &str) -> (r: Option<String>)
    ensures
        vista_opcional(r) == atributo_extraido(xml@, tag@, atributo@),
{
    let x = caracteres(xml);
    let t = caracteres(tag);
    let a = caracteres(atributo);
    match valor_de_atributo(x.as_slice(), t.as_slice(), a.as_slice()) {
        Some(v) => Some(cadena_de(v.as_slice())),
        None => None,
    }
}

/// Contenido de la primera etiqueta `tag` de `xml`.
pub fn extraer_texto(xml: &str, tag: &str) -> (r: Option<String>)
    ensures
        vista_opcional(r) == texto_extraido(xml@, tag@),
{
    let x = caracteres(xml);
    let t = caracteres(tag);
    match texto_de_etiqueta(x.as_slice(), t.as_slice()) {
        Some(v) => Some(cadena_de(v.as_slice())),
        None => None,
    }
}

// ---------------------------------------------------------------------------------------------
// Normalización de un evento
// ---------------------------------------------------------------------------------------------

#[derive(Debug)]
pub enum ErrorParseoEvento {
    /// Falta el campo nombrado (o no se puede leer).
    CampoAusente(&'static str),
}

#[derive(Debug)]
pub enum ErrorEventLog {
    /// Una llamada al registro de eventos falló con ese código de error.
    Win32 { funcion: &'static str, codigo: u32 },
}

/// Lo que da el XML completo de un evento, o el nombre del primer campo que falta (en el orden
/// `System`, `Provider/@Name`, `EventID`, `TimeCreated/@SystemTime`, `EventRecordID`). El nivel
/// ilegible o ausente vale 4 (informativo); el canal ausente es el esperado.
pub open spec fn lectura_evento(xml: Seq<char>, channel_esperado: Seq<char>, mensaje: Option<
    Seq<char>,
>) -> Result<VistaEvento, Seq<char>> {
    match primera_aparicion(xml, "<System>"@) {
        None => Err("System"@),
        Some(si) => match primera_aparicion_desde(xml, "</System>"@, si) {
            None => Err("System"@),
            Some(sf) => {
                let b = xml.subrange(si, sf);
                match atributo_extraido(b, "Provider"@, "Name"@) {
                    None => Err("Provider/@Name"@),
                    Some(provider) => match texto_extraido(b, "EventID"@) {
                        None => Err("EventID"@),
                        Some(t_id) => match lectura_i64(t_id) {
                            None => Err("EventID"@),
                            Some(event_id) => match atributo_extraido(
                                b,
                                "TimeCreated"@,
                                "SystemTime"@,
                            ) {
                                None => Err("TimeCreated/@SystemTime"@),
                                Some(cuando) => match texto_extraido(b, "EventRecordID"@) {
                                    None => Err("EventRecordID"@),
                                    Some(t_rec) => match lectura_i64(t_rec) {
                                        None => Err("EventRecordID"@),
                                        Some(record_id) => Ok(
                                            VistaEvento {
                                                channel: match texto_extraido(b, "Channel"@) {
                                                    Some(c) => c,
                                                    None => channel_esperado,
                                                },
                                                record_id,
                                                occurred_at_utc: cuando,
                                                provider,
                                                event_id,
                                                level: nivel(
                                                    match texto_extraido(b, "Level"@) {
                                                        Some(t) => match lectura_u8(t) {
                                                            Some(n) => n,
                                                            None => 4,
                                                        },
                                                        None => 4,
                                                    },
                                                ),
                                                message: mensaje,
                                                raw_xml: xml,
                                            },
                                        ),
                                    },
                                },
                            },
                        },
                    },
                }
            },
        },
    }
}

/// Parsea el XML completo de un evento. El mensaje legible se pasa aparte porque no viene en
/// ese XML.
pub fn parse_event_xml(xml: &str, channel_esperado: &str, mensaje: Option<String>) -> (r: Result<
    EventoLeido,
    ErrorParseoEvento,
>)
    ensures
        match r {
            Ok(e) => lectura_evento(xml@, channel_esperado@, vista_opcional(mensaje)) == Ok::<
                VistaEvento,
                Seq<char>,
            >(e@),
            Err(ErrorParseoEvento::CampoAusente(c)) => lectura_evento(
                xml@,
                channel_esperado@,
                vista_opcional(mensaje),
            ) == Err::<VistaEvento, Seq<char>>(c@),
        },
{
    let x = caracteres(xml);
    let abre_system = caracteres("<System>");
    let cierra_system = caracteres("</System>");
    let si = match buscar(x.as_slice(), abre_system.as_slice()) {
        Some(p) => p,
        None => return Err(ErrorParseoEvento::CampoAusente("System")),
    };
    let sf = match buscar_desde(x.as_slice(), cierra_system.as_slice(), si) {
        Some(p) => p,
        None => return Err(ErrorParseoEvento::CampoAusente("System")),
    };
    let b = tramo(x.as_slice(), si, sf);
    let b = b.as_slice();
    let t_provider = caracteres("Provider");
    let t_name = caracteres("Name");
    let provider = match valor_de_atributo(b, t_provider.as_slice(), t_name.as_slice()) {
        Some(v) => v,
        None => return Err(ErrorParseoEvento::CampoAusente("Provider/@Name")),
    };
    let t_event_id = caracteres("EventID");
    let event_id = match texto_de_etiqueta(b, t_event_id.as_slice()) {
        Some(t) => match leer_i64(t.as_slice()) {
            Some(n) => n,
            None => return Err(ErrorParseoEvento::CampoAusente("EventID")),
        },
        None => return Err(ErrorParseoEvento::CampoAusente("EventID")),
    };
    let t_level = caracteres("Level");
    let nivel_numero: u8 = match texto_de_etiqueta(b, t_level.as_slice()) {
        Some(t) => match leer_u8(t.as_slice()) {
            Some(n) => n,
            None => 4,
        },
        None => 4,
    };
    let t_time = caracteres("TimeCreated");
    let t_system_time = caracteres("SystemTime");
    let cuando = match valor_de_atributo(b, t_time.as_slice(), t_system_time.as_slice()) {
        Some(v) => v,
        None => return Err(ErrorParseoEvento::CampoAusente("TimeCreated/@SystemTime")),
    };
    let t_record = caracteres("EventRecordID");
    let record_id = match texto_de_etiqueta(b, t_record.as_slice()) {
        Some(t) => match leer_i64(t.as_slice()) {
            Some(n) => n,
            None => return Err(ErrorParseoEvento::CampoAusente("EventRecordID")),
        },
        None => return Err(ErrorParseoEvento::CampoAusente("EventRecordID")),
    };
    let t_channel = caracteres("Channel");
    let channel = match texto_de_etiqueta(b, t_channel.as_slice()) {
        Some(c) => cadena_de(c.as_slice()),
        None => channel_esperado.to_owned(),
    };
    let e = EventoLeido {
        channel,
        record_id,
        occurred_at_utc: cadena_de(cuando.as_slice()),
        provider: cadena_de(provider.as_slice()),
        event_id,
        level: nivel_desde_numero(nivel_numero),
        message: mensaje,
        raw_xml: xml.to_owned(),
    };
    Ok(e)
}

// ---------------------------------------------------------------------------------------------
// Filtro de la consulta
// ---------------------------------------------------------------------------------------------

/// La condición `@Name='p'` de un proveedor.
pub open spec fn condicion(p: Seq<char>) -> Seq<char> {
    seq!['@', 'N', 'a', 'm', 'e', '=', '\''] + p + seq!['\'']
}

/// Las condiciones de los proveedores unidas con ` or `.
pub open spec fn condiciones(ps: Seq<Seq<char>>) -> Seq<char>
    decreases ps.len(),
{
    if ps.len() == 0 {
        seq![]
    } else if ps.len() == 1 {
        condicion(ps[0])
    } else {
        condiciones(ps.drop_last()) + seq![' ', 'o', 'r', ' '] + condicion(ps.last())
    }
}

/// El filtro XPath de la consulta: `*[System[Provider[<condiciones>]]]`.
pub open spec fn filtro(ps: Seq<Seq<char>>) -> Seq<char> {
    "*[System[Provider["@ + condiciones(ps) + "]]]"@
}

/// XPath que filtra el canal a los proveedores dados, encadenados con `or`.
pub fn construir_filtro(proveedores: &[&str]) -> (r: String)
    ensures
        r@ == filtro(vistas_str(proveedores@)),
{
    let mut c: Vec<char> = Vec::new();
    let nombre = vec!['@', 'N', 'a', 'm', 'e', '=', '\''];
    let o = vec![' ', 'o', 'r', ' '];
    let mut i: usize = 0;
    while i < proveedores.len()
        invariant
            i <= proveedores.len(),
            nombre@ == seq!['@', 'N', 'a', 'm', 'e', '=', '\''],
            o@ == seq![' ', 'o', 'r', ' '],
            c@ == condiciones(vistas_str(proveedores@).take(i as int)),
        decreases proveedores.len() - i,
    {
        let ghost previas = vistas_str(proveedores@).take(i as int);
        let ghost siguientes = vistas_str(proveedores@).take(i as int + 1);
        assert(siguientes.drop_last() =~= previas);
        assert(siguientes.last() == proveedores@[i as int]@);
        if i > 0 {
            anexar(&mut c, o.as_slice());
        }
        anexar(&mut c, nombre.as_slice());
        let p = caracteres(proveedores[i]);
        anexar(&mut c, p.as_slice());
        c.push('\'');
        i += 1;
        assert(c@ =~= condiciones(siguientes));
    }
    assert(vistas_str(proveedores@).take(proveedores@.len() as int) =~= vistas_str(proveedores@));
    let mut r: Vec<char> = caracteres("*[System[Provider[");
    anexar(&mut r, c.as_slice());
    let cola = caracteres("]]]");
    anexar(&mut r, cola.as_slice());
    cadena_de(r.as_slice())
}

// ---------------------------------------------------------------------------------------------
// Texto ancho
// ---------------------------------------------------------------------------------------------

/// Lo que da decodificar unidades UTF-16: cada unidad fuera del rango de sustitutos es su
/// carácter; un sustituto alto seguido de uno bajo forman juntos un carácter suplementario; y
/// cada sustituto desparejado se cambia por U+FFFD, el carácter de sustitución.
pub open spec fn utf16_con_perdidas(u: Seq<u16>) -> Seq<char>
    decreases u.len(),
{
    if u.len() == 0 {
        seq![]
    } else if u[0] < 0xD800 || u[0] > 0xDFFF {
        seq![u[0] as char] + utf16_con_perdidas(u.drop_first())
    } else if u[0] <= 0xDBFF && u.len() >= 2 && 0xDC00 <= u[1] <= 0xDFFF {
        seq![(0x10000 + (u[0] - 0xD800) * 0x400 + (u[1] - 0xDC00)) as char] + utf16_con_perdidas(
            u.skip(2),
        )
    } else {
        seq!['\u{FFFD}'] + utf16_con_perdidas(u.drop_first())
    }
}

/// Decodifica unidades UTF-16 con `String::from_utf16_lossy`, que según su documentación
/// sustituye cada dato no válido (un sustituto desparejado) por U+FFFD: lo que enuncia
/// `utf16_con_perdidas`.
#[verifier::external_body]
fn desde_utf16(unidades: &[u16]) -> (r: String)
    ensures
        r@ == utf16_con_perdidas(unidades@),
{
    String::from_utf16_lossy(unidades)
}

/// Las unidades de `buf` anteriores al primer cero (todas, si no hay ninguno).
pub open spec fn hasta_el_cero(buf: Seq<u16>) -> Seq<u16>
    decreases buf.len(),
{
    if buf.len() == 0 || buf[0] == 0 {
        seq![]
    } else {
        seq![buf[0]] + hasta_el_cero(buf.drop_first())
    }
}

/// El texto de un búfer UTF-16 que el sistema termina en cero.
pub fn de_wide(buf: &[u16]) -> (r: String)
    ensures
        r@ == utf16_con_perdidas(hasta_el_cero(buf@)),
{
    let mut u: Vec<u16> = Vec::new();
    let mut i: usize = 0;
    assert(buf@.skip(0) =~= buf@);
    assert(u@ + hasta_el_cero(buf@) =~= hasta_el_cero(buf@));
    while i < buf.len() && buf[i] != 0
        invariant
            i <= buf@.len(),
            u@ + hasta_el_cero(buf@.skip(i as int)) == hasta_el_cero(buf@),
        decreases buf.len() - i,
    {
        let ghost resto = buf@.skip(i as int);
        assert(resto.drop_first() =~= buf@.skip(i as int + 1));
        u.push(buf[i]);
        i += 1;
        assert(u@ + hasta_el_cero(buf@.skip(i as int)) =~= hasta_el_cero(buf@));
    }
    assert(hasta_el_cero(buf@.skip(i as int)) =~= seq![]);
    assert(u@ =~= hasta_el_cero(buf@));
    desde_utf16(u.as_slice())
}

} // verus!
