//! Utilidades de texto sobre la vista `Seq<char>` de las cadenas: búsqueda de subcadenas,
//! comparación sin distinguir mayúsculas ASCII, enteros decimales (lectura y escritura).
use vstd::prelude::*;
use vstd::string::*;

verus! {

// ---------------------------------------------------------------------------------------------
// Caracteres y cadenas
// ---------------------------------------------------------------------------------------------

/// Los caracteres de `s`, en orden.
pub fn caracteres(s: &str) -> (r: Vec<char>)
    ensures
        r@ == s@,
{
    let mut r: Vec<char> = Vec::new();
    for c in it: s.chars()
        invariant
            r@ == it.seq().take(it.index() as int),
            it.seq() == s@,
    {
        r.push(c);
    }
    r
}

/// `String::push` añade el carácter al final de la cadena.
pub assume_specification[ String::push ](s: &mut String, ch: char)
    ensures
        final(s)@ == old(s)@.push(ch),
;

/// Construye una cadena con exactamente los caracteres dados.
pub fn cadena_de(v: &[char]) -> (r: String)
    ensures
        r@ == v@,
{
    let mut r = String::new();
    let mut i: usize = 0;
    while i < v.len()
        invariant
            i <= v.len(),
            r@ == v@.take(i as int),
        decreases v.len() - i,
    {
        r.push(v[i]);
        i += 1;
        assert(r@ =~= v@.take(i as int));
    }
    assert(v@.take(v@.len() as int) =~= v@);
    r
}

/// Igualdad de dos secuencias de caracteres.
pub fn iguales_seq(a: &[char], b: &[char]) -> (r: bool)
    ensures
        r == (a@ == b@),
{
    if a.len() != b.len() {
        return false;
    }
    let mut i: usize = 0;
    while i < a.len()
        invariant
            a.len() == b.len(),
            i <= a.len(),
            forall|j: int| 0 <= j < i ==> a@[j] == b@[j],
        decreases a.len() - i,
    {
        if a[i] != b[i] {
            return false;
        }
        i += 1;
    }
    assert(a@ =~= b@);
    true
}

/// Igualdad de dos cadenas por su contenido.
pub fn iguales(a: &str, b: &str) -> (r: bool)
    ensures
        r == (a@ == b@),
{
    let va = caracteres(a);
    let vb = caracteres(b);
    iguales_seq(va.as_slice(), vb.as_slice())
}

// ---------------------------------------------------------------------------------------------
// Mayúsculas y minúsculas ASCII
// ---------------------------------------------------------------------------------------------

/// Minúscula ASCII de un carácter: solo `A`–`Z` cambian.
pub open spec fn minuscula_ascii(c: char) -> char {
    if 'A' <= c && c <= 'Z' {
        ((c as u32) + 32) as char
    } else {
        c
    }
}

/// Una secuencia con cada carácter llevado a su minúscula ASCII.
pub open spec fn minusculas_ascii(s: Seq<char>) -> Seq<char> {
    s.map_values(|c: char| minuscula_ascii(c))
}

pub fn a_minuscula_ascii(c: char) -> (r: char)
    ensures
        r == minuscula_ascii(c),
{
    if 'A' <= c && c <= 'Z' {
        let b: u8 = (c as u8) + 32;
        b as char
    } else {
        c
    }
}

/// `s` en minúsculas ASCII.
pub fn seq_a_minusculas_ascii(s: &[char]) -> (r: Vec<char>)
    ensures
        r@ == minusculas_ascii(s@),
{
    let mut r: Vec<char> = Vec::new();
    let mut i: usize = 0;
    while i < s.len()
        invariant
            i <= s.len(),
            r@ == minusculas_ascii(s@.take(i as int)),
        decreases s.len() - i,
    {
        let c = a_minuscula_ascii(s[i]);
        r.push(c);
        i += 1;
        assert(minusculas_ascii(s@.take(i as int)) =~= minusculas_ascii(s@.take(i - 1)).push(
            minuscula_ascii(s@[i - 1]),
        ));
    }
    assert(s@.take(s.len() as int) =~= s@);
    r
}

/// `a` y `b` coinciden salvo mayúsculas ASCII (como `str::eq_ignore_ascii_case`).
pub fn iguales_sin_mayusculas_ascii(a: &str, b: &str) -> (r: bool)
    ensures
        r == (minusculas_ascii(a@) == minusculas_ascii(b@)),
{
    let va = caracteres(a);
    let vb = caracteres(b);
    let la = seq_a_minusculas_ascii(va.as_slice());
    let lb = seq_a_minusculas_ascii(vb.as_slice());
    iguales_seq(la.as_slice(), lb.as_slice())
}

// ---------------------------------------------------------------------------------------------
// Búsqueda de subcadenas
// ---------------------------------------------------------------------------------------------

/// `aguja` aparece en `pajar` a partir de la posición `i`.
pub open spec fn aparece_en(pajar: Seq<char>, aguja: Seq<char>, i: int) -> bool {
    0 <= i && i + aguja.len() <= pajar.len() && pajar.subrange(i, i + aguja.len()) == aguja
}

/// Posición de la primera aparición de `aguja` en `pajar` a partir de `desde` (incluida).
pub open spec fn primera_aparicion_desde(pajar: Seq<char>, aguja: Seq<char>, desde: int) -> Option<
    int,
>
    decreases pajar.len() + 1 - desde,
    when 0 <= desde
{
    if desde + aguja.len() > pajar.len() {
        None
    } else if aparece_en(pajar, aguja, desde) {
        Some(desde)
    } else {
        primera_aparicion_desde(pajar, aguja, desde + 1)
    }
}

/// Posición de la primera aparición (como `str::find`).
pub open spec fn primera_aparicion(pajar: Seq<char>, aguja: Seq<char>) -> Option<int> {
    primera_aparicion_desde(pajar, aguja, 0)
}

/// Lo que devuelve `primera_aparicion_desde`: la primera posición `>= desde` donde aparece.
pub proof fn lema_primera_aparicion_desde(pajar: Seq<char>, aguja: Seq<char>, desde: int)
    requires
        0 <= desde,
    ensures
        match primera_aparicion_desde(pajar, aguja, desde) {
            Some(p) => desde <= p && aparece_en(pajar, aguja, p) && forall|k: int|
                desde <= k < p ==> !aparece_en(pajar, aguja, k),
            None => forall|k: int| desde <= k ==> !aparece_en(pajar, aguja, k),
        },
    decreases pajar.len() + 1 - desde,
{
    if desde + aguja.len() > pajar.len() {
    } else if aparece_en(pajar, aguja, desde) {
    } else {
        lema_primera_aparicion_desde(pajar, aguja, desde + 1);
    }
}

/// ¿Aparece `aguja` en `pajar` empezando exactamente en `i`?
pub fn aparece_en_pos(pajar: &[char], aguja: &[char], i: usize) -> (r: bool)
    ensures
        r == aparece_en(pajar@, aguja@, i as int),
{
    if i > pajar.len() || aguja.len() > pajar.len() - i {
        return false;
    }
    let mut k: usize = 0;
    while k < aguja.len()
        invariant
            i + aguja.len() <= pajar.len(),
            k <= aguja.len(),
            forall|j: int| 0 <= j < k ==> pajar@[i + j] == aguja@[j],
        decreases aguja.len() - k,
    {
        if pajar[i + k] != aguja[k] {
            assert(pajar@.subrange(i as int, i + aguja.len())[k as int] != aguja@[k as int]);
            return false;
        }
        k += 1;
    }
    assert(pajar@.subrange(i as int, i + aguja.len()) =~= aguja@);
    true
}

/// Primera aparición de `aguja` en `pajar` a partir de `desde`.
pub fn buscar_desde(pajar: &[char], aguja: &[char], desde: usize) -> (r: Option<usize>)
    ensures
        r == (match primera_aparicion_desde(pajar@, aguja@, desde as int) {
            Some(p) => Some(p as usize),
            None => None,
        }),
        r matches Some(p) ==> desde <= p && p + aguja@.len() <= pajar@.len(),
        match r {
            Some(p) => primera_aparicion_desde(pajar@, aguja@, desde as int) == Some(p as int),
            None => primera_aparicion_desde(pajar@, aguja@, desde as int) is None,
        },
{
    let mut i: usize = desde;
    proof {
        lema_primera_aparicion_desde(pajar@, aguja@, desde as int);
    }
    if aguja.len() > pajar.len() {
        return None;
    }
    if desde > pajar.len() {
        return None;
    }
    if aguja.len() == 0 {
        if desde <= pajar.len() {
            proof {
                assert(pajar@.subrange(desde as int, desde as int) =~= aguja@);
                assert(aparece_en(pajar@, aguja@, desde as int));
            }
            return Some(desde);
        }
        return None;
    }
    while i <= pajar.len() - aguja.len()
        invariant
            desde <= i <= pajar.len(),
            1 <= aguja.len() <= pajar.len(),
            forall|k: int| desde <= k < i ==> !aparece_en(pajar@, aguja@, k),
        decreases pajar.len() - i,
    {
        if aparece_en_pos(pajar, aguja, i) {
            proof {
                lema_primera_aparicion_desde(pajar@, aguja@, desde as int);
                lema_primera_unica(pajar@, aguja@, desde as int, i as int);
            }
            return Some(i);
        }
        i += 1;
    }
    proof {
        lema_primera_aparicion_desde(pajar@, aguja@, desde as int);
        assert forall|k: int| desde <= k implies !aparece_en(pajar@, aguja@, k) by {
            if k >= i {
                assert(k + aguja@.len() > pajar@.len());
            }
        }
        lema_ninguna_es_none(pajar@, aguja@, desde as int);
    }
    None
}

proof fn lema_primera_unica(pajar: Seq<char>, aguja: Seq<char>, desde: int, p: int)
    requires
        0 <= desde <= p,
        aparece_en(pajar, aguja, p),
        forall|k: int| desde <= k < p ==> !aparece_en(pajar, aguja, k),
    ensures
        primera_aparicion_desde(pajar, aguja, desde) == Some(p),
    decreases p - desde,
{
    if desde < p {
        lema_primera_unica(pajar, aguja, desde + 1, p);
    }
}

proof fn lema_ninguna_es_none(pajar: Seq<char>, aguja: Seq<char>, desde: int)
    requires
        0 <= desde,
        forall|k: int| desde <= k ==> !aparece_en(pajar, aguja, k),
    ensures
        primera_aparicion_desde(pajar, aguja, desde) is None,
    decreases pajar.len() + 1 - desde,
{
    if desde + aguja.len() > pajar.len() {
    } else {
        lema_ninguna_es_none(pajar, aguja, desde + 1);
    }
}

/// Primera aparición de `aguja` en `pajar` (como `str::find`).
pub fn buscar(pajar: &[char], aguja: &[char]) -> (r: Option<usize>)
    ensures
        r == (match primera_aparicion(pajar@, aguja@) {
            Some(p) => Some(p as usize),
            None => None,
        }),
        r matches Some(p) ==> p + aguja@.len() <= pajar@.len(),
        match r {
            Some(p) => primera_aparicion(pajar@, aguja@) == Some(p as int),
            None => primera_aparicion(pajar@, aguja@) is None,
        },
{
    buscar_desde(pajar, aguja, 0)
}

/// Primera posición de `c` en `s` a partir de `desde`.
pub open spec fn primera_pos_char(s: Seq<char>, c: char, desde: int) -> Option<int>
    decreases s.len() - desde,
    when 0 <= desde
{
    if desde >= s.len() {
        None
    } else if s[desde] == c {
        Some(desde)
    } else {
        primera_pos_char(s, c, desde + 1)
    }
}

pub proof fn lema_primera_pos_char(s: Seq<char>, c: char, desde: int)
    requires
        0 <= desde,
    ensures
        match primera_pos_char(s, c, desde) {
            Some(p) => desde <= p < s.len() && s[p] == c && forall|k: int|
                desde <= k < p ==> s[k] != c,
            None => forall|k: int| desde <= k < s.len() ==> s[k] != c,
        },
    decreases s.len() - desde,
{
    if desde < s.len() && s[desde] != c {
        lema_primera_pos_char(s, c, desde + 1);
    }
}

/// Primera posición del carácter `c` en `s` a partir de `desde`.
pub fn buscar_char(s: &[char], c: char, desde: usize) -> (r: Option<usize>)
    ensures
        r == (match primera_pos_char(s@, c, desde as int) {
            Some(p) => Some(p as usize),
            None => None,
        }),
        r matches Some(p) ==> desde <= p < s@.len(),
        match r {
            Some(p) => primera_pos_char(s@, c, desde as int) == Some(p as int),
            None => primera_pos_char(s@, c, desde as int) is None,
        },
{
    proof {
        lema_primera_pos_char(s@, c, desde as int);
    }
    let mut i = desde;
    while i < s.len()
        invariant
            desde <= i,
            forall|k: int| desde <= k < i ==> s@[k] != c,
            primera_pos_char(s@, c, desde as int) == primera_pos_char(s@, c, i as int),
        decreases s.len() - i,
    {
        if s[i] == c {
            return Some(i);
        }
        i += 1;
    }
    None
}

/// `s` empieza por `prefijo`.
pub open spec fn empieza_por(s: Seq<char>, prefijo: Seq<char>) -> bool {
    prefijo.len() <= s.len() && s.subrange(0, prefijo.len() as int) == prefijo
}

/// `s` termina en `sufijo`.
pub open spec fn termina_en(s: Seq<char>, sufijo: Seq<char>) -> bool {
    sufijo.len() <= s.len() && s.subrange(s.len() - sufijo.len(), s.len() as int) == sufijo
}

pub fn comprobar_prefijo(s: &[char], prefijo: &[char]) -> (r: bool)
    ensures
        r == empieza_por(s@, prefijo@),
{
    aparece_en_pos(s, prefijo, 0)
}

pub fn comprobar_sufijo(s: &[char], sufijo: &[char]) -> (r: bool)
    ensures
        r == termina_en(s@, sufijo@),
{
    if sufijo.len() > s.len() {
        return false;
    }
    aparece_en_pos(s, sufijo, s.len() - sufijo.len())
}

/// Copia de `s[desde..hasta]`.
pub fn tramo(s: &[char], desde: usize, hasta: usize) -> (r: Vec<char>)
    requires
        desde <= hasta <= s@.len(),
    ensures
        r@ == s@.subrange(desde as int, hasta as int),
{
    let mut r: Vec<char> = Vec::new();
    let mut i = desde;
    while i < hasta
        invariant
            desde <= i <= hasta <= s@.len(),
            r@ == s@.subrange(desde as int, i as int),
        decreases hasta - i,
    {
        r.push(s[i]);
        i += 1;
        assert(r@ =~= s@.subrange(desde as int, i as int));
    }
    r
}

/// Anexa `b` al final de `a`.
pub fn anexar(a: &mut Vec<char>, b: &[char])
    ensures
        final(a)@ == old(a)@ + b@,
{
    let mut i: usize = 0;
    while i < b.len()
        invariant
            i <= b.len(),
            a@ == old(a)@ + b@.take(i as int),
        decreases b.len() - i,
    {
        a.push(b[i]);
        i += 1;
        assert(a@ =~= old(a)@ + b@.take(i as int));
    }
    assert(b@.take(b.len() as int) =~= b@);
}

// ---------------------------------------------------------------------------------------------
// Espacios (propiedad Unicode White_Space, la de `char::is_whitespace`)
// ---------------------------------------------------------------------------------------------

/// `c` tiene la propiedad Unicode `White_Space`.
pub open spec fn es_espacio(c: char) -> bool {
    let u = c as u32;
    ||| 0x09 <= u <= 0x0D
    ||| u == 0x20
    ||| u == 0x85
    ||| u == 0xA0
    ||| u == 0x1680
    ||| 0x2000 <= u <= 0x200A
    ||| u == 0x2028
    ||| u == 0x2029
    ||| u == 0x202F
    ||| u == 0x205F
    ||| u == 0x3000
}

pub fn es_espacio_exec(c: char) -> (r: bool)
    ensures
        r == es_espacio(c),
{
    let u = c as u32;
    (0x09 <= u && u <= 0x0D) || u == 0x20 || u == 0x85 || u == 0xA0 || u == 0x1680 || (0x2000
        <= u && u <= 0x200A) || u == 0x2028 || u == 0x2029 || u == 0x202F || u == 0x205F || u
        == 0x3000
}

/// `s` sin los espacios del principio.
pub open spec fn sin_espacios_iniciales(s: Seq<char>) -> Seq<char>
    decreases s.len(),
{
    if s.len() > 0 && es_espacio(s[0]) {
        sin_espacios_iniciales(s.drop_first())
    } else {
        s
    }
}

/// `s` sin los espacios del final.
pub open spec fn sin_espacios_finales(s: Seq<char>) -> Seq<char>
    decreases s.len(),
{
    if s.len() > 0 && es_espacio(s.last()) {
        sin_espacios_finales(s.drop_last())
    } else {
        s
    }
}

/// `s` sin espacios a ninguno de los dos lados (`str::trim`).
pub open spec fn recortado(s: Seq<char>) -> Seq<char> {
    sin_espacios_finales(sin_espacios_iniciales(s))
}

/// `s` sin espacios a ninguno de los dos lados.
pub fn recortar(s: &[char]) -> (r: Vec<char>)
    ensures
        r@ == recortado(s@),
{
    let mut i: usize = 0;
    assert(s@.subrange(0, s@.len() as int) =~= s@);
    while i < s.len() && es_espacio_exec(s[i])
        invariant
            i <= s@.len(),
            sin_espacios_iniciales(s@) == sin_espacios_iniciales(s@.subrange(i as int, s@.len() as int)),
        decreases s.len() - i,
    {
        let ghost resto = s@.subrange(i as int, s@.len() as int);
        assert(resto.drop_first() =~= s@.subrange(i as int + 1, s@.len() as int));
        i += 1;
    }
    let ghost inicial = s@.subrange(i as int, s@.len() as int);
    assert(sin_espacios_iniciales(inicial) == inicial);
    let mut j: usize = s.len();
    assert(inicial =~= s@.subrange(i as int, j as int));
    while j > i && es_espacio_exec(s[j - 1])
        invariant
            i <= j <= s@.len(),
            sin_espacios_finales(inicial) == sin_espacios_finales(s@.subrange(i as int, j as int)),
        decreases j,
    {
        let ghost parte = s@.subrange(i as int, j as int);
        assert(parte.drop_last() =~= s@.subrange(i as int, j - 1));
        j -= 1;
    }
    tramo(s, i, j)
}

/// `s` es vacía o solo tiene espacios.
pub fn en_blanco(s: &str) -> (r: bool)
    ensures
        r == (recortado(s@).len() == 0),
{
    let c = caracteres(s);
    let t = recortar(c.as_slice());
    t.len() == 0
}

// ---------------------------------------------------------------------------------------------
// Enteros decimales
// ---------------------------------------------------------------------------------------------

pub open spec fn es_digito(c: char) -> bool {
    '0' <= c && c <= '9'
}

pub open spec fn valor_digito(c: char) -> nat {
    ((c as u32) - 48) as nat
}

pub open spec fn todos_digitos(s: Seq<char>) -> bool {
    forall|i: int| 0 <= i < s.len() ==> es_digito(#[trigger] s[i])
}

/// Valor decimal de una secuencia de dígitos.
pub open spec fn valor_digitos(d: Seq<char>) -> nat
    decreases d.len(),
{
    if d.len() == 0 {
        0
    } else {
        valor_digitos(d.drop_last()) * 10 + valor_digito(d.last())
    }
}

/// Lectura de un entero decimal con signo opcional, como `FromStr` de los enteros de `std`: un
/// `+` inicial siempre se admite; un `-` solo si `admite_negativo`; después, al menos un dígito y
/// solo dígitos. `None` si no encaja.
pub open spec fn entero_decimal(s: Seq<char>, admite_negativo: bool) -> Option<int> {
    if s.len() == 0 {
        None
    } else {
        let negativo = admite_negativo && s[0] == '-';
        let digitos = if s[0] == '+' || negativo {
            s.drop_first()
        } else {
            s
        };
        if digitos.len() == 0 || !todos_digitos(digitos) {
            None
        } else if negativo {
            Some(-(valor_digitos(digitos) as int))
        } else {
            Some(valor_digitos(digitos) as int)
        }
    }
}

/// `str::parse::<i64>` sobre la vista de caracteres.
pub open spec fn lectura_i64(s: Seq<char>) -> Option<i64> {
    match entero_decimal(s, true) {
        Some(v) => if i64::MIN <= v <= i64::MAX {
            Some(v as i64)
        } else {
            None
        },
        None => None,
    }
}

/// `str::parse::<u32>` sobre la vista de caracteres.
pub open spec fn lectura_u32(s: Seq<char>) -> Option<u32> {
    match entero_decimal(s, false) {
        Some(v) => if 0 <= v <= u32::MAX {
            Some(v as u32)
        } else {
            None
        },
        None => None,
    }
}

/// `str::parse::<u8>` sobre la vista de caracteres.
pub open spec fn lectura_u8(s: Seq<char>) -> Option<u8> {
    match entero_decimal(s, false) {
        Some(v) => if 0 <= v <= u8::MAX {
            Some(v as u8)
        } else {
            None
        },
        None => None,
    }
}

proof fn lema_valor_prefijo(d: Seq<char>, i: int)
    requires
        0 <= i < d.len(),
    ensures
        valor_digitos(d.take(i + 1)) == valor_digitos(d.take(i)) * 10 + valor_digito(d[i]),
{
    assert(d.take(i + 1).drop_last() =~= d.take(i));
}

proof fn lema_valor_monotono(d: Seq<char>, i: int, j: int)
    requires
        0 <= i <= j <= d.len(),
    ensures
        valor_digitos(d.take(i)) <= valor_digitos(d.take(j)),
    decreases j - i,
{
    if i < j {
        lema_valor_monotono(d, i, j - 1);
        lema_valor_prefijo(d, j - 1);
    }
}

/// Valor de `d` si todos son dígitos y no supera `tope`; `None` si supera `tope`.
fn valor_acotado(d: &[char], tope: u64) -> (r: Option<u64>)
    requires
        todos_digitos(d@),
    ensures
        match r {
            Some(v) => v == valor_digitos(d@) && v <= tope,
            None => valor_digitos(d@) > tope,
        },
{
    let mut acc: u64 = 0;
    let mut i: usize = 0;
    while i < d.len()
        invariant
            i <= d.len(),
            todos_digitos(d@),
            acc == valor_digitos(d@.take(i as int)),
            acc <= tope,
        decreases d.len() - i,
    {
        proof {
            lema_valor_prefijo(d@, i as int);
        }
        assert(es_digito(d@[i as int]));
        let dig: u64 = ((d[i] as u32) - 48) as u64;
        if dig > tope || acc > (tope - dig) / 10 {
            proof {
                assert(acc * 10 + dig > tope) by (nonlinear_arith)
                    requires
                        dig > tope || acc > (tope - dig) / 10,
                        dig <= 9,
                        acc >= 0,
                ;
                lema_valor_monotono(d@, i + 1, d@.len() as int);
                assert(d@.take(d@.len() as int) =~= d@);
            }
            return None;
        }
        proof {
            assert(acc * 10 + dig <= tope) by (nonlinear_arith)
                requires
                    acc <= (tope - dig) / 10,
                    dig <= 9,
            ;
        }
        acc = acc * 10 + dig;
        i += 1;
    }
    assert(d@.take(d@.len() as int) =~= d@);
    Some(acc)
}

/// Lee un entero decimal con signo dentro de `[-tope_negativo, tope_positivo]`.
fn leer_entero(s: &[char], admite_negativo: bool, tope_positivo: u64, tope_negativo: u64) -> (r:
    Option<(bool, u64)>)
    ensures
        match r {
            Some((neg, v)) => entero_decimal(s@, admite_negativo) == Some(
                if neg {
                    -(v as int)
                } else {
                    v as int
                },
            ) && (neg ==> v <= tope_negativo) && (!neg ==> v <= tope_positivo),
            None => match entero_decimal(s@, admite_negativo) {
                Some(x) => x > tope_positivo || x < -(tope_negativo as int),
                None => true,
            },
        },
{
    if s.len() == 0 {
        return None;
    }
    let negativo = admite_negativo && s[0] == '-';
    let inicio: usize = if s[0] == '+' || negativo {
        1
    } else {
        0
    };
    let digitos = tramo(s, inicio, s.len());
    proof {
        if inicio == 1 {
            assert(digitos@ =~= s@.drop_first());
        } else {
            assert(digitos@ =~= s@);
        }
    }
    if digitos.len() == 0 {
        return None;
    }
    let mut i: usize = 0;
    while i < digitos.len()
        invariant
            i <= digitos.len(),
            s@.len() > 0,
            negativo == (admite_negativo && s@[0] == '-'),
            digitos@ == (if s@[0] == '+' || negativo {
                s@.drop_first()
            } else {
                s@
            }),
            forall|k: int| 0 <= k < i ==> es_digito(#[trigger] digitos@[k]),
        decreases digitos.len() - i,
    {
        if !('0' <= digitos[i] && digitos[i] <= '9') {
            assert(!es_digito(digitos@[i as int]));
            assert(!todos_digitos(digitos@));
            return None;
        }
        i += 1;
    }
    let tope = if negativo {
        tope_negativo
    } else {
        tope_positivo
    };
    match valor_acotado(digitos.as_slice(), tope) {
        Some(v) => Some((negativo, v)),
        None => None,
    }
}

/// `str::parse::<i64>` sobre caracteres.
pub fn leer_i64(s: &[char]) -> (r: Option<i64>)
    ensures
        r == lectura_i64(s@),
{
    match leer_entero(s, true, 0x7fff_ffff_ffff_ffff, 0x8000_0000_0000_0000) {
        Some((neg, v)) => {
            if neg {
                if v == 0x8000_0000_0000_0000 {
                    Some(i64::MIN)
                } else {
                    Some(-(v as i64))
                }
            } else {
                Some(v as i64)
            }
        },
        None => None,
    }
}

/// `str::parse::<u32>` sobre caracteres.
pub fn leer_u32(s: &[char]) -> (r: Option<u32>)
    ensures
        r == lectura_u32(s@),
{
    match leer_entero(s, false, 0xffff_ffff, 0) {
        Some((_, v)) => Some(v as u32),
        None => None,
    }
}

/// `str::parse::<u8>` sobre caracteres.
pub fn leer_u8(s: &[char]) -> (r: Option<u8>)
    ensures
        r == lectura_u8(s@),
{
    match leer_entero(s, false, 0xff, 0) {
        Some((_, v)) => Some(v as u8),
        None => None,
    }
}

/// Carácter del dígito `d` (`0`–`9`).
pub open spec fn digito(d: nat) -> char {
    ((48 + d) as u32) as char
}

/// Escritura decimal de un natural, sin ceros a la izquierda (como `Display` de los enteros).
pub open spec fn decimal(n: nat) -> Seq<char>
    decreases n,
{
    if n < 10 {
        seq![digito(n)]
    } else {
        decimal(n / 10).push(digito(n % 10))
    }
}

/// Escritura decimal de un entero con signo: `-` delante de los negativos.
pub open spec fn decimal_con_signo(n: int) -> Seq<char> {
    if n < 0 {
        seq!['-'] + decimal((-n) as nat)
    } else {
        decimal(n as nat)
    }
}

/// La escritura decimal de `n` son solo dígitos, al menos uno, y vale `n`.
pub proof fn lema_decimal_se_lee(n: nat)
    ensures
        decimal(n).len() > 0,
        todos_digitos(decimal(n)),
        valor_digitos(decimal(n)) == n,
        es_digito(decimal(n)[0]),
    decreases n,
{
    if n >= 10 {
        lema_decimal_se_lee(n / 10);
        let d = decimal(n);
        assert(d.drop_last() =~= decimal(n / 10));
        assert(d[0] == decimal(n / 10)[0]);
        assert(valor_digito(digito(n % 10)) == n % 10);
        assert(valor_digitos(d) == valor_digitos(decimal(n / 10)) * 10 + n % 10);
        assert((n / 10) * 10 + n % 10 == n) by (nonlinear_arith);
    } else {
        assert(valor_digito(digito(n)) == n);
        let d = decimal(n);
        assert(d.drop_last() =~= seq![]);
        assert(valor_digitos(d.drop_last()) == 0);
        assert(valor_digitos(d) == valor_digitos(d.drop_last()) * 10 + valor_digito(d.last()));
    }
}

/// `str::parse::<i64>` de la escritura decimal de un natural que cabe en `i64` da ese natural.
pub proof fn lema_lectura_de_decimal(n: nat)
    requires
        n <= i64::MAX,
    ensures
        lectura_i64(decimal(n)) == Some(n as i64),
{
    lema_decimal_se_lee(n);
    let d = decimal(n);
    assert(d[0] != '+' && d[0] != '-');
}

fn char_de_digito(d: u64) -> (r: char)
    requires
        d < 10,
    ensures
        r == digito(d as nat),
{
    let b: u8 = 48u8 + (d as u8);
    b as char
}

/// Los dígitos decimales de `n`.
pub fn decimal_u64(n: u64) -> (r: Vec<char>)
    ensures
        r@ == decimal(n as nat),
    decreases n,
{
    if n < 10 {
        let mut v = Vec::new();
        v.push(char_de_digito(n));
        assert(v@ =~= seq![digito(n as nat)]);
        v
    } else {
        let mut v = decimal_u64(n / 10);
        v.push(char_de_digito(n % 10));
        v
    }
}

/// Los dígitos decimales de `n`, con `-` si es negativo.
pub fn decimal_i64(n: i64) -> (r: Vec<char>)
    ensures
        r@ == decimal_con_signo(n as int),
{
    if n < 0 {
        let magnitud: u64 = if n == i64::MIN {
            0x8000_0000_0000_0000
        } else {
            (-n) as u64
        };
        let mut v = Vec::new();
        v.push('-');
        let d = decimal_u64(magnitud);
        anexar(&mut v, d.as_slice());
        assert(v@ =~= seq!['-'] + decimal((-(n as int)) as nat));
        v
    } else {
        decimal_u64(n as u64)
    }
}

} // verus!
