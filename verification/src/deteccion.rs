//! Altas y bajas en caliente sobre el inventario de discos, y la clase de una baja según haya
//! o no un evento de extracción imprevista junto a ella.
use vstd::prelude::*;
use crate::texto::iguales;

verus! {

#[derive(Debug, Clone, Copy, PartialEq, Eq, Structural)]
pub enum TipoBaja {
    /// Precedida de una expulsión segura: solo un apunte de inventario, sin alerta.
    Segura,
    /// Sin expulsión previa: alerta crítica, o advertencia si el bus es USB.
    SinAviso,
}

/// La presencia del evento de extracción imprevista (`disk` 157) junto a la desaparición
/// indica que no hubo expulsión previa; su ausencia, que la baja fue segura.
pub fn clasificar_baja(se_encontro_evento_extraccion_imprevista: bool) -> (r: TipoBaja)
    ensures
        r == (if se_encontro_evento_extraccion_imprevista {
            TipoBaja::SinAviso
        } else {
            TipoBaja::Segura
        }),
{
    if se_encontro_evento_extraccion_imprevista {
        TipoBaja::SinAviso
    } else {
        TipoBaja::Segura
    }
}

/// Lo que cambió entre dos lecturas del inventario: huellas nuevas y huellas desaparecidas.
#[derive(Debug, Clone, PartialEq, Eq)]
pub struct Reconciliacion {
    pub altas: Vec<String>,
    pub bajas: Vec<String>,
}

/// Las vistas de una secuencia de cadenas.
pub open spec fn vistas(v: Seq<String>) -> Seq<Seq<char>> {
    v.map_values(|s: String| s@)
}

/// Los elementos de `s` que no están en `otros`, en su orden y con sus repeticiones.
pub open spec fn ausentes_de(s: Seq<Seq<char>>, otros: Seq<Seq<char>>) -> Seq<Seq<char>>
    decreases s.len(),
{
    if s.len() == 0 {
        seq![]
    } else {
        let previos = ausentes_de(s.drop_last(), otros);
        if otros.contains(s.last()) {
            previos
        } else {
            previos.push(s.last())
        }
    }
}

/// `true` si `h` está en `v`.
fn contiene(v: &[String], h: &String) -> (r: bool)
    ensures
        r == vistas(v@).contains(h@),
{
    let mut i: usize = 0;
    while i < v.len()
        invariant
            i <= v.len(),
            forall|j: int| 0 <= j < i ==> v@[j]@ != h@,
        decreases v.len() - i,
    {
        if iguales(v[i].as_str(), h.as_str()) {
            assert(vistas(v@)[i as int] == h@);
            return true;
        }
        i += 1;
    }
    proof {
        if vistas(v@).contains(h@) {
            let k = choose|k: int| 0 <= k < vistas(v@).len() && vistas(v@)[k] == h@;
            assert(v@[k]@ == h@);
        }
    }
    false
}

/// Los elementos de `s` que no están en `otros`, en su orden.
fn ausentes(s: &[String], otros: &[String]) -> (r: Vec<String>)
    ensures
        vistas(r@) == ausentes_de(vistas(s@), vistas(otros@)),
{
    let mut r: Vec<String> = Vec::new();
    let mut i: usize = 0;
    while i < s.len()
        invariant
            i <= s.len(),
            vistas(r@) == ausentes_de(vistas(s@).take(i as int), vistas(otros@)),
        decreases s.len() - i,
    {
        let ghost antes = r@;
        let ghost tomada = vistas(s@).take(i as int + 1);
        assert(tomada.drop_last() =~= vistas(s@).take(i as int));
        assert(tomada.last() == s@[i as int]@);
        if !contiene(otros, &s[i]) {
            r.push(s[i].clone());
            assert(vistas(r@) =~= vistas(antes).push(s@[i as int]@));
        } else {
            assert(r@ == antes);
        }
        i += 1;
    }
    assert(vistas(s@).take(s@.len() as int) =~= vistas(s@));
    r
}

/// Compara el inventario ya presente con el recién leído: son altas las huellas leídas que no
/// estaban, y bajas las presentes que ya no se leen, cada lista en el orden de su origen.
pub fn detectar_cambios(huellas_presentes: &[String], huellas_leidas: &[String]) -> (r:
    Reconciliacion)
    ensures
        vistas(r.altas@) == ausentes_de(vistas(huellas_leidas@), vistas(huellas_presentes@)),
        vistas(r.bajas@) == ausentes_de(vistas(huellas_presentes@), vistas(huellas_leidas@)),
{
    Reconciliacion {
        altas: ausentes(huellas_leidas, huellas_presentes),
        bajas: ausentes(huellas_presentes, huellas_leidas),
    }
}

/// Una huella está entre las altas si y solo si se lee ahora y no estaba antes; entre las bajas
/// si y solo si estaba y ya no se lee.
pub proof fn las_altas_y_bajas_son_la_diferencia(
    presentes: Seq<Seq<char>>,
    leidas: Seq<Seq<char>>,
    h: Seq<char>,
)
    ensures
        ausentes_de(leidas, presentes).contains(h) <==> (leidas.contains(h) && !presentes.contains(
            h,
        )),
        ausentes_de(presentes, leidas).contains(h) <==> (presentes.contains(h) && !leidas.contains(
            h,
        )),
{
    lema_ausentes_contiene(leidas, presentes, h);
    lema_ausentes_contiene(presentes, leidas, h);
}

proof fn lema_ausentes_contiene(s: Seq<Seq<char>>, otros: Seq<Seq<char>>, h: Seq<char>)
    ensures
        ausentes_de(s, otros).contains(h) <==> (s.contains(h) && !otros.contains(h)),
    decreases s.len(),
{
    if s.len() > 0 {
        lema_ausentes_contiene(s.drop_last(), otros, h);
        let previos = ausentes_de(s.drop_last(), otros);
        assert(s =~= s.drop_last().push(s.last()));
        if s.contains(h) {
            let k = choose|k: int| 0 <= k < s.len() && s[k] == h;
            if k < s.len() - 1 {
                assert(s.drop_last()[k] == h);
            }
        }
        if s.drop_last().contains(h) {
            let k = choose|k: int| 0 <= k < s.drop_last().len() && s.drop_last()[k] == h;
            assert(s[k] == h);
        }
        if s.last() == h {
            assert(s[s.len() - 1] == h);
        }
        if !otros.contains(s.last()) {
            assert(previos.push(s.last())[previos.len() as int] == s.last());
            if previos.contains(h) {
                let k = choose|k: int| 0 <= k < previos.len() && previos[k] == h;
                assert(previos.push(s.last())[k] == h);
            }
            if previos.push(s.last()).contains(h) {
                let k = choose|k: int|
                    0 <= k < previos.push(s.last()).len() && previos.push(s.last())[k] == h;
                if k < previos.len() {
                    assert(previos[k] == h);
                }
            }
        }
    }
}

} // verus!
