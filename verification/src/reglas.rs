//! Qué reglas de alerta se pueden ignorar.
//!
//! El conjunto vetado son las reglas que señalan daño físico o predicción de fallo del propio
//! disco: ignorarlas para siempre convertiría el monitor en algo que oculta su motivo de existir.
use vstd::prelude::*;

use crate::texto::iguales;

verus! {

/// Las reglas para las que la acción «Ignorar» está vetada: lista cerrada, no configurable.
pub open spec fn vetadas() -> Seq<Seq<char>> {
    seq![
        "smart.health.failed"@,
        "nvme.critical_warning"@,
        "smart.wear_high"@,
        "smart.spare_below_threshold"@,
        "smart.media_errors"@,
        "events.disk_predictive"@,
    ]
}

/// Reglas para las que la acción «Ignorar» está vetada (ver `vetadas`).
pub fn reglas_no_ignorables() -> (r: Vec<&'static str>)
    ensures
        r@.map_values(|s: &str| s@) == vetadas(),
{
    let mut r = Vec::new();
    r.push("smart.health.failed");
    r.push("nvme.critical_warning");
    r.push("smart.wear_high");
    r.push("smart.spare_below_threshold");
    r.push("smart.media_errors");
    r.push("events.disk_predictive");
    assert(r@.map_values(|s: &str| s@) =~= vetadas());
    r
}

/// ¿Una alerta de `rule_key` se puede llevar al estado `ignored`? Sí, salvo que la regla esté
/// vetada; una regla desconocida es ignorable.
pub fn regla_es_ignorable(rule_key: &str) -> (r: bool)
    ensures
        r == !vetadas().contains(rule_key@),
{
    let lista = reglas_no_ignorables();
    let mut i: usize = 0;
    while i < lista.len()
        invariant
            i <= lista.len(),
            lista@.map_values(|s: &str| s@) == vetadas(),
            forall|j: int| 0 <= j < i ==> vetadas()[j] != rule_key@,
        decreases lista.len() - i,
    {
        if iguales(lista[i], rule_key) {
            assert(vetadas()[i as int] == rule_key@);
            return false;
        }
        i += 1;
    }
    true
}

/// La regla con la que se vigila el aviso de temperatura: si el disco declara el límite
/// operativo del fabricante, `temp.above_vendor_limit` (con ese límite como umbral); si no,
/// `temp.above_configured_warn` (con el umbral configurado). El crítico es siempre el
/// configurado.
pub fn regla_de_aviso_de_temperatura(hay_limite_del_fabricante: bool) -> (r: &'static str)
    ensures
        r@ == (if hay_limite_del_fabricante {
            "temp.above_vendor_limit"@
        } else {
            "temp.above_configured_warn"@
        }),
{
    if hay_limite_del_fabricante {
        "temp.above_vendor_limit"
    } else {
        "temp.above_configured_warn"
    }
}

} // verus!
