//! Lo que del JSON de `smartctl -j` se compone en texto: la versión del programa.
use vstd::prelude::*;
use crate::texto::{anexar, cadena_de, decimal_con_signo, decimal_i64};

verus! {

/// Los números de la versión, en decimal y separados por puntos (`[7, 5]` es `7.5`).
pub open spec fn version_con_puntos(partes: Seq<i64>) -> Seq<char>
    decreases partes.len(),
{
    if partes.len() == 0 {
        seq![]
    } else if partes.len() == 1 {
        decimal_con_signo(partes[0] as int)
    } else {
        version_con_puntos(partes.drop_last()) + seq!['.'] + decimal_con_signo(
            partes.last() as int,
        )
    }
}

/// La versión de `smartctl` como texto con puntos.
pub fn version_como_texto(partes: &[i64]) -> (r: String)
    ensures
        r@ == version_con_puntos(partes@),
{
    let mut t: Vec<char> = Vec::new();
    let mut i: usize = 0;
    while i < partes.len()
        invariant
            i <= partes.len(),
            t@ == version_con_puntos(partes@.take(i as int)),
        decreases partes.len() - i,
    {
        let ghost siguientes = partes@.take(i as int + 1);
        assert(siguientes.drop_last() =~= partes@.take(i as int));
        if i > 0 {
            t.push('.');
        }
        let d = decimal_i64(partes[i]);
        anexar(&mut t, d.as_slice());
        i += 1;
        assert(t@ =~= version_con_puntos(siguientes));
    }
    assert(partes@.take(partes@.len() as int) =~= partes@);
    cadena_de(t.as_slice())
}

} // verus!
