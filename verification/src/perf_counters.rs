//! Contadores de rendimiento de disco: qué significa cada código que devuelven la recogida y el
//! formateo de un contador, y la consulta de actividad con el conjunto de discos que vigila.
use vstd::prelude::*;

verus! {

/// Éxito de una llamada de contadores.
pub const ERROR_SUCCESS: u32 = 0;

/// La tasa todavía no tiene dos muestras crudas con las que calcularse.
pub const PDH_INVALID_DATA: u32 = 0xC000_0BC6;

/// El valor formateado no vale esta vez (la instancia desapareció en ese instante).
pub const PDH_CSTATUS_INVALID_DATA: u32 = 0xC000_0BBA;

/// Estado del dato: válido.
pub const PDH_CSTATUS_VALID_DATA: u32 = 0x0000_0000;

/// Estado del dato: válido y distinto del anterior.
pub const PDH_CSTATUS_NEW_DATA: u32 = 0x0000_0001;

#[derive(Debug, Clone, PartialEq, Eq)]
pub enum ErrorPdh {
    /// Código de error devuelto por la función indicada.
    Codigo { funcion: &'static str, codigo: u32 },
}

/// Lo que dio el formateo del contador de un disco.
#[derive(Debug, Clone, PartialEq, Eq)]
pub enum ClaseMuestra {
    /// Hay valor: se lee y se deriva la actividad.
    Valida,
    /// Todavía no hay dos muestras, o la de esta vez no vale: se salta este tick.
    AunNoLista,
    /// El contador falló de verdad.
    Fallo(ErrorPdh),
}

/// Un código que solo dice que aún no hay muestra.
pub open spec fn sin_muestra_todavia(codigo: u32) -> bool {
    codigo == PDH_INVALID_DATA || codigo == PDH_CSTATUS_INVALID_DATA
}

/// La clase del resultado de formatear un contador, por el código de la llamada y el estado del
/// dato: con éxito, el estado decide (válido o nuevo, sin muestra todavía, o fallo con el
/// estado como código); sin éxito, el código decide (sin muestra todavía, o fallo).
pub open spec fn clase_de_muestra(codigo: u32, c_status: u32) -> ClaseMuestra {
    if codigo == ERROR_SUCCESS {
        if c_status == PDH_CSTATUS_VALID_DATA || c_status == PDH_CSTATUS_NEW_DATA {
            ClaseMuestra::Valida
        } else if sin_muestra_todavia(c_status) {
            ClaseMuestra::AunNoLista
        } else {
            ClaseMuestra::Fallo(
                ErrorPdh::Codigo {
                    funcion: "PdhGetFormattedCounterValue(c_status)",
                    codigo: c_status,
                },
            )
        }
    } else if sin_muestra_todavia(codigo) {
        ClaseMuestra::AunNoLista
    } else {
        ClaseMuestra::Fallo(
            ErrorPdh::Codigo { funcion: "PdhGetFormattedCounterValue", codigo: codigo },
        )
    }
}

/// Clasifica el resultado de formatear el contador de un disco.
pub fn clasificar_muestra(codigo: u32, c_status: u32) -> (r: ClaseMuestra)
    ensures
        r == clase_de_muestra(codigo, c_status),
{
    if codigo == ERROR_SUCCESS {
        if c_status == PDH_CSTATUS_VALID_DATA || c_status == PDH_CSTATUS_NEW_DATA {
            ClaseMuestra::Valida
        } else if c_status == PDH_INVALID_DATA || c_status == PDH_CSTATUS_INVALID_DATA {
            ClaseMuestra::AunNoLista
        } else {
            ClaseMuestra::Fallo(
                ErrorPdh::Codigo {
                    funcion: "PdhGetFormattedCounterValue(c_status)",
                    codigo: c_status,
                },
            )
        }
    } else if codigo == PDH_INVALID_DATA || codigo == PDH_CSTATUS_INVALID_DATA {
        ClaseMuestra::AunNoLista
    } else {
        ClaseMuestra::Fallo(ErrorPdh::Codigo { funcion: "PdhGetFormattedCounterValue", codigo })
    }
}

/// Qué hacer en un tick de muestreo tras la recogida de datos.
#[derive(Debug, Clone, PartialEq, Eq)]
pub enum Recogida {
    /// La recogida falló: todos los discos registran este fallo.
    Fallida(ErrorPdh),
    /// Primera recogida: solo ceba los contadores; ningún disco tiene valor aún.
    Cebado,
    /// Hay datos: se formatea el contador de cada disco.
    Lista,
}

/// El paso de un tick: con el código de la recogida y si ya se hizo la primera, qué hacer y si la
/// primera recogida queda hecha después. Una recogida fallida no cuenta como primera.
pub open spec fn paso_de_recogida(codigo: u32, primera_hecha: bool) -> (Recogida, bool) {
    if codigo != ERROR_SUCCESS {
        (Recogida::Fallida(ErrorPdh::Codigo { funcion: "PdhCollectQueryData", codigo }), primera_hecha)
    } else if !primera_hecha {
        (Recogida::Cebado, true)
    } else {
        (Recogida::Lista, true)
    }
}

/// Decide el tick de muestreo a partir del código de la recogida.
pub fn tras_recogida(codigo: u32, primera_hecha: bool) -> (r: (Recogida, bool))
    ensures
        r == paso_de_recogida(codigo, primera_hecha),
{
    if codigo != ERROR_SUCCESS {
        (Recogida::Fallida(ErrorPdh::Codigo { funcion: "PdhCollectQueryData", codigo }), primera_hecha)
    } else if !primera_hecha {
        (Recogida::Cebado, true)
    } else {
        (Recogida::Lista, true)
    }
}

/// La consulta de actividad con el conjunto `(device_id, disk_number)` con el que se construyó.
pub struct ConsultaActividad {
    discos: Vec<(String, i64)>,
    /// La primera recogida, que solo ceba los contadores, ya se hizo.
    primera_recogida_hecha: bool,
}

/// Las vistas de una lista de pares `(identificador, número de disco)`.
pub open spec fn vistas_discos(v: Seq<(String, i64)>) -> Seq<(Seq<char>, i64)> {
    v.map_values(|p: (String, i64)| (p.0@, p.1))
}

impl View for ConsultaActividad {
    type V = Seq<(Seq<char>, i64)>;

    closed spec fn view(&self) -> Seq<(Seq<char>, i64)> {
        vistas_discos(self.discos@)
    }
}

impl ConsultaActividad {
    /// Si la consulta ya hizo su primera recogida (la que solo ceba los contadores).
    pub closed spec fn cebada(&self) -> bool {
        self.primera_recogida_hecha
    }
}

fn copiar_discos(discos: &[(String, i64)]) -> (r: Vec<(String, i64)>)
    ensures
        vistas_discos(r@) == vistas_discos(discos@),
{
    let mut r: Vec<(String, i64)> = Vec::new();
    let mut i: usize = 0;
    while i < discos.len()
        invariant
            i <= discos.len(),
            vistas_discos(r@) == vistas_discos(discos@.take(i as int)),
        decreases discos.len() - i,
    {
        let par = &discos[i];
        let id = par.0.clone();
        assert(id@ == discos@[i as int].0@);
        let ghost antes = r@;
        r.push((id, par.1));
        assert(r@ == antes.push((id, par.1)));
        assert(vistas_discos(r@) =~= vistas_discos(antes).push((id@, par.1)));
        assert(discos@.take(i as int + 1) =~= discos@.take(i as int).push(discos@[i as int]));
        i += 1;
        assert(vistas_discos(r@) =~= vistas_discos(discos@.take(i as int)));
    }
    assert(discos@.take(discos@.len() as int) =~= discos@);
    r
}

/// Los discos de `discos` cuyo contador de actividad se pudo añadir (`anadido`, uno por disco),
/// en su orden.
pub open spec fn con_contador(discos: Seq<(Seq<char>, i64)>, anadido: Seq<bool>) -> Seq<(Seq<char>, i64)>
    decreases discos.len(),
{
    if discos.len() == 0 || anadido.len() == 0 {
        seq![]
    } else if anadido.last() {
        con_contador(discos.drop_last(), anadido.drop_last()).push(discos.last())
    } else {
        con_contador(discos.drop_last(), anadido.drop_last())
    }
}

/// Los discos que quedan en una consulta reconstruida son una subsecuencia de los pedidos: cada
/// uno es un disco pedido cuyo contador se añadió, y conservan el orden en que se pidieron. El
/// resultado da, para cada disco que queda, su posición entre los pedidos.
pub proof fn con_contador_es_subsecuencia(discos: Seq<(Seq<char>, i64)>, anadido: Seq<bool>) -> (pos:
    Seq<int>)
    requires
        anadido.len() == discos.len(),
    ensures
        pos.len() == con_contador(discos, anadido).len(),
        forall|k: int|
            0 <= k < pos.len() ==> 0 <= #[trigger] pos[k] < discos.len() && anadido[pos[k]]
                && con_contador(discos, anadido)[k] == discos[pos[k]],
        forall|k1: int, k2: int| 0 <= k1 < k2 < pos.len() ==> pos[k1] < pos[k2],
    decreases discos.len(),
{
    if discos.len() == 0 {
        seq![]
    } else {
        let previas = con_contador_es_subsecuencia(discos.drop_last(), anadido.drop_last());
        if anadido.last() {
            let pos = previas.push(discos.len() - 1);
            assert forall|k: int| 0 <= k < pos.len() implies 0 <= #[trigger] pos[k] < discos.len()
                && anadido[pos[k]] && con_contador(discos, anadido)[k] == discos[pos[k]] by {
                if k < previas.len() {
                    assert(pos[k] == previas[k]);
                }
            }
            pos
        } else {
            previas
        }
    }
}

impl ConsultaActividad {
    /// La consulta tras intentar abrirla (`codigo_apertura`) y añadir un contador por disco
    /// (`anadido`, uno por disco, en el orden de `discos`). Si no se pudo abrir, el error de
    /// apertura; si no, quedan los discos cuyo contador se añadió, en su orden.
    pub fn reconstruir_con(discos: &[(String, i64)], codigo_apertura: u32, anadido: &[bool]) -> (r:
        Result<Self, ErrorPdh>)
        requires
            anadido.len() == discos.len(),
        ensures
            codigo_apertura != ERROR_SUCCESS ==> r == Err::<Self, ErrorPdh>(
                ErrorPdh::Codigo { funcion: "PdhOpenQueryW", codigo: codigo_apertura },
            ),
            codigo_apertura == ERROR_SUCCESS ==> (r matches Ok(c) && c@ == con_contador(
                vistas_discos(discos@),
                anadido@,
            ) && !c.cebada()),
    {
        if codigo_apertura != ERROR_SUCCESS {
            return Err(ErrorPdh::Codigo { funcion: "PdhOpenQueryW", codigo: codigo_apertura });
        }
        let mut r: Vec<(String, i64)> = Vec::new();
        let mut i: usize = 0;
        while i < discos.len()
            invariant
                i <= discos.len(),
                anadido.len() == discos.len(),
                vistas_discos(r@) == con_contador(
                    vistas_discos(discos@.take(i as int)),
                    anadido@.take(i as int),
                ),
            decreases discos.len() - i,
        {
            let ghost antes = r@;
            assert(vistas_discos(discos@.take(i as int + 1)).drop_last() =~= vistas_discos(
                discos@.take(i as int),
            ));
            assert(anadido@.take(i as int + 1).drop_last() =~= anadido@.take(i as int));
            if anadido[i] {
                let par = &discos[i];
                let id = par.0.clone();
                r.push((id, par.1));
                assert(vistas_discos(r@) =~= vistas_discos(antes).push((id@, par.1)));
            }
            i += 1;
        }
        assert(discos@.take(discos@.len() as int) =~= discos@);
        assert(anadido@.take(anadido@.len() as int) =~= anadido@);
        Ok(ConsultaActividad { discos: r, primera_recogida_hecha: false })
    }

    /// Construye la consulta para esos discos. En esta plataforma no hay contadores que abrir:
    /// nunca falla.
    pub fn reconstruir(discos: &[(String, i64)]) -> (r: Result<Self, ErrorPdh>)
        ensures
            r matches Ok(c) && c@ == vistas_discos(discos@) && !c.cebada(),
    {
        Ok(ConsultaActividad { discos: copiar_discos(discos), primera_recogida_hecha: false })
    }

    /// El conjunto `(device_id, disk_number)` con el que se construyó.
    pub fn discos(&self) -> (r: Vec<(String, i64)>)
        ensures
            vistas_discos(r@) == self@,
    {
        copiar_discos(self.discos.as_slice())
    }
}

/// Lo que da el muestreo de cada disco de la consulta tras un paso de recogida: el fallo de la
/// recogida para todos, «aún no» para todos al cebar, o la clase del formateo de su contador
/// (`formateos[k]`: código de la llamada y estado del dato del disco `k`).
pub open spec fn muestras_de(
    discos: Seq<(Seq<char>, i64)>,
    paso: Recogida,
    formateos: Seq<(u32, u32)>,
) -> Seq<(Seq<char>, ClaseMuestra)> {
    Seq::new(
        discos.len(),
        |k: int|
            (
                discos[k].0,
                match paso {
                    Recogida::Fallida(e) => ClaseMuestra::Fallo(e),
                    Recogida::Cebado => ClaseMuestra::AunNoLista,
                    Recogida::Lista => clase_de_muestra(formateos[k].0, formateos[k].1),
                },
            ),
    )
}

/// Las vistas de una lista de muestras.
pub open spec fn vistas_muestras(v: Seq<(String, ClaseMuestra)>) -> Seq<(Seq<char>, ClaseMuestra)> {
    v.map_values(|p: (String, ClaseMuestra)| (p.0@, p.1))
}

fn copiar_error(e: &ErrorPdh) -> (r: ErrorPdh)
    ensures
        r == *e,
{
    match e {
        ErrorPdh::Codigo { funcion, codigo } => ErrorPdh::Codigo { funcion: *funcion, codigo: *codigo },
    }
}

impl ConsultaActividad {
    /// Registra una recogida de datos con su código: qué hacer en este tick. La primera recogida
    /// correcta solo ceba; una fallida no cuenta como primera. El conjunto de discos no cambia.
    pub fn recoger(&mut self, codigo: u32) -> (r: Recogida)
        ensures
            final(self)@ == old(self)@,
            (r, final(self).cebada()) == paso_de_recogida(codigo, old(self).cebada()),
    {
        let (paso, primera) = tras_recogida(codigo, self.primera_recogida_hecha);
        self.primera_recogida_hecha = primera;
        paso
    }

    /// La muestra de cada disco de la consulta, en su orden, tras el paso de recogida `paso`;
    /// con `Lista`, `formateos` trae el resultado de formatear el contador de cada disco.
    pub fn muestras(&self, paso: &Recogida, formateos: &[(u32, u32)]) -> (r: Vec<(String, ClaseMuestra)>)
        requires
            *paso is Lista ==> formateos.len() == self@.len(),
        ensures
            vistas_muestras(r@) == muestras_de(self@, *paso, formateos@),
    {
        let mut r: Vec<(String, ClaseMuestra)> = Vec::new();
        let mut i: usize = 0;
        while i < self.discos.len()
            invariant
                i <= self.discos.len(),
                *paso is Lista ==> formateos.len() == self.discos.len(),
                self@ == vistas_discos(self.discos@),
                vistas_muestras(r@) == muestras_de(self@, *paso, formateos@).take(i as int),
            decreases self.discos.len() - i,
        {
            let id = self.discos[i].0.clone();
            let clase = match paso {
                Recogida::Fallida(e) => ClaseMuestra::Fallo(copiar_error(e)),
                Recogida::Cebado => ClaseMuestra::AunNoLista,
                Recogida::Lista => clasificar_muestra(formateos[i].0, formateos[i].1),
            };
            let ghost antes = r@;
            r.push((id, clase));
            assert(vistas_muestras(r@) =~= vistas_muestras(antes).push((id@, clase)));
            i += 1;
            assert(vistas_muestras(r@) =~= muestras_de(self@, *paso, formateos@).take(i as int));
        }
        assert(muestras_de(self@, *paso, formateos@).take(self.discos.len() as int) =~= muestras_de(
            self@,
            *paso,
            formateos@,
        ));
        r
    }
}

/// El primer muestreo de una consulta recién construida nunca da un valor: o falla la recogida o
/// solo ceba los contadores.
pub proof fn el_primer_muestreo_no_da_valor(
    discos: Seq<(Seq<char>, i64)>,
    codigo: u32,
    formateos: Seq<(u32, u32)>,
)
    ensures
        forall|k: int|
            0 <= k < discos.len() ==> !(#[trigger] muestras_de(
                discos,
                paso_de_recogida(codigo, false).0,
                formateos,
            )[k].1 is Valida),
{
}

/// El muestreo da una muestra por disco de la consulta, con sus mismos identificadores y en su
/// mismo orden, sea cual sea el paso.
pub proof fn el_muestreo_sigue_los_discos(
    discos: Seq<(Seq<char>, i64)>,
    paso: Recogida,
    formateos: Seq<(u32, u32)>,
)
    ensures
        muestras_de(discos, paso, formateos).map_values(|p: (Seq<char>, ClaseMuestra)| p.0)
            == discos.map_values(|p: (Seq<char>, i64)| p.0),
{
    assert(muestras_de(discos, paso, formateos).map_values(|p: (Seq<char>, ClaseMuestra)| p.0)
        =~= discos.map_values(|p: (Seq<char>, i64)| p.0));
}

/// Una recogida fallida lo es para todos y no ceba; la primera correcta solo ceba; a partir de
/// ahí, cada recogida correcta trae datos.
pub proof fn la_recogida_ceba_una_vez(codigo: u32, primera_hecha: bool)
    ensures
        codigo != 0 ==> paso_de_recogida(codigo, primera_hecha) == (
            Recogida::Fallida(ErrorPdh::Codigo { funcion: "PdhCollectQueryData", codigo }),
            primera_hecha,
        ),
        codigo == 0 && !primera_hecha ==> paso_de_recogida(codigo, primera_hecha) == (
            Recogida::Cebado,
            true,
        ),
        codigo == 0 && primera_hecha ==> paso_de_recogida(codigo, primera_hecha) == (
            Recogida::Lista,
            true,
        ),
{
}

/// Solo hay valor con una llamada correcta y un dato válido o nuevo; los códigos de «aún no»
/// saltan el tick, y cualquier otro código es un fallo con ese código.
pub proof fn solo_un_dato_valido_da_valor(codigo: u32, c_status: u32)
    ensures
        (clase_de_muestra(codigo, c_status) is Valida) <==> (codigo == 0 && (c_status == 0
            || c_status == 1)),
        codigo != 0 && codigo != 0xC000_0BC6 && codigo != 0xC000_0BBA ==> clase_de_muestra(
            codigo,
            c_status,
        ) == ClaseMuestra::Fallo(
            ErrorPdh::Codigo { funcion: "PdhGetFormattedCounterValue", codigo },
        ),
        (codigo == 0xC000_0BC6 || codigo == 0xC000_0BBA) ==> clase_de_muestra(codigo, c_status)
            == ClaseMuestra::AunNoLista,
{
}

} // verus!
