//! Historial de movimientos: filtros del panel, búsqueda `clave:valor`,
//! paginación sobre una "fotografía" fija y exportación.
use crate::activos::{buscar_empresa, empresa_buscada, igualdad, vista_tipos};
use crate::consulta::{
    TerminoVista, agregar_libre, complemento, interpretar, palabras, reconocer_tipos,
    separar_palabras, separar_valores, termino, tipos_excepto, tipos_reconocidos, unidas, valores,
    vistas,
};
use crate::fechas::{
    dia_hoy_costa_rica, dia_leido, escribir_dia, fecha_escrita, inicio_dia, inicio_dia_costa_rica_utc,
    leer_fecha, primer_dia_del_mes, primero_del_mes,
};
use crate::modelos::{Empresa, EstadoMovimiento, Igualdad, TipoIngreso};
use crate::texto::{
    a_minusculas, caracteres, entero, es_literal, minusculas,
    parsear_entero, recorte, recortar, texto_de, extension_nombre, ruta_sencilla, ultimo_tramo,
};
use crate::consulta::{agregar_separado, unidas_con};
use crate::modelos::{MovimientoIngresoResumen, PaginaHistorial};
use crate::texto::{decimal, escribir_decimal, lema_recorte_vacio, unir};
use crate::ui::{
    Codigo, Debounce, Tecla, TextInput, VistaCampo, comando_estandar, editar, es_ayuda, movida,
    mover_seleccion, reloj_ms, vencio,
};
use vstd::prelude::*;

verus! {

/// Filtros del panel del historial (lo que el operador escribió).
#[derive(Clone, Debug, PartialEq, Eq)]
pub struct FiltrosHistorial {
    pub desde: String,
    pub hasta: String,
    pub nombre_cedula: String,
    pub empresa_id: Option<Igualdad<i64>>,
    /// `None` = todos los tipos; `Some(v)` = cualquiera de los listados.
    pub tipos: Option<Vec<TipoIngreso>>,
    pub gafete: String,
    pub gafete_negado: bool,
    pub estado: EstadoMovimiento,
    /// Nombre (parcial) de quien registró el ingreso.
    pub usuario_ingreso: String,
    pub usuario_ingreso_negado: bool,
    /// Nombre (parcial) de quien registró la salida.
    pub usuario_salida: String,
    pub usuario_salida_negado: bool,
}

/// Los filtros como valores.
pub struct FiltrosVista {
    pub desde: Seq<char>,
    pub hasta: Seq<char>,
    pub nombre_cedula: Seq<char>,
    pub empresa_id: Option<Igualdad<i64>>,
    pub tipos: Option<Seq<TipoIngreso>>,
    pub gafete: Seq<char>,
    pub gafete_negado: bool,
    pub estado: EstadoMovimiento,
    pub usuario_ingreso: Seq<char>,
    pub usuario_ingreso_negado: bool,
    pub usuario_salida: Seq<char>,
    pub usuario_salida_negado: bool,
}

impl View for FiltrosHistorial {
    type V = FiltrosVista;

    open spec fn view(&self) -> FiltrosVista {
        FiltrosVista {
            desde: self.desde@,
            hasta: self.hasta@,
            nombre_cedula: self.nombre_cedula@,
            empresa_id: self.empresa_id,
            tipos: vista_tipos(self.tipos),
            gafete: self.gafete@,
            gafete_negado: self.gafete_negado,
            estado: self.estado,
            usuario_ingreso: self.usuario_ingreso@,
            usuario_ingreso_negado: self.usuario_ingreso_negado,
            usuario_salida: self.usuario_salida@,
            usuario_salida_negado: self.usuario_salida_negado,
        }
    }
}

impl Default for FiltrosHistorial {
    /// Desde el primer día del mes en curso hasta hoy (Costa Rica), sin más
    /// filtros.
    fn default() -> (f: FiltrosHistorial)
        ensures
            exists|h: i32| #[trigger] del_mes_hasta(f@, h),
            f.nombre_cedula@.len() == 0,
            f.empresa_id is None,
            f.tipos is None,
            f.gafete@.len() == 0,
            !f.gafete_negado,
            f.estado == EstadoMovimiento::Todos,
            f.usuario_ingreso@.len() == 0,
            !f.usuario_ingreso_negado,
            f.usuario_salida@.len() == 0,
            !f.usuario_salida_negado,
    {
        let hoy = dia_hoy_costa_rica();
        let primero = primer_dia_del_mes(hoy);
        let desde = escribir_dia(primero);
        let hasta = escribir_dia(hoy);
        let f = FiltrosHistorial {
            desde,
            hasta,
            nombre_cedula: String::new(),
            empresa_id: None,
            tipos: None,
            gafete: String::new(),
            gafete_negado: false,
            estado: EstadoMovimiento::Todos,
            usuario_ingreso: String::new(),
            usuario_ingreso_negado: false,
            usuario_salida: String::new(),
            usuario_salida_negado: false,
        };
        assert(del_mes_hasta(f@, hoy));
        f
    }
}

/// Los filtros del mes en curso arman una consulta, con cualquier búsqueda,
/// mientras el gafete esté vacío y hoy sea anterior al año 10000.
pub proof fn ley_filtros_del_mes_arman_consulta(
    f: FiltrosVista,
    h: i32,
    busqueda: Seq<char>,
    limite: usize,
    offset: usize,
    corte_id: Option<i64>,
)
    requires
        del_mes_hasta(f, h),
        h <= 3_652_059,
        f.gafete.len() == 0,
    ensures
        construida(f, busqueda, limite, offset, corte_id) is Ok,
{
    assert(recorte(f.gafete).len() == 0) by {
        lema_recorte_vacio(f.gafete);
    }
}

/// La búsqueda rápida, si tiene texto, manda sobre el nombre o cédula del
/// panel: la consulta busca exactamente ese texto recortado, y cambiar el
/// nombre del panel no cambia la consulta. Sin búsqueda rápida se busca el
/// nombre del panel recortado, o nadie en particular si está vacío.
pub proof fn ley_busqueda_rapida_manda(
    f: FiltrosVista,
    otro_nombre: Seq<char>,
    busqueda: Seq<char>,
    limite: usize,
    offset: usize,
    corte_id: Option<i64>,
)
    ensures
        recorte(busqueda).len() > 0 ==> (construida(f, busqueda, limite, offset, corte_id) matches Ok(
            c,
        ) ==> c.texto_persona == Some(recorte(busqueda))),
        recorte(busqueda).len() > 0 ==> construida(f, busqueda, limite, offset, corte_id)
            == construida(FiltrosVista { nombre_cedula: otro_nombre, ..f }, busqueda, limite, offset, corte_id),
        recorte(busqueda).len() == 0 ==> (construida(f, busqueda, limite, offset, corte_id) matches Ok(
            c,
        ) ==> c.texto_persona == (if recorte(f.nombre_cedula).len() > 0 {
            Some(recorte(f.nombre_cedula))
        } else {
            None
        })),
{
}

/// Filtros del mes del día `h` (contado desde el año 1, no antes de 1970):
/// desde el primero del mes hasta `h`, escritos `DD/MM/YYYY`; entre los años
/// 1 y 9999 se leen de vuelta como esos días.
pub open spec fn del_mes_hasta(f: FiltrosVista, h: i32) -> bool {
    &&& f.desde == fecha_escrita(primero_del_mes(h))
    &&& f.hasta == fecha_escrita(h)
    &&& 719_162 <= h
    &&& h <= 3_652_059 ==> {
        &&& dia_leido(f.desde) == Some(primero_del_mes(h))
        &&& dia_leido(f.hasta) == Some(h)
        &&& 1 <= primero_del_mes(h) <= h
    }
}

/// Palabras (en minúsculas) que nombran un estado de movimiento.
pub open spec fn estado_de_palabra(p: Seq<char>) -> Option<EstadoMovimiento> {
    if p == "activos"@ || p == "activo"@ || p == "dentro"@ {
        Some(EstadoMovimiento::Activos)
    } else if p == "cerrados"@ || p == "cerrado"@ || p == "salieron"@ || p == "salio"@ || p
        == "salió"@ {
        Some(EstadoMovimiento::Cerrados)
    } else if p == "todos"@ {
        Some(EstadoMovimiento::Todos)
    } else {
        None
    }
}

pub fn estado_desde_texto(v: &[char]) -> (r: Option<EstadoMovimiento>)
    ensures
        r == estado_de_palabra(minusculas(v@)),
{
    let p = a_minusculas(v);
    let p = p.as_slice();
    if es_literal(p, "activos") || es_literal(p, "activo") || es_literal(p, "dentro") {
        Some(EstadoMovimiento::Activos)
    } else if es_literal(p, "cerrados") || es_literal(p, "cerrado") || es_literal(p, "salieron")
        || es_literal(p, "salio") || es_literal(p, "salió") {
        Some(EstadoMovimiento::Cerrados)
    } else if es_literal(p, "todos") {
        Some(EstadoMovimiento::Todos)
    } else {
        None
    }
}

/// Qué estados cubren los valores de `estado:`: (activos, cerrados), o
/// `None` si alguno no se reconoce.
pub open spec fn cobertura(vs: Seq<Seq<char>>) -> Option<(bool, bool)>
    decreases vs.len(),
{
    if vs.len() == 0 {
        Some((false, false))
    } else {
        match (cobertura(vs.drop_last()), estado_de_palabra(minusculas(vs.last()))) {
            (Some((a, c)), Some(e)) => Some(
                (
                    a || e == EstadoMovimiento::Activos || e == EstadoMovimiento::Todos,
                    c || e == EstadoMovimiento::Cerrados || e == EstadoMovimiento::Todos,
                ),
            ),
            _ => None,
        }
    }
}

/// El estado que cubre exactamente (activos, cerrados).
pub open spec fn estado_de(activos: bool, cerrados: bool) -> Option<EstadoMovimiento> {
    if activos && cerrados {
        Some(EstadoMovimiento::Todos)
    } else if activos {
        Some(EstadoMovimiento::Activos)
    } else if cerrados {
        Some(EstadoMovimiento::Cerrados)
    } else {
        None
    }
}

/// Lo que una palabra `clave:valor` hace a los filtros del historial, o
/// `None` si no se reconoce o no calza (y queda como texto libre). Claves:
/// `empresa`, `gafete` (un número), `ingreso` y `salida` (un nombre) se
/// pueden negar; `tipo` y `estado` admiten lista y negación; `desde` y
/// `hasta` (una fecha) no se niegan.
pub open spec fn aplicar_historial(
    f: FiltrosVista,
    t: TerminoVista,
    empresas: Seq<Empresa>,
) -> Option<FiltrosVista> {
    match t.clave {
        None => None,
        Some(k) => {
            let clave = minusculas(k);
            let vs = valores(t.valor);
            if clave == "empresa"@ && vs.len() == 1 {
                match empresa_buscada(empresas, vs[0]) {
                    Some(i) => Some(
                        FiltrosVista { empresa_id: Some(igualdad(t.negado, empresas[i].id)), ..f },
                    ),
                    None => None,
                }
            } else if clave == "tipo"@ {
                match tipos_reconocidos(vs) {
                    Some(r) => if r.len() == 0 {
                        None
                    } else {
                        Some(
                            FiltrosVista {
                                tipos: Some(
                                    if t.negado {
                                        complemento(r)
                                    } else {
                                        r
                                    },
                                ),
                                ..f
                            },
                        )
                    },
                    None => None,
                }
            } else if clave == "estado"@ {
                match cobertura(vs) {
                    Some((a, c)) => {
                        let (a2, c2) = if t.negado {
                            (!a, !c)
                        } else {
                            (a, c)
                        };
                        match estado_de(a2, c2) {
                            Some(e) => Some(FiltrosVista { estado: e, ..f }),
                            None => None,
                        }
                    },
                    None => None,
                }
            } else if clave == "gafete"@ && vs.len() == 1 && entero(recorte(vs[0])) is Some {
                Some(FiltrosVista { gafete: vs[0], gafete_negado: t.negado, ..f })
            } else if clave == "desde"@ && !t.negado && vs.len() == 1 {
                Some(FiltrosVista { desde: vs[0], ..f })
            } else if clave == "hasta"@ && !t.negado && vs.len() == 1 {
                Some(FiltrosVista { hasta: vs[0], ..f })
            } else if clave == "ingreso"@ && vs.len() == 1 {
                Some(FiltrosVista { usuario_ingreso: vs[0], usuario_ingreso_negado: t.negado, ..f })
            } else if clave == "salida"@ && vs.len() == 1 {
                Some(FiltrosVista { usuario_salida: vs[0], usuario_salida_negado: t.negado, ..f })
            } else {
                None
            }
        },
    }
}

/// Filtros y palabras no reconocidas tras leer la búsqueda.
pub struct ResolucionHistorial {
    pub filtros: FiltrosVista,
    pub libres: Seq<Seq<char>>,
}

pub open spec fn resolver_historial(
    base: FiltrosVista,
    ps: Seq<Seq<char>>,
    empresas: Seq<Empresa>,
) -> ResolucionHistorial
    decreases ps.len(),
{
    if ps.len() == 0 {
        ResolucionHistorial { filtros: base, libres: Seq::empty() }
    } else {
        let r = resolver_historial(base, ps.drop_last(), empresas);
        match aplicar_historial(r.filtros, termino(ps.last()), empresas) {
            Some(f) => ResolucionHistorial { filtros: f, ..r },
            None => ResolucionHistorial { libres: r.libres.push(ps.last()), ..r },
        }
    }
}

/// Un texto sin ninguna palabra `clave:valor` no filtra nada: todas sus
/// palabras quedan, en orden, como texto libre.
pub proof fn ley_texto_sin_claves(base: FiltrosVista, ps: Seq<Seq<char>>, empresas: Seq<Empresa>)
    requires
        forall|i: int| 0 <= i < ps.len() ==> (#[trigger] termino(ps[i])).clave is None,
    ensures
        resolver_historial(base, ps, empresas).filtros == base,
        resolver_historial(base, ps, empresas).libres == ps,
    decreases ps.len(),
{
    if ps.len() > 0 {
        let q = ps.drop_last();
        assert forall|i: int| 0 <= i < q.len() implies (#[trigger] termino(q[i])).clave is None by {
            assert(q[i] == ps[i]);
        }
        ley_texto_sin_claves(base, q, empresas);
        assert(termino(ps[ps.len() - 1]).clave is None);
        assert(q.push(ps.last()) =~= ps);
    }
}

/// La clave de una palabra `clave:valor`, en minúsculas.
pub open spec fn clave_de(p: Seq<char>) -> Option<Seq<char>> {
    match termino(p).clave {
        Some(k) => Some(minusculas(k)),
        None => None,
    }
}

/// Ninguna palabra de `ps` lleva esa clave.
pub open spec fn sin_clave(ps: Seq<Seq<char>>, clave: Seq<char>) -> bool {
    forall|i: int| 0 <= i < ps.len() ==> #[trigger] clave_de(ps[i]) != Some(clave)
}

proof fn lema_sin_clave_prefijo(ps: Seq<Seq<char>>, clave: Seq<char>)
    requires
        ps.len() > 0,
        sin_clave(ps, clave),
    ensures
        sin_clave(ps.drop_last(), clave),
        clave_de(ps.last()) != Some(clave),
{
    let q = ps.drop_last();
    assert forall|i: int| 0 <= i < q.len() implies #[trigger] clave_de(q[i]) != Some(clave) by {
        assert(q[i] == ps[i]);
        assert(clave_de(ps[i]) != Some(clave));
    }
    assert(clave_de(ps[ps.len() - 1]) != Some(clave));
}

/// La búsqueda sólo cambia los campos de los filtros que sus claves
/// nombran: el texto de nombre o cédula nunca, y cada otro campo queda como
/// en `base` si ninguna palabra lleva su clave (`empresa`, `tipo`,
/// `estado`, `gafete`, `desde`, `hasta`, `ingreso`, `salida`).
pub proof fn ley_campos_no_mencionados(base: FiltrosVista, ps: Seq<Seq<char>>, empresas: Seq<Empresa>)
    ensures
        ({
            let f = resolver_historial(base, ps, empresas).filtros;
            &&& f.nombre_cedula == base.nombre_cedula
            &&& sin_clave(ps, "empresa"@) ==> f.empresa_id == base.empresa_id
            &&& sin_clave(ps, "tipo"@) ==> f.tipos == base.tipos
            &&& sin_clave(ps, "estado"@) ==> f.estado == base.estado
            &&& sin_clave(ps, "gafete"@) ==> f.gafete == base.gafete && f.gafete_negado
                == base.gafete_negado
            &&& sin_clave(ps, "desde"@) ==> f.desde == base.desde
            &&& sin_clave(ps, "hasta"@) ==> f.hasta == base.hasta
            &&& sin_clave(ps, "ingreso"@) ==> f.usuario_ingreso == base.usuario_ingreso
                && f.usuario_ingreso_negado == base.usuario_ingreso_negado
            &&& sin_clave(ps, "salida"@) ==> f.usuario_salida == base.usuario_salida
                && f.usuario_salida_negado == base.usuario_salida_negado
        }),
    decreases ps.len(),
{
    if ps.len() > 0 {
        let q = ps.drop_last();
        ley_campos_no_mencionados(base, q, empresas);
        if sin_clave(ps, "empresa"@) {
            lema_sin_clave_prefijo(ps, "empresa"@);
        }
        if sin_clave(ps, "tipo"@) {
            lema_sin_clave_prefijo(ps, "tipo"@);
        }
        if sin_clave(ps, "estado"@) {
            lema_sin_clave_prefijo(ps, "estado"@);
        }
        if sin_clave(ps, "gafete"@) {
            lema_sin_clave_prefijo(ps, "gafete"@);
        }
        if sin_clave(ps, "desde"@) {
            lema_sin_clave_prefijo(ps, "desde"@);
        }
        if sin_clave(ps, "hasta"@) {
            lema_sin_clave_prefijo(ps, "hasta"@);
        }
        if sin_clave(ps, "ingreso"@) {
            lema_sin_clave_prefijo(ps, "ingreso"@);
        }
        if sin_clave(ps, "salida"@) {
            lema_sin_clave_prefijo(ps, "salida"@);
        }
    }
}

fn cubrir(vs: &Vec<Vec<char>>) -> (r: Option<(bool, bool)>)
    ensures
        r == cobertura(vistas(vs@)),
{
    let mut a = false;
    let mut c = false;
    let mut k: usize = 0;
    while k < vs.len()
        invariant
            k <= vs.len(),
            cobertura(vistas(vs@).take(k as int)) == Some((a, c)),
        decreases vs.len() - k,
    {
        proof {
            assert(vistas(vs@).take(k + 1).drop_last() =~= vistas(vs@).take(k as int));
            assert(vistas(vs@).take(k + 1).last() == vs@[k as int]@);
        }
        match estado_desde_texto(vs[k].as_slice()) {
            Some(e) => {
                a = a || e == EstadoMovimiento::Activos || e == EstadoMovimiento::Todos;
                c = c || e == EstadoMovimiento::Cerrados || e == EstadoMovimiento::Todos;
            },
            None => {
                proof {
                    lema_cobertura_prefijo(vistas(vs@), k + 1);
                }
                return None;
            },
        }
        k += 1;
    }
    proof {
        assert(vistas(vs@).take(vs@.len() as int) =~= vistas(vs@));
    }
    Some((a, c))
}

proof fn lema_cobertura_prefijo(vs: Seq<Seq<char>>, k: int)
    requires
        0 <= k <= vs.len(),
        cobertura(vs.take(k)) is None,
    ensures
        cobertura(vs) is None,
    decreases vs.len() - k,
{
    if k < vs.len() {
        assert(vs.take(k + 1).drop_last() =~= vs.take(k));
        lema_cobertura_prefijo(vs, k + 1);
    } else {
        assert(vs.take(k) =~= vs);
    }
}

fn igualdad_de(negado: bool, v: i64) -> (r: Igualdad<i64>)
    ensures
        r == igualdad(negado, v),
{
    if negado {
        Igualdad::Excluye(v)
    } else {
        Igualdad::Incluye(v)
    }
}

/// Aplica una palabra a los filtros; `false` (y los filtros intactos) si no
/// se reconoce.
pub fn aplicar_clave(
    f: &mut FiltrosHistorial,
    t: &crate::consulta::Termino,
    empresas: &[Empresa],
) -> (r: bool)
    ensures
        match aplicar_historial(old(f)@, t@, empresas@) {
            Some(g) => r && final(f)@ == g,
            None => !r && final(f)@ == old(f)@,
        },
{
    let k = match &t.clave {
        Some(k) => k,
        None => {
            return false;
        },
    };
    let clave = a_minusculas(k.as_slice());
    let clave = clave.as_slice();
    let vs = separar_valores(t.valor.as_slice());
    let ghost vsv = vistas(vs@);
    if es_literal(clave, "empresa") && vs.len() == 1 {
        assert(vsv[0] == vs@[0]@);
        match buscar_empresa(empresas, vs[0].as_slice()) {
            Some(i) => {
                f.empresa_id = Some(igualdad_de(t.negado, empresas[i].id));
                true
            },
            None => false,
        }
    } else if es_literal(clave, "tipo") {
        match reconocer_tipos(&vs) {
            Some(r) => {
                if r.len() == 0 {
                    false
                } else if t.negado {
                    f.tipos = Some(tipos_excepto(r.as_slice()));
                    true
                } else {
                    f.tipos = Some(r);
                    true
                }
            },
            None => false,
        }
    } else if es_literal(clave, "estado") {
        match cubrir(&vs) {
            Some((a, c)) => {
                let (a2, c2) = if t.negado {
                    (!a, !c)
                } else {
                    (a, c)
                };
                if a2 && c2 {
                    f.estado = EstadoMovimiento::Todos;
                    true
                } else if a2 {
                    f.estado = EstadoMovimiento::Activos;
                    true
                } else if c2 {
                    f.estado = EstadoMovimiento::Cerrados;
                    true
                } else {
                    false
                }
            },
            None => false,
        }
    } else if es_literal(clave, "gafete") && vs.len() == 1 && parsear_entero(
        recortar(vs[0].as_slice()).as_slice(),
    ).is_some() {
        assert(vsv[0] == vs@[0]@);
        f.gafete = texto_de(vs[0].as_slice());
        f.gafete_negado = t.negado;
        true
    } else if es_literal(clave, "desde") && !t.negado && vs.len() == 1 {
        assert(vsv[0] == vs@[0]@);
        f.desde = texto_de(vs[0].as_slice());
        true
    } else if es_literal(clave, "hasta") && !t.negado && vs.len() == 1 {
        assert(vsv[0] == vs@[0]@);
        f.hasta = texto_de(vs[0].as_slice());
        true
    } else if es_literal(clave, "ingreso") && vs.len() == 1 {
        assert(vsv[0] == vs@[0]@);
        f.usuario_ingreso = texto_de(vs[0].as_slice());
        f.usuario_ingreso_negado = t.negado;
        true
    } else if es_literal(clave, "salida") && vs.len() == 1 {
        assert(vsv[0] == vs@[0]@);
        f.usuario_salida = texto_de(vs[0].as_slice());
        f.usuario_salida_negado = t.negado;
        true
    } else {
        false
    }
}

/// Interpreta la búsqueda libre sobre los filtros ya aplicados (`base`):
/// devuelve los filtros resultantes y el texto libre que queda (para
/// nombre o cédula). No valida fechas ni números: eso lo hace `construir`.
pub fn parsear_consulta(base: &FiltrosHistorial, texto: &str, empresas: &[Empresa]) -> (r: (
    FiltrosHistorial,
    String,
))
    ensures
        r.0@ == resolver_historial(base@, palabras(texto@), empresas@).filtros,
        r.1@ == unidas(resolver_historial(base@, palabras(texto@), empresas@).libres),
{
    let ps = separar_palabras(caracteres(texto).as_slice());
    let ghost psv = vistas(ps@);
    let mut filtros = base.clone_filtros();
    let mut libres: Vec<char> = Vec::new();
    let mut cuantas: usize = 0;
    let mut k: usize = 0;
    while k < ps.len()
        invariant
            k <= ps.len(),
            psv == vistas(ps@),
            filtros@ == resolver_historial(base@, psv.take(k as int), empresas@).filtros,
            libres@ == unidas(resolver_historial(base@, psv.take(k as int), empresas@).libres),
            cuantas == resolver_historial(base@, psv.take(k as int), empresas@).libres.len(),
            cuantas <= k,
        decreases ps.len() - k,
    {
        let ghost previas = resolver_historial(base@, psv.take(k as int), empresas@).libres;
        proof {
            assert(psv.take(k + 1).drop_last() =~= psv.take(k as int));
            assert(psv.take(k + 1).last() == ps@[k as int]@);
        }
        let t = interpretar(ps[k].as_slice());
        if !aplicar_clave(&mut filtros, &t, empresas) {
            agregar_libre(&mut libres, cuantas, ps[k].as_slice(), Ghost(previas));
            cuantas += 1;
        }
        k += 1;
    }
    proof {
        assert(psv.take(psv.len() as int) =~= psv);
    }
    (filtros, texto_de(libres.as_slice()))
}

impl FiltrosHistorial {
    /// Copia exacta de los filtros.
    pub fn clone_filtros(&self) -> (r: FiltrosHistorial)
        ensures
            r@ == self@,
    {
        FiltrosHistorial {
            desde: self.desde.clone(),
            hasta: self.hasta.clone(),
            nombre_cedula: self.nombre_cedula.clone(),
            empresa_id: self.empresa_id,
            tipos: match &self.tipos {
                Some(t) => Some(copiar_tipos(t.as_slice())),
                None => None,
            },
            gafete: self.gafete.clone(),
            gafete_negado: self.gafete_negado,
            estado: self.estado,
            usuario_ingreso: self.usuario_ingreso.clone(),
            usuario_ingreso_negado: self.usuario_ingreso_negado,
            usuario_salida: self.usuario_salida.clone(),
            usuario_salida_negado: self.usuario_salida_negado,
        }
    }
}

/// Copia de una lista de tipos.
pub fn copiar_tipos(t: &[TipoIngreso]) -> (r: Vec<TipoIngreso>)
    ensures
        r@ == t@,
{
    let mut r: Vec<TipoIngreso> = Vec::new();
    let mut k: usize = 0;
    while k < t.len()
        invariant
            k <= t.len(),
            r@ == t@.take(k as int),
        decreases t.len() - k,
    {
        r.push(t[k]);
        k += 1;
    }
    assert(t@.take(t@.len() as int) =~= t@);
    r
}

/// Consulta del historial lista para la base de datos.
#[derive(Clone, Debug, PartialEq, Eq)]
pub struct FiltroHistorial {
    /// Inicio (incluido), segundos desde 1970 UTC.
    pub desde: i64,
    /// Fin (excluido), segundos desde 1970 UTC.
    pub hasta: i64,
    pub texto_persona: Option<String>,
    pub empresa_id: Option<Igualdad<i64>>,
    pub tipos_incluidos: Option<Vec<TipoIngreso>>,
    pub gafete_numero: Option<Igualdad<i64>>,
    pub estado: EstadoMovimiento,
    pub usuario_ingreso: Option<Igualdad<String>>,
    pub usuario_salida: Option<Igualdad<String>>,
    pub limite: usize,
    pub offset: usize,
    pub corte_id: Option<i64>,
}

/// La consulta como valores.
pub struct ConsultaVista {
    pub desde: int,
    pub hasta: int,
    pub texto_persona: Option<Seq<char>>,
    pub empresa_id: Option<Igualdad<i64>>,
    pub tipos: Option<Seq<TipoIngreso>>,
    pub gafete: Option<Igualdad<i64>>,
    pub estado: EstadoMovimiento,
    pub usuario_ingreso: Option<Igualdad<Seq<char>>>,
    pub usuario_salida: Option<Igualdad<Seq<char>>>,
    pub limite: usize,
    pub offset: usize,
    pub corte_id: Option<i64>,
}

pub open spec fn vista_texto(t: Option<String>) -> Option<Seq<char>> {
    match t {
        Some(s) => Some(s@),
        None => None,
    }
}

pub open spec fn vista_igualdad_texto(t: Option<Igualdad<String>>) -> Option<Igualdad<Seq<char>>> {
    match t {
        Some(Igualdad::Incluye(s)) => Some(Igualdad::Incluye(s@)),
        Some(Igualdad::Excluye(s)) => Some(Igualdad::Excluye(s@)),
        None => None,
    }
}

impl View for FiltroHistorial {
    type V = ConsultaVista;

    open spec fn view(&self) -> ConsultaVista {
        ConsultaVista {
            desde: self.desde as int,
            hasta: self.hasta as int,
            texto_persona: vista_texto(self.texto_persona),
            empresa_id: self.empresa_id,
            tipos: vista_tipos(self.tipos_incluidos),
            gafete: self.gafete_numero,
            estado: self.estado,
            usuario_ingreso: vista_igualdad_texto(self.usuario_ingreso),
            usuario_salida: vista_igualdad_texto(self.usuario_salida),
            limite: self.limite,
            offset: self.offset,
            corte_id: self.corte_id,
        }
    }
}

/// Un nombre de usuario (recortado) como condición, si no está vacío.
pub open spec fn condicion_usuario(u: Seq<char>, negado: bool) -> Option<Igualdad<Seq<char>>> {
    if recorte(u).len() == 0 {
        None
    } else {
        Some(igualdad(negado, recorte(u)))
    }
}

/// La consulta que corresponde a los filtros y a la búsqueda libre, o el
/// mensaje de por qué no se puede: fechas `DD/MM/YYYY` (el `hasta` visual
/// incluye todo ese día, así que la consulta termina al inicio del día
/// siguiente), gafete numérico; la búsqueda libre (si no está vacía)
/// reemplaza al nombre/cédula del panel.
pub open spec fn construida(
    f: FiltrosVista,
    busqueda: Seq<char>,
    limite: usize,
    offset: usize,
    corte_id: Option<i64>,
) -> Result<ConsultaVista, Seq<char>> {
    match dia_leido(f.desde) {
        None => Err("Fecha Desde inválida. Use DD/MM/YYYY"@),
        Some(d) => match dia_leido(f.hasta) {
            None => Err("Fecha Hasta inválida. Use DD/MM/YYYY"@),
            Some(v) => {
                let desde = inicio_dia(d as int);
                let hasta = inicio_dia(v + 1);
                let g = recorte(f.gafete);
                let t = if recorte(busqueda).len() == 0 {
                    recorte(f.nombre_cedula)
                } else {
                    recorte(busqueda)
                };
                if desde >= hasta {
                    Err("El rango de fechas no es válido"@)
                } else if g.len() > 0 && entero(g) is None {
                    Err("Ingrese un número de gafete válido"@)
                } else {
                    Ok(
                        ConsultaVista {
                            desde,
                            hasta,
                            texto_persona: if t.len() == 0 {
                                None
                            } else {
                                Some(t)
                            },
                            empresa_id: f.empresa_id,
                            tipos: f.tipos,
                            gafete: if g.len() == 0 {
                                None
                            } else {
                                Some(igualdad(f.gafete_negado, entero(g)->0))
                            },
                            estado: f.estado,
                            usuario_ingreso: condicion_usuario(
                                f.usuario_ingreso,
                                f.usuario_ingreso_negado,
                            ),
                            usuario_salida: condicion_usuario(
                                f.usuario_salida,
                                f.usuario_salida_negado,
                            ),
                            limite,
                            offset,
                            corte_id,
                        },
                    )
                }
            },
        },
    }
}

fn condicion(u: &String, negado: bool) -> (r: Option<Igualdad<String>>)
    ensures
        vista_igualdad_texto(r) == condicion_usuario(u@, negado),
{
    let t = recortar(caracteres(u.as_str()).as_slice());
    if t.len() == 0 {
        None
    } else if negado {
        Some(Igualdad::Excluye(texto_de(t.as_slice())))
    } else {
        Some(Igualdad::Incluye(texto_de(t.as_slice())))
    }
}

fn lit(s: &str) -> (r: String)
    ensures
        r@ == s@,
{
    texto_de(caracteres(s).as_slice())
}

/// Valida los filtros y arma la consulta (ver `construida`).
pub fn construir(
    f: &FiltrosHistorial,
    busqueda: &str,
    limit: usize,
    offset: usize,
    corte_id: Option<i64>,
) -> (r: Result<FiltroHistorial, String>)
    ensures
        recorte(busqueda@).len() > 0 ==> (r matches Ok(q) ==> q.texto_persona matches Some(t)
            && t@ == recorte(busqueda@)),
        match (r, construida(f@, busqueda@, limit, offset, corte_id)) {
            (Ok(q), Ok(c)) => q@ == c,
            (Err(e), Err(m)) => e@ == m,
            _ => false,
        },
{
    let d = match leer_fecha(f.desde.as_str()) {
        Some(d) => d,
        None => {
            return Err(lit("Fecha Desde inválida. Use DD/MM/YYYY"));
        },
    };
    let v = match leer_fecha(f.hasta.as_str()) {
        Some(v) => v,
        None => {
            return Err(lit("Fecha Hasta inválida. Use DD/MM/YYYY"));
        },
    };
    let desde = inicio_dia_costa_rica_utc(d);
    let hasta = inicio_dia_costa_rica_utc(v + 1);
    if desde >= hasta {
        return Err(lit("El rango de fechas no es válido"));
    }
    let g = recortar(caracteres(f.gafete.as_str()).as_slice());
    let gafete = if g.len() == 0 {
        None
    } else {
        match parsear_entero(g.as_slice()) {
            Some(n) => Some(igualdad_de(f.gafete_negado, n)),
            None => {
                return Err(lit("Ingrese un número de gafete válido"));
            },
        }
    };
    let tb = recortar(caracteres(busqueda).as_slice());
    let t = if tb.len() == 0 {
        recortar(caracteres(f.nombre_cedula.as_str()).as_slice())
    } else {
        tb
    };
    Ok(
        FiltroHistorial {
            desde,
            hasta,
            texto_persona: if t.len() == 0 {
                None
            } else {
                Some(texto_de(t.as_slice()))
            },
            empresa_id: f.empresa_id,
            tipos_incluidos: match &f.tipos {
                Some(t) => Some(copiar_tipos(t.as_slice())),
                None => None,
            },
            gafete_numero: gafete,
            estado: f.estado,
            usuario_ingreso: condicion(&f.usuario_ingreso, f.usuario_ingreso_negado),
            usuario_salida: condicion(&f.usuario_salida, f.usuario_salida_negado),
            limite: limit,
            offset,
            corte_id,
        },
    )
}

/// Filas por página.
pub const LIMIT: usize = 50;

/// Espera (ms) tras la última tecla antes de buscar.
pub const DURACION_DEBOUNCE_MS: u64 = 120;

/// Columnas de la vista clásica (y de la exportación).
#[derive(Clone, Copy, Debug, PartialEq, Eq, Structural)]
pub enum ColumnaHistorial {
    Fecha,
    Cedula,
    Nombre,
    Empresa,
    Tipo,
    Entrada,
    Salida,
    Gafete,
    Medio,
    Ingreso,
    Egreso,
}

pub open spec fn todas_las_columnas() -> Seq<ColumnaHistorial> {
    seq![
        ColumnaHistorial::Fecha,
        ColumnaHistorial::Cedula,
        ColumnaHistorial::Nombre,
        ColumnaHistorial::Empresa,
        ColumnaHistorial::Tipo,
        ColumnaHistorial::Entrada,
        ColumnaHistorial::Salida,
        ColumnaHistorial::Gafete,
        ColumnaHistorial::Medio,
        ColumnaHistorial::Ingreso,
        ColumnaHistorial::Egreso,
    ]
}

pub open spec fn clave_columna(c: ColumnaHistorial) -> Seq<char> {
    match c {
        ColumnaHistorial::Fecha => "fecha"@,
        ColumnaHistorial::Cedula => "cedula"@,
        ColumnaHistorial::Nombre => "nombre"@,
        ColumnaHistorial::Empresa => "empresa"@,
        ColumnaHistorial::Tipo => "tipo"@,
        ColumnaHistorial::Entrada => "entrada"@,
        ColumnaHistorial::Salida => "salida"@,
        ColumnaHistorial::Gafete => "gafete"@,
        ColumnaHistorial::Medio => "medio"@,
        ColumnaHistorial::Ingreso => "ingreso"@,
        ColumnaHistorial::Egreso => "egreso"@,
    }
}

impl ColumnaHistorial {
    pub fn todas() -> (r: Vec<ColumnaHistorial>)
        ensures
            r@ == todas_las_columnas(),
    {
        let mut r: Vec<ColumnaHistorial> = Vec::new();
        r.push(ColumnaHistorial::Fecha);
        r.push(ColumnaHistorial::Cedula);
        r.push(ColumnaHistorial::Nombre);
        r.push(ColumnaHistorial::Empresa);
        r.push(ColumnaHistorial::Tipo);
        r.push(ColumnaHistorial::Entrada);
        r.push(ColumnaHistorial::Salida);
        r.push(ColumnaHistorial::Gafete);
        r.push(ColumnaHistorial::Medio);
        r.push(ColumnaHistorial::Ingreso);
        r.push(ColumnaHistorial::Egreso);
        assert(r@ =~= todas_las_columnas());
        r
    }

    /// Nombre con que se guarda la preferencia de columnas.
    pub fn clave(self) -> (r: &'static str)
        ensures
            r@ == clave_columna(self),
    {
        match self {
            ColumnaHistorial::Fecha => "fecha",
            ColumnaHistorial::Cedula => "cedula",
            ColumnaHistorial::Nombre => "nombre",
            ColumnaHistorial::Empresa => "empresa",
            ColumnaHistorial::Tipo => "tipo",
            ColumnaHistorial::Entrada => "entrada",
            ColumnaHistorial::Salida => "salida",
            ColumnaHistorial::Gafete => "gafete",
            ColumnaHistorial::Medio => "medio",
            ColumnaHistorial::Ingreso => "ingreso",
            ColumnaHistorial::Egreso => "egreso",
        }
    }
}

/// Dos formas de leer el mismo conjunto filtrado: la línea de tiempo
/// agrupada (con panel de detalle) y la tabla clásica.
#[derive(Clone, Copy, Debug, PartialEq, Eq, Structural)]
pub enum ViewMode {
    Timeline,
    Classic,
}

impl ViewMode {
    pub fn next(self) -> (r: ViewMode)
        ensures
            r != self,
    {
        match self {
            ViewMode::Timeline => ViewMode::Classic,
            ViewMode::Classic => ViewMode::Timeline,
        }
    }

    pub fn label(self) -> (r: &'static str)
        ensures
            r@ == (match self {
                ViewMode::Timeline => "LÍNEA DE TIEMPO"@,
                ViewMode::Classic => "CLÁSICA"@,
            }),
    {
        match self {
            ViewMode::Timeline => "LÍNEA DE TIEMPO",
            ViewMode::Classic => "CLÁSICA",
        }
    }
}

/// Para qué se eligen columnas: la vista clásica o la exportación.
#[derive(Clone, Copy, Debug, PartialEq, Eq, Structural)]
pub enum PropositoColumnas {
    Vista,
    Exportacion,
}

#[derive(Clone, Debug, PartialEq, Eq)]
pub enum ModoHistorial {
    Normal,
    Columnas { seleccion: usize, proposito: PropositoColumnas },
    RutaExportacion { destino: TextInput },
}

/// Lo que la pantalla pide a la aplicación.
#[derive(Clone, Debug, PartialEq, Eq)]
pub enum AccionHistorial {
    Ninguna,
    Volver,
    Consultar(FiltroHistorial),
    Exportar { filtro: FiltroHistorial, columnas: Vec<ColumnaHistorial>, destino: String },
}

/// Estado de la pantalla Historial.
#[derive(Debug)]
pub struct HistorialState {
    pub registros: Vec<MovimientoIngresoResumen>,
    pub total: usize,
    pub seleccion: Option<usize>,
    pub modo: ModoHistorial,
    pub vista: ViewMode,
    pub columnas_clasica: Vec<(ColumnaHistorial, bool)>,
    pub filtro_aplicado: FiltrosHistorial,
    pub busqueda: TextInput,
    pub mensaje: Option<String>,
    pub empresas: Vec<Empresa>,
    pub offset: usize,
    pub corte_id: Option<i64>,
    pub ayuda_expandida: bool,
    pub busqueda_debounce: Debounce,
    /// `true` mientras se espera el resultado de exportar: bloquea otra
    /// exportación.
    pub exportando: bool,
    /// Ruta que se propone al exportar (la calcula la aplicación).
    pub ruta_exportacion_sugerida: String,
}

/// La consulta (o el error) que corresponde al estado: filtros aplicados
/// más la búsqueda libre, en la página actual.
pub open spec fn consulta_de(s: HistorialState) -> Result<ConsultaVista, Seq<char>> {
    let r = resolver_historial(s.filtro_aplicado@, palabras(s.busqueda@.valor), s.empresas@);
    construida(r.filtros, unidas(r.libres), LIMIT, s.offset, s.corte_id)
}

/// La acción es la consulta que corresponde a `c`.
pub open spec fn es_consulta(a: AccionHistorial, c: ConsultaVista) -> bool {
    a matches AccionHistorial::Consultar(f) && f@ == c
}

/// Emitir: la consulta si se puede; si no, ninguna acción y el error como
/// mensaje.
pub open spec fn emitida(viejo: HistorialState, nuevo: HistorialState, a: AccionHistorial) -> bool {
    resultado_emitido(consulta_de(viejo), viejo.mensaje, nuevo.mensaje, a)
}

/// Lo que deja pedir la consulta `c`: la consulta como acción (el mensaje
/// no cambia), o ninguna acción y el error como mensaje.
pub open spec fn resultado_emitido(
    c: Result<ConsultaVista, Seq<char>>,
    antes: Option<String>,
    despues: Option<String>,
    a: AccionHistorial,
) -> bool {
    match c {
        Ok(q) => es_consulta(a, q) && despues == antes,
        Err(e) => a == AccionHistorial::Ninguna && (despues matches Some(m) && m@ == e),
    }
}

/// Cuántas columnas están visibles.
pub open spec fn visibles(c: Seq<(ColumnaHistorial, bool)>) -> nat
    decreases c.len(),
{
    if c.len() == 0 {
        0
    } else {
        visibles(c.drop_last()) + if c.last().1 {
            1nat
        } else {
            0
        }
    }
}

/// Las columnas visibles, en orden.
pub open spec fn columnas_visibles(c: Seq<(ColumnaHistorial, bool)>) -> Seq<ColumnaHistorial>
    decreases c.len(),
{
    if c.len() == 0 {
        Seq::empty()
    } else if c.last().1 {
        columnas_visibles(c.drop_last()).push(c.last().0)
    } else {
        columnas_visibles(c.drop_last())
    }
}

/// Página actual y total de páginas (0/0 sin resultados).
pub open spec fn pagina_de(offset: usize, total: usize) -> (usize, usize) {
    if total == 0 {
        (0, 0)
    } else {
        ((offset / LIMIT + 1) as usize, ((total as int + LIMIT as int - 1) / LIMIT as int) as usize)
    }
}

impl HistorialState {
    /// La selección apunta a un registro y el editor de columnas a una
    /// columna existente.
    pub open spec fn bien_formado(&self) -> bool {
        &&& self.seleccion matches Some(i) ==> i < self.registros.len()
        &&& self.columnas_clasica.len() == 11
        &&& self.modo matches ModoHistorial::Columnas { seleccion, .. } ==> seleccion < 11
    }

    /// Lo que no cambia cuando sólo cambia la selección, el modo o el
    /// mensaje.
    pub open spec fn mismos_datos(&self, otro: HistorialState) -> bool {
        &&& self.registros == otro.registros
        &&& self.total == otro.total
        &&& self.empresas == otro.empresas
        &&& self.filtro_aplicado == otro.filtro_aplicado
    }

    /// Preferencia de vista (`timeline` o `classic`).
    pub fn vista_preferencia(&self) -> (r: &'static str)
        ensures
            r@ == (match self.vista {
                ViewMode::Timeline => "timeline"@,
                ViewMode::Classic => "classic"@,
            }),
    {
        match self.vista {
            ViewMode::Timeline => "timeline",
            ViewMode::Classic => "classic",
        }
    }

    /// Aplica una preferencia de vista guardada; un valor desconocido no
    /// cambia nada.
    pub fn aplicar_vista_preferencia(&mut self, valor: &str)
        requires
            old(self).bien_formado(),
        ensures
            final(self).bien_formado(),
            final(self).vista == (if valor@ == "timeline"@ {
                ViewMode::Timeline
            } else if valor@ == "classic"@ {
                ViewMode::Classic
            } else {
                old(self).vista
            }),
            final(self).mismos_datos(*old(self)),
            final(self).modo == old(self).modo,
            final(self).seleccion == old(self).seleccion,
    {
        let v = caracteres(valor);
        if es_literal(v.as_slice(), "timeline") {
            self.vista = ViewMode::Timeline;
        } else if es_literal(v.as_slice(), "classic") {
            self.vista = ViewMode::Classic;
        }
    }

    /// Claves de las columnas visibles separadas por comas.
    pub fn columnas_preferencia(&self) -> (r: String)
        ensures
            r@ == unidas_con(columnas_visibles(self.columnas_clasica@).map_values(
                |c: ColumnaHistorial| clave_columna(c),
            ), ','),
    {
        let cols = visibles_de(self.columnas_clasica.as_slice());
        let ghost nombres = cols@.map_values(|c: ColumnaHistorial| clave_columna(c));
        let mut acc: Vec<char> = Vec::new();
        let mut k: usize = 0;
        while k < cols.len()
            invariant
                k <= cols.len(),
                nombres == cols@.map_values(|c: ColumnaHistorial| clave_columna(c)),
                acc@ == unidas_con(nombres.take(k as int), ','),
            decreases cols.len() - k,
        {
            let n = caracteres(cols[k].clave());
            proof {
                assert(nombres.take(k as int).push(n@) =~= nombres.take(k + 1));
            }
            agregar_separado(&mut acc, k, n.as_slice(), ',', Ghost(nombres.take(k as int)));
            k += 1;
        }
        proof {
            assert(nombres.take(cols@.len() as int) =~= nombres);
        }
        texto_de(acc.as_slice())
    }

    /// Aplica una preferencia guardada: visibles quedan exactamente las
    /// columnas nombradas, salvo que no nombre ninguna.
    pub fn aplicar_columnas_preferencia(&mut self, valor: &str)
        requires
            old(self).bien_formado(),
        ensures
            final(self).bien_formado(),
            final(self).columnas_clasica@ == preferencia_aplicada(
                old(self).columnas_clasica@,
                valores(valor@),
            ),
            final(self).mismos_datos(*old(self)),
            final(self).modo == old(self).modo,
            final(self).seleccion == old(self).seleccion,
    {
        let claves = separar_valores(caracteres(valor).as_slice());
        let ghost cv = vistas(claves@);
        let mut alguna = false;
        let mut k: usize = 0;
        while k < self.columnas_clasica.len()
            invariant
                k <= self.columnas_clasica.len(),
                cv == vistas(claves@),
                alguna == exists|i: int|
                    0 <= i < k && #[trigger] cv.contains(clave_columna(self.columnas_clasica@[i].0)),
            decreases self.columnas_clasica.len() - k,
        {
            let clave = caracteres(self.columnas_clasica[k].0.clave());
            if esta_en(&claves, clave.as_slice()) {
                alguna = true;
            }
            k += 1;
        }
        if !alguna {
            return;
        }
        let ghost viejas = self.columnas_clasica@;
        let mut nuevas: Vec<(ColumnaHistorial, bool)> = Vec::new();
        let mut k: usize = 0;
        while k < self.columnas_clasica.len()
            invariant
                k <= self.columnas_clasica.len(),
                viejas == self.columnas_clasica@,
                cv == vistas(claves@),
                nuevas@.len() == k,
                forall|i: int|
                    0 <= i < k ==> #[trigger] nuevas@[i] == (viejas[i].0, cv.contains(
                        clave_columna(viejas[i].0),
                    )),
            decreases self.columnas_clasica.len() - k,
        {
            let c = self.columnas_clasica[k].0;
            let clave = caracteres(c.clave());
            let visible = esta_en(&claves, clave.as_slice());
            nuevas.push((c, visible));
            k += 1;
        }
        self.columnas_clasica = nuevas;
        assert(self.columnas_clasica@ =~= preferencia_aplicada(viejas, cv));
    }

    /// Recibe el catálogo de empresas; un error queda como mensaje.
    pub fn completar_empresas(&mut self, r: Result<Vec<Empresa>, String>)
        requires
            old(self).bien_formado(),
        ensures
            final(self).bien_formado(),
            match r {
                Ok(v) => final(self).empresas@ == v@ && final(self).mensaje == old(self).mensaje,
                Err(e) => final(self).empresas == old(self).empresas && final(self).mensaje
                    == Some(e),
            },
            final(self).registros == old(self).registros,
            final(self).filtro_aplicado == old(self).filtro_aplicado,
            final(self).busqueda == old(self).busqueda,
            final(self).offset == old(self).offset,
            final(self).corte_id == old(self).corte_id,
    {
        match r {
            Ok(v) => self.empresas = v,
            Err(e) => self.mensaje = Some(e),
        }
    }

    /// Vuelve a la primera página con una fotografía nueva.
    pub fn reiniciar_paginacion(&mut self)
        requires
            old(self).bien_formado(),
        ensures
            final(self).bien_formado(),
            final(self).offset == 0,
            final(self).corte_id is None,
            final(self).mismos_datos(*old(self)),
            final(self).busqueda == old(self).busqueda,
            final(self).mensaje == old(self).mensaje,
            final(self).modo == old(self).modo,
            final(self).seleccion == old(self).seleccion,
            final(self).vista == old(self).vista,
            final(self).columnas_clasica == old(self).columnas_clasica,
            final(self).exportando == old(self).exportando,
            final(self).ayuda_expandida == old(self).ayuda_expandida,
            final(self).busqueda_debounce == old(self).busqueda_debounce,
            final(self).ruta_exportacion_sugerida == old(self).ruta_exportacion_sugerida,
    {
        self.offset = 0;
        self.corte_id = None;
    }

    /// La consulta de la página actual, o por qué no se puede armar.
    pub fn consulta(&self) -> (r: Result<FiltroHistorial, String>)
        ensures
            match (r, consulta_de(*self)) {
                (Ok(q), Ok(c)) => q@ == c,
                (Err(e), Err(m)) => e@ == m,
                _ => false,
            },
    {
        let texto = self.busqueda.texto();
        let (filtros, libre) = parsear_consulta(&self.filtro_aplicado, texto.as_str(), self.empresas.as_slice());
        construir(&filtros, libre.as_str(), LIMIT, self.offset, self.corte_id)
    }

    /// Pide la consulta; si no se puede armar, deja el error como mensaje.
    pub fn emitir(&mut self) -> (a: AccionHistorial)
        requires
            old(self).bien_formado(),
        ensures
            final(self).bien_formado(),
            emitida(*old(self), *final(self), a),
            final(self).mismos_datos(*old(self)),
            final(self).busqueda == old(self).busqueda,
            final(self).offset == old(self).offset,
            final(self).corte_id == old(self).corte_id,
            final(self).modo == old(self).modo,
            final(self).seleccion == old(self).seleccion,
            final(self).vista == old(self).vista,
            final(self).columnas_clasica == old(self).columnas_clasica,
            final(self).exportando == old(self).exportando,
            final(self).busqueda_debounce == old(self).busqueda_debounce,
            final(self).ayuda_expandida == old(self).ayuda_expandida,
            final(self).ruta_exportacion_sugerida == old(self).ruta_exportacion_sugerida,
    {
        match self.consulta() {
            Ok(f) => AccionHistorial::Consultar(f),
            Err(e) => {
                self.mensaje = Some(e);
                AccionHistorial::Ninguna
            },
        }
    }

    /// Carga desde la primera página con una fotografía nueva.
    pub fn solicitud_carga(&mut self) -> (a: AccionHistorial)
        requires
            old(self).bien_formado(),
        ensures
            final(self).bien_formado(),
            final(self).offset == 0,
            final(self).corte_id is None,
            match consulta_de(*final(self)) {
                Ok(c) => es_consulta(a, c),
                Err(_) => a == AccionHistorial::Ninguna,
            },
            final(self).mismos_datos(*old(self)),
            final(self).busqueda == old(self).busqueda,
            final(self).mensaje == old(self).mensaje,
    {
        self.reiniciar_paginacion();
        match self.consulta() {
            Ok(f) => AccionHistorial::Consultar(f),
            Err(_) => AccionHistorial::Ninguna,
        }
    }

    /// Repite la consulta actual (mismo filtro, página y corte) sin
    /// reiniciar la paginación.
    pub fn refrescar(&mut self) -> (a: AccionHistorial)
        requires
            old(self).bien_formado(),
        ensures
            final(self).bien_formado(),
            emitida(*old(self), *final(self), a),
            final(self).offset == old(self).offset,
            final(self).corte_id == old(self).corte_id,
            final(self).mismos_datos(*old(self)),
    {
        self.emitir()
    }

    /// Total real de coincidencias.
    pub fn total(&self) -> (r: usize)
        ensures
            r == self.total,
    {
        self.total
    }

    /// Recibe una página: fija el corte, reemplaza los registros y
    /// selecciona la primera fila (si hay); un error vacía la tabla.
    pub fn completar(&mut self, r: Result<PaginaHistorial, String>)
        requires
            old(self).bien_formado(),
        ensures
            final(self).bien_formado(),
            match r {
                Ok(p) => {
                    &&& final(self).corte_id == Some(p.corte_id)
                    &&& final(self).registros@ == p.items@
                    &&& final(self).total == p.total
                    &&& final(self).seleccion == (if p.items@.len() > 0 {
                        Some(0usize)
                    } else {
                        None
                    })
                    &&& final(self).mensaje == old(self).mensaje
                },
                Err(e) => {
                    &&& final(self).registros@.len() == 0
                    &&& final(self).total == 0
                    &&& final(self).seleccion is None
                    &&& final(self).corte_id is None
                    &&& final(self).mensaje == Some(e)
                },
            },
            final(self).offset == old(self).offset,
            final(self).busqueda == old(self).busqueda,
            final(self).filtro_aplicado == old(self).filtro_aplicado,
            final(self).modo == old(self).modo,
    {
        match r {
            Ok(p) => {
                self.corte_id = Some(p.corte_id);
                self.registros = p.items;
                self.total = p.total;
                self.seleccion = if self.registros.len() > 0 {
                    Some(0)
                } else {
                    None
                };
            },
            Err(e) => {
                self.registros = Vec::new();
                self.total = 0;
                self.seleccion = None;
                self.corte_id = None;
                self.mensaje = Some(e);
            },
        }
    }

    /// Marca que hay una exportación en curso.
    pub fn marcar_exportando(&mut self)
        ensures
            *final(self) == (HistorialState { exportando: true, ..*old(self) }),
    {
        self.exportando = true;
    }

    pub fn exportando(&self) -> (r: bool)
        ensures
            r == self.exportando,
    {
        self.exportando
    }

    /// Recibe el resultado de exportar: libera la exportación y deja el
    /// mensaje de éxito (con cuántas filas y dónde) o de error.
    pub fn completar_exportacion(&mut self, resultado: Result<usize, String>, destino: &str)
        requires
            old(self).bien_formado(),
        ensures
            final(self).bien_formado(),
            !final(self).exportando,
            final(self).mensaje matches Some(m) && m@ == (match resultado {
                Ok(filas) => "✓ Exportados "@ + decimal(filas as nat) + " movimientos a "@
                    + destino@,
                Err(e) => "✕ "@ + e@,
            }),
            final(self).registros == old(self).registros,
            final(self).seleccion == old(self).seleccion,
            final(self).modo == old(self).modo,
    {
        self.exportando = false;
        let m = match resultado {
            Ok(filas) => {
                let a = unir(caracteres("✓ Exportados ").as_slice(), escribir_decimal(filas as u64).as_slice());
                let b = unir(a.as_slice(), caracteres(" movimientos a ").as_slice());
                unir(b.as_slice(), caracteres(destino).as_slice())
            },
            Err(e) => unir(caracteres("✕ ").as_slice(), caracteres(e.as_str()).as_slice()),
        };
        self.mensaje = Some(texto_de(m.as_slice()));
    }

    /// Sube (`d < 0`) o baja la selección sin salirse de la página.
    pub fn mover(&mut self, d: isize)
        requires
            old(self).bien_formado(),
        ensures
            final(self).bien_formado(),
            final(self).seleccion == movida(old(self).seleccion, d as int, old(self).registros@.len()),
            final(self).mismos_datos(*old(self)),
            final(self).busqueda == old(self).busqueda,
            final(self).mensaje == old(self).mensaje,
            final(self).modo == old(self).modo,
            final(self).offset == old(self).offset,
            final(self).corte_id == old(self).corte_id,
            final(self).vista == old(self).vista,
            final(self).columnas_clasica == old(self).columnas_clasica,
            final(self).exportando == old(self).exportando,
            final(self).busqueda_debounce == old(self).busqueda_debounce,
            final(self).ayuda_expandida == old(self).ayuda_expandida,
            final(self).ruta_exportacion_sugerida == old(self).ruta_exportacion_sugerida,
    {
        self.seleccion = mover_seleccion(self.seleccion, d, self.registros.len());
    }

    /// El movimiento seleccionado.
    pub fn seleccionado(&self) -> (r: Option<&MovimientoIngresoResumen>)
        requires
            self.bien_formado(),
        ensures
            r == (match self.seleccion {
                Some(i) => Some(&self.registros@[i as int]),
                None => None,
            }),
    {
        match self.seleccion {
            Some(i) => Some(&self.registros[i]),
            None => None,
        }
    }

    /// (página actual, total de páginas).
    pub fn pagina(&self) -> (r: (usize, usize))
        ensures
            r == pagina_de(self.offset, self.total),
    {
        if self.total == 0 {
            (0, 0)
        } else {
            (self.offset / LIMIT + 1, self.total / LIMIT + if self.total % LIMIT == 0 {
                0
            } else {
                1
            })
        }
    }

    /// Propone la ruta del archivo al exportar.
    pub fn sugerir_ruta_exportacion(&mut self, ruta: String)
        ensures
            final(self).ruta_exportacion_sugerida == ruta,
            final(self).registros == old(self).registros,
            final(self).seleccion == old(self).seleccion,
            final(self).modo == old(self).modo,
            final(self).columnas_clasica == old(self).columnas_clasica,
    {
        self.ruta_exportacion_sugerida = ruta;
    }
}

/// Columnas tras aplicar una preferencia con esas claves.
pub open spec fn preferencia_aplicada(
    c: Seq<(ColumnaHistorial, bool)>,
    claves: Seq<Seq<char>>,
) -> Seq<(ColumnaHistorial, bool)> {
    if exists|i: int| 0 <= i < c.len() && #[trigger] claves.contains(clave_columna(c[i].0)) {
        Seq::new(c.len(), |i: int| (c[i].0, claves.contains(clave_columna(c[i].0))))
    } else {
        c
    }
}

fn esta_en(claves: &Vec<Vec<char>>, x: &[char]) -> (r: bool)
    ensures
        r == vistas(claves@).contains(x@),
{
    let mut k: usize = 0;
    while k < claves.len()
        invariant
            k <= claves.len(),
            forall|j: int| 0 <= j < k ==> vistas(claves@)[j] != x@,
        decreases claves.len() - k,
    {
        if crate::texto::iguales(claves[k].as_slice(), x) {
            assert(vistas(claves@)[k as int] == x@);
            return true;
        }
        k += 1;
    }
    false
}

fn visibles_de(c: &[(ColumnaHistorial, bool)]) -> (r: Vec<ColumnaHistorial>)
    ensures
        r@ == columnas_visibles(c@),
{
    let mut r: Vec<ColumnaHistorial> = Vec::new();
    let mut k: usize = 0;
    while k < c.len()
        invariant
            k <= c.len(),
            r@ == columnas_visibles(c@.take(k as int)),
        decreases c.len() - k,
    {
        proof {
            assert(c@.take(k + 1).drop_last() =~= c@.take(k as int));
        }
        if c[k].1 {
            r.push(c[k].0);
        }
        k += 1;
    }
    proof {
        assert(c@.take(c@.len() as int) =~= c@);
    }
    r
}

fn contar_visibles(c: &[(ColumnaHistorial, bool)]) -> (n: usize)
    ensures
        n == visibles(c@),
{
    let mut n: usize = 0;
    let mut k: usize = 0;
    while k < c.len()
        invariant
            k <= c.len(),
            n == visibles(c@.take(k as int)),
            n <= k,
        decreases c.len() - k,
    {
        proof {
            assert(c@.take(k + 1).drop_last() =~= c@.take(k as int));
        }
        if c[k].1 {
            n += 1;
        }
        k += 1;
    }
    proof {
        assert(c@.take(c@.len() as int) =~= c@);
    }
    n
}

/// Cambiar la visibilidad de una columna suma o resta uno al total.
proof fn lema_visibles_cambio(c: Seq<(ColumnaHistorial, bool)>, s: int, v: bool)
    requires
        0 <= s < c.len(),
    ensures
        visibles(c.update(s, (c[s].0, v))) + (if c[s].1 {
            1int
        } else {
            0
        }) == visibles(c) + (if v {
            1int
        } else {
            0
        }),
    decreases c.len(),
{
    let d = c.update(s, (c[s].0, v));
    if s == c.len() - 1 {
        assert(d.drop_last() =~= c.drop_last());
    } else {
        assert(d.drop_last() =~= c.drop_last().update(s, (c[s].0, v)));
        lema_visibles_cambio(c.drop_last(), s, v);
    }
}


/// Las columnas de la vista clásica al abrir la pantalla: todas visibles.
pub open spec fn columnas_iniciales() -> Seq<(ColumnaHistorial, bool)> {
    todas_las_columnas().map_values(|c: ColumnaHistorial| (c, true))
}

impl Default for HistorialState {
    /// Línea de tiempo, filtros del mes en curso, todas las columnas
    /// visibles, sin registros ni búsqueda.
    fn default() -> (s: HistorialState)
        ensures
            s.bien_formado(),
            s.registros@.len() == 0,
            s.total == 0,
            s.seleccion is None,
            s.modo == ModoHistorial::Normal,
            s.vista == ViewMode::Timeline,
            s.columnas_clasica@ == columnas_iniciales(),
            s.busqueda@.valor.len() == 0,
            s.busqueda@.cursor == 0,
            s.busqueda@.maximo is None,
            s.mensaje is None,
            s.empresas@.len() == 0,
            s.offset == 0,
            s.corte_id is None,
            !s.ayuda_expandida,
            s.busqueda_debounce.pendiente is None,
            !s.exportando,
            s.ruta_exportacion_sugerida@ == "historial.xlsx"@,
            s.filtro_aplicado.empresa_id is None,
            s.filtro_aplicado.tipos is None,
            s.filtro_aplicado.estado == EstadoMovimiento::Todos,
            exists|h: i32| #[trigger] del_mes_hasta(s.filtro_aplicado@, h),
            s.filtro_aplicado.gafete@.len() == 0,
            consulta_de(s) == construida(s.filtro_aplicado@, Seq::empty(), LIMIT, 0, None),
    {
        let todas = ColumnaHistorial::todas();
        let mut columnas: Vec<(ColumnaHistorial, bool)> = Vec::new();
        let mut k: usize = 0;
        while k < todas.len()
            invariant
                k <= todas.len(),
                todas@ == todas_las_columnas(),
                columnas@ == todas@.take(k as int).map_values(|c: ColumnaHistorial| (c, true)),
            decreases todas.len() - k,
        {
            columnas.push((todas[k], true));
            proof {
                assert(todas@.take(k + 1) =~= todas@.take(k as int).push(todas@[k as int]));
                assert(columnas@ =~= todas@.take(k + 1).map_values(|c: ColumnaHistorial| (c, true)));
            }
            k += 1;
        }
        proof {
            assert(todas@.take(todas@.len() as int) =~= todas@);
        }
        HistorialState {
            registros: Vec::new(),
            total: 0,
            seleccion: None,
            modo: ModoHistorial::Normal,
            vista: ViewMode::Timeline,
            columnas_clasica: columnas,
            filtro_aplicado: FiltrosHistorial::default(),
            busqueda: TextInput::vacio(),
            mensaje: None,
            empresas: Vec::new(),
            offset: 0,
            corte_id: None,
            ayuda_expandida: false,
            busqueda_debounce: Debounce::nuevo(),
            exportando: false,
            ruta_exportacion_sugerida: lit("historial.xlsx"),
        }
    }
}


/// Qué extensión trae la ruta elegida para exportar.
#[derive(Clone, Copy, Debug, PartialEq, Eq, Structural)]
pub enum ExtensionDestino {
    /// Sin extensión: se le agrega `.xlsx`.
    Falta,
    /// `.xlsx`, en mayúsculas o minúsculas.
    Xlsx,
    /// Cualquier otra: se rechaza.
    Otra,
}

/// `xlsx` sin distinguir mayúsculas ASCII.
pub open spec fn es_xlsx(e: Seq<char>) -> bool {
    &&& e.len() == 4
    &&& (e[0] == 'x' || e[0] == 'X')
    &&& (e[1] == 'l' || e[1] == 'L')
    &&& (e[2] == 's' || e[2] == 'S')
    &&& (e[3] == 'x' || e[3] == 'X')
}

pub open spec fn clase_extension(e: Option<Seq<char>>) -> ExtensionDestino {
    match e {
        None => ExtensionDestino::Falta,
        Some(x) => if es_xlsx(x) {
            ExtensionDestino::Xlsx
        } else {
            ExtensionDestino::Otra
        },
    }
}

/// Clasifica la extensión que la ruta trae (la que devolvió `Path`).
pub fn clasificar_extension(e: &Option<String>) -> (r: ExtensionDestino)
    ensures
        r == clase_extension(vista_texto(*e)),
{
    match e {
        None => ExtensionDestino::Falta,
        Some(x) => {
            let v = caracteres(x.as_str());
            if v.len() == 4 && (v[0] == 'x' || v[0] == 'X') && (v[1] == 'l' || v[1] == 'L') && (
            v[2] == 's' || v[2] == 'S') && (v[3] == 'x' || v[3] == 'X') {
                ExtensionDestino::Xlsx
            } else {
                ExtensionDestino::Otra
            }
        },
    }
}

/// Extensión de la ruta según `std::path::Path::extension`, como texto.
/// Se afirma lo que su documentación fija en toda plataforma: una extensión
/// no contiene puntos, sin ningún punto en la ruta no hay extensión, y en
/// una ruta sencilla (ver `ruta_sencilla`) el nombre del archivo es lo que
/// sigue a la última `/` y la extensión es lo que sigue a su último punto,
/// si ese punto no abre el nombre. Cómo se parten las demás rutas depende
/// de la plataforma y queda sin decir.
#[verifier::external_body]
fn extension_de_ruta(ruta: &str) -> (r: Option<String>)
    ensures
        r matches Some(e) ==> !e@.contains('.'),
        !ruta@.contains('.') ==> r is None,
        ruta_sencilla(ruta@) ==> vista_texto(r) == extension_nombre(ultimo_tramo(ruta@)),
{
    std::path::Path::new(ruta).extension().and_then(|e| e.to_str()).map(|e| e.to_string())
}

/// La ruta con la extensión `xlsx` según
/// `std::path::PathBuf::set_extension`, de vuelta a texto. Se afirma el caso
/// que su documentación fija en toda plataforma: a una ruta sencilla cuyo
/// nombre no tiene extensión se le agrega `.xlsx` al final. Lo que resulta
/// de otras rutas depende de la plataforma y queda sin decir.
#[verifier::external_body]
fn con_extension_xlsx(ruta: &str) -> (r: String)
    ensures
        ruta_sencilla(ruta@) && extension_nombre(ultimo_tramo(ruta@)) is None ==> r@ == ruta@
            + ".xlsx"@,
{
    let mut p = std::path::PathBuf::from(ruta);
    p.set_extension("xlsx");
    p.to_string_lossy().into_owned()
}

/// Un resultado de texto visto como secuencias.
pub open spec fn vista_resultado(r: Result<String, String>) -> Result<Seq<char>, Seq<char>> {
    match r {
        Ok(x) => Ok(x@),
        Err(e) => Err(e@),
    }
}

/// Lo que da normalizar `valor` cuando la ruta recortada está vacía o es
/// sencilla; `None` cuando depende de cómo la plataforma parte la ruta.
pub open spec fn destino_normalizado(valor: Seq<char>) -> Option<Result<Seq<char>, Seq<char>>> {
    let t = recorte(valor);
    if t.len() == 0 {
        Some(Err("Ingrese una ruta para el archivo XLSX"@))
    } else if ruta_sencilla(t) {
        match extension_nombre(ultimo_tramo(t)) {
            None => Some(Ok(t + ".xlsx"@)),
            Some(e) => if es_xlsx(e) {
                Some(Ok(t))
            } else {
                Some(Err("La exportación debe usar la extensión .xlsx"@))
            },
        }
    } else {
        None
    }
}

/// Lo que se sabe del resultado de normalizar `valor` en toda plataforma:
/// el de `destino_normalizado` donde está fijado; en cualquier caso, el
/// único error con una ruta es el de la extensión, y sin ningún punto no hay
/// error.
pub open spec fn normalizado_compatible(valor: Seq<char>, r: Result<Seq<char>, Seq<char>>) -> bool {
    let t = recorte(valor);
    &&& destino_normalizado(valor) matches Some(x) ==> r == x
    &&& t.len() > 0 ==> (r matches Err(m) ==> m == "La exportación debe usar la extensión .xlsx"@)
    &&& t.len() > 0 && !t.contains('.') ==> r is Ok
}

/// Ruta del archivo de exportación: recortada, no vacía y con extensión
/// `.xlsx` (se agrega si falta; otra extensión se rechaza).
pub fn normalizar_destino(valor: &str) -> (r: Result<String, String>)
    ensures
        normalizado_compatible(valor@, vista_resultado(r)),
{
    let v = recortar(caracteres(valor).as_slice());
    if v.len() == 0 {
        return Err(lit("Ingrese una ruta para el archivo XLSX"));
    }
    let ruta = texto_de(v.as_slice());
    let ext = extension_de_ruta(ruta.as_str());
    match clasificar_extension(&ext) {
        ExtensionDestino::Falta => Ok(con_extension_xlsx(ruta.as_str())),
        ExtensionDestino::Xlsx => Ok(ruta),
        ExtensionDestino::Otra => Err(lit("La exportación debe usar la extensión .xlsx")),
    }
}


/// Nada de la búsqueda, la página ni el mensaje cambia.
pub open spec fn misma_busqueda(viejo: HistorialState, nuevo: HistorialState) -> bool {
    &&& nuevo.busqueda == viejo.busqueda
    &&& nuevo.offset == viejo.offset
    &&& nuevo.corte_id == viejo.corte_id
    &&& nuevo.mensaje == viejo.mensaje
    &&& nuevo.busqueda_debounce == viejo.busqueda_debounce
}

/// Lo que hace en modo normal una tecla que no cambia la vista ni abre un
/// editor: mover, paginar, limpiar la búsqueda, volver o escribir.
pub open spec fn tecla_busqueda_historial(
    viejo: HistorialState,
    nuevo: HistorialState,
    k: Tecla,
    a: AccionHistorial,
    ahora: u64,
) -> bool {
    &&& nuevo.mismos_datos(viejo)
    &&& nuevo.modo == viejo.modo
    &&& nuevo.vista == viejo.vista
    &&& nuevo.columnas_clasica == viejo.columnas_clasica
    &&& nuevo.exportando == viejo.exportando
    &&& nuevo.ayuda_expandida == viejo.ayuda_expandida
    &&& nuevo.ruta_exportacion_sugerida == viejo.ruta_exportacion_sugerida
    &&& if k.codigo == Codigo::Up || k.codigo == Codigo::Down {
        &&& nuevo.seleccion == movida(
            viejo.seleccion,
            if k.codigo == Codigo::Up {
                -1
            } else {
                1
            },
            viejo.registros@.len(),
        )
        &&& a == AccionHistorial::Ninguna
        &&& misma_busqueda(viejo, nuevo)
    } else if k.codigo == Codigo::PageDown {
        &&& nuevo.seleccion == viejo.seleccion
        &&& nuevo.busqueda == viejo.busqueda
        &&& nuevo.corte_id == viejo.corte_id
        &&& nuevo.busqueda_debounce == viejo.busqueda_debounce
        &&& if viejo.offset + LIMIT < viejo.total {
            &&& nuevo.offset == viejo.offset + LIMIT
            &&& resultado_emitido(consulta_de(nuevo), viejo.mensaje, nuevo.mensaje, a)
        } else {
            nuevo.offset == viejo.offset && nuevo.mensaje == viejo.mensaje && a
                == AccionHistorial::Ninguna
        }
    } else if k.codigo == Codigo::PageUp {
        &&& nuevo.seleccion == viejo.seleccion
        &&& nuevo.busqueda == viejo.busqueda
        &&& nuevo.corte_id == viejo.corte_id
        &&& nuevo.busqueda_debounce == viejo.busqueda_debounce
        &&& if viejo.offset > 0 {
            &&& nuevo.offset == (if viejo.offset >= LIMIT {
                viejo.offset - LIMIT
            } else {
                0
            })
            &&& resultado_emitido(consulta_de(nuevo), viejo.mensaje, nuevo.mensaje, a)
        } else {
            nuevo.offset == viejo.offset && nuevo.mensaje == viejo.mensaje && a
                == AccionHistorial::Ninguna
        }
    } else if k.codigo == Codigo::Esc {
        &&& nuevo.seleccion == viejo.seleccion
        &&& if viejo.busqueda@.valor.len() > 0 {
            &&& nuevo.busqueda@.valor.len() == 0
            &&& nuevo.busqueda@.cursor == 0
            &&& nuevo.busqueda@.maximo == viejo.busqueda@.maximo
            &&& nuevo.offset == 0
            &&& nuevo.corte_id is None
            &&& nuevo.busqueda_debounce == viejo.busqueda_debounce
            &&& resultado_emitido(consulta_de(nuevo), viejo.mensaje, nuevo.mensaje, a)
        } else {
            a == AccionHistorial::Volver && misma_busqueda(viejo, nuevo)
        }
    } else {
        &&& nuevo.seleccion == viejo.seleccion
        &&& nuevo.mensaje == viejo.mensaje
        &&& a == AccionHistorial::Ninguna
        &&& nuevo.busqueda@ == editar(viejo.busqueda@, k)
        &&& if editar(viejo.busqueda@, k).valor != viejo.busqueda@.valor {
            &&& nuevo.offset == 0
            &&& nuevo.corte_id is None
            &&& nuevo.busqueda_debounce.pendiente == Some(ahora)
        } else {
            &&& nuevo.offset == viejo.offset
            &&& nuevo.corte_id == viejo.corte_id
            &&& nuevo.busqueda_debounce == viejo.busqueda_debounce
        }
    }
}

impl HistorialState {
    fn paginar_o_escribir(&mut self, k: Tecla, ahora: u64) -> (a: AccionHistorial)
        requires
            old(self).bien_formado(),
        ensures
            final(self).bien_formado(),
            tecla_busqueda_historial(*old(self), *final(self), k, a, ahora),
    {
        match k.codigo {
            Codigo::Up => {
                self.mover(-1);
                AccionHistorial::Ninguna
            },
            Codigo::Down => {
                self.mover(1);
                AccionHistorial::Ninguna
            },
            Codigo::PageDown => {
                if self.offset < self.total && self.total - self.offset > LIMIT {
                    self.offset = self.offset + LIMIT;
                    self.emitir()
                } else {
                    AccionHistorial::Ninguna
                }
            },
            Codigo::PageUp => {
                if self.offset > 0 {
                    self.offset = if self.offset >= LIMIT {
                        self.offset - LIMIT
                    } else {
                        0
                    };
                    self.emitir()
                } else {
                    AccionHistorial::Ninguna
                }
            },
            Codigo::Esc => {
                if !self.busqueda.is_empty() {
                    self.busqueda.clear();
                    self.reiniciar_paginacion();
                    self.emitir()
                } else {
                    AccionHistorial::Volver
                }
            },
            _ => {
                if self.busqueda.handle_key(k) {
                    self.reiniciar_paginacion();
                    self.busqueda_debounce.marcar(ahora);
                }
                AccionHistorial::Ninguna
            },
        }
    }
}


/// Nada fuera del editor de columnas cambia.
pub open spec fn fuera_del_editor(viejo: HistorialState, nuevo: HistorialState) -> bool {
    &&& nuevo.mismos_datos(viejo)
    &&& nuevo.vista == viejo.vista
    &&& nuevo.busqueda == viejo.busqueda
    &&& nuevo.offset == viejo.offset
    &&& nuevo.corte_id == viejo.corte_id
    &&& nuevo.seleccion == viejo.seleccion
    &&& nuevo.exportando == viejo.exportando
    &&& nuevo.ayuda_expandida == viejo.ayuda_expandida
    &&& nuevo.busqueda_debounce == viejo.busqueda_debounce
    &&& nuevo.ruta_exportacion_sugerida == viejo.ruta_exportacion_sugerida
}

/// Lo que hace una tecla en el editor de columnas (posición `s`, para la
/// vista o para exportar).
pub open spec fn tecla_columnas_historial(
    viejo: HistorialState,
    nuevo: HistorialState,
    s: usize,
    p: PropositoColumnas,
    k: Tecla,
) -> bool {
    &&& fuera_del_editor(viejo, nuevo)
    &&& if k.codigo == Codigo::Up {
        &&& nuevo.modo == (ModoHistorial::Columnas {
            seleccion: if s > 0 {
                (s - 1) as usize
            } else {
                0
            },
            proposito: p,
        })
        &&& nuevo.columnas_clasica == viejo.columnas_clasica
        &&& nuevo.mensaje == viejo.mensaje
    } else if k.codigo == Codigo::Down {
        &&& nuevo.modo == (ModoHistorial::Columnas {
            seleccion: if s + 1 < 10 {
                (s + 1) as usize
            } else {
                10
            },
            proposito: p,
        })
        &&& nuevo.columnas_clasica == viejo.columnas_clasica
        &&& nuevo.mensaje == viejo.mensaje
    } else if k.codigo == Codigo::Char(' ') {
        &&& nuevo.modo == viejo.modo
        &&& if viejo.columnas_clasica@[s as int].1 && visibles(viejo.columnas_clasica@) == 1 {
            &&& nuevo.columnas_clasica == viejo.columnas_clasica
            &&& (nuevo.mensaje matches Some(m) && m@ == "Debe conservar al menos una columna"@)
        } else {
            &&& nuevo.columnas_clasica@ == viejo.columnas_clasica@.update(
                s as int,
                (viejo.columnas_clasica@[s as int].0, !viejo.columnas_clasica@[s as int].1),
            )
            &&& nuevo.mensaje == viejo.mensaje
        }
    } else if k.codigo == Codigo::Enter && p == PropositoColumnas::Exportacion {
        &&& (nuevo.modo matches ModoHistorial::RutaExportacion { destino } && destino@ == (
        VistaCampo {
            valor: viejo.ruta_exportacion_sugerida@,
            cursor: viejo.ruta_exportacion_sugerida@.len() as int,
            maximo: Some(240usize),
        }))
        &&& nuevo.columnas_clasica == viejo.columnas_clasica
        &&& nuevo.mensaje == viejo.mensaje
    } else if k.codigo == Codigo::Esc || (k.codigo == Codigo::F(4) && p
        == PropositoColumnas::Vista) {
        &&& nuevo.modo == ModoHistorial::Normal
        &&& nuevo.columnas_clasica == viejo.columnas_clasica
        &&& nuevo.mensaje == viejo.mensaje
    } else {
        &&& nuevo.modo == viejo.modo
        &&& nuevo.columnas_clasica == viejo.columnas_clasica
        &&& nuevo.mensaje == viejo.mensaje
    }
}

/// La consulta a exportar: la de la pantalla, desde el primer registro.
pub open spec fn para_exportar(c: ConsultaVista) -> ConsultaVista {
    ConsultaVista { offset: 0, ..c }
}

/// Lo que hace una tecla mientras se escribe la ruta del archivo (`destino`).
pub open spec fn tecla_ruta(
    viejo: HistorialState,
    nuevo: HistorialState,
    destino: TextInput,
    k: Tecla,
    a: AccionHistorial,
) -> bool {
    &&& fuera_del_editor(viejo, nuevo)
    &&& nuevo.columnas_clasica == viejo.columnas_clasica
    &&& if k.codigo == Codigo::Esc {
        nuevo.modo == ModoHistorial::Normal && a == AccionHistorial::Ninguna && nuevo.mensaje
            == viejo.mensaje
    } else if k.codigo == Codigo::Enter {
        exists|r: Result<Seq<char>, Seq<char>>|
            #[trigger] normalizado_compatible(destino@.valor, r) && match r {
                Err(m) => {
                    &&& a == AccionHistorial::Ninguna
                    &&& nuevo.modo == viejo.modo
                    &&& (nuevo.mensaje matches Some(x) && x@ == m)
                },
                Ok(p) => match consulta_de(viejo) {
                    Err(e) => {
                        &&& a == AccionHistorial::Ninguna
                        &&& nuevo.modo == viejo.modo
                        &&& (nuevo.mensaje matches Some(x) && x@ == e)
                    },
                    Ok(c) => {
                        &&& (a matches AccionHistorial::Exportar { filtro, columnas, destino: d }
                            && d@ == p && filtro@ == para_exportar(c) && columnas@
                            == columnas_visibles(viejo.columnas_clasica@))
                        &&& nuevo.modo == ModoHistorial::Normal
                        &&& nuevo.mensaje == viejo.mensaje
                    },
                },
            }
    } else {
        &&& (nuevo.modo matches ModoHistorial::RutaExportacion { destino: d } && d@ == editar(
            destino@,
            k,
        ))
        &&& a == AccionHistorial::Ninguna
        &&& nuevo.mensaje == viejo.mensaje
    }
}

impl HistorialState {
    fn editar_columnas(&mut self, k: Tecla, s: usize, p: PropositoColumnas)
        requires
            old(self).bien_formado(),
            old(self).modo == (ModoHistorial::Columnas { seleccion: s, proposito: p }),
        ensures
            final(self).bien_formado(),
            tecla_columnas_historial(*old(self), *final(self), s, p, k),
            visibles(old(self).columnas_clasica@) >= 1 ==> visibles(final(self).columnas_clasica@)
                >= 1,
    {
        let u = self.columnas_clasica.len() - 1;
        match k.codigo {
            Codigo::Up => {
                self.modo = ModoHistorial::Columnas {
                    seleccion: if s > 0 {
                        s - 1
                    } else {
                        0
                    },
                    proposito: p,
                };
            },
            Codigo::Down => {
                self.modo = ModoHistorial::Columnas {
                    seleccion: if s + 1 < u {
                        s + 1
                    } else {
                        u
                    },
                    proposito: p,
                };
            },
            Codigo::Char(' ') => {
                let n = contar_visibles(self.columnas_clasica.as_slice());
                let (c, visible) = self.columnas_clasica[s];
                if visible && n == 1 {
                    self.mensaje = Some(lit("Debe conservar al menos una columna"));
                } else {
                    let ghost antes = self.columnas_clasica@;
                    self.columnas_clasica.set(s, (c, !visible));
                    proof {
                        lema_visibles_cambio(antes, s as int, !visible);
                    }
                }
            },
            Codigo::Enter => {
                if p == PropositoColumnas::Exportacion {
                    let destino = TextInput::new(self.ruta_exportacion_sugerida.as_str()).with_max_chars(240);
                    self.modo = ModoHistorial::RutaExportacion { destino };
                }
            },
            Codigo::Esc => {
                self.modo = ModoHistorial::Normal;
            },
            Codigo::F(4) => {
                if p == PropositoColumnas::Vista {
                    self.modo = ModoHistorial::Normal;
                }
            },
            _ => {},
        }
    }

    fn escribir_ruta(&mut self, k: Tecla, destino: TextInput) -> (a: AccionHistorial)
        requires
            old(self).bien_formado(),
            old(self).modo matches ModoHistorial::RutaExportacion { destino: d } && d@ == destino@,
        ensures
            final(self).bien_formado(),
            tecla_ruta(*old(self), *final(self), destino, k, a),
    {
        match k.codigo {
            Codigo::Esc => {
                self.modo = ModoHistorial::Normal;
                AccionHistorial::Ninguna
            },
            Codigo::Enter => {
                let valor = destino.texto();
                let normalizado = normalizar_destino(valor.as_str());
                assert(normalizado_compatible(destino@.valor, vista_resultado(normalizado)));
                let ruta = match normalizado {
                    Ok(r) => r,
                    Err(e) => {
                        self.mensaje = Some(e);
                        return AccionHistorial::Ninguna;
                    },
                };
                match self.consulta() {
                    Ok(f) => {
                        let mut filtro = f;
                        filtro.offset = 0;
                        let columnas = visibles_de(self.columnas_clasica.as_slice());
                        self.modo = ModoHistorial::Normal;
                        AccionHistorial::Exportar { filtro, columnas, destino: ruta }
                    },
                    Err(e) => {
                        self.mensaje = Some(e);
                        AccionHistorial::Ninguna
                    },
                }
            },
            _ => {
                let mut d = destino;
                d.handle_key(k);
                self.modo = ModoHistorial::RutaExportacion { destino: d };
                AccionHistorial::Ninguna
            },
        }
    }
}


/// Mientras una exportación está en curso, F5 no empieza otra: no hay
/// acción y ni el modo ni el aviso cambian, hasta que se completa.
pub proof fn ley_una_exportacion_a_la_vez(
    viejo: HistorialState,
    nuevo: HistorialState,
    k: Tecla,
    a: AccionHistorial,
    ahora: u64,
)
    requires
        viejo.exportando,
        k.codigo == Codigo::F(5),
        tecla_normal_historial(viejo, nuevo, k, a, ahora),
    ensures
        a == AccionHistorial::Ninguna,
        nuevo.modo == viejo.modo,
        nuevo.mensaje == viejo.mensaje,
{
}

/// Lo que hace una tecla en modo normal: F3 cambia la vista, F4 abre el
/// editor de columnas (sólo en la vista clásica), F5 empieza a exportar (si
/// hay resultados y no hay otra exportación en curso); el resto pagina,
/// mueve o escribe en la búsqueda.
pub open spec fn tecla_normal_historial(
    viejo: HistorialState,
    nuevo: HistorialState,
    k: Tecla,
    a: AccionHistorial,
    ahora: u64,
) -> bool {
    if k.codigo == Codigo::F(3) {
        &&& fuera_del_editor_salvo_vista(viejo, nuevo)
        &&& nuevo.vista == (match viejo.vista {
            ViewMode::Timeline => ViewMode::Classic,
            ViewMode::Classic => ViewMode::Timeline,
        })
        &&& nuevo.modo == viejo.modo
        &&& nuevo.mensaje == viejo.mensaje
        &&& a == AccionHistorial::Ninguna
    } else if k.codigo == Codigo::F(4) && viejo.vista == ViewMode::Classic {
        &&& fuera_del_editor(viejo, nuevo)
        &&& nuevo.columnas_clasica == viejo.columnas_clasica
        &&& nuevo.modo == (ModoHistorial::Columnas {
            seleccion: 0,
            proposito: PropositoColumnas::Vista,
        })
        &&& nuevo.mensaje == viejo.mensaje
        &&& a == AccionHistorial::Ninguna
    } else if k.codigo == Codigo::F(5) {
        &&& fuera_del_editor(viejo, nuevo)
        &&& nuevo.columnas_clasica == viejo.columnas_clasica
        &&& a == AccionHistorial::Ninguna
        &&& if viejo.exportando {
            nuevo.modo == viejo.modo && nuevo.mensaje == viejo.mensaje
        } else if viejo.total == 0 {
            nuevo.modo == viejo.modo && (nuevo.mensaje matches Some(m) && m@
                == "No hay movimientos para exportar"@)
        } else {
            &&& nuevo.mensaje is None
            &&& nuevo.modo == (ModoHistorial::Columnas {
                seleccion: 0,
                proposito: PropositoColumnas::Exportacion,
            })
        }
    } else {
        tecla_busqueda_historial(viejo, nuevo, k, a, ahora)
    }
}

/// Como `fuera_del_editor`, pero la vista puede cambiar.
pub open spec fn fuera_del_editor_salvo_vista(viejo: HistorialState, nuevo: HistorialState) -> bool {
    &&& nuevo.mismos_datos(viejo)
    &&& nuevo.columnas_clasica == viejo.columnas_clasica
    &&& nuevo.busqueda == viejo.busqueda
    &&& nuevo.offset == viejo.offset
    &&& nuevo.corte_id == viejo.corte_id
    &&& nuevo.seleccion == viejo.seleccion
    &&& nuevo.exportando == viejo.exportando
    &&& nuevo.ayuda_expandida == viejo.ayuda_expandida
    &&& nuevo.busqueda_debounce == viejo.busqueda_debounce
    &&& nuevo.ruta_exportacion_sugerida == viejo.ruta_exportacion_sugerida
}

/// Lo que hace pasar el tiempo hasta `ahora`: si pasó la espera desde la
/// última tecla de búsqueda, se pide la consulta (o queda su error); si no,
/// nada cambia.
pub open spec fn paso_del_tiempo(
    viejo: HistorialState,
    nuevo: HistorialState,
    ahora: u64,
    a: AccionHistorial,
) -> bool {
    &&& nuevo.mismos_datos(viejo)
    &&& vencio(viejo.busqueda_debounce.pendiente, ahora, DURACION_DEBOUNCE_MS) ==> {
        &&& emitida(viejo, nuevo, a)
        &&& nuevo.busqueda_debounce.pendiente is None
    }
    &&& !vencio(viejo.busqueda_debounce.pendiente, ahora, DURACION_DEBOUNCE_MS) ==> {
        &&& a == AccionHistorial::Ninguna
        &&& nuevo.busqueda_debounce == viejo.busqueda_debounce
        &&& nuevo.mensaje == viejo.mensaje
    }
    &&& nuevo.busqueda == viejo.busqueda
    &&& nuevo.offset == viejo.offset
    &&& nuevo.corte_id == viejo.corte_id
    &&& nuevo.modo == viejo.modo
    &&& nuevo.seleccion == viejo.seleccion
}

/// Una tecla que en modo normal escribe en la búsqueda: no pide ayuda, no
/// cambia la vista ni abre un editor, no mueve, no pagina ni vuelve.
pub open spec fn escribe_en_busqueda(k: Tecla) -> bool {
    &&& !es_ayuda(k)
    &&& k.codigo != Codigo::F(3)
    &&& k.codigo != Codigo::F(4)
    &&& k.codigo != Codigo::F(5)
    &&& k.codigo != Codigo::Up
    &&& k.codigo != Codigo::Down
    &&& k.codigo != Codigo::PageUp
    &&& k.codigo != Codigo::PageDown
    &&& k.codigo != Codigo::Esc
}

/// Escribir en la búsqueda y dejar pasar la espera pide la consulta con el
/// texto escrito, desde la primera página y sin corte.
pub proof fn ley_busqueda_diferida(
    s0: HistorialState,
    s1: HistorialState,
    s2: HistorialState,
    k: Tecla,
    a1: AccionHistorial,
    a2: AccionHistorial,
    tecleo: u64,
    despues: u64,
)
    requires
        s0.modo == ModoHistorial::Normal,
        escribe_en_busqueda(k),
        editar(s0.busqueda@, k).valor != s0.busqueda@.valor,
        tecla_en(s0, s1, k, a1, tecleo),
        paso_del_tiempo(s1, s2, despues, a2),
        despues >= tecleo + DURACION_DEBOUNCE_MS,
    ensures
        s1.busqueda@ == editar(s0.busqueda@, k),
        s1.offset == 0,
        s1.corte_id is None,
        emitida(s1, s2, a2),
{
}

/// Lo que hace la tecla `k` pulsada en el instante `ahora` (ms): F1
/// alterna la ayuda; el resto, según el modo.
pub open spec fn tecla_en(
    viejo: HistorialState,
    nuevo: HistorialState,
    k: Tecla,
    a: AccionHistorial,
    ahora: u64,
) -> bool {
    &&& nuevo.mismos_datos(viejo)
    &&& visibles(viejo.columnas_clasica@) >= 1 ==> visibles(nuevo.columnas_clasica@) >= 1
    &&& es_ayuda(k) ==> {
        &&& a == AccionHistorial::Ninguna
        &&& nuevo.ayuda_expandida == !viejo.ayuda_expandida
        &&& nuevo.modo == viejo.modo
        &&& nuevo.vista == viejo.vista
        &&& nuevo.columnas_clasica == viejo.columnas_clasica
        &&& misma_busqueda(viejo, nuevo)
        &&& nuevo.seleccion == viejo.seleccion
    }
    &&& !es_ayuda(k) ==> match viejo.modo {
        ModoHistorial::Normal => tecla_normal_historial(viejo, nuevo, k, a, ahora),
        ModoHistorial::Columnas { seleccion, proposito } => {
            &&& a == AccionHistorial::Ninguna
            &&& tecla_columnas_historial(viejo, nuevo, seleccion, proposito, k)
        },
        ModoHistorial::RutaExportacion { destino } => tecla_ruta(viejo, nuevo, destino, k, a),
    }
}

impl HistorialState {
    /// Aplica una tecla: F1 alterna la ayuda; el resto según el modo. La
    /// tecla se toma como pulsada ahora, según el reloj.
    pub fn handle_key(&mut self, k: Tecla) -> (a: AccionHistorial)
        requires
            old(self).bien_formado(),
        ensures
            final(self).bien_formado(),
            exists|ahora: u64| #[trigger] tecla_en(*old(self), *final(self), k, a, ahora),
    {
        let ahora = reloj_ms();
        self.handle_key_en(k, ahora)
    }

    /// Aplica la tecla `k` pulsada en el instante `ahora` (ms).
    pub fn handle_key_en(&mut self, k: Tecla, ahora: u64) -> (a: AccionHistorial)
        requires
            old(self).bien_formado(),
        ensures
            final(self).bien_formado(),
            tecla_en(*old(self), *final(self), k, a, ahora),
    {
        if comando_estandar(k).is_some() {
            self.ayuda_expandida = !self.ayuda_expandida;
            return AccionHistorial::Ninguna;
        }
        match &self.modo {
            ModoHistorial::Columnas { seleccion, proposito } => {
                let (s, p) = (*seleccion, *proposito);
                self.editar_columnas(k, s, p);
                return AccionHistorial::Ninguna;
            },
            ModoHistorial::RutaExportacion { destino } => {
                let d = destino.clone();
                return self.escribir_ruta(k, d);
            },
            ModoHistorial::Normal => {},
        }
        match k.codigo {
            Codigo::F(3) => {
                self.vista = self.vista.next();
                AccionHistorial::Ninguna
            },
            Codigo::F(4) if self.vista == ViewMode::Classic => {
                self.modo = ModoHistorial::Columnas {
                    seleccion: 0,
                    proposito: PropositoColumnas::Vista,
                };
                AccionHistorial::Ninguna
            },
            Codigo::F(5) => {
                if self.exportando {
                } else if self.total == 0 {
                    self.mensaje = Some(lit("No hay movimientos para exportar"));
                } else {
                    self.mensaje = None;
                    self.modo = ModoHistorial::Columnas {
                        seleccion: 0,
                        proposito: PropositoColumnas::Exportacion,
                    };
                }
                AccionHistorial::Ninguna
            },
            _ => self.paginar_o_escribir(k, ahora),
        }
    }

    /// Dispara la búsqueda diferida cuando pasó la espera desde la última
    /// tecla (`ahora` en ms).
    pub fn tick(&mut self, ahora: u64) -> (a: AccionHistorial)
        requires
            old(self).bien_formado(),
        ensures
            final(self).bien_formado(),
            paso_del_tiempo(*old(self), *final(self), ahora, a),
    {
        if self.busqueda_debounce.listo(ahora, DURACION_DEBOUNCE_MS) {
            self.emitir()
        } else {
            AccionHistorial::Ninguna
        }
    }
}

/// Cómo se muestra el estado de los movimientos pedidos.
pub fn estado_texto(e: EstadoMovimiento) -> (r: &'static str)
    ensures
        r@ == (match e {
            EstadoMovimiento::Todos => "Todos"@,
            EstadoMovimiento::Activos => "Activos"@,
            EstadoMovimiento::Cerrados => "Cerrados"@,
        }),
{
    match e {
        EstadoMovimiento::Todos => "Todos",
        EstadoMovimiento::Activos => "Activos",
        EstadoMovimiento::Cerrados => "Cerrados",
    }
}

/// Los tipos pedidos: `Todos` sin filtro, o sus nombres unidos con ` o `.
pub open spec fn tipos_mostrados(tipos: Option<Seq<TipoIngreso>>) -> Seq<char> {
    match tipos {
        None => "Todos"@,
        Some(ts) => crate::consulta::unidas_por(
            ts.map_values(|t: TipoIngreso| crate::modelos::texto_tipo(t)),
            " o "@,
        ),
    }
}

pub fn tipos_texto(tipos: Option<&[TipoIngreso]>) -> (r: String)
    ensures
        r@ == tipos_mostrados(
            match tipos {
                Some(ts) => Some(ts@),
                None => None,
            },
        ),
{
    match tipos {
        None => texto_de(caracteres("Todos").as_slice()),
        Some(ts) => {
            let mut nombres: Vec<Vec<char>> = Vec::new();
            let mut k: usize = 0;
            while k < ts.len()
                invariant
                    k <= ts.len(),
                    vistas(nombres@) == ts@.take(k as int).map_values(
                        |t: TipoIngreso| crate::modelos::texto_tipo(t),
                    ),
                decreases ts.len() - k,
            {
                let ghost antes = nombres@;
                nombres.push(caracteres(ts[k].texto()));
                proof {
                    assert(vistas(nombres@) =~= vistas(antes).push(
                        crate::modelos::texto_tipo(ts@[k as int]),
                    ));
                    assert(ts@.take(k + 1).map_values(|t: TipoIngreso| crate::modelos::texto_tipo(t))
                        =~= ts@.take(k as int).map_values(
                        |t: TipoIngreso| crate::modelos::texto_tipo(t),
                    ).push(crate::modelos::texto_tipo(ts@[k as int])));
                }
                k += 1;
            }
            proof {
                assert(ts@.take(ts@.len() as int) =~= ts@);
            }
            let r = crate::consulta::unir_por(&nombres, caracteres(" o ").as_slice());
            texto_de(r.as_slice())
        },
    }
}

/// Nombre de la empresa con ese id, o `Todas` si no hay o no está en el
/// catálogo.
pub open spec fn empresa_mostrada(id: Option<i64>, empresas: Seq<Empresa>) -> Seq<char> {
    match id {
        Some(x) => match crate::consulta::primero(empresas.len() as int, crate::contratistas::es_de_empresa(empresas, x)) {
            Some(i) => empresas[i].nombre@,
            None => "Todas"@,
        },
        None => "Todas"@,
    }
}

pub fn empresa_texto(id: Option<i64>, empresas: &[Empresa]) -> (r: String)
    ensures
        r@ == empresa_mostrada(id, empresas@),
{
    let x = match id {
        Some(x) => x,
        None => {
            return texto_de(caracteres("Todas").as_slice());
        },
    };
    let ghost p = crate::contratistas::es_de_empresa(empresas@, x);
    let mut k: usize = 0;
    while k < empresas.len()
        invariant
            k <= empresas.len(),
            p == crate::contratistas::es_de_empresa(empresas@, x),
            id == Some(x),
            forall|j: int| 0 <= j < k ==> !#[trigger] p(j),
        decreases empresas.len() - k,
    {
        if empresas[k].id == x {
            proof {
                assert(crate::consulta::es_primero(empresas@.len() as int, p, k as int));
                crate::consulta::lema_primero(empresas@.len() as int, p, k as int);
            }
            return texto_de(caracteres(empresas[k].nombre.as_str()).as_slice());
        }
        assert(!p(k as int));
        k += 1;
    }
    proof {
        crate::consulta::lema_ninguno(empresas@.len() as int, p);
    }
    texto_de(caracteres("Todas").as_slice())
}

} // verus!
