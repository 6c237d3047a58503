//! Ingresos activos: quién está dentro, su búsqueda `clave:valor` y el
//! registro de salidas.
use crate::consulta::{
    TerminoVista, complemento, es_primero, interpretar, lema_ninguno, lema_primero, palabras,
    primero, reconocer_tipos, separar_palabras, separar_valores, termino, tipos_excepto,
    tipos_reconocidos, unidas, valores, vistas, agregar_libre,
};
use crate::modelos::{Empresa, Igualdad, IngresoActivoResumen, MedioIngreso, TipoIngreso};
use crate::consulta::{agregar_separado, unidas_con, unidas_por, unir_por};
use crate::texto::{
    a_minusculas, caracteres, contiene, contiene_texto, entero, es_literal, es_vacio_recortado,
    minusculas, parsear_entero, plegado, plegar_diacriticos, solo_blancos, texto_de, unir,
};
use crate::modelos::ListaIngresosActivosResumen;
use crate::ui::{
    Codigo, Debounce, Tecla, TextInput, comando_estandar, editar, es_ayuda, inicio_ventana,
    movida, mover_seleccion, reloj_ms, vencio,
};
use crate::texto::{decimal_con_signo, escribir_entero};
use vstd::prelude::*;

verus! {

/// Igualdad positiva o negada según la palabra.
pub open spec fn igualdad<T>(negado: bool, v: T) -> Igualdad<T> {
    if negado {
        Igualdad::Excluye(v)
    } else {
        Igualdad::Incluye(v)
    }
}

/// Palabras (en minúsculas) que nombran un medio de ingreso.
pub open spec fn medio_de_palabra(p: Seq<char>) -> Option<MedioIngreso> {
    if p == "caminando"@ || p == "pie"@ || p == "apie"@ {
        Some(MedioIngreso::Caminando)
    } else if p == "vehiculo"@ || p == "vehículo"@ || p == "carro"@ {
        Some(MedioIngreso::Vehiculo)
    } else {
        None
    }
}

/// Interpreta el valor de `medio:`, sin distinguir mayúsculas.
pub fn medio_desde_texto(v: &[char]) -> (r: Option<MedioIngreso>)
    ensures
        r == medio_de_palabra(minusculas(v@)),
        minusculas(v@) == "caminando"@ || minusculas(v@) == "pie"@ || minusculas(v@) == "apie"@
            ==> r == Some(MedioIngreso::Caminando),
        r == Some(MedioIngreso::Vehiculo) ==> minusculas(v@) == "vehiculo"@ || minusculas(v@)
            == "vehículo"@ || minusculas(v@) == "carro"@,
{
    let p = a_minusculas(v);
    let p = p.as_slice();
    if es_literal(p, "caminando") || es_literal(p, "pie") || es_literal(p, "apie") {
        Some(MedioIngreso::Caminando)
    } else if es_literal(p, "vehiculo") || es_literal(p, "vehículo") || es_literal(p, "carro") {
        Some(MedioIngreso::Vehiculo)
    } else {
        None
    }
}

pub open spec fn opuesto(m: MedioIngreso) -> MedioIngreso {
    match m {
        MedioIngreso::Caminando => MedioIngreso::Vehiculo,
        MedioIngreso::Vehiculo => MedioIngreso::Caminando,
    }
}

/// Sólo hay dos medios: negar uno equivale a pedir el otro.
pub fn medio_opuesto(m: MedioIngreso) -> (r: MedioIngreso)
    ensures
        r == opuesto(m),
{
    match m {
        MedioIngreso::Caminando => MedioIngreso::Vehiculo,
        MedioIngreso::Vehiculo => MedioIngreso::Caminando,
    }
}

/// Negar dos veces el medio deja el original, y negarlo nunca lo deja igual.
pub proof fn ley_medio_opuesto(m: MedioIngreso)
    ensures
        opuesto(opuesto(m)) == m,
        opuesto(m) != m,
{
}

/// Qué medio nombra cada palabra (ya en minúsculas): `caminando`, `pie` y
/// `apie` nombran a quien entra caminando; sólo `vehiculo`, `vehículo` y
/// `carro` nombran a quien entra en vehículo; ninguna otra nombra un medio.
pub proof fn ley_palabras_de_medio(p: Seq<char>)
    ensures
        p == "caminando"@ || p == "pie"@ || p == "apie"@ ==> medio_de_palabra(p) == Some(
            MedioIngreso::Caminando,
        ),
        medio_de_palabra(p) == Some(MedioIngreso::Caminando) ==> p == "caminando"@ || p == "pie"@
            || p == "apie"@,
        medio_de_palabra(p) == Some(MedioIngreso::Vehiculo) ==> p == "vehiculo"@ || p
            == "vehículo"@ || p == "carro"@,
        p == "vehiculo"@ || p == "vehículo"@ || p == "carro"@ ==> medio_de_palabra(p) == Some(
            MedioIngreso::Vehiculo,
        ),
{
    lema_palabras_de_medio_distintas();
}

proof fn lema_palabras_de_medio_distintas()
    ensures
        "caminando"@.len() == 9 && "pie"@.len() == 3 && "apie"@.len() == 4,
        "vehiculo"@.len() == 8 && "vehículo"@.len() == 8 && "carro"@.len() == 5,
        "medio"@.len() == 5 && "empresa"@.len() == 7 && "tipo"@.len() == 4 && "gafete"@.len()
            == 6,
{
    reveal_strlit("caminando");
    reveal_strlit("pie");
    reveal_strlit("apie");
    reveal_strlit("vehiculo");
    reveal_strlit("vehículo");
    reveal_strlit("carro");
    reveal_strlit("medio");
    reveal_strlit("empresa");
    reveal_strlit("tipo");
    reveal_strlit("gafete");
}

/// `medio:` con una palabra que nombra un medio fija ese medio en el filtro
/// (el opuesto si va negada) y deja lo demás como estaba; sin distinguir
/// mayúsculas.
pub proof fn ley_clave_medio(f: FiltroActivosVista, t: TerminoVista, empresas: Seq<Empresa>)
    requires
        t.clave matches Some(k) && minusculas(k) == "medio"@,
        valores(t.valor).len() == 1,
    ensures
        ({
            let p = minusculas(valores(t.valor)[0]);
            let m = if p == "caminando"@ || p == "pie"@ || p == "apie"@ {
                Some(MedioIngreso::Caminando)
            } else if p == "vehiculo"@ || p == "vehículo"@ || p == "carro"@ {
                Some(MedioIngreso::Vehiculo)
            } else {
                None
            };
            aplicar_activos(f, t, empresas) == match m {
                Some(m) => Some(
                    FiltroActivosVista {
                        medio: Some(
                            if t.negado {
                                opuesto(m)
                            } else {
                                m
                            },
                        ),
                        ..f
                    },
                ),
                None => None,
            }
        }),
{
    lema_palabras_de_medio_distintas();
    ley_palabras_de_medio(minusculas(valores(t.valor)[0]));
}

/// El nombre de la empresa contiene lo buscado, sin distinguir mayúsculas
/// ni tildes.
pub open spec fn nombre_coincide(e: Empresa, buscado: Seq<char>) -> bool {
    contiene(plegado(minusculas(e.nombre@)), plegado(minusculas(buscado)))
}

/// La primera empresa cuyo nombre contiene lo buscado.
pub open spec fn empresa_buscada(empresas: Seq<Empresa>, buscado: Seq<char>) -> Option<int> {
    primero(empresas.len() as int, |i: int| nombre_coincide(empresas[i], buscado))
}

/// Busca la primera empresa cuyo nombre contiene `buscado`.
pub fn buscar_empresa(empresas: &[Empresa], buscado: &[char]) -> (r: Option<usize>)
    ensures
        match r {
            Some(i) => empresa_buscada(empresas@, buscado@) == Some(i as int),
            None => empresa_buscada(empresas@, buscado@) is None,
        },
{
    let b = a_minusculas(buscado);
    let b = plegar_diacriticos(b.as_slice());
    let ghost p = |i: int| nombre_coincide(empresas@[i], buscado@);
    let mut k: usize = 0;
    while k < empresas.len()
        invariant
            k <= empresas.len(),
            b@ == plegado(minusculas(buscado@)),
            p == (|i: int| nombre_coincide(empresas@[i], buscado@)),
            forall|j: int| 0 <= j < k ==> !#[trigger] p(j),
        decreases empresas.len() - k,
    {
        let nombre = caracteres(empresas[k].nombre.as_str());
        let nombre = a_minusculas(nombre.as_slice());
        let nombre = plegar_diacriticos(nombre.as_slice());
        if contiene_texto(nombre.as_slice(), b.as_slice()) {
            proof {
                assert(p(k as int));
                assert(es_primero(empresas@.len() as int, p, k as int));
                lema_primero(empresas@.len() as int, p, k as int);
            }
            return Some(k);
        }
        assert(!p(k as int));
        k += 1;
    }
    proof {
        lema_ninguno(empresas@.len() as int, p);
    }
    None
}

/// Lo que el filtro de ingresos activos pide.
pub struct FiltroActivosVista {
    pub empresa_id: Option<Igualdad<i64>>,
    pub tipos: Option<Seq<TipoIngreso>>,
    pub gafete: Option<Igualdad<i64>>,
    pub medio: Option<MedioIngreso>,
}

/// Filtro de la consulta de ingresos activos.
#[derive(Clone, Debug, PartialEq, Eq, Default)]
pub struct FiltroIngresosActivos {
    pub empresa_id: Option<Igualdad<i64>>,
    pub tipos_incluidos: Option<Vec<TipoIngreso>>,
    pub gafete_numero: Option<Igualdad<i64>>,
    pub medio_ingreso: Option<MedioIngreso>,
}

pub open spec fn vista_tipos(t: Option<Vec<TipoIngreso>>) -> Option<Seq<TipoIngreso>> {
    match t {
        Some(v) => Some(v@),
        None => None,
    }
}

impl View for FiltroIngresosActivos {
    type V = FiltroActivosVista;

    open spec fn view(&self) -> FiltroActivosVista {
        FiltroActivosVista {
            empresa_id: self.empresa_id,
            tipos: vista_tipos(self.tipos_incluidos),
            gafete: self.gafete_numero,
            medio: self.medio_ingreso,
        }
    }
}

pub open spec fn filtro_activos_vacio() -> FiltroActivosVista {
    FiltroActivosVista { empresa_id: None, tipos: None, gafete: None, medio: None }
}

/// Lo que una palabra `clave:valor` hace al filtro de activos, o `None` si
/// la clave no se reconoce o su valor no calza (y la palabra queda como
/// texto libre). Claves: `empresa` (un nombre, parcial y sin tildes),
/// `tipo` (lista), `gafete` (un número) y `medio` (uno); todas se pueden
/// negar.
pub open spec fn aplicar_activos(
    f: FiltroActivosVista,
    t: TerminoVista,
    empresas: Seq<Empresa>,
) -> Option<FiltroActivosVista> {
    match t.clave {
        None => None,
        Some(k) => {
            let clave = minusculas(k);
            let vs = valores(t.valor);
            if clave == "empresa"@ && vs.len() == 1 {
                match empresa_buscada(empresas, vs[0]) {
                    Some(i) => Some(
                        FiltroActivosVista {
                            empresa_id: Some(igualdad(t.negado, empresas[i].id)),
                            ..f
                        },
                    ),
                    None => None,
                }
            } else if clave == "tipo"@ {
                match tipos_reconocidos(vs) {
                    Some(r) => if r.len() == 0 {
                        None
                    } else {
                        Some(
                            FiltroActivosVista {
                                tipos: Some(
                                    if t.negado {
                                        complemento(r)
                                    } else {
                                        r
                                    },
                                ),
                                ..f
                            },
                        )
                    },
                    None => None,
                }
            } else if clave == "gafete"@ && vs.len() == 1 {
                match entero(vs[0]) {
                    Some(n) => Some(FiltroActivosVista { gafete: Some(igualdad(t.negado, n)), ..f }),
                    None => None,
                }
            } else if clave == "medio"@ && vs.len() == 1 {
                match medio_de_palabra(minusculas(vs[0])) {
                    Some(m) => Some(
                        FiltroActivosVista {
                            medio: Some(
                                if t.negado {
                                    opuesto(m)
                                } else {
                                    m
                                },
                            ),
                            ..f
                        },
                    ),
                    None => None,
                }
            } else {
                None
            }
        },
    }
}

/// Filtro y palabras no reconocidas tras leer una búsqueda.
pub struct ResolucionActivos {
    pub filtro: FiltroActivosVista,
    pub libres: Seq<Seq<char>>,
}

/// Aplica las palabras en orden; las que no se aplican quedan como texto
/// libre, en el mismo orden.
pub open spec fn resolver_activos(ps: Seq<Seq<char>>, empresas: Seq<Empresa>) -> ResolucionActivos
    decreases ps.len(),
{
    if ps.len() == 0 {
        ResolucionActivos { filtro: filtro_activos_vacio(), libres: Seq::empty() }
    } else {
        let r = resolver_activos(ps.drop_last(), empresas);
        match aplicar_activos(r.filtro, termino(ps.last()), empresas) {
            Some(f) => ResolucionActivos { filtro: f, ..r },
            None => ResolucionActivos { libres: r.libres.push(ps.last()), ..r },
        }
    }
}

/// Un texto sin ninguna palabra `clave:valor` no filtra nada: todas sus
/// palabras quedan, en orden, como texto libre.
pub proof fn ley_texto_sin_claves(ps: Seq<Seq<char>>, empresas: Seq<Empresa>)
    requires
        forall|i: int| 0 <= i < ps.len() ==> (#[trigger] termino(ps[i])).clave is None,
    ensures
        resolver_activos(ps, empresas).filtro == filtro_activos_vacio(),
        resolver_activos(ps, empresas).libres == ps,
    decreases ps.len(),
{
    if ps.len() > 0 {
        let q = ps.drop_last();
        assert forall|i: int| 0 <= i < q.len() implies (#[trigger] termino(q[i])).clave is None by {
            assert(q[i] == ps[i]);
        }
        ley_texto_sin_claves(q, empresas);
        assert(termino(ps[ps.len() - 1]).clave is None);
        assert(q.push(ps.last()) =~= ps);
    }
}

fn igualdad_de(negado: bool, v: i64) -> (r: Igualdad<i64>)
    ensures
        r == igualdad(negado, v),
{
    if negado {
        Igualdad::Excluye(v)
    } else {
        Igualdad::Incluye(v)
    }
}

/// Aplica una palabra al filtro; `false` (y el filtro intacto) si no se
/// reconoce.
pub fn aplicar_clave(f: &mut FiltroIngresosActivos, t: &crate::consulta::Termino, empresas: &[Empresa]) -> (r: bool)
    ensures
        match aplicar_activos(old(f)@, t@, empresas@) {
            Some(g) => r && final(f)@ == g,
            None => !r && final(f)@ == old(f)@,
        },
{
    let k = match &t.clave {
        Some(k) => k,
        None => {
            return false;
        },
    };
    let clave = a_minusculas(k.as_slice());
    let clave = clave.as_slice();
    let vs = separar_valores(t.valor.as_slice());
    let ghost vsv = vistas(vs@);
    if es_literal(clave, "empresa") && vs.len() == 1 {
        assert(vsv[0] == vs@[0]@);
        match buscar_empresa(empresas, vs[0].as_slice()) {
            Some(i) => {
                f.empresa_id = Some(igualdad_de(t.negado, empresas[i].id));
                true
            },
            None => false,
        }
    } else if es_literal(clave, "tipo") {
        match reconocer_tipos(&vs) {
            Some(r) => {
                if r.len() == 0 {
                    false
                } else if t.negado {
                    f.tipos_incluidos = Some(tipos_excepto(r.as_slice()));
                    true
                } else {
                    f.tipos_incluidos = Some(r);
                    true
                }
            },
            None => false,
        }
    } else if es_literal(clave, "gafete") && vs.len() == 1 {
        assert(vsv[0] == vs@[0]@);
        match parsear_entero(vs[0].as_slice()) {
            Some(n) => {
                f.gafete_numero = Some(igualdad_de(t.negado, n));
                true
            },
            None => false,
        }
    } else if es_literal(clave, "medio") && vs.len() == 1 {
        assert(vsv[0] == vs@[0]@);
        match medio_desde_texto(vs[0].as_slice()) {
            Some(m) => {
                f.medio_ingreso = Some(
                    if t.negado {
                        medio_opuesto(m)
                    } else {
                        m
                    },
                );
                true
            },
            None => false,
        }
    } else {
        false
    }
}

/// Interpreta la búsqueda: el filtro de activos y el texto libre que queda
/// (para nombre, cédula o gafete).
pub fn parsear_consulta(texto: &[char], empresas: &[Empresa]) -> (r: (
    FiltroIngresosActivos,
    Vec<char>,
))
    ensures
        r.0@ == resolver_activos(palabras(texto@), empresas@).filtro,
        r.1@ == unidas(resolver_activos(palabras(texto@), empresas@).libres),
{
    let ps = separar_palabras(texto);
    let ghost psv = vistas(ps@);
    let mut filtro = FiltroIngresosActivos {
        empresa_id: None,
        tipos_incluidos: None,
        gafete_numero: None,
        medio_ingreso: None,
    };
    let mut libres: Vec<char> = Vec::new();
    let mut cuantas: usize = 0;
    let mut k: usize = 0;
    while k < ps.len()
        invariant
            k <= ps.len(),
            psv == vistas(ps@),
            filtro@ == resolver_activos(psv.take(k as int), empresas@).filtro,
            libres@ == unidas(resolver_activos(psv.take(k as int), empresas@).libres),
            cuantas == resolver_activos(psv.take(k as int), empresas@).libres.len(),
            cuantas <= k,
        decreases ps.len() - k,
    {
        let ghost previas = resolver_activos(psv.take(k as int), empresas@).libres;
        proof {
            assert(psv.take(k + 1).drop_last() =~= psv.take(k as int));
            assert(psv.take(k + 1).last() == ps@[k as int]@);
        }
        let t = interpretar(ps[k].as_slice());
        if !aplicar_clave(&mut filtro, &t, empresas) {
            agregar_libre(&mut libres, cuantas, ps[k].as_slice(), Ghost(previas));
            cuantas += 1;
        }
        k += 1;
    }
    proof {
        assert(psv.take(psv.len() as int) =~= psv);
    }
    (filtro, libres)
}

/// Espera (ms) tras la última tecla antes de buscar.
pub const DURACION_DEBOUNCE_MS: u64 = 120;

/// Columnas de la tabla de activos.
#[derive(Clone, Copy, Debug, PartialEq, Eq, Structural)]
pub enum Columna {
    Cedula,
    Nombre,
    Empresa,
    Tipo,
    Hora,
    Gafete,
    Medio,
    Usuario,
}

pub open spec fn todas_las_columnas() -> Seq<Columna> {
    seq![
        Columna::Cedula,
        Columna::Nombre,
        Columna::Empresa,
        Columna::Tipo,
        Columna::Hora,
        Columna::Gafete,
        Columna::Medio,
        Columna::Usuario,
    ]
}

pub open spec fn clave_columna(c: Columna) -> Seq<char> {
    match c {
        Columna::Cedula => "cedula"@,
        Columna::Nombre => "nombre"@,
        Columna::Empresa => "empresa"@,
        Columna::Tipo => "tipo"@,
        Columna::Hora => "hora"@,
        Columna::Gafete => "gafete"@,
        Columna::Medio => "medio"@,
        Columna::Usuario => "usuario"@,
    }
}

impl Columna {
    pub fn todas() -> (r: Vec<Columna>)
        ensures
            r@ == todas_las_columnas(),
    {
        let mut r: Vec<Columna> = Vec::new();
        r.push(Columna::Cedula);
        r.push(Columna::Nombre);
        r.push(Columna::Empresa);
        r.push(Columna::Tipo);
        r.push(Columna::Hora);
        r.push(Columna::Gafete);
        r.push(Columna::Medio);
        r.push(Columna::Usuario);
        assert(r@ =~= todas_las_columnas());
        r
    }

    /// Encabezado de la columna.
    pub fn titulo(self) -> (r: &'static str)
        ensures
            r@ == match self {
                Columna::Cedula => "CÉDULA"@,
                Columna::Nombre => "NOMBRE"@,
                Columna::Empresa => "EMPRESA"@,
                Columna::Tipo => "TIPO"@,
                Columna::Hora => "HORA"@,
                Columna::Gafete => "GAFETE"@,
                Columna::Medio => "MEDIO"@,
                Columna::Usuario => "DA INGRESO"@,
            },
    {
        match self {
            Columna::Cedula => "CÉDULA",
            Columna::Nombre => "NOMBRE",
            Columna::Empresa => "EMPRESA",
            Columna::Tipo => "TIPO",
            Columna::Hora => "HORA",
            Columna::Gafete => "GAFETE",
            Columna::Medio => "MEDIO",
            Columna::Usuario => "DA INGRESO",
        }
    }

    /// Nombre con que se guarda la preferencia de columnas.
    pub fn clave(self) -> (r: &'static str)
        ensures
            r@ == clave_columna(self),
    {
        match self {
            Columna::Cedula => "cedula",
            Columna::Nombre => "nombre",
            Columna::Empresa => "empresa",
            Columna::Tipo => "tipo",
            Columna::Hora => "hora",
            Columna::Gafete => "gafete",
            Columna::Medio => "medio",
            Columna::Usuario => "usuario",
        }
    }
}

/// En qué está la pantalla.
#[derive(Clone, Debug, PartialEq, Eq)]
pub enum ModoActivos {
    Normal,
    Busqueda { texto: TextInput },
    ConfirmarSalida { id: i64 },
    Columnas { seleccion: usize },
}

/// Lo que la pantalla pide a la aplicación.
#[derive(Clone, Debug, PartialEq, Eq)]
pub enum AccionActivos {
    Ninguna,
    Volver,
    Buscar {
        texto: Option<String>,
        seleccionar_id: Option<i64>,
        empresa_id: Option<Igualdad<i64>>,
        tipos: Option<Vec<TipoIngreso>>,
        gafete: Option<Igualdad<i64>>,
        medio: Option<MedioIngreso>,
    },
    RegistrarSalida { registro_id: i64, nombre: String },
}

/// La acción es la búsqueda que corresponde a `filtro` (texto de búsqueda),
/// seleccionando `id` al volver.
pub open spec fn es_busqueda(
    a: AccionActivos,
    filtro: Seq<char>,
    empresas: Seq<Empresa>,
    id: Option<i64>,
) -> bool {
    let res = resolver_activos(palabras(filtro), empresas);
    let libre = unidas(res.libres);
    &&& a matches AccionActivos::Buscar { texto, seleccionar_id, empresa_id, tipos, gafete, medio }
    &&& seleccionar_id == id
    &&& empresa_id == res.filtro.empresa_id
    &&& vista_tipos(tipos) == res.filtro.tipos
    &&& gafete == res.filtro.gafete
    &&& medio == res.filtro.medio
    &&& (texto is Some) == !solo_blancos(libre)
    &&& (texto matches Some(t) ==> t@ == libre)
}

/// Mensaje que confirma una operación exitosa (empieza con `✓`).
pub open spec fn es_exito(m: Option<String>) -> bool {
    m matches Some(t) && t@.len() > 0 && t@[0] == '✓'
}

/// Estado de la pantalla de ingresos activos.
#[derive(Debug)]
pub struct ActivosState {
    pub registros: Vec<IngresoActivoResumen>,
    pub total_activos: usize,
    pub seleccion: Option<usize>,
    pub modo: ModoActivos,
    pub columnas: Vec<(Columna, bool)>,
    pub mensaje: Option<String>,
    pub filtro: String,
    pub empresas: Vec<Empresa>,
    pub ayuda_expandida: bool,
    pub busqueda_debounce: Debounce,
}

/// Cuántas columnas están visibles.
pub open spec fn visibles<C>(c: Seq<(C, bool)>) -> nat
    decreases c.len(),
{
    if c.len() == 0 {
        0
    } else {
        visibles(c.drop_last()) + if c.last().1 {
            1nat
        } else {
            0
        }
    }
}

/// Posición del registro con ese id, si está.
pub open spec fn posicion_registro(r: Seq<IngresoActivoResumen>, id: i64) -> Option<int> {
    primero(r.len() as int, |i: int| r[i].registro_id == id)
}

impl Default for ActivosState {
    fn default() -> (s: ActivosState)
        ensures
            s.bien_formado(),
            s.registros@.len() == 0,
            s.total_activos == 0,
            s.seleccion is None,
            s.modo == ModoActivos::Normal,
            s.mensaje is None,
            s.filtro@.len() == 0,
            s.empresas@.len() == 0,
            !s.ayuda_expandida,
            s.busqueda_debounce.pendiente is None,
            s.columnas@.map_values(|c: (Columna, bool)| c.0) == todas_las_columnas(),
            forall|i: int|
                0 <= i < 8 ==> #[trigger] s.columnas@[i].1 == (i != 6 && i != 7),
    {
        let todas = Columna::todas();
        let mut columnas: Vec<(Columna, bool)> = Vec::new();
        let mut k: usize = 0;
        while k < todas.len()
            invariant
                k <= todas.len(),
                todas@ == todas_las_columnas(),
                columnas@.len() == k,
                forall|i: int|
                    0 <= i < k ==> #[trigger] columnas@[i] == (todas@[i], (i != 6 && i != 7)),
            decreases todas.len() - k,
        {
            let c = todas[k];
            let visible = match c {
                Columna::Medio | Columna::Usuario => false,
                _ => true,
            };
            columnas.push((c, visible));
            k += 1;
        }
        assert(columnas@.map_values(|c: (Columna, bool)| c.0) =~= todas_las_columnas());
        ActivosState {
            registros: Vec::new(),
            total_activos: 0,
            seleccion: None,
            modo: ModoActivos::Normal,
            columnas,
            mensaje: None,
            filtro: String::new(),
            empresas: Vec::new(),
            ayuda_expandida: false,
            busqueda_debounce: Debounce::nuevo(),
        }
    }

}

impl ActivosState {
    /// La selección apunta a un registro y el editor de columnas a una
    /// columna existente.
    pub open spec fn bien_formado(&self) -> bool {
        &&& self.seleccion matches Some(i) ==> i < self.registros.len()
        &&& self.columnas.len() == 8
        &&& self.modo matches ModoActivos::Columnas { seleccion } ==> seleccion < 8
    }

    /// Registros cargados.
    pub fn cantidad(&self) -> (r: usize)
        ensures
            r == self.registros@.len(),
    {
        self.registros.len()
    }

    /// Total real de personas dentro (no sólo las cargadas).
    pub fn total_activos(&self) -> (r: usize)
        ensures
            r == self.total_activos,
    {
        self.total_activos
    }

    pub fn modo(&self) -> (r: &ModoActivos)
        ensures
            r == self.modo,
    {
        &self.modo
    }

    /// Recibe el catálogo de empresas (un error lo deja como estaba).
    pub fn completar_empresas(&mut self, r: Result<Vec<Empresa>, String>)
        requires
            old(self).bien_formado(),
        ensures
            final(self).bien_formado(),
            *final(self) == (match r {
                Ok(e) => ActivosState { empresas: e, ..*old(self) },
                Err(_) => *old(self),
            }),
    {
        if let Ok(e) = r {
            self.empresas = e;
        }
    }

    /// La búsqueda que corresponde al texto actual.
    pub fn buscar(&self, id: Option<i64>) -> (a: AccionActivos)
        ensures
            es_busqueda(a, self.filtro@, self.empresas@, id),
    {
        let texto = caracteres(self.filtro.as_str());
        let (filtro, libre) = parsear_consulta(texto.as_slice(), self.empresas.as_slice());
        let texto = if es_vacio_recortado(libre.as_slice()) {
            None
        } else {
            Some(texto_de(libre.as_slice()))
        };
        AccionActivos::Buscar {
            texto,
            seleccionar_id: id,
            empresa_id: filtro.empresa_id,
            tipos: filtro.tipos_incluidos,
            gafete: filtro.gafete_numero,
            medio: filtro.medio_ingreso,
        }
    }

    /// Id del registro seleccionado.
    pub fn id_seleccionado(&self) -> (r: Option<i64>)
        requires
            self.bien_formado(),
        ensures
            r == (match self.seleccion {
                Some(i) => Some(self.registros@[i as int].registro_id),
                None => None,
            }),
    {
        match self.seleccion {
            Some(i) => Some(self.registros[i].registro_id),
            None => None,
        }
    }

    /// Recarga con la búsqueda actual, conservando la fila seleccionada.
    pub fn solicitud_carga(&self) -> (a: AccionActivos)
        requires
            self.bien_formado(),
        ensures
            es_busqueda(
                a,
                self.filtro@,
                self.empresas@,
                match self.seleccion {
                    Some(i) => Some(self.registros@[i as int].registro_id),
                    None => None,
                },
            ),
    {
        self.buscar(self.id_seleccionado())
    }

    /// El registro seleccionado.
    pub fn seleccionado(&self) -> (r: Option<&IngresoActivoResumen>)
        requires
            self.bien_formado(),
        ensures
            r == (match self.seleccion {
                Some(i) => Some(&self.registros@[i as int]),
                None => None,
            }),
    {
        match self.seleccion {
            Some(i) => Some(&self.registros[i]),
            None => None,
        }
    }

    /// El registro con ese id.
    pub fn registro(&self, id: i64) -> (r: Option<&IngresoActivoResumen>)
        ensures
            r == (match posicion_registro(self.registros@, id) {
                Some(i) => Some(&self.registros@[i]),
                None => None,
            }),
    {
        match posicion(self.registros.as_slice(), id) {
            Some(i) => Some(&self.registros[i]),
            None => None,
        }
    }

    /// Primera fila visible en una tabla de `c` filas.
    pub fn inicio_visible(&self, c: usize) -> (r: usize)
        ensures
            r == inicio_ventana(self.seleccion, c),
    {
        crate::ui::inicio_visible(self.seleccion, c)
    }

    /// Sube (`d < 0`) o baja la selección sin salirse de la lista.
    pub fn mover(&mut self, d: isize)
        requires
            old(self).bien_formado(),
        ensures
            final(self).bien_formado(),
            final(self).seleccion == movida(old(self).seleccion, d as int, old(self).registros@.len()),
            final(self).registros == old(self).registros,
            final(self).modo == old(self).modo,
            final(self).columnas == old(self).columnas,
            final(self).mensaje == old(self).mensaje,
            final(self).filtro == old(self).filtro,
            final(self).empresas == old(self).empresas,
            final(self).ayuda_expandida == old(self).ayuda_expandida,
            final(self).busqueda_debounce == old(self).busqueda_debounce,
            final(self).total_activos == old(self).total_activos,
    {
        self.seleccion = mover_seleccion(self.seleccion, d, self.registros.len());
    }

    /// Recibe el resultado de una búsqueda: reemplaza los registros, deja un
    /// mensaje de éxito previo y selecciona `id` si está (o la primera fila).
    pub fn completar_busqueda(&mut self, r: Result<ListaIngresosActivosResumen, String>, id: Option<i64>)
        requires
            old(self).bien_formado(),
        ensures
            final(self).bien_formado(),
            final(self).modo == old(self).modo,
            final(self).columnas == old(self).columnas,
            final(self).filtro == old(self).filtro,
            final(self).empresas == old(self).empresas,
            match r {
                Ok(lista) => {
                    &&& final(self).registros@ == lista.items@
                    &&& final(self).total_activos == lista.total
                    &&& final(self).mensaje == (if es_exito(old(self).mensaje) {
                        old(self).mensaje
                    } else {
                        None
                    })
                    &&& final(self).seleccion == (match id {
                        Some(x) => match posicion_registro(lista.items@, x) {
                            Some(i) => Some(i as usize),
                            None => if lista.items@.len() > 0 {
                                Some(0usize)
                            } else {
                                None
                            },
                        },
                        None => if lista.items@.len() > 0 {
                            Some(0usize)
                        } else {
                            None
                        },
                    })
                },
                Err(e) => {
                    &&& final(self).registros@.len() == 0
                    &&& final(self).total_activos == 0
                    &&& final(self).seleccion is None
                    &&& final(self).mensaje == Some(e)
                },
            },
    {
        match r {
            Ok(resultado) => {
                self.registros = resultado.items;
                self.total_activos = resultado.total;
                if !mensaje_de_exito(&self.mensaje) {
                    self.mensaje = None;
                }
                let pos = match id {
                    Some(x) => posicion(self.registros.as_slice(), x),
                    None => None,
                };
                self.seleccion = match pos {
                    Some(i) => Some(i),
                    None => if self.registros.len() > 0 {
                        Some(0)
                    } else {
                        None
                    },
                };
            },
            Err(e) => {
                self.registros = Vec::new();
                self.total_activos = 0;
                self.seleccion = None;
                self.mensaje = Some(e);
            },
        }
    }

    /// Tras registrar (o no) una salida: vuelve a la tabla, limpia la
    /// búsqueda si salió bien y recarga.
    pub fn completar_salida(&mut self, r: Result<(), String>, id: i64, nombre: &str) -> (a:
        AccionActivos)
        requires
            old(self).bien_formado(),
        ensures
            final(self).bien_formado(),
            final(self).modo == ModoActivos::Normal,
            final(self).registros == old(self).registros,
            final(self).seleccion == old(self).seleccion,
            final(self).empresas == old(self).empresas,
            match r {
                Ok(()) => {
                    &&& final(self).filtro@.len() == 0
                    &&& (final(self).mensaje matches Some(m) && m@ == "✓ Salida registrada — "@
                        + nombre@)
                    &&& es_busqueda(a, Seq::empty(), old(self).empresas@, Some(id))
                },
                Err(e) => {
                    &&& final(self).filtro == old(self).filtro
                    &&& final(self).mensaje == Some(e)
                    &&& es_busqueda(a, old(self).filtro@, old(self).empresas@, None)
                },
            },
    {
        self.modo = ModoActivos::Normal;
        match r {
            Ok(()) => {
                self.filtro = String::new();
                let m = unir(
                    caracteres("✓ Salida registrada — ").as_slice(),
                    caracteres(nombre).as_slice(),
                );
                self.mensaje = Some(texto_de(m.as_slice()));
                self.buscar(Some(id))
            },
            Err(e) => {
                self.mensaje = Some(e);
                self.buscar(None)
            },
        }
    }

    /// Dispara la búsqueda diferida cuando pasó la espera desde la última
    /// tecla (`ahora` en ms).
    pub fn tick(&mut self, ahora: u64) -> (a: AccionActivos)
        requires
            old(self).bien_formado(),
        ensures
            final(self).bien_formado(),
            paso_del_tiempo(*old(self), *final(self), ahora, a),
    {
        if self.busqueda_debounce.listo(ahora, DURACION_DEBOUNCE_MS) {
            self.buscar(None)
        } else {
            AccionActivos::Ninguna
        }
    }
}

impl ActivosState {
    /// Claves de las columnas visibles separadas por comas, para guardar la
    /// preferencia.
    pub fn columnas_preferencia(&self) -> (r: String)
        ensures
            r@ == unidas_con(claves_visibles(self.columnas@), ','),
    {
        let mut acc: Vec<char> = Vec::new();
        let mut cuantas: usize = 0;
        let mut k: usize = 0;
        while k < self.columnas.len()
            invariant
                k <= self.columnas.len(),
                acc@ == unidas_con(claves_visibles(self.columnas@.take(k as int)), ','),
                cuantas == claves_visibles(self.columnas@.take(k as int)).len(),
                cuantas <= k,
            decreases self.columnas.len() - k,
        {
            let ghost previas = claves_visibles(self.columnas@.take(k as int));
            proof {
                assert(self.columnas@.take(k + 1).drop_last() =~= self.columnas@.take(k as int));
            }
            let (c, visible) = self.columnas[k];
            if visible {
                let clave = caracteres(c.clave());
                agregar_separado(&mut acc, cuantas, clave.as_slice(), ',', Ghost(previas));
                cuantas += 1;
            }
            k += 1;
        }
        proof {
            assert(self.columnas@.take(self.columnas@.len() as int) =~= self.columnas@);
        }
        texto_de(acc.as_slice())
    }

    /// Aplica una preferencia guardada: visibles quedan exactamente las
    /// columnas nombradas, salvo que no nombre ninguna (entonces no cambia
    /// nada).
    pub fn aplicar_columnas_preferencia(&mut self, valor: &str)
        requires
            old(self).bien_formado(),
        ensures
            final(self).bien_formado(),
            final(self).columnas@ == preferencia_aplicada(old(self).columnas@, valores(valor@)),
            final(self).registros == old(self).registros,
            final(self).seleccion == old(self).seleccion,
            final(self).modo == old(self).modo,
            final(self).filtro == old(self).filtro,
    {
        let claves = separar_valores(caracteres(valor).as_slice());
        let ghost cv = vistas(claves@);
        let mut alguna = false;
        let mut k: usize = 0;
        while k < self.columnas.len()
            invariant
                k <= self.columnas.len(),
                cv == vistas(claves@),
                alguna == exists|i: int|
                    0 <= i < k && #[trigger] cv.contains(clave_columna(self.columnas@[i].0)),
            decreases self.columnas.len() - k,
        {
            let clave = caracteres(self.columnas[k].0.clave());
            if esta_en(&claves, clave.as_slice()) {
                alguna = true;
            }
            k += 1;
        }
        if !alguna {
            return;
        }
        let ghost viejas = self.columnas@;
        let mut nuevas: Vec<(Columna, bool)> = Vec::new();
        let mut k: usize = 0;
        while k < self.columnas.len()
            invariant
                k <= self.columnas.len(),
                viejas == self.columnas@,
                cv == vistas(claves@),
                nuevas@.len() == k,
                forall|i: int|
                    0 <= i < k ==> #[trigger] nuevas@[i] == (viejas[i].0, cv.contains(
                        clave_columna(viejas[i].0),
                    )),
            decreases self.columnas.len() - k,
        {
            let c = self.columnas[k].0;
            let clave = caracteres(c.clave());
            let visible = esta_en(&claves, clave.as_slice());
            nuevas.push((c, visible));
            k += 1;
        }
        self.columnas = nuevas;
        assert(self.columnas@ =~= preferencia_aplicada(viejas, cv));
    }

    /// Aplica una tecla según el modo: mover, confirmar salida, buscar,
    /// editar columnas o volver. La tecla se toma como pulsada ahora, según
    /// el reloj.
    pub fn handle_key(&mut self, k: Tecla) -> (a: AccionActivos)
        requires
            old(self).bien_formado(),
        ensures
            final(self).bien_formado(),
            exists|ahora: u64| #[trigger] tecla_en(*old(self), *final(self), k, a, ahora),
    {
        let ahora = reloj_ms();
        self.handle_key_en(k, ahora)
    }

    /// Aplica la tecla `k` pulsada en el instante `ahora` (ms).
    pub fn handle_key_en(&mut self, k: Tecla, ahora: u64) -> (a: AccionActivos)
        requires
            old(self).bien_formado(),
        ensures
            final(self).bien_formado(),
            tecla_en(*old(self), *final(self), k, a, ahora),
    {
        if comando_estandar(k).is_some() {
            self.ayuda_expandida = !self.ayuda_expandida;
            return AccionActivos::Ninguna;
        }
        match &self.modo {
            ModoActivos::Normal => self.normal(k),
            ModoActivos::Busqueda { .. } => self.busqueda(k, ahora),
            ModoActivos::ConfirmarSalida { id } => {
                let id = *id;
                self.confirmar(k, id)
            },
            ModoActivos::Columnas { seleccion } => {
                let s = *seleccion;
                self.editar_columnas(k, s);
                AccionActivos::Ninguna
            },
        }
    }

    fn normal(&mut self, k: Tecla) -> (a: AccionActivos)
        requires
            old(self).bien_formado(),
            old(self).modo == ModoActivos::Normal,
        ensures
            final(self).bien_formado(),
            tecla_normal(*old(self), *final(self), k, a),
    {
        match k.codigo {
            Codigo::Enter | Codigo::Char('/') | Codigo::Esc => {
                self.mensaje = None;
            },
            _ => {},
        }
        match k.codigo {
            Codigo::Up => self.mover(-1),
            Codigo::Down => self.mover(1),
            Codigo::Enter => {
                if let Some(id) = self.id_seleccionado() {
                    self.modo = ModoActivos::ConfirmarSalida { id };
                }
            },
            Codigo::Char('/') => {
                self.modo = ModoActivos::Busqueda { texto: TextInput::vacio() };
            },
            Codigo::F(4) => {
                self.modo = ModoActivos::Columnas { seleccion: 0 };
            },
            Codigo::Esc => {
                if caracteres(self.filtro.as_str()).len() > 0 {
                    self.filtro = String::new();
                    return self.buscar(None);
                }
                return AccionActivos::Volver;
            },
            _ => {},
        }
        AccionActivos::Ninguna
    }

    fn busqueda(&mut self, k: Tecla, ahora: u64) -> (a: AccionActivos)
        requires
            old(self).bien_formado(),
            old(self).modo is Busqueda,
        ensures
            final(self).bien_formado(),
            tecla_busqueda(*old(self), *final(self), old(self).modo->texto, k, a, ahora),
    {
        match k.codigo {
            Codigo::Esc => {
                self.filtro = String::new();
                self.modo = ModoActivos::Normal;
                self.buscar(None)
            },
            Codigo::Enter => {
                self.modo = ModoActivos::Normal;
                AccionActivos::Ninguna
            },
            Codigo::Up => {
                self.mover(-1);
                AccionActivos::Ninguna
            },
            Codigo::Down => {
                self.mover(1);
                AccionActivos::Ninguna
            },
            _ => {
                let mut texto = match &self.modo {
                    ModoActivos::Busqueda { texto } => texto.clone(),
                    _ => TextInput::vacio(),
                };
                let cambio = texto.handle_key(k);
                self.filtro = texto.texto();
                self.modo = ModoActivos::Busqueda { texto };
                if cambio {
                    self.busqueda_debounce.marcar(ahora);
                }
                AccionActivos::Ninguna
            },
        }
    }

    fn confirmar(&mut self, k: Tecla, id: i64) -> (a: AccionActivos)
        requires
            old(self).bien_formado(),
            old(self).modo == (ModoActivos::ConfirmarSalida { id }),
        ensures
            final(self).bien_formado(),
            tecla_confirmar(*old(self), *final(self), id, k, a),
    {
        let nombre = match self.registro(id) {
            Some(r) => r.contratista_nombre.clone(),
            None => String::new(),
        };
        self.confirmar_registro(k, id, nombre)
    }

    fn confirmar_registro(&mut self, k: Tecla, id: i64, nombre: String) -> (a: AccionActivos)
        requires
            old(self).bien_formado(),
        ensures
            final(self).bien_formado(),
            final(self).registros == old(self).registros,
            final(self).seleccion == old(self).seleccion,
            final(self).filtro == old(self).filtro,
            final(self).mensaje == old(self).mensaje,
            final(self).columnas == old(self).columnas,
            final(self).empresas == old(self).empresas,
            final(self).busqueda_debounce == old(self).busqueda_debounce,
            final(self).ayuda_expandida == old(self).ayuda_expandida,
            k.codigo == Codigo::Enter ==> a == (AccionActivos::RegistrarSalida {
                registro_id: id,
                nombre,
            }) && final(self).modo == old(self).modo,
            k.codigo == Codigo::Esc ==> a == AccionActivos::Ninguna && final(self).modo
                == ModoActivos::Normal,
            k.codigo != Codigo::Enter && k.codigo != Codigo::Esc ==> a == AccionActivos::Ninguna
                && final(self).modo == old(self).modo,
    {
        match k.codigo {
            Codigo::Enter => AccionActivos::RegistrarSalida { registro_id: id, nombre },
            Codigo::Esc => {
                self.modo = ModoActivos::Normal;
                AccionActivos::Ninguna
            },
            _ => AccionActivos::Ninguna,
        }
    }

    fn editar_columnas(&mut self, k: Tecla, s: usize)
        requires
            old(self).bien_formado(),
            old(self).modo == (ModoActivos::Columnas { seleccion: s }),
        ensures
            final(self).bien_formado(),
            tecla_columnas(*old(self), *final(self), s, k),
            visibles(old(self).columnas@) >= 1 ==> visibles(final(self).columnas@) >= 1,
    {
        let u = self.columnas.len() - 1;
        match k.codigo {
            Codigo::Up => {
                self.modo = ModoActivos::Columnas { seleccion: if s > 0 { s - 1 } else { 0 } };
            },
            Codigo::Down => {
                self.modo = ModoActivos::Columnas { seleccion: if s + 1 < u { s + 1 } else { u } };
            },
            Codigo::Char(' ') => {
                let n = contar_visibles(self.columnas.as_slice());
                let (c, visible) = self.columnas[s];
                if visible && n == 1 {
                    self.mensaje = Some(texto_de(
                        caracteres("Debe conservar al menos una columna").as_slice(),
                    ));
                } else {
                    let ghost antes = self.columnas@;
                    self.columnas.set(s, (c, !visible));
                    proof {
                        lema_visibles_cambio(antes, s as int, !visible);
                    }
                }
            },
            Codigo::Esc => {
                self.modo = ModoActivos::Normal;
            },
            _ => {},
        }
    }
}

/// Lo que hace una tecla en modo normal.
pub open spec fn tecla_normal(
    viejo: ActivosState,
    nuevo: ActivosState,
    k: Tecla,
    a: AccionActivos,
) -> bool {
    let limpia = k.codigo == Codigo::Enter || k.codigo == Codigo::Char('/') || k.codigo
        == Codigo::Esc;
    &&& nuevo.registros == viejo.registros
    &&& nuevo.empresas == viejo.empresas
    &&& nuevo.columnas == viejo.columnas
    &&& nuevo.ayuda_expandida == viejo.ayuda_expandida
    &&& nuevo.busqueda_debounce == viejo.busqueda_debounce
    &&& nuevo.mensaje == (if limpia {
        None
    } else {
        viejo.mensaje
    })
    &&& nuevo.seleccion == (if k.codigo == Codigo::Up {
        movida(viejo.seleccion, -1, viejo.registros@.len())
    } else if k.codigo == Codigo::Down {
        movida(viejo.seleccion, 1, viejo.registros@.len())
    } else {
        viejo.seleccion
    })
    &&& nuevo.modo == (if k.codigo == Codigo::Enter {
        match viejo.seleccion {
            Some(i) => ModoActivos::ConfirmarSalida { id: viejo.registros@[i as int].registro_id },
            None => viejo.modo,
        }
    } else if k.codigo == Codigo::Char('/') {
        nuevo.modo
    } else if k.codigo == Codigo::F(4) {
        ModoActivos::Columnas { seleccion: 0 }
    } else {
        viejo.modo
    })
    &&& k.codigo == Codigo::Char('/') ==> (nuevo.modo matches ModoActivos::Busqueda { texto } && texto@.valor.len() == 0 && texto@.cursor == 0 && texto@.maximo is None)
    &&& if k.codigo == Codigo::Esc {
        if viejo.filtro@.len() > 0 {
            nuevo.filtro@.len() == 0 && es_busqueda(a, Seq::empty(), viejo.empresas@, None)
        } else {
            nuevo.filtro == viejo.filtro && a == AccionActivos::Volver
        }
    } else {
        nuevo.filtro == viejo.filtro && a == AccionActivos::Ninguna
    }
}

/// Lo que hace la tecla `k` pulsada en el instante `ahora` (ms): F1
/// alterna la ayuda; las demás, según el modo.
pub open spec fn tecla_en(
    viejo: ActivosState,
    nuevo: ActivosState,
    k: Tecla,
    a: AccionActivos,
    ahora: u64,
) -> bool {
    &&& nuevo.registros == viejo.registros
    &&& nuevo.empresas == viejo.empresas
    &&& visibles(viejo.columnas@) >= 1 ==> visibles(nuevo.columnas@) >= 1
    &&& es_ayuda(k) ==> {
        &&& a == AccionActivos::Ninguna
        &&& nuevo.ayuda_expandida == !viejo.ayuda_expandida
        &&& nuevo.modo == viejo.modo
        &&& nuevo.filtro == viejo.filtro
        &&& nuevo.seleccion == viejo.seleccion
    }
    &&& !es_ayuda(k) ==> match viejo.modo {
        ModoActivos::Normal => tecla_normal(viejo, nuevo, k, a),
        ModoActivos::Busqueda { texto } => tecla_busqueda(viejo, nuevo, texto, k, a, ahora),
        ModoActivos::ConfirmarSalida { id } => tecla_confirmar(viejo, nuevo, id, k, a),
        ModoActivos::Columnas { seleccion } => {
            &&& a == AccionActivos::Ninguna
            &&& tecla_columnas(viejo, nuevo, seleccion, k)
        },
    }
}

/// Lo que hace pasar el tiempo hasta `ahora`: la búsqueda diferida sale
/// cuando pasó la espera desde la última tecla; nada más cambia.
pub open spec fn paso_del_tiempo(
    viejo: ActivosState,
    nuevo: ActivosState,
    ahora: u64,
    a: AccionActivos,
) -> bool {
    &&& vencio(viejo.busqueda_debounce.pendiente, ahora, DURACION_DEBOUNCE_MS) ==> {
        &&& es_busqueda(a, viejo.filtro@, viejo.empresas@, None)
        &&& nuevo.busqueda_debounce.pendiente is None
    }
    &&& !vencio(viejo.busqueda_debounce.pendiente, ahora, DURACION_DEBOUNCE_MS) ==> {
        &&& a == AccionActivos::Ninguna
        &&& nuevo.busqueda_debounce == viejo.busqueda_debounce
    }
    &&& nuevo.registros == viejo.registros
    &&& nuevo.seleccion == viejo.seleccion
    &&& nuevo.modo == viejo.modo
    &&& nuevo.filtro == viejo.filtro
    &&& nuevo.mensaje == viejo.mensaje
    &&& nuevo.columnas == viejo.columnas
}

/// Una tecla que edita el texto de la búsqueda (no la cierra ni mueve la
/// selección ni pide ayuda).
pub open spec fn escribe_en_busqueda(k: Tecla) -> bool {
    &&& !es_ayuda(k)
    &&& k.codigo != Codigo::Esc
    &&& k.codigo != Codigo::Enter
    &&& k.codigo != Codigo::Up
    &&& k.codigo != Codigo::Down
}

/// Escribir en la búsqueda y dejar pasar la espera pide la búsqueda con el
/// texto escrito.
pub proof fn ley_busqueda_diferida(
    s0: ActivosState,
    s1: ActivosState,
    s2: ActivosState,
    k: Tecla,
    a1: AccionActivos,
    a2: AccionActivos,
    tecleo: u64,
    despues: u64,
)
    requires
        s0.modo matches ModoActivos::Busqueda { texto } && editar(texto@, k).valor
            != texto@.valor,
        escribe_en_busqueda(k),
        tecla_en(s0, s1, k, a1, tecleo),
        paso_del_tiempo(s1, s2, despues, a2),
        despues >= tecleo + DURACION_DEBOUNCE_MS,
    ensures
        s0.modo matches ModoActivos::Busqueda { texto } && es_busqueda(
            a2,
            editar(texto@, k).valor,
            s0.empresas@,
            None,
        ),
{
}

/// Lo que hace una tecla mientras se escribe la búsqueda.
pub open spec fn tecla_busqueda(
    viejo: ActivosState,
    nuevo: ActivosState,
    texto: TextInput,
    k: Tecla,
    a: AccionActivos,
    ahora: u64,
) -> bool {
    &&& nuevo.registros == viejo.registros
    &&& nuevo.empresas == viejo.empresas
    &&& nuevo.columnas == viejo.columnas
    &&& nuevo.mensaje == viejo.mensaje
    &&& nuevo.ayuda_expandida == viejo.ayuda_expandida
    &&& if k.codigo == Codigo::Esc {
        &&& nuevo.filtro@.len() == 0
        &&& nuevo.modo == ModoActivos::Normal
        &&& nuevo.seleccion == viejo.seleccion
        &&& es_busqueda(a, Seq::empty(), viejo.empresas@, None)
    } else if k.codigo == Codigo::Enter {
        &&& nuevo.filtro == viejo.filtro
        &&& nuevo.modo == ModoActivos::Normal
        &&& nuevo.seleccion == viejo.seleccion
        &&& a == AccionActivos::Ninguna
    } else if k.codigo == Codigo::Up || k.codigo == Codigo::Down {
        &&& nuevo.filtro == viejo.filtro
        &&& nuevo.modo == viejo.modo
        &&& nuevo.seleccion == movida(
            viejo.seleccion,
            if k.codigo == Codigo::Up {
                -1
            } else {
                1
            },
            viejo.registros@.len(),
        )
        &&& a == AccionActivos::Ninguna
    } else {
        &&& (nuevo.modo matches ModoActivos::Busqueda { texto: t } && t@ == editar(texto@, k))
        &&& nuevo.filtro@ == editar(texto@, k).valor
        &&& nuevo.seleccion == viejo.seleccion
        &&& a == AccionActivos::Ninguna
        &&& (editar(texto@, k).valor != texto@.valor ==> nuevo.busqueda_debounce.pendiente == Some(ahora))
        &&& (editar(texto@, k).valor == texto@.valor ==> nuevo.busqueda_debounce
            == viejo.busqueda_debounce)
    }
}

/// Lo que hace una tecla mientras se confirma la salida del registro `id`.
pub open spec fn tecla_confirmar(
    viejo: ActivosState,
    nuevo: ActivosState,
    id: i64,
    k: Tecla,
    a: AccionActivos,
) -> bool {
    &&& nuevo.registros == viejo.registros
    &&& nuevo.seleccion == viejo.seleccion
    &&& nuevo.filtro == viejo.filtro
    &&& nuevo.mensaje == viejo.mensaje
    &&& nuevo.columnas == viejo.columnas
    &&& nuevo.empresas == viejo.empresas
    &&& if k.codigo == Codigo::Enter {
        &&& a matches AccionActivos::RegistrarSalida { registro_id, nombre }
        &&& registro_id == id
        &&& nombre@ == (match posicion_registro(viejo.registros@, id) {
            Some(i) => viejo.registros@[i].contratista_nombre@,
            None => Seq::<char>::empty(),
        })
        &&& nuevo.modo == viejo.modo
    } else if k.codigo == Codigo::Esc {
        a == AccionActivos::Ninguna && nuevo.modo == ModoActivos::Normal
    } else {
        a == AccionActivos::Ninguna && nuevo.modo == viejo.modo
    }
}

/// Lo que hace una tecla en el editor de columnas (posición `s`).
pub open spec fn tecla_columnas(viejo: ActivosState, nuevo: ActivosState, s: usize, k: Tecla) -> bool {
    &&& nuevo.registros == viejo.registros
    &&& nuevo.seleccion == viejo.seleccion
    &&& nuevo.filtro == viejo.filtro
    &&& nuevo.empresas == viejo.empresas
    &&& if k.codigo == Codigo::Up {
        nuevo.modo == (ModoActivos::Columnas { seleccion: if s > 0 { (s - 1) as usize } else { 0 } })
            && nuevo.columnas == viejo.columnas
    } else if k.codigo == Codigo::Down {
        nuevo.modo == (ModoActivos::Columnas {
            seleccion: if s + 1 < 7 {
                (s + 1) as usize
            } else {
                7
            },
        }) && nuevo.columnas == viejo.columnas
    } else if k.codigo == Codigo::Char(' ') {
        &&& nuevo.modo == viejo.modo
        &&& if viejo.columnas@[s as int].1 && visibles(viejo.columnas@) == 1 {
            &&& nuevo.columnas == viejo.columnas
            &&& (nuevo.mensaje matches Some(m) && m@ == "Debe conservar al menos una columna"@)
        } else {
            &&& nuevo.columnas@ == viejo.columnas@.update(
                s as int,
                (viejo.columnas@[s as int].0, !viejo.columnas@[s as int].1),
            )
            &&& nuevo.mensaje == viejo.mensaje
        }
    } else if k.codigo == Codigo::Esc {
        nuevo.modo == ModoActivos::Normal && nuevo.columnas == viejo.columnas
    } else {
        nuevo.modo == viejo.modo && nuevo.columnas == viejo.columnas
    }
}

/// Claves de las columnas visibles, en orden.
pub open spec fn claves_visibles(c: Seq<(Columna, bool)>) -> Seq<Seq<char>>
    decreases c.len(),
{
    if c.len() == 0 {
        Seq::empty()
    } else if c.last().1 {
        claves_visibles(c.drop_last()).push(clave_columna(c.last().0))
    } else {
        claves_visibles(c.drop_last())
    }
}

/// Columnas tras aplicar una preferencia con esas claves.
pub open spec fn preferencia_aplicada(c: Seq<(Columna, bool)>, claves: Seq<Seq<char>>) -> Seq<
    (Columna, bool),
> {
    if exists|i: int| 0 <= i < c.len() && #[trigger] claves.contains(clave_columna(c[i].0)) {
        Seq::new(c.len(), |i: int| (c[i].0, claves.contains(clave_columna(c[i].0))))
    } else {
        c
    }
}

pub(crate) fn esta_en(claves: &Vec<Vec<char>>, x: &[char]) -> (r: bool)
    ensures
        r == vistas(claves@).contains(x@),
{
    let mut k: usize = 0;
    while k < claves.len()
        invariant
            k <= claves.len(),
            forall|j: int| 0 <= j < k ==> vistas(claves@)[j] != x@,
        decreases claves.len() - k,
    {
        if crate::texto::iguales(claves[k].as_slice(), x) {
            assert(vistas(claves@)[k as int] == x@);
            return true;
        }
        k += 1;
    }
    false
}

pub(crate) fn contar_visibles<C: Copy>(c: &[(C, bool)]) -> (n: usize)
    ensures
        n == visibles(c@),
{
    let mut n: usize = 0;
    let mut k: usize = 0;
    while k < c.len()
        invariant
            k <= c.len(),
            n == visibles(c@.take(k as int)),
            n <= k,
        decreases c.len() - k,
    {
        proof {
            assert(c@.take(k + 1).drop_last() =~= c@.take(k as int));
        }
        if c[k].1 {
            n += 1;
        }
        k += 1;
    }
    proof {
        assert(c@.take(c@.len() as int) =~= c@);
    }
    n
}

/// Cambiar la visibilidad de una columna suma o resta uno al total.
pub proof fn lema_visibles_cambio<C>(c: Seq<(C, bool)>, s: int, v: bool)
    requires
        0 <= s < c.len(),
    ensures
        visibles(c.update(s, (c[s].0, v))) + (if c[s].1 {
            1int
        } else {
            0
        }) == visibles(c) + (if v {
            1int
        } else {
            0
        }),
    decreases c.len(),
{
    let d = c.update(s, (c[s].0, v));
    if s == c.len() - 1 {
        assert(d.drop_last() =~= c.drop_last());
    } else {
        assert(d.drop_last() =~= c.drop_last().update(s, (c[s].0, v)));
        lema_visibles_cambio(c.drop_last(), s, v);
    }
}

/// Nombre de la empresa con ese id (o `?` si no está en el catálogo).
pub open spec fn nombre_de_empresa(empresas: Seq<Empresa>, id: i64) -> Seq<char> {
    match primero(empresas.len() as int, |i: int| empresas[i].id == id) {
        Some(i) => empresas[i].nombre@,
        None => "?"@,
    }
}

pub open spec fn signo(negado: bool) -> Seq<char> {
    if negado {
        "≠"@
    } else {
        "="@
    }
}

pub open spec fn nombre_sql(t: TipoIngreso) -> Seq<char> {
    match t {
        TipoIngreso::Praind => "PRAIND"@,
        TipoIngreso::InHouse => "IN_HOUSE"@,
        TipoIngreso::PorCorreo => "POR_CORREO"@,
        TipoIngreso::Swat => "SWAT"@,
    }
}

/// Palabras con forma `clave:valor` que no se pudieron aplicar.
pub open spec fn sin_interpretar(libres: Seq<Seq<char>>) -> Seq<Seq<char>> {
    libres.filter(|w: Seq<char>| termino(w).clave is Some)
}

/// Las partes del resumen de lo que se está filtrando.
pub open spec fn partes_resumen(
    f: FiltroActivosVista,
    libres: Seq<Seq<char>>,
    empresas: Seq<Empresa>,
) -> Seq<Seq<char>> {
    (match f.empresa_id {
        Some(e) => seq![
            "empresa"@ + signo(e is Excluye) + nombre_de_empresa(
                empresas,
                match e {
                    Igualdad::Incluye(v) => v,
                    Igualdad::Excluye(v) => v,
                },
            ),
        ],
        None => Seq::empty(),
    }) + (match f.tipos {
        Some(ts) => seq!["tipo="@ + unidas_con(ts.map_values(|t: TipoIngreso| nombre_sql(t)), ',')],
        None => Seq::empty(),
    }) + (match f.gafete {
        Some(g) => seq![
            "gafete"@ + signo(g is Excluye) + decimal_con_signo(
                match g {
                    Igualdad::Incluye(v) => v as int,
                    Igualdad::Excluye(v) => v as int,
                },
            ),
        ],
        None => Seq::empty(),
    }) + (match f.medio {
        Some(MedioIngreso::Caminando) => seq!["medio=caminando"@],
        Some(MedioIngreso::Vehiculo) => seq!["medio=vehículo"@],
        None => Seq::empty(),
    }) + (if sin_interpretar(libres).len() > 0 {
        seq!["⚠ sin interpretar: "@ + unidas_por(sin_interpretar(libres), ", "@)]
    } else {
        Seq::empty()
    })
}

/// Resumen de la búsqueda para mostrar bajo el buscador.
pub open spec fn resumen_activos(filtro: Seq<char>, empresas: Seq<Empresa>) -> Seq<char> {
    if solo_blancos(filtro) {
        "Ejemplo: empresa:Brisas tipo:praind gafete:26"@
    } else {
        let r = resolver_activos(palabras(filtro), empresas);
        unidas_por(partes_resumen(r.filtro, r.libres, empresas), " · "@)
    }
}

pub(crate) fn empresa_por_id(empresas: &[Empresa], id: i64) -> (r: Vec<char>)
    ensures
        r@ == nombre_de_empresa(empresas@, id),
{
    let ghost p = |i: int| empresas@[i].id == id;
    let mut k: usize = 0;
    while k < empresas.len()
        invariant
            k <= empresas.len(),
            p == (|i: int| empresas@[i].id == id),
            forall|j: int| 0 <= j < k ==> !#[trigger] p(j),
        decreases empresas.len() - k,
    {
        if empresas[k].id == id {
            proof {
                assert(es_primero(empresas@.len() as int, p, k as int));
                lema_primero(empresas@.len() as int, p, k as int);
            }
            return caracteres(empresas[k].nombre.as_str());
        }
        assert(!p(k as int));
        k += 1;
    }
    proof {
        lema_ninguno(empresas@.len() as int, p);
    }
    caracteres("?")
}

pub(crate) fn signo_de(negado: bool) -> (r: Vec<char>)
    ensures
        r@ == signo(negado),
{
    if negado {
        caracteres("≠")
    } else {
        caracteres("=")
    }
}

pub(crate) fn tipos_en_sql(ts: &[TipoIngreso]) -> (r: Vec<char>)
    ensures
        r@ == unidas_con(ts@.map_values(|t: TipoIngreso| nombre_sql(t)), ','),
{
    let ghost nombres = ts@.map_values(|t: TipoIngreso| nombre_sql(t));
    let mut acc: Vec<char> = Vec::new();
    let mut k: usize = 0;
    while k < ts.len()
        invariant
            k <= ts.len(),
            nombres == ts@.map_values(|t: TipoIngreso| nombre_sql(t)),
            acc@ == unidas_con(nombres.take(k as int), ','),
        decreases ts.len() - k,
    {
        let n = caracteres(ts[k].as_str_sql());
        proof {
            assert(nombres.take(k + 1).drop_last() =~= nombres.take(k as int));
            assert(nombres.take(k as int).push(n@) =~= nombres.take(k + 1));
        }
        agregar_separado(&mut acc, k, n.as_slice(), ',', Ghost(nombres.take(k as int)));
        k += 1;
    }
    proof {
        assert(nombres.take(ts@.len() as int) =~= nombres);
    }
    acc
}

pub(crate) fn no_interpretadas(libres: &Vec<Vec<char>>) -> (r: Vec<Vec<char>>)
    ensures
        vistas(r@) == sin_interpretar(vistas(libres@)),
{
    let ghost lv = vistas(libres@);
    let mut r: Vec<Vec<char>> = Vec::new();
    let mut k: usize = 0;
    while k < libres.len()
        invariant
            k <= libres.len(),
            lv == vistas(libres@),
            vistas(r@) == lv.take(k as int).filter(|w: Seq<char>| termino(w).clave is Some),
        decreases libres.len() - k,
    {
        proof {
            reveal_with_fuel(Seq::filter, 1);
            assert(lv.take(k + 1).drop_last() =~= lv.take(k as int));
        }
        let t = interpretar(libres[k].as_slice());
        if t.clave.is_some() {
            let ghost antes = r@;
            let w = crate::texto::copiar_rango(libres[k].as_slice(), 0, libres[k].len());
            assert(w@ =~= lv[k as int]);
            r.push(w);
            assert(vistas(r@) =~= vistas(antes).push(lv[k as int]));
        }
        k += 1;
    }
    proof {
        assert(lv.take(lv.len() as int) =~= lv);
    }
    r
}

fn lit(s: &str) -> (r: Vec<char>)
    ensures
        r@ == s@,
{
    caracteres(s)
}

impl ActivosState {
    /// Resume lo que la búsqueda actual está filtrando (y lo que no pudo
    /// interpretar).
    pub fn resumen_consulta(&self) -> (r: String)
        ensures
            r@ == resumen_activos(self.filtro@, self.empresas@),
    {
        let texto = caracteres(self.filtro.as_str());
        if es_vacio_recortado(texto.as_slice()) {
            return texto_de(lit("Ejemplo: empresa:Brisas tipo:praind gafete:26").as_slice());
        }
        let ps = separar_palabras(texto.as_slice());
        let ghost psv = vistas(ps@);
        let mut filtro = FiltroIngresosActivos {
            empresa_id: None,
            tipos_incluidos: None,
            gafete_numero: None,
            medio_ingreso: None,
        };
        let mut libres: Vec<Vec<char>> = Vec::new();
        let mut k: usize = 0;
        while k < ps.len()
            invariant
                k <= ps.len(),
                psv == vistas(ps@),
                filtro@ == resolver_activos(psv.take(k as int), self.empresas@).filtro,
                vistas(libres@) == resolver_activos(psv.take(k as int), self.empresas@).libres,
            decreases ps.len() - k,
        {
            proof {
                assert(psv.take(k + 1).drop_last() =~= psv.take(k as int));
                assert(psv.take(k + 1).last() == ps@[k as int]@);
            }
            let t = interpretar(ps[k].as_slice());
            if !aplicar_clave(&mut filtro, &t, self.empresas.as_slice()) {
                let ghost antes = libres@;
                let w = crate::texto::copiar_rango(ps[k].as_slice(), 0, ps[k].len());
                assert(w@ =~= ps@[k as int]@);
                libres.push(w);
                assert(vistas(libres@) =~= vistas(antes).push(ps@[k as int]@));
            }
            k += 1;
        }
        proof {
            assert(psv.take(psv.len() as int) =~= psv);
        }
        let mut partes: Vec<Vec<char>> = Vec::new();
        let ghost p0 = partes@;
        match filtro.empresa_id {
            Some(e) => {
                let a = unir(lit("empresa").as_slice(), signo_de(e.negado()).as_slice());
                partes.push(unir(a.as_slice(), empresa_por_id(self.empresas.as_slice(), e.valor()).as_slice()));
            },
            None => {},
        }
        let ghost p1 = vistas(partes@);
        match &filtro.tipos_incluidos {
            Some(ts) => {
                partes.push(unir(lit("tipo=").as_slice(), tipos_en_sql(ts.as_slice()).as_slice()));
            },
            None => {},
        }
        let ghost p2 = vistas(partes@);
        match filtro.gafete_numero {
            Some(g) => {
                let a = unir(lit("gafete").as_slice(), signo_de(g.negado()).as_slice());
                partes.push(unir(a.as_slice(), escribir_entero(g.valor()).as_slice()));
            },
            None => {},
        }
        let ghost p3 = vistas(partes@);
        match filtro.medio_ingreso {
            Some(MedioIngreso::Caminando) => {
                partes.push(lit("medio=caminando"));
            },
            Some(MedioIngreso::Vehiculo) => {
                partes.push(lit("medio=vehículo"));
            },
            None => {},
        }
        let ghost p4 = vistas(partes@);
        let no = no_interpretadas(&libres);
        if no.len() > 0 {
            let lista = unir_por(&no, lit(", ").as_slice());
            partes.push(unir(lit("⚠ sin interpretar: ").as_slice(), lista.as_slice()));
        }
        let ghost res = resolver_activos(psv, self.empresas@);
        proof {
            assert(vistas(partes@) =~= partes_resumen(res.filtro, res.libres, self.empresas@));
        }
        let r = unir_por(&partes, lit(" · ").as_slice());
        texto_de(r.as_slice())
    }
}

/// Posición del registro con ese id.
fn posicion(r: &[IngresoActivoResumen], id: i64) -> (p: Option<usize>)
    ensures
        match p {
            Some(i) => posicion_registro(r@, id) == Some(i as int) && i < r@.len(),
            None => posicion_registro(r@, id) is None,
        },
{
    let ghost pr = |i: int| r@[i].registro_id == id;
    let mut k: usize = 0;
    while k < r.len()
        invariant
            k <= r.len(),
            pr == (|i: int| r@[i].registro_id == id),
            forall|j: int| 0 <= j < k ==> !#[trigger] pr(j),
        decreases r.len() - k,
    {
        if r[k].registro_id == id {
            proof {
                assert(es_primero(r@.len() as int, pr, k as int));
                lema_primero(r@.len() as int, pr, k as int);
            }
            return Some(k);
        }
        assert(!pr(k as int));
        k += 1;
    }
    proof {
        lema_ninguno(r@.len() as int, pr);
    }
    None
}

/// `true` si el mensaje es de éxito.
pub fn mensaje_de_exito(m: &Option<String>) -> (r: bool)
    ensures
        r == es_exito(*m),
{
    match m {
        Some(t) => {
            let c = caracteres(t.as_str());
            c.len() > 0 && c[0] == '✓'
        },
        None => false,
    }
}

} // verus!
