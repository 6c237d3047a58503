//! Contratistas: búsqueda `clave:valor` (empresa, tipo, PRAIND, ruta,
//! acceso), paginación, columnas y el formulario de alta y edición.
use crate::activos::{buscar_empresa, empresa_buscada, igualdad, vista_tipos};
use crate::consulta::{
    TerminoVista, agregar_libre, complemento, interpretar, palabras, reconocer_tipos,
    separar_palabras, separar_valores, termino, tipos_excepto, tipos_reconocidos, unidas, valores,
    vistas, es_primero, lema_ninguno, lema_primero, primero,
};
use crate::fechas::{dia_leido, escribir_dia, fecha_escrita, leer_fecha};
use crate::modelos::{ContratistaResumen, Empresa, Igualdad, TipoIngreso};
use crate::texto::{a_minusculas, caracteres, es_literal, minusculas, recortar, recorte, texto_de};
use crate::ui::{Codigo, Tecla, TextInput, VistaCampo, editar};
use vstd::prelude::*;

pub mod estado;

pub use estado::{AccionContratistas, ContratistasState, ModoContratistas};

verus! {

/// Espera (ms) tras la última tecla antes de buscar.
pub const DURACION_DEBOUNCE_MS: u64 = 250;

/// Filas por página.
pub const LIMITE_PAGINA: usize = 100;

/// Filtro por la fecha de vencimiento del PRAIND, relativo a `hoy` (día
/// `num_days_from_ce`).
#[derive(Clone, Copy, Debug, PartialEq, Eq, Structural)]
pub enum FiltroPraind {
    Vencido { hoy: i32 },
    ProximoAVencer { hoy: i32 },
    SinFecha,
}

/// Filtro de la consulta de contratistas.
#[derive(Clone, Debug, PartialEq, Eq)]
pub struct FiltroContratistas {
    pub empresa_id: Option<Igualdad<i64>>,
    pub tipos_incluidos: Option<Vec<TipoIngreso>>,
    pub praind: Option<FiltroPraind>,
    pub praind_negado: bool,
    pub personal_ruta: Option<bool>,
    pub tiene_acceso: Option<bool>,
}

pub struct FiltroContratistasVista {
    pub empresa_id: Option<Igualdad<i64>>,
    pub tipos: Option<Seq<TipoIngreso>>,
    pub praind: Option<FiltroPraind>,
    pub praind_negado: bool,
    pub personal_ruta: Option<bool>,
    pub tiene_acceso: Option<bool>,
}

impl View for FiltroContratistas {
    type V = FiltroContratistasVista;

    open spec fn view(&self) -> FiltroContratistasVista {
        FiltroContratistasVista {
            empresa_id: self.empresa_id,
            tipos: vista_tipos(self.tipos_incluidos),
            praind: self.praind,
            praind_negado: self.praind_negado,
            personal_ruta: self.personal_ruta,
            tiene_acceso: self.tiene_acceso,
        }
    }
}

pub open spec fn filtro_vacio() -> FiltroContratistasVista {
    FiltroContratistasVista {
        empresa_id: None,
        tipos: None,
        praind: None,
        praind_negado: false,
        personal_ruta: None,
        tiene_acceso: None,
    }
}

/// `si`/`sí`/`yes`/`true` o `no`/`false`.
pub open spec fn bool_de_palabra(p: Seq<char>) -> Option<bool> {
    if p == "si"@ || p == "sí"@ || p == "yes"@ || p == "true"@ {
        Some(true)
    } else if p == "no"@ || p == "false"@ {
        Some(false)
    } else {
        None
    }
}

/// El filtro de PRAIND que nombra una palabra (en minúsculas).
pub open spec fn praind_de_palabra(p: Seq<char>, hoy: i32) -> Option<FiltroPraind> {
    if p == "vence"@ || p == "proximo"@ || p == "próximo"@ {
        Some(FiltroPraind::ProximoAVencer { hoy })
    } else if p == "vencido"@ {
        Some(FiltroPraind::Vencido { hoy })
    } else if p == "sin"@ || p == "sinfecha"@ {
        Some(FiltroPraind::SinFecha)
    } else {
        None
    }
}

/// Lo que una palabra `clave:valor` hace al filtro, o `None` si no se
/// reconoce o su valor no calza (y queda como texto libre): `empresa` (un
/// nombre parcial, sin tildes), `tipo` (lista), `praind` (uno), `ruta` y
/// `acceso` (sí/no); todas se pueden negar.
pub open spec fn aplicar_contratistas(
    f: FiltroContratistasVista,
    t: TerminoVista,
    empresas: Seq<Empresa>,
    hoy: i32,
) -> Option<FiltroContratistasVista> {
    match t.clave {
        None => None,
        Some(k) => {
            let clave = minusculas(k);
            let vs = valores(t.valor);
            if clave == "empresa"@ && vs.len() == 1 {
                match empresa_buscada(empresas, vs[0]) {
                    Some(i) => Some(
                        FiltroContratistasVista {
                            empresa_id: Some(igualdad(t.negado, empresas[i].id)),
                            ..f
                        },
                    ),
                    None => None,
                }
            } else if clave == "tipo"@ {
                match tipos_reconocidos(vs) {
                    Some(r) => if r.len() == 0 {
                        None
                    } else {
                        Some(
                            FiltroContratistasVista {
                                tipos: Some(
                                    if t.negado {
                                        complemento(r)
                                    } else {
                                        r
                                    },
                                ),
                                ..f
                            },
                        )
                    },
                    None => None,
                }
            } else if clave == "praind"@ && vs.len() == 1 {
                match praind_de_palabra(minusculas(vs[0]), hoy) {
                    Some(p) => Some(
                        FiltroContratistasVista { praind: Some(p), praind_negado: t.negado, ..f },
                    ),
                    None => None,
                }
            } else if clave == "ruta"@ && vs.len() == 1 {
                match bool_de_palabra(minusculas(vs[0])) {
                    Some(b) => Some(FiltroContratistasVista { personal_ruta: Some(b != t.negado), ..f }),
                    None => None,
                }
            } else if clave == "acceso"@ && vs.len() == 1 {
                match bool_de_palabra(minusculas(vs[0])) {
                    Some(b) => Some(FiltroContratistasVista { tiene_acceso: Some(b != t.negado), ..f }),
                    None => None,
                }
            } else {
                None
            }
        },
    }
}

/// Filtro y palabras no aplicadas tras leer una búsqueda.
pub struct ResolucionContratistas {
    pub filtro: FiltroContratistasVista,
    pub libres: Seq<Seq<char>>,
}

/// Aplica las palabras en orden; las que no se aplican quedan como texto
/// libre, en el mismo orden.
pub open spec fn resolver_contratistas(ps: Seq<Seq<char>>, empresas: Seq<Empresa>, hoy: i32) -> ResolucionContratistas
    decreases ps.len(),
{
    if ps.len() == 0 {
        ResolucionContratistas { filtro: filtro_vacio(), libres: Seq::empty() }
    } else {
        let r = resolver_contratistas(ps.drop_last(), empresas, hoy);
        match aplicar_contratistas(r.filtro, termino(ps.last()), empresas, hoy) {
            Some(f) => ResolucionContratistas { filtro: f, ..r },
            None => ResolucionContratistas { libres: r.libres.push(ps.last()), ..r },
        }
    }
}

/// Un texto sin ninguna palabra `clave:valor` no filtra nada: todas sus
/// palabras quedan, en orden, como texto libre.
pub proof fn ley_texto_sin_claves(ps: Seq<Seq<char>>, empresas: Seq<Empresa>, hoy: i32)
    requires
        forall|i: int| 0 <= i < ps.len() ==> (#[trigger] termino(ps[i])).clave is None,
    ensures
        resolver_contratistas(ps, empresas, hoy).filtro == filtro_vacio(),
        resolver_contratistas(ps, empresas, hoy).libres == ps,
    decreases ps.len(),
{
    if ps.len() > 0 {
        let q = ps.drop_last();
        assert forall|i: int| 0 <= i < q.len() implies (#[trigger] termino(q[i])).clave is None by {
            assert(q[i] == ps[i]);
        }
        ley_texto_sin_claves(q, empresas, hoy);
        assert(termino(ps[ps.len() - 1]).clave is None);
        assert(q.push(ps.last()) =~= ps);
    }
}

fn igualdad_de(negado: bool, v: i64) -> (r: Igualdad<i64>)
    ensures
        r == igualdad(negado, v),
{
    if negado {
        Igualdad::Excluye(v)
    } else {
        Igualdad::Incluye(v)
    }
}

fn bool_desde_texto(v: &[char]) -> (r: Option<bool>)
    ensures
        r == bool_de_palabra(minusculas(v@)),
{
    let p = a_minusculas(v);
    let p = p.as_slice();
    if es_literal(p, "si") || es_literal(p, "sí") || es_literal(p, "yes") || es_literal(p, "true") {
        Some(true)
    } else if es_literal(p, "no") || es_literal(p, "false") {
        Some(false)
    } else {
        None
    }
}

fn praind_desde_texto(v: &[char], hoy: i32) -> (r: Option<FiltroPraind>)
    ensures
        r == praind_de_palabra(minusculas(v@), hoy),
{
    let p = a_minusculas(v);
    let p = p.as_slice();
    if es_literal(p, "vence") || es_literal(p, "proximo") || es_literal(p, "próximo") {
        Some(FiltroPraind::ProximoAVencer { hoy })
    } else if es_literal(p, "vencido") {
        Some(FiltroPraind::Vencido { hoy })
    } else if es_literal(p, "sin") || es_literal(p, "sinfecha") {
        Some(FiltroPraind::SinFecha)
    } else {
        None
    }
}

/// Aplica una palabra al filtro; `false` (y el filtro intacto) si no se
/// reconoce.
pub fn aplicar_clave(
    f: &mut FiltroContratistas,
    t: &crate::consulta::Termino,
    empresas: &[Empresa],
    hoy: i32,
) -> (r: bool)
    ensures
        match aplicar_contratistas(old(f)@, t@, empresas@, hoy) {
            Some(g) => r && final(f)@ == g,
            None => !r && final(f)@ == old(f)@,
        },
{
    let k = match &t.clave {
        Some(k) => k,
        None => {
            return false;
        },
    };
    let clave = a_minusculas(k.as_slice());
    let clave = clave.as_slice();
    let vs = separar_valores(t.valor.as_slice());
    let ghost vsv = vistas(vs@);
    if es_literal(clave, "empresa") && vs.len() == 1 {
        assert(vsv[0] == vs@[0]@);
        match buscar_empresa(empresas, vs[0].as_slice()) {
            Some(i) => {
                f.empresa_id = Some(igualdad_de(t.negado, empresas[i].id));
                true
            },
            None => false,
        }
    } else if es_literal(clave, "tipo") {
        match reconocer_tipos(&vs) {
            Some(r) => {
                if r.len() == 0 {
                    false
                } else if t.negado {
                    f.tipos_incluidos = Some(tipos_excepto(r.as_slice()));
                    true
                } else {
                    f.tipos_incluidos = Some(r);
                    true
                }
            },
            None => false,
        }
    } else if es_literal(clave, "praind") && vs.len() == 1 {
        assert(vsv[0] == vs@[0]@);
        match praind_desde_texto(vs[0].as_slice(), hoy) {
            Some(p) => {
                f.praind = Some(p);
                f.praind_negado = t.negado;
                true
            },
            None => false,
        }
    } else if es_literal(clave, "ruta") && vs.len() == 1 {
        assert(vsv[0] == vs@[0]@);
        match bool_desde_texto(vs[0].as_slice()) {
            Some(b) => {
                f.personal_ruta = Some(b != t.negado);
                true
            },
            None => false,
        }
    } else if es_literal(clave, "acceso") && vs.len() == 1 {
        assert(vsv[0] == vs@[0]@);
        match bool_desde_texto(vs[0].as_slice()) {
            Some(b) => {
                f.tiene_acceso = Some(b != t.negado);
                true
            },
            None => false,
        }
    } else {
        false
    }
}

/// Interpreta la búsqueda: el filtro y el texto libre que queda (para
/// nombre o cédula).
pub fn parsear_consulta(texto: &[char], empresas: &[Empresa], hoy: i32) -> (r: (
    FiltroContratistas,
    Vec<char>,
))
    ensures
        r.0@ == resolver_contratistas(palabras(texto@), empresas@, hoy).filtro,
        r.1@ == unidas(resolver_contratistas(palabras(texto@), empresas@, hoy).libres),
{
    let ps = separar_palabras(texto);
    let ghost psv = vistas(ps@);
    let mut filtro = FiltroContratistas {
        empresa_id: None,
        tipos_incluidos: None,
        praind: None,
        praind_negado: false,
        personal_ruta: None,
        tiene_acceso: None,
    };
    let mut libres: Vec<char> = Vec::new();
    let mut cuantas: usize = 0;
    let mut k: usize = 0;
    while k < ps.len()
        invariant
            k <= ps.len(),
            psv == vistas(ps@),
            filtro@ == resolver_contratistas(psv.take(k as int), empresas@, hoy).filtro,
            libres@ == unidas(resolver_contratistas(psv.take(k as int), empresas@, hoy).libres),
            cuantas == resolver_contratistas(psv.take(k as int), empresas@, hoy).libres.len(),
            cuantas <= k,
        decreases ps.len() - k,
    {
        let ghost previas = resolver_contratistas(psv.take(k as int), empresas@, hoy).libres;
        proof {
            assert(psv.take(k + 1).drop_last() =~= psv.take(k as int));
            assert(psv.take(k + 1).last() == ps@[k as int]@);
        }
        let t = interpretar(ps[k].as_slice());
        if !aplicar_clave(&mut filtro, &t, empresas, hoy) {
            agregar_libre(&mut libres, cuantas, ps[k].as_slice(), Ghost(previas));
            cuantas += 1;
        }
        k += 1;
    }
    proof {
        assert(psv.take(psv.len() as int) =~= psv);
    }
    (filtro, libres)
}

/// Columnas de la tabla.
#[derive(Clone, Copy, Debug, PartialEq, Eq, Structural)]
pub enum Columna {
    Cedula,
    Nombre,
    Empresa,
    Tipo,
    Praind,
    Ruta,
    Acceso,
}

pub open spec fn todas_las_columnas() -> Seq<Columna> {
    seq![
        Columna::Cedula,
        Columna::Nombre,
        Columna::Empresa,
        Columna::Tipo,
        Columna::Praind,
        Columna::Ruta,
        Columna::Acceso,
    ]
}

pub open spec fn clave_columna(c: Columna) -> Seq<char> {
    match c {
        Columna::Cedula => "cedula"@,
        Columna::Nombre => "nombre"@,
        Columna::Empresa => "empresa"@,
        Columna::Tipo => "tipo"@,
        Columna::Praind => "praind"@,
        Columna::Ruta => "ruta"@,
        Columna::Acceso => "acceso"@,
    }
}

impl Columna {
    pub fn todas() -> (r: Vec<Columna>)
        ensures
            r@ == todas_las_columnas(),
    {
        let r = vec![
            Columna::Cedula,
            Columna::Nombre,
            Columna::Empresa,
            Columna::Tipo,
            Columna::Praind,
            Columna::Ruta,
            Columna::Acceso,
        ];
        assert(r@ =~= todas_las_columnas());
        r
    }

    pub fn titulo(self) -> (r: &'static str)
        ensures
            r@ == (match self {
                Columna::Cedula => "CÉDULA"@,
                Columna::Nombre => "NOMBRE"@,
                Columna::Empresa => "EMPRESA"@,
                Columna::Tipo => "TIPO"@,
                Columna::Praind => "PRAIND"@,
                Columna::Ruta => "RUTA"@,
                Columna::Acceso => "ACCESO"@,
            }),
    {
        match self {
            Columna::Cedula => "CÉDULA",
            Columna::Nombre => "NOMBRE",
            Columna::Empresa => "EMPRESA",
            Columna::Tipo => "TIPO",
            Columna::Praind => "PRAIND",
            Columna::Ruta => "RUTA",
            Columna::Acceso => "ACCESO",
        }
    }

    pub fn clave(self) -> (r: &'static str)
        ensures
            r@ == clave_columna(self),
    {
        match self {
            Columna::Cedula => "cedula",
            Columna::Nombre => "nombre",
            Columna::Empresa => "empresa",
            Columna::Tipo => "tipo",
            Columna::Praind => "praind",
            Columna::Ruta => "ruta",
            Columna::Acceso => "acceso",
        }
    }
}

/// Campos del formulario, en orden.
#[derive(Clone, Copy, Debug, PartialEq, Eq, Structural)]
pub enum CampoFormulario {
    Cedula,
    Nombre,
    Empresa,
    Tipo,
    FechaPraind,
    Ruta,
    Acceso,
}

pub open spec fn campo_en(i: int) -> CampoFormulario {
    if i == 0 {
        CampoFormulario::Cedula
    } else if i == 1 {
        CampoFormulario::Nombre
    } else if i == 2 {
        CampoFormulario::Empresa
    } else if i == 3 {
        CampoFormulario::Tipo
    } else if i == 4 {
        CampoFormulario::FechaPraind
    } else if i == 5 {
        CampoFormulario::Ruta
    } else {
        CampoFormulario::Acceso
    }
}

impl CampoFormulario {
    /// El campo en la posición `i` del formulario.
    pub fn en(i: usize) -> (c: CampoFormulario)
        requires
            i < 7,
        ensures
            c == campo_en(i as int),
    {
        if i == 0 {
            CampoFormulario::Cedula
        } else if i == 1 {
            CampoFormulario::Nombre
        } else if i == 2 {
            CampoFormulario::Empresa
        } else if i == 3 {
            CampoFormulario::Tipo
        } else if i == 4 {
            CampoFormulario::FechaPraind
        } else if i == 5 {
            CampoFormulario::Ruta
        } else {
            CampoFormulario::Acceso
        }
    }
}

#[derive(Clone, Copy, Debug, PartialEq, Eq, Structural)]
pub enum ModoFormulario {
    Crear,
    Editar { id: i64 },
}

#[derive(Clone, Copy, Debug, PartialEq, Eq, Structural)]
pub enum Desplegable {
    Empresa,
    Tipo,
}

/// Los tipos de ingreso en el orden del desplegable.
pub open spec fn tipos_en_orden() -> Seq<TipoIngreso> {
    seq![TipoIngreso::Praind, TipoIngreso::InHouse, TipoIngreso::PorCorreo, TipoIngreso::Swat]
}

pub fn tipos() -> (r: [TipoIngreso; 4])
    ensures
        r@ == tipos_en_orden(),
{
    let r = [TipoIngreso::Praind, TipoIngreso::InHouse, TipoIngreso::PorCorreo, TipoIngreso::Swat];
    assert(r@ =~= tipos_en_orden());
    r
}

/// Posición de un tipo en el desplegable.
pub open spec fn posicion_tipo(t: TipoIngreso) -> usize {
    match t {
        TipoIngreso::Praind => 0,
        TipoIngreso::InHouse => 1,
        TipoIngreso::PorCorreo => 2,
        TipoIngreso::Swat => 3,
    }
}

/// Posición de un tipo en el desplegable.
pub fn indice_tipo(t: TipoIngreso) -> (r: usize)
    ensures
        r == posicion_tipo(t),
        r < 4,
{
    match t {
        TipoIngreso::Praind => 0,
        TipoIngreso::InHouse => 1,
        TipoIngreso::PorCorreo => 2,
        TipoIngreso::Swat => 3,
    }
}

/// Un contratista exige fecha PRAIND si es de ruta o de tipo PRAIND o IN
/// HOUSE.
pub open spec fn exige_praind(tipo: TipoIngreso, personal_ruta: bool) -> bool {
    personal_ruta || tipo == TipoIngreso::Praind || tipo == TipoIngreso::InHouse
}

#[derive(Clone, Debug, PartialEq, Eq)]
pub struct FormularioContratista {
    pub modo: ModoFormulario,
    pub cedula: TextInput,
    pub nombre: TextInput,
    /// Posición de la empresa en el catálogo.
    pub empresa: usize,
    pub tipo: TipoIngreso,
    pub fecha_praind: TextInput,
    pub personal_ruta: bool,
    pub tiene_acceso: bool,
    /// Posición del campo activo.
    pub campo: usize,
    pub desplegable: Option<(Desplegable, usize)>,
    pub error: Option<String>,
    /// Si la cédula se puede enfocar y cambiar.
    pub cedula_editable: bool,
}

/// Datos de un contratista listos para guardar.
#[derive(Clone, Debug, PartialEq, Eq)]
pub struct DatosContratista {
    pub cedula: String,
    pub nombre: String,
    pub empresa_id: i64,
    pub tipo_ingreso: TipoIngreso,
    pub fecha_vencimiento_praind: Option<i32>,
    pub es_personal_ruta: bool,
    pub tiene_acceso: bool,
}

/// Los mismos datos, para actualizar un contratista existente.
#[derive(Clone, Debug, PartialEq, Eq)]
pub struct DatosActualizacionContratista {
    pub cedula: String,
    pub nombre: String,
    pub empresa_id: i64,
    pub tipo_ingreso: TipoIngreso,
    pub fecha_vencimiento_praind: Option<i32>,
    pub es_personal_ruta: bool,
    pub tiene_acceso: bool,
}

/// Los datos como valores.
pub struct DatosVista {
    pub cedula: Seq<char>,
    pub nombre: Seq<char>,
    pub empresa_id: i64,
    pub tipo_ingreso: TipoIngreso,
    pub fecha: Option<i32>,
    pub ruta: bool,
    pub acceso: bool,
}

impl View for DatosContratista {
    type V = DatosVista;

    open spec fn view(&self) -> DatosVista {
        DatosVista {
            cedula: self.cedula@,
            nombre: self.nombre@,
            empresa_id: self.empresa_id,
            tipo_ingreso: self.tipo_ingreso,
            fecha: self.fecha_vencimiento_praind,
            ruta: self.es_personal_ruta,
            acceso: self.tiene_acceso,
        }
    }
}

impl View for DatosActualizacionContratista {
    type V = DatosVista;

    open spec fn view(&self) -> DatosVista {
        DatosVista {
            cedula: self.cedula@,
            nombre: self.nombre@,
            empresa_id: self.empresa_id,
            tipo_ingreso: self.tipo_ingreso,
            fecha: self.fecha_vencimiento_praind,
            ruta: self.es_personal_ruta,
            acceso: self.tiene_acceso,
        }
    }
}

/// Valida el formulario y arma los datos: cédula y nombre recortados y no
/// vacíos, fecha `DD/MM/YYYY` si el contratista exige PRAIND, y una
/// empresa que exista.
pub open spec fn datos_de(f: FormularioContratista, empresa_id: Option<i64>) -> Result<DatosVista, Seq<char>> {
    if recorte(f.cedula@.valor).len() == 0 {
        Err("La cédula es obligatoria"@)
    } else if recorte(f.nombre@.valor).len() == 0 {
        Err("El nombre es obligatorio"@)
    } else if exige_praind(f.tipo, f.personal_ruta) && dia_leido(f.fecha_praind@.valor) is None {
        if f.fecha_praind@.valor.len() == 0 {
            Err("Fecha PRAIND requerida"@)
        } else {
            Err("Fecha inválida. Use DD/MM/YYYY"@)
        }
    } else if empresa_id is None {
        Err("La empresa seleccionada ya no existe"@)
    } else {
        Ok(
            DatosVista {
                cedula: recorte(f.cedula@.valor),
                nombre: recorte(f.nombre@.valor),
                empresa_id: empresa_id->0,
                tipo_ingreso: f.tipo,
                fecha: if exige_praind(f.tipo, f.personal_ruta) {
                    dia_leido(f.fecha_praind@.valor)
                } else {
                    None
                },
                ruta: f.personal_ruta,
                acceso: f.tiene_acceso,
            },
        )
    }
}

/// Lo que se guarda es lo que dice el formulario: el acceso, si es
/// personal de ruta y el tipo de ingreso tal cual, la empresa elegida, y la
/// cédula y el nombre recortados y no vacíos; la fecha PRAIND sólo si se
/// exige.
pub proof fn ley_se_guarda_lo_del_formulario(f: FormularioContratista, empresa_id: Option<i64>)
    ensures
        datos_de(f, empresa_id) matches Ok(d) ==> {
            &&& d.acceso == f.tiene_acceso
            &&& d.ruta == f.personal_ruta
            &&& d.tipo_ingreso == f.tipo
            &&& empresa_id == Some(d.empresa_id)
            &&& d.cedula == recorte(f.cedula@.valor) && d.cedula.len() > 0
            &&& d.nombre == recorte(f.nombre@.valor) && d.nombre.len() > 0
            &&& (d.fecha is Some <==> exige_praind(f.tipo, f.personal_ruta))
        },
{
}

/// Las posiciones de los campos que se pueden enfocar.
pub open spec fn habilitados(cedula: bool, praind: bool) -> Seq<usize> {
    if cedula && praind {
        seq![0usize, 1, 2, 3, 4, 5, 6]
    } else if cedula {
        seq![0usize, 1, 2, 3, 5, 6]
    } else if praind {
        seq![1usize, 2, 3, 4, 5, 6]
    } else {
        seq![1usize, 2, 3, 5, 6]
    }
}

/// Posición del campo en la lista de habilitados (0 si no está).
pub open spec fn es_campo(h: Seq<usize>, campo: usize) -> spec_fn(int) -> bool {
    |i: int| h[i] == campo
}

pub open spec fn posicion_en(h: Seq<usize>, campo: usize) -> int {
    match primero(h.len() as int, es_campo(h, campo)) {
        Some(i) => i,
        None => 0,
    }
}

/// El campo al que se llega moviendo `d` (±1) entre los habilitados, con
/// vuelta.
pub open spec fn campo_movido(f: FormularioContratista, d: int) -> usize {
    let h = habilitados(f.cedula_editable, exige_praind(f.tipo, f.personal_ruta));
    let p = posicion_en(h, f.campo);
    h[(p + d) % (h.len() as int)]
}

proof fn lema_habilitados(cedula: bool, praind: bool)
    ensures
        ({
            let h = habilitados(cedula, praind);
            &&& 5 <= h.len() <= 7
            &&& forall|i: int| 0 <= i < h.len() ==> #[trigger] h[i] < 7
            &&& forall|i: int, j: int| 0 <= i < j < h.len() ==> #[trigger] h[i] != #[trigger] h[j]
            &&& forall|i: int| 0 <= i < h.len() ==> (#[trigger] h[i] == 0 ==> cedula)
            &&& forall|i: int| 0 <= i < h.len() ==> (#[trigger] h[i] == 4 ==> praind)
        }),
{
}

proof fn lema_posicion_en(h: Seq<usize>, j: int)
    requires
        0 <= j < h.len(),
        forall|a: int, b: int| 0 <= a < b < h.len() ==> #[trigger] h[a] != #[trigger] h[b],
    ensures
        posicion_en(h, h[j]) == j,
{
    let p = es_campo(h, h[j]);
    assert forall|i: int| 0 <= i < j implies !#[trigger] p(i) by {
        assert(h[i] != h[j]);
    }
    assert(es_primero(h.len() as int, p, j));
    lema_primero(h.len() as int, p, j);
}

proof fn lema_posicion_en_rango(h: Seq<usize>, campo: usize)
    requires
        h.len() > 0,
    ensures
        0 <= posicion_en(h, campo) < h.len(),
{
    let p = es_campo(h, campo);
    if exists|i: int| es_primero(h.len() as int, p, i) {
        let i = choose|i: int| es_primero(h.len() as int, p, i);
        lema_primero(h.len() as int, p, i);
    }
}

/// Un contratista existente con la cédula bloqueada nunca recibe el foco en
/// la cédula, y la fecha PRAIND no recibe el foco si el contratista no la
/// exige.
pub proof fn ley_campos_bloqueados_sin_foco(f: FormularioContratista, d: int)
    requires
        d == 1 || d == -1,
    ensures
        !f.cedula_editable ==> campo_movido(f, d) != 0,
        !f.requiere() ==> campo_movido(f, d) != 4,
        campo_movido(f, d) < 7,
{
    let h = habilitados(f.cedula_editable, exige_praind(f.tipo, f.personal_ruta));
    lema_habilitados(f.cedula_editable, exige_praind(f.tipo, f.personal_ruta));
    lema_posicion_en_rango(h, f.campo);
    let p = posicion_en(h, f.campo);
    let n = h.len() as int;
    assert(0 <= (p + d) % n < n) by (nonlinear_arith)
        requires
            n > 0,
    ;
}

/// Avanzar un campo y retroceder uno vuelve al campo de partida, siempre
/// que éste se pueda enfocar.
pub proof fn ley_campo_ida_y_vuelta(f: FormularioContratista)
    requires
        habilitados(f.cedula_editable, exige_praind(f.tipo, f.personal_ruta)).contains(f.campo),
    ensures
        campo_movido(FormularioContratista { campo: campo_movido(f, 1), ..f }, -1) == f.campo,
        campo_movido(FormularioContratista { campo: campo_movido(f, -1), ..f }, 1) == f.campo,
{
    let h = habilitados(f.cedula_editable, exige_praind(f.tipo, f.personal_ruta));
    lema_habilitados(f.cedula_editable, exige_praind(f.tipo, f.personal_ruta));
    let n = h.len() as int;
    let j = choose|j: int| 0 <= j < n && h[j] == f.campo;
    lema_posicion_en(h, j);
    let p = posicion_en(h, f.campo);
    assert(p == j);
    let q = (p + 1) % n;
    let r = (p - 1) % n;
    assert(0 <= q < n && 0 <= r < n && (q - 1) % n == p && (r + 1) % n == p) by (nonlinear_arith)
        requires
            0 <= p < n,
            q == (p + 1) % n,
            r == (p - 1) % n,
    ;
    lema_posicion_en(h, q);
    lema_posicion_en(h, r);
}

/// Cantidad de dígitos ASCII.
pub open spec fn digitos(s: Seq<char>) -> nat
    decreases s.len(),
{
    if s.len() == 0 {
        0
    } else {
        digitos(s.drop_last()) + if '0' <= s.last() && s.last() <= '9' {
            1nat
        } else {
            0
        }
    }
}

/// Escribir en la fecha PRAIND: sólo dígitos y `/`, como mucho ocho
/// dígitos, y la barra se agrega sola después del día y del mes cuando se
/// escribe al final.
pub open spec fn fecha_escrita_con(v: VistaCampo, k: Tecla, c: char) -> VistaCampo {
    if c == '/' {
        editar(v, k)
    } else if !('0' <= c && c <= '9') {
        v
    } else if digitos(v.valor) < 8 {
        let n = digitos(v.valor);
        let barra = v.cursor == v.valor.len() && (n == 2 || n == 4) && !(v.valor.len() > 0
            && v.valor.last() == '/');
        let w = if barra {
            editar(v, Tecla { codigo: Codigo::Char('/'), control: false, alt: false, shift: false })
        } else {
            v
        };
        editar(w, k)
    } else {
        v
    }
}

/// Las posiciones del catálogo con la empresa de ese id.
pub open spec fn es_de_empresa(empresas: Seq<Empresa>, id: i64) -> spec_fn(int) -> bool {
    |i: int| empresas[i].id == id
}

/// El formulario de alta: campos vacíos, tipo PRAIND, con acceso y el foco
/// en la cédula.
pub open spec fn es_nuevo(f: FormularioContratista) -> bool {
    &&& f.bien_formado()
    &&& f.modo == ModoFormulario::Crear
    &&& f.cedula@ == (VistaCampo { valor: Seq::empty(), cursor: 0, maximo: Some(30usize) })
    &&& f.nombre@ == (VistaCampo { valor: Seq::empty(), cursor: 0, maximo: Some(60usize) })
    &&& f.fecha_praind@ == (VistaCampo { valor: Seq::empty(), cursor: 0, maximo: Some(10usize) })
    &&& f.empresa == 0
    &&& f.tipo == TipoIngreso::Praind
    &&& !f.personal_ruta
    &&& f.tiene_acceso
    &&& f.campo == 0
    &&& f.desplegable is None
    &&& f.error is None
    &&& f.cedula_editable
}

/// El formulario de edición de `c`: sus datos, la empresa por su posición
/// en el catálogo (0 si no está) y el foco en la cédula si se puede
/// cambiar o en el nombre si no.
pub open spec fn es_edicion(f: FormularioContratista, c: ContratistaResumen, empresas: Seq<Empresa>, cedula_editable: bool) -> bool {
    &&& f.bien_formado()
    &&& f.modo == (ModoFormulario::Editar { id: c.id })
    &&& f.cedula@ == (VistaCampo { valor: c.cedula@, cursor: c.cedula@.len() as int, maximo: Some(30usize) })
    &&& f.nombre@ == (VistaCampo { valor: c.nombre@, cursor: c.nombre@.len() as int, maximo: Some(60usize) })
    &&& f.fecha_praind@.valor == (match c.fecha_vencimiento_praind {
        Some(d) => fecha_escrita(d),
        None => Seq::<char>::empty(),
    })
    &&& f.fecha_praind@.cursor == f.fecha_praind@.valor.len()
    &&& f.fecha_praind@.maximo == Some(10usize)
    &&& f.empresa == (match primero(empresas.len() as int, es_de_empresa(empresas, c.empresa_id)) {
        Some(i) => i as usize,
        None => 0usize,
    })
    &&& f.tipo == c.tipo_ingreso
    &&& f.personal_ruta == c.es_personal_ruta
    &&& f.tiene_acceso == c.tiene_acceso
    &&& f.campo == (if cedula_editable {
        0usize
    } else {
        1usize
    })
    &&& f.desplegable is None
    &&& f.error is None
    &&& f.cedula_editable == cedula_editable
}

impl FormularioContratista {
    pub open spec fn bien_formado(&self) -> bool {
        &&& self.campo < 7
        &&& self.desplegable matches Some((Desplegable::Tipo, o)) ==> o < 4
    }

    pub open spec fn requiere(&self) -> bool {
        exige_praind(self.tipo, self.personal_ruta)
    }

    /// Alta: campos vacíos, tipo PRAIND, con acceso, en la cédula.
    pub fn nuevo() -> (f: FormularioContratista)
        ensures
            es_nuevo(f),
    {
        FormularioContratista {
            modo: ModoFormulario::Crear,
            cedula: TextInput::vacio().with_max_chars(30),
            nombre: TextInput::vacio().with_max_chars(60),
            empresa: 0,
            tipo: TipoIngreso::Praind,
            fecha_praind: TextInput::vacio().with_max_chars(10),
            personal_ruta: false,
            tiene_acceso: true,
            campo: 0,
            desplegable: None,
            error: None,
            cedula_editable: true,
        }
    }

    /// Edición de `c`: sus datos, la empresa por su posición en el
    /// catálogo (0 si no está) y el foco en la cédula si se puede cambiar
    /// o en el nombre si no.
    pub fn editar(c: &ContratistaResumen, empresas: &[Empresa], cedula_editable: bool) -> (f: FormularioContratista)
        ensures
            es_edicion(f, *c, empresas@, cedula_editable),
    {
        let empresa = match posicion_empresa(empresas, c.empresa_id) {
            Some(i) => i,
            None => 0,
        };
        let fecha = match c.fecha_vencimiento_praind {
            Some(d) => escribir_dia(d),
            None => String::new(),
        };
        FormularioContratista {
            modo: ModoFormulario::Editar { id: c.id },
            cedula: TextInput::new(c.cedula.as_str()).with_max_chars(30),
            nombre: TextInput::new(c.nombre.as_str()).with_max_chars(60),
            empresa,
            tipo: c.tipo_ingreso,
            fecha_praind: TextInput::new(fecha.as_str()).with_max_chars(10),
            personal_ruta: c.es_personal_ruta,
            tiene_acceso: c.tiene_acceso,
            campo: if cedula_editable {
                0
            } else {
                1
            },
            desplegable: None,
            error: None,
            cedula_editable,
        }
    }

    pub fn requiere_praind(&self) -> (r: bool)
        ensures
            r == self.requiere(),
    {
        self.personal_ruta || match self.tipo {
            TipoIngreso::Praind | TipoIngreso::InHouse => true,
            _ => false,
        }
    }
}

fn lit(s: &str) -> (r: String)
    ensures
        r@ == s@,
{
    texto_de(caracteres(s).as_slice())
}

/// Valida el formulario y arma los datos (ver `datos_de`).
pub fn construir(f: &FormularioContratista, empresa_id: Option<i64>) -> (r: Result<DatosContratista, String>)
    ensures
        r matches Ok(d) ==> d.tiene_acceso == f.tiene_acceso && d.es_personal_ruta
            == f.personal_ruta && d.tipo_ingreso == f.tipo && empresa_id == Some(d.empresa_id),
        match (r, datos_de(*f, empresa_id)) {
            (Ok(a), Ok(b)) => a@ == b,
            (Err(a), Err(b)) => a@ == b,
            _ => false,
        },
{
    let cedula = recortar(f.cedula.value());
    if cedula.len() == 0 {
        return Err(lit("La cédula es obligatoria"));
    }
    let nombre = recortar(f.nombre.value());
    if nombre.len() == 0 {
        return Err(lit("El nombre es obligatorio"));
    }
    let fecha = if f.requiere_praind() {
        let texto = f.fecha_praind.texto();
        match leer_fecha(texto.as_str()) {
            Some(d) => Some(d),
            None => {
                return Err(
                    if f.fecha_praind.is_empty() {
                        lit("Fecha PRAIND requerida")
                    } else {
                        lit("Fecha inválida. Use DD/MM/YYYY")
                    },
                );
            },
        }
    } else {
        None
    };
    let empresa_id = match empresa_id {
        Some(e) => e,
        None => {
            return Err(lit("La empresa seleccionada ya no existe"));
        },
    };
    Ok(
        DatosContratista {
            cedula: texto_de(cedula.as_slice()),
            nombre: texto_de(nombre.as_slice()),
            empresa_id,
            tipo_ingreso: f.tipo,
            fecha_vencimiento_praind: fecha,
            es_personal_ruta: f.personal_ruta,
            tiene_acceso: f.tiene_acceso,
        },
    )
}

/// Los mismos datos, para una actualización.
pub fn convertir_actualizacion(d: DatosContratista) -> (r: DatosActualizacionContratista)
    ensures
        r@ == d@,
        r.tiene_acceso == d.tiene_acceso && r.es_personal_ruta == d.es_personal_ruta,
{
    DatosActualizacionContratista {
        cedula: d.cedula,
        nombre: d.nombre,
        empresa_id: d.empresa_id,
        tipo_ingreso: d.tipo_ingreso,
        fecha_vencimiento_praind: d.fecha_vencimiento_praind,
        es_personal_ruta: d.es_personal_ruta,
        tiene_acceso: d.tiene_acceso,
    }
}

fn lista_habilitados(cedula: bool, praind: bool) -> (r: Vec<usize>)
    ensures
        r@ == habilitados(cedula, praind),
{
    let r = if cedula && praind {
        vec![0usize, 1, 2, 3, 4, 5, 6]
    } else if cedula {
        vec![0usize, 1, 2, 3, 5, 6]
    } else if praind {
        vec![1usize, 2, 3, 4, 5, 6]
    } else {
        vec![1usize, 2, 3, 5, 6]
    };
    assert(r@ =~= habilitados(cedula, praind));
    r
}

/// Posición de la empresa con ese id en el catálogo.
fn posicion_empresa(empresas: &[Empresa], id: i64) -> (r: Option<usize>)
    ensures
        match primero(empresas@.len() as int, es_de_empresa(empresas@, id)) {
            Some(i) => r == Some(i as usize),
            None => r is None,
        },
{
    let ghost p = es_de_empresa(empresas@, id);
    let mut k: usize = 0;
    while k < empresas.len()
        invariant
            k <= empresas.len(),
            p == es_de_empresa(empresas@, id),
            forall|j: int| 0 <= j < k ==> !#[trigger] p(j),
        decreases empresas.len() - k,
    {
        if empresas[k].id == id {
            proof {
                assert(es_primero(empresas@.len() as int, p, k as int));
                lema_primero(empresas@.len() as int, p, k as int);
            }
            return Some(k);
        }
        assert(!p(k as int));
        k += 1;
    }
    proof {
        lema_ninguno(empresas@.len() as int, p);
    }
    None
}

/// Posición de `campo` en `h` (0 si no está).
fn posicion_de(h: &Vec<usize>, campo: usize) -> (r: usize)
    ensures
        r == posicion_en(h@, campo),
        h@.len() > 0 ==> r < h@.len(),
{
    let ghost p = es_campo(h@, campo);
    let mut k: usize = 0;
    while k < h.len()
        invariant
            k <= h.len(),
            p == es_campo(h@, campo),
            forall|j: int| 0 <= j < k ==> !#[trigger] p(j),
        decreases h.len() - k,
    {
        if h[k] == campo {
            proof {
                assert(es_primero(h@.len() as int, p, k as int));
                lema_primero(h@.len() as int, p, k as int);
            }
            return k;
        }
        assert(!p(k as int));
        k += 1;
    }
    proof {
        lema_ninguno(h@.len() as int, p);
    }
    0
}

/// Mueve el foco `d` (±1) entre los campos habilitados, con vuelta.
pub fn mover_campo(f: &mut FormularioContratista, d: isize)
    requires
        d == 1 || d == -1,
    ensures
        final(f).campo == campo_movido(*old(f), d as int),
        final(f).campo < 7,
        *final(f) == (FormularioContratista { campo: final(f).campo, ..*old(f) }),
{
    let h = lista_habilitados(f.cedula_editable, f.requiere_praind());
    let pos = posicion_de(&h, f.campo);
    let n = h.len();
    let siguiente = if d < 0 {
        (pos + n - 1) % n
    } else {
        (pos + 1) % n
    };
    proof {
        let q = posicion_en(h@, f.campo);
        if d < 0 {
            assert((q + d) % (n as int) == (pos + n - 1) % (n as int)) by (nonlinear_arith)
                requires
                    d == -1,
                    q == pos,
                    n > 0,
            ;
        }
    }
    f.campo = h[siguiente];
}

fn contar_digitos(s: &[char]) -> (n: usize)
    ensures
        n == digitos(s@),
{
    let mut n: usize = 0;
    let mut k: usize = 0;
    while k < s.len()
        invariant
            k <= s.len(),
            n == digitos(s@.take(k as int)),
            n <= k,
        decreases s.len() - k,
    {
        proof {
            assert(s@.take(k + 1).drop_last() =~= s@.take(k as int));
        }
        if '0' <= s[k] && s[k] <= '9' {
            n += 1;
        }
        k += 1;
    }
    proof {
        assert(s@.take(s@.len() as int) =~= s@);
    }
    n
}

/// Escribe `c` en la fecha PRAIND (ver `fecha_escrita_con`).
pub fn agregar_fecha(input: &mut TextInput, k: Tecla, c: char)
    ensures
        final(input)@ == fecha_escrita_con(old(input)@, k, c),
{
    if c == '/' {
        input.handle_key(k);
        return;
    }
    if !('0' <= c && c <= '9') {
        return;
    }
    let n = contar_digitos(input.value());
    if n < 8 {
        let largo = input.value().len();
        let al_final = input.cursor() == largo;
        let termina_en_barra = largo > 0 && input.value()[largo - 1] == '/';
        if al_final && (n == 2 || n == 4) && !termina_en_barra {
            input.handle_key(Tecla { codigo: Codigo::Char('/'), control: false, alt: false, shift: false });
        }
        input.handle_key(k);
    }
}

} // verus!
