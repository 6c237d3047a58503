//! Catálogo de empresas: búsqueda incremental, alta, edición y
//! activación/desactivación.
use crate::consulta::{es_primero, lema_ninguno, lema_primero, primero};
use crate::modelos::EmpresaResumen;
use crate::texto::{caracteres, es_vacio_recortado, recortar, recorte, texto_de, unir};
use crate::ui::{
    Codigo, Debounce, Tecla, TextInput, VistaCampo, comando_estandar, editar, es_ayuda, movida,
    mover_seleccion, reloj_ms, vencio,
};
use vstd::prelude::*;

verus! {

/// Espera (ms) tras la última tecla antes de buscar.
pub const DURACION_DEBOUNCE_MS: u64 = 250;

/// Máximo de caracteres del nombre de una empresa.
pub const LONGITUD_MAXIMA_NOMBRE: usize = 80;

#[derive(Clone, Copy, Debug, PartialEq, Eq, Structural)]
pub enum ModoFormularioEmpresa {
    Crear,
    Editar { id: i64 },
}

#[derive(Clone, Debug, PartialEq, Eq)]
pub struct FormularioEmpresa {
    pub modo: ModoFormularioEmpresa,
    pub nombre: TextInput,
    pub error: Option<String>,
}

#[derive(Clone, Copy, Debug, PartialEq, Eq, Structural)]
pub struct ConfirmacionEstado {
    pub id: i64,
    pub activar: bool,
}

#[derive(Clone, Debug, PartialEq, Eq)]
pub enum ModoEmpresas {
    Normal,
    Busqueda { texto: TextInput },
    Formulario(FormularioEmpresa),
    ConfirmacionEstado(ConfirmacionEstado),
}

#[derive(Clone, Debug, PartialEq, Eq)]
pub enum AccionEmpresas {
    Ninguna,
    Volver,
    Buscar { texto: Option<String>, seleccionar_id: Option<i64> },
    Crear { nombre: String },
    Actualizar { id: i64, nombre: String },
    EstablecerActivo { id: i64, activar: bool, nombre: String },
}

#[derive(Debug)]
pub struct EmpresasState {
    pub empresas: Vec<EmpresaResumen>,
    pub seleccion: Option<usize>,
    pub modo: ModoEmpresas,
    pub filtro: String,
    pub mensaje: Option<String>,
    pub ayuda_expandida: bool,
    pub busqueda_debounce: Debounce,
}

/// Posición de la primera empresa con ese id.
pub open spec fn posicion_empresa(e: Seq<EmpresaResumen>, id: i64) -> Option<int> {
    primero(e.len() as int, |i: int| e[i].id == id)
}

/// La búsqueda que corresponde al filtro: sin texto si está en blanco.
pub open spec fn es_buscar(a: AccionEmpresas, filtro: Seq<char>, sel: Option<i64>) -> bool {
    a matches AccionEmpresas::Buscar { texto, seleccionar_id } && seleccionar_id == sel && (if recorte(
        filtro,
    ).len() == 0 {
        texto is None
    } else {
        texto matches Some(t) && t@ == filtro
    })
}

/// El nombre listo para guardar, o por qué no.
pub open spec fn nombre_construido(nombre: Seq<char>) -> Result<Seq<char>, Seq<char>> {
    if recorte(nombre).len() == 0 {
        Err("El nombre es obligatorio"@)
    } else {
        Ok(recorte(nombre))
    }
}

/// Un campo de nombre vacío, con el máximo.
pub open spec fn campo_nombre(valor: Seq<char>) -> VistaCampo {
    VistaCampo { valor, cursor: valor.len() as int, maximo: Some(LONGITUD_MAXIMA_NOMBRE) }
}

impl EmpresasState {
    pub open spec fn bien_formado(&self) -> bool {
        self.seleccion matches Some(i) ==> i < self.empresas.len()
    }

    /// El id de la fila seleccionada.
    pub open spec fn id_elegido(&self) -> Option<i64> {
        match self.seleccion {
            Some(i) => Some(self.empresas@[i as int].id),
            None => None,
        }
    }
}

/// Lo que hace una tecla en la lista.
pub open spec fn tecla_lista(
    viejo: EmpresasState,
    nuevo: EmpresasState,
    k: Tecla,
    a: AccionEmpresas,
) -> bool {
    &&& nuevo.empresas == viejo.empresas
    &&& nuevo.mensaje is None
    &&& nuevo.busqueda_debounce == viejo.busqueda_debounce
    &&& if k.codigo == Codigo::Up || k.codigo == Codigo::Down {
        &&& nuevo.seleccion == movida(
            viejo.seleccion,
            if k.codigo == Codigo::Up {
                -1
            } else {
                1
            },
            viejo.empresas@.len(),
        )
        &&& nuevo.modo == viejo.modo
        &&& nuevo.filtro == viejo.filtro
        &&& a == AccionEmpresas::Ninguna
    } else if k.codigo == Codigo::Esc {
        if viejo.filtro@.len() > 0 {
            &&& nuevo.filtro@.len() == 0
            &&& nuevo.seleccion is None
            &&& nuevo.modo == viejo.modo
            &&& es_buscar(a, Seq::empty(), None)
        } else {
            &&& a == AccionEmpresas::Volver
            &&& nuevo.filtro == viejo.filtro
            &&& nuevo.seleccion == viejo.seleccion
            &&& nuevo.modo == viejo.modo
        }
    } else {
        &&& a == AccionEmpresas::Ninguna
        &&& nuevo.filtro == viejo.filtro
        &&& nuevo.seleccion == viejo.seleccion
        &&& if k.codigo == Codigo::Enter {
            match viejo.id_elegido() {
                Some(id) => match posicion_empresa(viejo.empresas@, id) {
                    Some(p) => nuevo.modo matches ModoEmpresas::Formulario(f) && f.modo
                        == (ModoFormularioEmpresa::Editar { id }) && f.error is None && f.nombre@
                        == campo_nombre(viejo.empresas@[p].nombre@),
                    None => nuevo.modo == viejo.modo,
                },
                None => nuevo.modo == viejo.modo,
            }
        } else if k.codigo == Codigo::Char('n') || k.codigo == Codigo::Char('N') {
            nuevo.modo matches ModoEmpresas::Formulario(f) && f.modo == ModoFormularioEmpresa::Crear
                && f.error is None && f.nombre@ == campo_nombre(Seq::empty())
        } else if k.codigo == Codigo::Char('a') || k.codigo == Codigo::Char('A') {
            match viejo.id_elegido() {
                Some(id) => match posicion_empresa(viejo.empresas@, id) {
                    Some(p) => nuevo.modo == ModoEmpresas::ConfirmacionEstado(
                        ConfirmacionEstado { id, activar: !viejo.empresas@[p].activo },
                    ),
                    None => nuevo.modo == viejo.modo,
                },
                None => nuevo.modo == viejo.modo,
            }
        } else if k.codigo == Codigo::Char('/') {
            nuevo.modo matches ModoEmpresas::Busqueda { texto } && texto@ == (VistaCampo {
                valor: viejo.filtro@,
                cursor: viejo.filtro@.len() as int,
                maximo: None,
            })
        } else {
            nuevo.modo == viejo.modo
        }
    }
}

/// Lo que hace una tecla mientras se escribe la búsqueda (`texto`).
pub open spec fn tecla_busqueda(
    viejo: EmpresasState,
    nuevo: EmpresasState,
    texto: TextInput,
    k: Tecla,
    a: AccionEmpresas,
    ahora: u64,
) -> bool {
    &&& nuevo.empresas == viejo.empresas
    &&& nuevo.mensaje == viejo.mensaje
    &&& if k.codigo == Codigo::Esc {
        &&& nuevo.filtro@.len() == 0
        &&& nuevo.modo == ModoEmpresas::Normal
        &&& nuevo.seleccion == viejo.seleccion
        &&& nuevo.busqueda_debounce == viejo.busqueda_debounce
        &&& es_buscar(a, Seq::empty(), None)
    } else if k.codigo == Codigo::Enter {
        &&& nuevo.filtro == viejo.filtro
        &&& nuevo.modo == ModoEmpresas::Normal
        &&& nuevo.seleccion == viejo.seleccion
        &&& nuevo.busqueda_debounce == viejo.busqueda_debounce
        &&& a == AccionEmpresas::Ninguna
    } else if k.codigo == Codigo::Up || k.codigo == Codigo::Down {
        &&& nuevo.filtro == viejo.filtro
        &&& nuevo.modo == viejo.modo
        &&& nuevo.busqueda_debounce == viejo.busqueda_debounce
        &&& nuevo.seleccion == movida(
            viejo.seleccion,
            if k.codigo == Codigo::Up {
                -1
            } else {
                1
            },
            viejo.empresas@.len(),
        )
        &&& a == AccionEmpresas::Ninguna
    } else {
        &&& (nuevo.modo matches ModoEmpresas::Busqueda { texto: t } && t@ == editar(texto@, k))
        &&& nuevo.filtro@ == editar(texto@, k).valor
        &&& nuevo.seleccion == viejo.seleccion
        &&& a == AccionEmpresas::Ninguna
        &&& (editar(texto@, k).valor != texto@.valor ==> nuevo.busqueda_debounce.pendiente
            == Some(ahora))
        &&& (editar(texto@, k).valor == texto@.valor ==> nuevo.busqueda_debounce
            == viejo.busqueda_debounce)
    }
}

/// Lo que hace la tecla `k` pulsada en el instante `ahora` (ms): F1 alterna
/// la ayuda; las demás, según el modo.
pub open spec fn tecla_en(
    viejo: EmpresasState,
    nuevo: EmpresasState,
    k: Tecla,
    a: AccionEmpresas,
    ahora: u64,
) -> bool {
    &&& es_ayuda(k) ==> a == AccionEmpresas::Ninguna && nuevo.ayuda_expandida
        == !viejo.ayuda_expandida && nuevo.modo == viejo.modo && nuevo.empresas == viejo.empresas
        && nuevo.seleccion == viejo.seleccion
    &&& !es_ayuda(k) ==> match viejo.modo {
        ModoEmpresas::Normal => tecla_lista(viejo, nuevo, k, a),
        ModoEmpresas::Busqueda { texto } => tecla_busqueda(viejo, nuevo, texto, k, a, ahora),
        ModoEmpresas::Formulario(f) => tecla_formulario(viejo, nuevo, f, k, a),
        ModoEmpresas::ConfirmacionEstado(c) => tecla_confirmacion(viejo, nuevo, c, k, a),
    }
}

/// Lo que hace pasar el tiempo hasta `ahora`: la búsqueda diferida sale
/// cuando pasó la espera desde la última tecla; nada más cambia.
pub open spec fn paso_del_tiempo(
    viejo: EmpresasState,
    nuevo: EmpresasState,
    ahora: u64,
    a: AccionEmpresas,
) -> bool {
    &&& vencio(viejo.busqueda_debounce.pendiente, ahora, DURACION_DEBOUNCE_MS) ==> es_buscar(
        a,
        viejo.filtro@,
        None,
    ) && nuevo == (EmpresasState { busqueda_debounce: Debounce { pendiente: None }, ..viejo })
    &&& !vencio(viejo.busqueda_debounce.pendiente, ahora, DURACION_DEBOUNCE_MS) ==> a
        == AccionEmpresas::Ninguna && nuevo == viejo
}

/// Una tecla que edita el texto de la búsqueda (no la cierra ni mueve la
/// selección ni pide ayuda).
pub open spec fn escribe_en_busqueda(k: Tecla) -> bool {
    &&& !es_ayuda(k)
    &&& k.codigo != Codigo::Esc
    &&& k.codigo != Codigo::Enter
    &&& k.codigo != Codigo::Up
    &&& k.codigo != Codigo::Down
}

/// Escribir en la búsqueda y dejar pasar la espera pide la búsqueda con el
/// texto escrito.
pub proof fn ley_busqueda_diferida(
    s0: EmpresasState,
    s1: EmpresasState,
    s2: EmpresasState,
    k: Tecla,
    a1: AccionEmpresas,
    a2: AccionEmpresas,
    tecleo: u64,
    despues: u64,
)
    requires
        s0.modo matches ModoEmpresas::Busqueda { texto } && editar(texto@, k).valor
            != texto@.valor,
        escribe_en_busqueda(k),
        tecla_en(s0, s1, k, a1, tecleo),
        paso_del_tiempo(s1, s2, despues, a2),
        despues >= tecleo + DURACION_DEBOUNCE_MS,
    ensures
        s0.modo matches ModoEmpresas::Busqueda { texto } && es_buscar(
            a2,
            editar(texto@, k).valor,
            None,
        ),
{
}

/// Lo que hace una tecla en el formulario `f`.
pub open spec fn tecla_formulario(
    viejo: EmpresasState,
    nuevo: EmpresasState,
    f: FormularioEmpresa,
    k: Tecla,
    a: AccionEmpresas,
) -> bool {
    &&& nuevo.empresas == viejo.empresas
    &&& nuevo.seleccion == viejo.seleccion
    &&& nuevo.filtro == viejo.filtro
    &&& nuevo.mensaje == viejo.mensaje
    &&& nuevo.busqueda_debounce == viejo.busqueda_debounce
    &&& if k.codigo == Codigo::Esc {
        nuevo.modo == ModoEmpresas::Normal && a == AccionEmpresas::Ninguna
    } else if k.codigo == Codigo::Enter {
        match nombre_construido(f.nombre@.valor) {
            Ok(n) => {
                &&& nuevo.modo == viejo.modo
                &&& match f.modo {
                    ModoFormularioEmpresa::Crear => a matches AccionEmpresas::Crear { nombre }
                        && nombre@ == n,
                    ModoFormularioEmpresa::Editar { id } => a matches AccionEmpresas::Actualizar {
                        id: i,
                        nombre,
                    } && i == id && nombre@ == n,
                }
            },
            Err(m) => {
                &&& a == AccionEmpresas::Ninguna
                &&& nuevo.modo matches ModoEmpresas::Formulario(g) && g.modo == f.modo && g.nombre@
                    == f.nombre@ && (g.error matches Some(e) && e@ == m)
            },
        }
    } else {
        &&& a == AccionEmpresas::Ninguna
        &&& nuevo.modo matches ModoEmpresas::Formulario(g) && g.modo == f.modo && g.nombre@
            == editar(f.nombre@, k) && g.error == (if editar(f.nombre@, k).valor
            != f.nombre@.valor {
            None
        } else {
            f.error
        })
    }
}

/// Lo que hace una tecla al confirmar el cambio de estado `c`.
pub open spec fn tecla_confirmacion(
    viejo: EmpresasState,
    nuevo: EmpresasState,
    c: ConfirmacionEstado,
    k: Tecla,
    a: AccionEmpresas,
) -> bool {
    &&& nuevo.empresas == viejo.empresas
    &&& nuevo.seleccion == viejo.seleccion
    &&& nuevo.filtro == viejo.filtro
    &&& nuevo.mensaje == viejo.mensaje
    &&& nuevo.busqueda_debounce == viejo.busqueda_debounce
    &&& if k.codigo == Codigo::Enter {
        &&& nuevo.modo == viejo.modo
        &&& a matches AccionEmpresas::EstablecerActivo { id, activar, nombre }
        &&& id == c.id
        &&& activar == c.activar
        &&& nombre@ == (match posicion_empresa(viejo.empresas@, c.id) {
            Some(p) => viejo.empresas@[p].nombre@,
            None => Seq::<char>::empty(),
        })
    } else if k.codigo == Codigo::Esc {
        nuevo.modo == ModoEmpresas::Normal && a == AccionEmpresas::Ninguna
    } else {
        nuevo.modo == viejo.modo && a == AccionEmpresas::Ninguna
    }
}

fn lit(s: &str) -> (r: String)
    ensures
        r@ == s@,
{
    texto_de(caracteres(s).as_slice())
}

fn con_prefijo(prefijo: &str, resto: &[char]) -> (r: String)
    ensures
        r@ == prefijo@ + resto@,
{
    texto_de(unir(caracteres(prefijo).as_slice(), resto).as_slice())
}

/// Valida el formulario: el nombre recortado, no vacío.
pub fn construir(f: &FormularioEmpresa) -> (r: Result<String, String>)
    ensures
        match (r, nombre_construido(f.nombre@.valor)) {
            (Ok(a), Ok(b)) => a@ == b,
            (Err(a), Err(b)) => a@ == b,
            _ => false,
        },
{
    let n = recortar(f.nombre.value());
    if n.len() == 0 {
        Err(lit("El nombre es obligatorio"))
    } else {
        Ok(texto_de(n.as_slice()))
    }
}

impl Default for EmpresasState {
    fn default() -> (s: EmpresasState)
        ensures
            s.bien_formado(),
            s.empresas@.len() == 0,
            s.seleccion is None,
            s.modo == ModoEmpresas::Normal,
            s.filtro@.len() == 0,
            s.mensaje is None,
            !s.ayuda_expandida,
            s.busqueda_debounce.pendiente is None,
    {
        EmpresasState {
            empresas: Vec::new(),
            seleccion: None,
            modo: ModoEmpresas::Normal,
            filtro: String::new(),
            mensaje: None,
            ayuda_expandida: false,
            busqueda_debounce: Debounce::nuevo(),
        }
    }
}


/// Un error que vuelve al formulario abierto: queda anotado en él, con lo
/// escrito; nada más cambia.
pub open spec fn error_en_formulario(viejo: EmpresasState, nuevo: EmpresasState, e: String) -> bool {
    &&& match viejo.modo {
        ModoEmpresas::Formulario(f) => nuevo.modo matches ModoEmpresas::Formulario(g) && g.modo
            == f.modo && g.nombre@ == f.nombre@ && g.error == Some(e),
        _ => nuevo.modo == viejo.modo,
    }
    &&& nuevo == (EmpresasState { modo: nuevo.modo, ..viejo })
}

impl EmpresasState {
    pub fn cantidad(&self) -> (r: usize)
        ensures
            r == self.empresas@.len(),
    {
        self.empresas.len()
    }

    pub fn empresa_seleccionada(&self) -> (r: Option<&EmpresaResumen>)
        requires
            self.bien_formado(),
        ensures
            r == (match self.seleccion {
                Some(i) => Some(&self.empresas@[i as int]),
                None => None,
            }),
    {
        match self.seleccion {
            Some(i) => Some(&self.empresas[i]),
            None => None,
        }
    }

    pub fn esta_en_formulario(&self) -> (r: bool)
        ensures
            r == (self.modo is Formulario),
    {
        match &self.modo {
            ModoEmpresas::Formulario(_) => true,
            _ => false,
        }
    }

    pub fn error_formulario_actual(&self) -> (r: Option<&str>)
        ensures
            match self.modo {
                ModoEmpresas::Formulario(f) => match f.error {
                    Some(e) => r matches Some(s) && s@ == e@,
                    None => r is None,
                },
                _ => r is None,
            },
    {
        match &self.modo {
            ModoEmpresas::Formulario(f) => match &f.error {
                Some(e) => Some(e.as_str()),
                None => None,
            },
            _ => None,
        }
    }

    fn accion_buscar(&self, seleccionar_id: Option<i64>) -> (a: AccionEmpresas)
        ensures
            es_buscar(a, self.filtro@, seleccionar_id),
    {
        let texto = if es_vacio_recortado(caracteres(self.filtro.as_str()).as_slice()) {
            None
        } else {
            Some(self.filtro.clone())
        };
        AccionEmpresas::Buscar { texto, seleccionar_id }
    }

    /// Pide la lista con el filtro actual.
    pub fn solicitar_carga(&self) -> (a: AccionEmpresas)
        ensures
            es_buscar(a, self.filtro@, None),
    {
        self.accion_buscar(None)
    }

    fn posicion(&self, id: i64) -> (p: Option<usize>)
        ensures
            match p {
                Some(i) => posicion_empresa(self.empresas@, id) == Some(i as int) && i
                    < self.empresas@.len(),
                None => posicion_empresa(self.empresas@, id) is None,
            },
    {
        let ghost pr = |i: int| self.empresas@[i].id == id;
        let mut k: usize = 0;
        while k < self.empresas.len()
            invariant
                k <= self.empresas.len(),
                pr == (|i: int| self.empresas@[i].id == id),
                forall|j: int| 0 <= j < k ==> !#[trigger] pr(j),
            decreases self.empresas.len() - k,
        {
            if self.empresas[k].id == id {
                proof {
                    assert(es_primero(self.empresas@.len() as int, pr, k as int));
                    lema_primero(self.empresas@.len() as int, pr, k as int);
                }
                return Some(k);
            }
            assert(!pr(k as int));
            k += 1;
        }
        proof {
            lema_ninguno(self.empresas@.len() as int, pr);
        }
        None
    }

    /// Aplica una tecla según el modo; F1 alterna la ayuda. La tecla se
    /// toma como pulsada ahora, según el reloj.
    pub fn handle_key(&mut self, k: Tecla) -> (a: AccionEmpresas)
        requires
            old(self).bien_formado(),
        ensures
            final(self).bien_formado(),
            exists|ahora: u64| #[trigger] tecla_en(*old(self), *final(self), k, a, ahora),
    {
        let ahora = reloj_ms();
        self.handle_key_en(k, ahora)
    }

    /// Aplica la tecla `k` pulsada en el instante `ahora` (ms).
    pub fn handle_key_en(&mut self, k: Tecla, ahora: u64) -> (a: AccionEmpresas)
        requires
            old(self).bien_formado(),
        ensures
            final(self).bien_formado(),
            tecla_en(*old(self), *final(self), k, a, ahora),
    {
        if comando_estandar(k).is_some() {
            self.ayuda_expandida = !self.ayuda_expandida;
            return AccionEmpresas::Ninguna;
        }
        match &self.modo {
            ModoEmpresas::Normal => self.handle_normal(k),
            ModoEmpresas::Busqueda { texto } => {
                let t = texto.clone();
                self.handle_busqueda(k, t, ahora)
            },
            ModoEmpresas::Formulario(f) => {
                let g = FormularioEmpresa {
                    modo: f.modo,
                    nombre: f.nombre.clone(),
                    error: f.error.clone(),
                };
                self.handle_formulario(k, g)
            },
            ModoEmpresas::ConfirmacionEstado(c) => {
                let c = *c;
                self.handle_confirmacion(k, c)
            },
        }
    }

    fn handle_normal(&mut self, k: Tecla) -> (a: AccionEmpresas)
        requires
            old(self).bien_formado(),
            old(self).modo == ModoEmpresas::Normal,
        ensures
            final(self).bien_formado(),
            tecla_lista(*old(self), *final(self), k, a),
    {
        self.mensaje = None;
        match k.codigo {
            Codigo::Up => {
                self.seleccion = mover_seleccion(self.seleccion, -1, self.empresas.len());
            },
            Codigo::Down => {
                self.seleccion = mover_seleccion(self.seleccion, 1, self.empresas.len());
            },
            Codigo::Enter => {
                if let Some(i) = self.seleccion {
                    let id = self.empresas[i].id;
                    if let Some(p) = self.posicion(id) {
                        let nombre = TextInput::new(self.empresas[p].nombre.as_str()).with_max_chars(
                            LONGITUD_MAXIMA_NOMBRE,
                        );
                        self.modo = ModoEmpresas::Formulario(
                            FormularioEmpresa {
                                modo: ModoFormularioEmpresa::Editar { id },
                                nombre,
                                error: None,
                            },
                        );
                    }
                }
            },
            Codigo::Char('n') | Codigo::Char('N') => {
                self.modo = ModoEmpresas::Formulario(
                    FormularioEmpresa {
                        modo: ModoFormularioEmpresa::Crear,
                        nombre: TextInput::vacio().with_max_chars(LONGITUD_MAXIMA_NOMBRE),
                        error: None,
                    },
                );
            },
            Codigo::Char('a') | Codigo::Char('A') => {
                if let Some(i) = self.seleccion {
                    let id = self.empresas[i].id;
                    if let Some(p) = self.posicion(id) {
                        let activar = !self.empresas[p].activo;
                        self.modo = ModoEmpresas::ConfirmacionEstado(
                            ConfirmacionEstado { id, activar },
                        );
                    }
                }
            },
            Codigo::Char('/') => {
                self.modo = ModoEmpresas::Busqueda { texto: TextInput::new(self.filtro.as_str()) };
            },
            Codigo::Esc => {
                if caracteres(self.filtro.as_str()).len() > 0 {
                    self.filtro = String::new();
                    self.seleccion = None;
                    return self.accion_buscar(None);
                }
                return AccionEmpresas::Volver;
            },
            _ => {},
        }
        AccionEmpresas::Ninguna
    }

    fn handle_busqueda(&mut self, k: Tecla, texto: TextInput, ahora: u64) -> (a: AccionEmpresas)
        requires
            old(self).bien_formado(),
            old(self).modo matches ModoEmpresas::Busqueda { texto: t } && t@ == texto@,
        ensures
            final(self).bien_formado(),
            tecla_busqueda(*old(self), *final(self), texto, k, a, ahora),
    {
        match k.codigo {
            Codigo::Esc => {
                self.filtro = String::new();
                self.modo = ModoEmpresas::Normal;
                self.accion_buscar(None)
            },
            Codigo::Enter => {
                self.modo = ModoEmpresas::Normal;
                AccionEmpresas::Ninguna
            },
            Codigo::Up => {
                self.seleccion = mover_seleccion(self.seleccion, -1, self.empresas.len());
                AccionEmpresas::Ninguna
            },
            Codigo::Down => {
                self.seleccion = mover_seleccion(self.seleccion, 1, self.empresas.len());
                AccionEmpresas::Ninguna
            },
            _ => {
                let mut t = texto;
                let cambio = t.handle_key(k);
                self.filtro = t.texto();
                self.modo = ModoEmpresas::Busqueda { texto: t };
                if cambio {
                    self.busqueda_debounce.marcar(ahora);
                }
                AccionEmpresas::Ninguna
            },
        }
    }

    /// Dispara la búsqueda diferida cuando pasó la espera desde la última
    /// tecla (`ahora` en ms).
    pub fn tick(&mut self, ahora: u64) -> (a: AccionEmpresas)
        requires
            old(self).bien_formado(),
        ensures
            final(self).bien_formado(),
            paso_del_tiempo(*old(self), *final(self), ahora, a),
    {
        if self.busqueda_debounce.listo(ahora, DURACION_DEBOUNCE_MS) {
            self.accion_buscar(None)
        } else {
            AccionEmpresas::Ninguna
        }
    }

    fn handle_formulario(&mut self, k: Tecla, f: FormularioEmpresa) -> (a: AccionEmpresas)
        requires
            old(self).bien_formado(),
            old(self).modo matches ModoEmpresas::Formulario(g) && g.modo == f.modo && g.nombre@
                == f.nombre@ && g.error == f.error,
        ensures
            final(self).bien_formado(),
            tecla_formulario(*old(self), *final(self), f, k, a),
    {
        match k.codigo {
            Codigo::Esc => {
                self.modo = ModoEmpresas::Normal;
                AccionEmpresas::Ninguna
            },
            Codigo::Enter => {
                match construir(&f) {
                    Ok(nombre) => match f.modo {
                        ModoFormularioEmpresa::Crear => AccionEmpresas::Crear { nombre },
                        ModoFormularioEmpresa::Editar { id } => AccionEmpresas::Actualizar {
                            id,
                            nombre,
                        },
                    },
                    Err(e) => {
                        self.modo = ModoEmpresas::Formulario(
                            FormularioEmpresa { modo: f.modo, nombre: f.nombre, error: Some(e) },
                        );
                        AccionEmpresas::Ninguna
                    },
                }
            },
            _ => {
                let mut g = f;
                if g.nombre.handle_key(k) {
                    g.error = None;
                }
                self.modo = ModoEmpresas::Formulario(g);
                AccionEmpresas::Ninguna
            },
        }
    }

    fn handle_confirmacion(&mut self, k: Tecla, c: ConfirmacionEstado) -> (a: AccionEmpresas)
        requires
            old(self).bien_formado(),
            old(self).modo == ModoEmpresas::ConfirmacionEstado(c),
        ensures
            final(self).bien_formado(),
            tecla_confirmacion(*old(self), *final(self), c, k, a),
    {
        match k.codigo {
            Codigo::Enter => {
                let nombre = match self.posicion(c.id) {
                    Some(p) => self.empresas[p].nombre.clone(),
                    None => String::new(),
                };
                AccionEmpresas::EstablecerActivo { id: c.id, activar: c.activar, nombre }
            },
            Codigo::Esc => {
                self.modo = ModoEmpresas::Normal;
                AccionEmpresas::Ninguna
            },
            _ => AccionEmpresas::Ninguna,
        }
    }

    /// Recibe la lista: selecciona la empresa pedida (si está) o la
    /// primera; un error vacía la lista y queda como mensaje.
    pub fn completar_busqueda(&mut self, resultado: Result<Vec<EmpresaResumen>, String>, seleccionar_id: Option<i64>)
        requires
            old(self).bien_formado(),
        ensures
            final(self).bien_formado(),
            match resultado {
                Ok(v) => {
                    &&& final(self).empresas@ == v@
                    &&& final(self).mensaje is None
                    &&& final(self).seleccion == (match seleccionar_id {
                        Some(id) => match posicion_empresa(v@, id) {
                            Some(p) => Some(p as usize),
                            None => if v@.len() > 0 {
                                Some(0usize)
                            } else {
                                None
                            },
                        },
                        None => if v@.len() > 0 {
                            Some(0usize)
                        } else {
                            None
                        },
                    })
                },
                Err(e) => {
                    &&& final(self).empresas@.len() == 0
                    &&& final(self).seleccion is None
                    &&& final(self).mensaje == Some(e)
                },
            },
            final(self).modo == old(self).modo,
            final(self).filtro == old(self).filtro,
    {
        match resultado {
            Ok(v) => {
                self.empresas = v;
                self.mensaje = None;
                let p = match seleccionar_id {
                    Some(id) => self.posicion(id),
                    None => None,
                };
                self.seleccion = match p {
                    Some(i) => Some(i),
                    None => if self.empresas.len() > 0 {
                        Some(0)
                    } else {
                        None
                    },
                };
            },
            Err(e) => {
                self.empresas = Vec::new();
                self.seleccion = None;
                self.mensaje = Some(e);
            },
        }
    }

    fn error_formulario(&mut self, e: String)
        requires
            old(self).bien_formado(),
        ensures
            final(self).bien_formado(),
            error_en_formulario(*old(self), *final(self), e),
    {
        match &self.modo {
            ModoEmpresas::Formulario(f) => {
                let g = FormularioEmpresa { modo: f.modo, nombre: f.nombre.clone(), error: Some(e) };
                self.modo = ModoEmpresas::Formulario(g);
            },
            _ => {},
        }
    }

    /// Recibe el resultado de crear: si se creó, vuelve a la lista sin
    /// filtro, avisa y pide la lista con la nueva seleccionada; si no, el
    /// error queda en el formulario.
    pub fn completar_creacion(&mut self, resultado: Result<i64, String>, nombre: &str) -> (a: AccionEmpresas)
        requires
            old(self).bien_formado(),
        ensures
            final(self).bien_formado(),
            match resultado {
                Ok(id) => {
                    &&& final(self).modo == ModoEmpresas::Normal
                    &&& final(self).filtro@.len() == 0
                    &&& (final(self).mensaje matches Some(m) && m@ == "✓ Empresa creada — "@
                        + recorte(nombre@))
                    &&& es_buscar(a, Seq::empty(), Some(id))
                },
                Err(e) => {
                    &&& a == AccionEmpresas::Ninguna
                    &&& error_en_formulario(*old(self), *final(self), e)
                },
            },
            final(self).empresas == old(self).empresas,
    {
        match resultado {
            Ok(id) => {
                self.modo = ModoEmpresas::Normal;
                self.filtro = String::new();
                self.mensaje = Some(con_prefijo("✓ Empresa creada — ", recortar(caracteres(nombre).as_slice()).as_slice()));
                self.accion_buscar(Some(id))
            },
            Err(e) => {
                self.error_formulario(e);
                AccionEmpresas::Ninguna
            },
        }
    }

    /// Como `completar_creacion`, para una edición.
    pub fn completar_actualizacion(&mut self, resultado: Result<(), String>, id: i64, nombre: &str) -> (a: AccionEmpresas)
        requires
            old(self).bien_formado(),
        ensures
            final(self).bien_formado(),
            match resultado {
                Ok(()) => {
                    &&& final(self).modo == ModoEmpresas::Normal
                    &&& final(self).filtro@.len() == 0
                    &&& (final(self).mensaje matches Some(m) && m@ == "✓ Empresa actualizada — "@
                        + recorte(nombre@))
                    &&& es_buscar(a, Seq::empty(), Some(id))
                },
                Err(e) => {
                    &&& a == AccionEmpresas::Ninguna
                    &&& error_en_formulario(*old(self), *final(self), e)
                },
            },
            final(self).empresas == old(self).empresas,
    {
        match resultado {
            Ok(()) => {
                self.modo = ModoEmpresas::Normal;
                self.filtro = String::new();
                self.mensaje = Some(con_prefijo("✓ Empresa actualizada — ", recortar(caracteres(nombre).as_slice()).as_slice()));
                self.accion_buscar(Some(id))
            },
            Err(e) => {
                self.error_formulario(e);
                AccionEmpresas::Ninguna
            },
        }
    }

    /// Recibe el resultado de activar o desactivar: vuelve a la lista y, si
    /// salió bien, avisa y pide la lista sin filtro.
    pub fn completar_estado(&mut self, resultado: Result<(), String>, id: i64, activar: bool, nombre: &str) -> (a: AccionEmpresas)
        requires
            old(self).bien_formado(),
        ensures
            final(self).bien_formado(),
            final(self).modo == ModoEmpresas::Normal,
            match resultado {
                Ok(()) => {
                    &&& final(self).filtro@.len() == 0
                    &&& (final(self).mensaje matches Some(m) && m@ == (if activar {
                        "✓ Empresa activada — "@
                    } else {
                        "✓ Empresa desactivada — "@
                    }) + nombre@)
                    &&& (a matches AccionEmpresas::Buscar { texto, seleccionar_id } && texto is None
                        && seleccionar_id == Some(id))
                },
                Err(e) => a == AccionEmpresas::Ninguna && final(self).mensaje == Some(e)
                    && final(self).filtro == old(self).filtro,
            },
            final(self).empresas == old(self).empresas,
    {
        self.modo = ModoEmpresas::Normal;
        match resultado {
            Ok(()) => {
                self.filtro = String::new();
                let estado = if activar {
                    "✓ Empresa activada — "
                } else {
                    "✓ Empresa desactivada — "
                };
                self.mensaje = Some(con_prefijo(estado, caracteres(nombre).as_slice()));
                AccionEmpresas::Buscar { texto: None, seleccionar_id: Some(id) }
            },
            Err(e) => {
                self.mensaje = Some(e);
                AccionEmpresas::Ninguna
            },
        }
    }

    /// Primera fila visible para que la seleccionada quede en pantalla.
    pub fn inicio_visible(&self, capacidad: usize) -> (r: usize)
        ensures
            r == crate::ui::inicio_ventana(self.seleccion, capacidad),
    {
        crate::ui::inicio_visible(self.seleccion, capacidad)
    }
}

} // verus!
