//! Estado de la pantalla Contratistas: la página cargada, la búsqueda, el
//! editor de columnas y el formulario, y lo que cada tecla hace en cada modo.
use crate::activos::{
    contar_visibles, empresa_por_id, es_exito, esta_en, lema_visibles_cambio, mensaje_de_exito,
    no_interpretadas, nombre_de_empresa, nombre_sql, signo, signo_de, sin_interpretar,
    tipos_en_sql, visibles, vista_tipos,
};
use crate::consulta::{
    agregar_separado, es_primero, interpretar, lema_ninguno, lema_primero, palabras, primero,
    separar_palabras, separar_valores, termino, unidas, unidas_con, unidas_por, unir_por, valores,
    vistas,
};
use crate::contratistas::{
    CampoFormulario, Columna, DatosActualizacionContratista, DatosContratista, DatosVista, Desplegable,
    DURACION_DEBOUNCE_MS, FiltroContratistas, FiltroPraind, FormularioContratista,
    LIMITE_PAGINA, ModoFormulario, aplicar_clave, campo_en, campo_movido,
    clave_columna, datos_de, es_edicion, es_nuevo, fecha_escrita_con, parsear_consulta,
    posicion_tipo, resolver_contratistas, tipos_en_orden, todas_las_columnas,
};
use crate::fechas::dia_hoy_costa_rica;
use crate::modelos::{
    ContratistaResumen, Empresa, Igualdad, PaginaContratistas, RolUsuario, TipoIngreso, texto_tipo,
};
use crate::texto::{caracteres, es_vacio_recortado, solo_blancos, texto_de, unir};
use crate::ui::{
    Codigo, Debounce, Tecla, TextInput, comando_estandar, editar, es_ayuda, escribe,
    inicio_ventana, movida, mover_seleccion, reloj_ms, vencio,
};
use vstd::prelude::*;

verus! {

/// En qué está la pantalla.
#[derive(Clone, Debug, PartialEq, Eq)]
pub enum ModoContratistas {
    Normal,
    Busqueda { texto: TextInput },
    Formulario(FormularioContratista),
    Columnas { seleccion: usize },
}

/// Lo que la pantalla pide a la aplicación.
#[derive(Clone, Debug, PartialEq, Eq)]
pub enum AccionContratistas {
    Ninguna,
    Volver,
    Buscar {
        texto: Option<String>,
        seleccionar_id: Option<i64>,
        empresa_id: Option<Igualdad<i64>>,
        tipos: Option<Vec<TipoIngreso>>,
        praind: Option<FiltroPraind>,
        praind_negado: bool,
        personal_ruta: Option<bool>,
        tiene_acceso: Option<bool>,
        offset: usize,
    },
    Crear { datos: DatosContratista, nombre: String },
    Actualizar { id: i64, datos: DatosActualizacionContratista, nombre: String },
}

/// La acción es la búsqueda que corresponde a `filtro` (texto de búsqueda)
/// desde la fila `offset`, seleccionando `id` al volver.
pub open spec fn es_busqueda(
    a: AccionContratistas,
    filtro: Seq<char>,
    empresas: Seq<Empresa>,
    hoy: i32,
    id: Option<i64>,
    offset: usize,
) -> bool {
    let res = resolver_contratistas(palabras(filtro), empresas, hoy);
    let libre = unidas(res.libres);
    &&& a matches AccionContratistas::Buscar {
        texto,
        seleccionar_id,
        empresa_id,
        tipos,
        praind,
        praind_negado,
        personal_ruta,
        tiene_acceso,
        offset: desde,
    }
    &&& seleccionar_id == id
    &&& empresa_id == res.filtro.empresa_id
    &&& vista_tipos(tipos) == res.filtro.tipos
    &&& praind == res.filtro.praind
    &&& praind_negado == res.filtro.praind_negado
    &&& personal_ruta == res.filtro.personal_ruta
    &&& tiene_acceso == res.filtro.tiene_acceso
    &&& desde == offset
    &&& (texto is Some) == !solo_blancos(libre)
    &&& (texto matches Some(t) ==> t@ == libre)
}

/// Estado de la pantalla de contratistas.
#[derive(Debug)]
pub struct ContratistasState {
    pub registros: Vec<ContratistaResumen>,
    /// Total real de coincidencias; `registros` es sólo la página actual.
    pub total: usize,
    /// Primera fila de la página actual.
    pub offset: usize,
    pub empresas: Vec<Empresa>,
    pub seleccion: Option<usize>,
    pub modo: ModoContratistas,
    pub columnas: Vec<(Columna, bool)>,
    pub filtro: String,
    pub mensaje: Option<String>,
    /// Día de hoy (`num_days_from_ce`), para los filtros de PRAIND.
    pub hoy: i32,
    pub ayuda_expandida: bool,
    pub busqueda_debounce: Debounce,
}

/// Posición del primer contratista con ese id, si está.
pub open spec fn posicion_contratista(r: Seq<ContratistaResumen>, id: i64) -> Option<int> {
    primero(r.len() as int, es_contratista(r, id))
}

pub open spec fn es_contratista(r: Seq<ContratistaResumen>, id: i64) -> spec_fn(int) -> bool {
    |i: int| r[i].id == id
}

/// Id de la empresa en esa posición del catálogo, si existe.
pub open spec fn empresa_id_en(empresas: Seq<Empresa>, i: usize) -> Option<i64> {
    if i < empresas.len() {
        Some(empresas[i as int].id)
    } else {
        None
    }
}

/// Si el rol puede cambiar la cédula de un contratista existente.
pub open spec fn puede_editar_cedula(rol: RolUsuario) -> bool {
    rol != RolUsuario::Operador
}

impl Default for ContratistasState {
    fn default() -> (s: ContratistasState)
        ensures
            s.bien_formado(),
            s.registros@.len() == 0,
            s.total == 0,
            s.offset == 0,
            s.empresas@.len() == 0,
            s.seleccion is None,
            s.modo == ModoContratistas::Normal,
            s.filtro@.len() == 0,
            s.mensaje is None,
            !s.ayuda_expandida,
            s.busqueda_debounce.pendiente is None,
            forall|i: int| 0 <= i < 7 ==> #[trigger] s.columnas@[i] == (todas_las_columnas()[i], true),
    {
        let todas = Columna::todas();
        let mut columnas: Vec<(Columna, bool)> = Vec::new();
        let mut k: usize = 0;
        while k < todas.len()
            invariant
                k <= todas.len(),
                todas@ == todas_las_columnas(),
                columnas@.len() == k,
                forall|i: int| 0 <= i < k ==> #[trigger] columnas@[i] == (todas@[i], true),
            decreases todas.len() - k,
        {
            columnas.push((todas[k], true));
            k += 1;
        }
        ContratistasState {
            registros: Vec::new(),
            total: 0,
            offset: 0,
            empresas: Vec::new(),
            seleccion: None,
            modo: ModoContratistas::Normal,
            columnas,
            filtro: String::new(),
            mensaje: None,
            hoy: dia_hoy_costa_rica(),
            ayuda_expandida: false,
            busqueda_debounce: Debounce::nuevo(),
        }
    }
}

impl ContratistasState {
    /// La selección apunta a una fila cargada, el editor de columnas a una
    /// columna existente y el formulario abierto está bien formado.
    pub open spec fn bien_formado(&self) -> bool {
        &&& self.seleccion matches Some(i) ==> i < self.registros.len()
        &&& self.columnas.len() == 7
        &&& self.modo matches ModoContratistas::Columnas { seleccion } ==> seleccion < 7
        &&& self.modo matches ModoContratistas::Formulario(f) ==> f.bien_formado()
    }

    /// Fija el día de hoy.
    pub fn set_hoy(&mut self, hoy: i32)
        ensures
            *final(self) == (ContratistasState { hoy, ..*old(self) }),
    {
        self.hoy = hoy;
    }

    /// Total real de coincidencias de la búsqueda.
    pub fn total(&self) -> (r: usize)
        ensures
            r == self.total,
    {
        self.total
    }

    /// Página actual (desde 1) y cantidad de páginas; `(0, 0)` sin
    /// resultados.
    pub fn pagina(&self) -> (r: (usize, usize))
        ensures
            r == (if self.total == 0 {
                (0usize, 0usize)
            } else {
                (
                    (self.offset / LIMITE_PAGINA + 1) as usize,
                    ((self.total + LIMITE_PAGINA - 1) / LIMITE_PAGINA as int) as usize,
                )
            }),
    {
        if self.total == 0 {
            (0, 0)
        } else {
            let resto: usize = if self.total % LIMITE_PAGINA == 0 {
                0
            } else {
                1
            };
            proof {
                let t = self.total as int;
                assert((t + 99) / 100 == t / 100 + (if t % 100 == 0 {
                    0int
                } else {
                    1
                })) by (nonlinear_arith)
                    requires
                        t > 0,
                ;
            }
            (self.offset / LIMITE_PAGINA + 1, self.total / LIMITE_PAGINA + resto)
        }
    }

    /// Recibe el catálogo de empresas; un error queda como mensaje.
    pub fn completar_empresas(&mut self, r: Result<Vec<Empresa>, String>)
        requires
            old(self).bien_formado(),
        ensures
            final(self).bien_formado(),
            match r {
                Ok(e) => *final(self) == (ContratistasState { empresas: e, ..*old(self) }),
                Err(e) => *final(self) == (ContratistasState { mensaje: Some(e), ..*old(self) }),
            },
    {
        match r {
            Ok(e) => {
                self.empresas = e;
            },
            Err(e) => {
                self.mensaje = Some(e);
            },
        }
    }

    /// La búsqueda que corresponde al texto actual, desde `offset`.
    pub fn buscar(&self, id: Option<i64>) -> (a: AccionContratistas)
        ensures
            es_busqueda(a, self.filtro@, self.empresas@, self.hoy, id, self.offset),
    {
        let texto = caracteres(self.filtro.as_str());
        let (filtro, libre) = parsear_consulta(texto.as_slice(), self.empresas.as_slice(), self.hoy);
        let texto = if es_vacio_recortado(libre.as_slice()) {
            None
        } else {
            Some(texto_de(libre.as_slice()))
        };
        AccionContratistas::Buscar {
            texto,
            seleccionar_id: id,
            empresa_id: filtro.empresa_id,
            tipos: filtro.tipos_incluidos,
            praind: filtro.praind,
            praind_negado: filtro.praind_negado,
            personal_ruta: filtro.personal_ruta,
            tiene_acceso: filtro.tiene_acceso,
            offset: self.offset,
        }
    }

    /// Carga la página actual con la búsqueda actual.
    pub fn solicitud_carga(&self) -> (a: AccionContratistas)
        ensures
            es_busqueda(a, self.filtro@, self.empresas@, self.hoy, None, self.offset),
    {
        self.buscar(None)
    }

    /// Id del contratista seleccionado.
    pub fn id(&self) -> (r: Option<i64>)
        requires
            self.bien_formado(),
        ensures
            r == (match self.seleccion {
                Some(i) => Some(self.registros@[i as int].id),
                None => None,
            }),
    {
        match self.seleccion {
            Some(i) => Some(self.registros[i].id),
            None => None,
        }
    }

    /// El contratista seleccionado.
    pub fn seleccionado(&self) -> (r: Option<&ContratistaResumen>)
        requires
            self.bien_formado(),
        ensures
            r == (match self.seleccion {
                Some(i) => Some(&self.registros@[i as int]),
                None => None,
            }),
    {
        match self.seleccion {
            Some(i) => Some(&self.registros[i]),
            None => None,
        }
    }

    /// Primera fila visible en una tabla de `c` filas.
    pub fn inicio_visible(&self, c: usize) -> (r: usize)
        ensures
            r == inicio_ventana(self.seleccion, c),
    {
        crate::ui::inicio_visible(self.seleccion, c)
    }

    /// Sube (`d < 0`) o baja la selección sin salirse de la lista.
    pub fn mover(&mut self, d: isize)
        requires
            old(self).bien_formado(),
        ensures
            final(self).bien_formado(),
            *final(self) == (ContratistasState {
                seleccion: movida(old(self).seleccion, d as int, old(self).registros@.len()),
                ..*old(self)
            }),
    {
        self.seleccion = mover_seleccion(self.seleccion, d, self.registros.len());
    }

    /// Recibe una página: reemplaza las filas y el total, conserva un
    /// mensaje de éxito previo y selecciona `id` si está (o la primera
    /// fila). Un error vacía la tabla y queda como mensaje.
    pub fn completar_busqueda(&mut self, r: Result<PaginaContratistas, String>, id: Option<i64>)
        requires
            old(self).bien_formado(),
        ensures
            final(self).bien_formado(),
            final(self).modo == old(self).modo,
            final(self).columnas == old(self).columnas,
            final(self).filtro == old(self).filtro,
            final(self).empresas == old(self).empresas,
            final(self).offset == old(self).offset,
            final(self).hoy == old(self).hoy,
            match r {
                Ok(p) => {
                    &&& final(self).registros@ == p.items@
                    &&& final(self).total == p.total
                    &&& final(self).mensaje == (if es_exito(old(self).mensaje) {
                        old(self).mensaje
                    } else {
                        None
                    })
                    &&& final(self).seleccion == (match id {
                        Some(x) => match posicion_contratista(p.items@, x) {
                            Some(i) => Some(i as usize),
                            None => if p.items@.len() > 0 {
                                Some(0usize)
                            } else {
                                None
                            },
                        },
                        None => if p.items@.len() > 0 {
                            Some(0usize)
                        } else {
                            None
                        },
                    })
                },
                Err(e) => {
                    &&& final(self).registros@.len() == 0
                    &&& final(self).total == 0
                    &&& final(self).seleccion is None
                    &&& final(self).mensaje == Some(e)
                },
            },
    {
        match r {
            Ok(p) => {
                self.registros = p.items;
                self.total = p.total;
                if !mensaje_de_exito(&self.mensaje) {
                    self.mensaje = None;
                }
                let pos = match id {
                    Some(x) => posicion(self.registros.as_slice(), x),
                    None => None,
                };
                self.seleccion = match pos {
                    Some(i) => Some(i),
                    None => if self.registros.len() > 0 {
                        Some(0)
                    } else {
                        None
                    },
                };
            },
            Err(e) => {
                self.registros = Vec::new();
                self.total = 0;
                self.seleccion = None;
                self.mensaje = Some(e);
            },
        }
    }

    /// Refresca el día de hoy y dispara la búsqueda diferida cuando pasó la
    /// espera desde la última tecla (`ahora` en ms).
    pub fn tick(&mut self, ahora: u64) -> (a: AccionContratistas)
        requires
            old(self).bien_formado(),
        ensures
            final(self).bien_formado(),
            paso_del_tiempo(*old(self), *final(self), ahora, a),
    {
        self.hoy = dia_hoy_costa_rica();
        if self.busqueda_debounce.listo(ahora, DURACION_DEBOUNCE_MS) {
            self.buscar(None)
        } else {
            AccionContratistas::Ninguna
        }
    }
}

/// Lo que hace pasar el tiempo hasta `ahora`: se refresca el día de hoy y
/// la búsqueda diferida sale cuando pasó la espera desde la última tecla;
/// nada más cambia.
pub open spec fn paso_del_tiempo(
    viejo: ContratistasState,
    nuevo: ContratistasState,
    ahora: u64,
    a: AccionContratistas,
) -> bool {
    &&& vencio(viejo.busqueda_debounce.pendiente, ahora, DURACION_DEBOUNCE_MS) ==> {
        &&& es_busqueda(a, viejo.filtro@, viejo.empresas@, nuevo.hoy, None, viejo.offset)
        &&& nuevo.busqueda_debounce.pendiente is None
    }
    &&& !vencio(viejo.busqueda_debounce.pendiente, ahora, DURACION_DEBOUNCE_MS) ==> {
        &&& a == AccionContratistas::Ninguna
        &&& nuevo.busqueda_debounce == viejo.busqueda_debounce
    }
    &&& nuevo == (ContratistasState {
        hoy: nuevo.hoy,
        busqueda_debounce: nuevo.busqueda_debounce,
        ..viejo
    })
}

/// Una tecla que edita el texto de la búsqueda (no la cierra ni mueve la
/// selección ni pide ayuda).
pub open spec fn escribe_en_busqueda(k: Tecla) -> bool {
    &&& !es_ayuda(k)
    &&& k.codigo != Codigo::Esc
    &&& k.codigo != Codigo::Enter
    &&& k.codigo != Codigo::Up
    &&& k.codigo != Codigo::Down
}

/// Escribir en la búsqueda y dejar pasar la espera pide la primera página
/// con el texto escrito.
pub proof fn ley_busqueda_diferida(
    s0: ContratistasState,
    s1: ContratistasState,
    s2: ContratistasState,
    k: Tecla,
    rol: RolUsuario,
    a1: AccionContratistas,
    a2: AccionContratistas,
    tecleo: u64,
    despues: u64,
)
    requires
        s0.modo matches ModoContratistas::Busqueda { texto } && editar(texto@, k).valor
            != texto@.valor,
        escribe_en_busqueda(k),
        tecla(s0, s1, k, a1, rol, tecleo),
        paso_del_tiempo(s1, s2, despues, a2),
        despues >= tecleo + DURACION_DEBOUNCE_MS,
    ensures
        s0.modo matches ModoContratistas::Busqueda { texto } && es_busqueda(
            a2,
            editar(texto@, k).valor,
            s0.empresas@,
            s2.hoy,
            None,
            0,
        ),
{
}

/// Último índice del desplegable abierto.
pub open spec fn ultimo_de(d: Desplegable, n_empresas: nat) -> usize {
    match d {
        Desplegable::Empresa => if n_empresas > 0 {
            (n_empresas - 1) as usize
        } else {
            0usize
        },
        Desplegable::Tipo => 3usize,
    }
}

/// El formulario tras una tecla con el desplegable `d` abierto en `o`:
/// moverse sin salirse, elegir con Enter o cerrar con Esc.
pub open spec fn desplegable_tras(
    f: FormularioContratista,
    d: Desplegable,
    o: usize,
    k: Tecla,
    n_empresas: nat,
) -> FormularioContratista {
    let u = ultimo_de(d, n_empresas);
    if k.codigo == Codigo::Up {
        FormularioContratista {
            desplegable: Some((d, if o > 0 {
                (o - 1) as usize
            } else {
                0usize
            })),
            ..f
        }
    } else if k.codigo == Codigo::Down {
        FormularioContratista {
            desplegable: Some((d, if o < u {
                (o + 1) as usize
            } else {
                u
            })),
            ..f
        }
    } else if k.codigo == Codigo::Enter {
        match d {
            Desplegable::Empresa => FormularioContratista { empresa: o, desplegable: None, ..f },
            Desplegable::Tipo => FormularioContratista {
                tipo: tipos_en_orden()[o as int],
                desplegable: None,
                ..f
            },
        }
    } else if k.codigo == Codigo::Esc {
        FormularioContratista { desplegable: None, ..f }
    } else {
        f
    }
}

/// Teclas que mueven el cursor o borran dentro de un campo de texto.
pub open spec fn mueve_o_borra(k: Tecla) -> bool {
    ||| k.codigo == Codigo::Left
    ||| k.codigo == Codigo::Right
    ||| k.codigo == Codigo::Home
    ||| k.codigo == Codigo::End
    ||| k.codigo == Codigo::Delete
    ||| k.codigo == Codigo::Backspace
}

/// Espacio sobre un campo que se elige o se alterna.
pub open spec fn alterna(f: FormularioContratista, k: Tecla) -> bool {
    let c = campo_en(f.campo as int);
    k.codigo == Codigo::Char(' ') && (c == crate::contratistas::CampoFormulario::Empresa || c
        == crate::contratistas::CampoFormulario::Tipo || c
        == crate::contratistas::CampoFormulario::Ruta || c
        == crate::contratistas::CampoFormulario::Acceso)
}

/// Lo que una tecla (ni Esc ni Enter, sin desplegable abierto) hace al
/// formulario: mover el foco entre los campos habilitados, abrir un
/// desplegable o alternar un sí/no con espacio, o editar el campo de texto
/// enfocado si se puede; el error mostrado se borra.
pub open spec fn formulario_tras(v: FormularioContratista, n: FormularioContratista, k: Tecla) -> bool {
    let c = campo_en(v.campo as int);
    let alt = alterna(v, k);
    let edita = mueve_o_borra(k) || (!alt && escribe(k));
    &&& n.modo == v.modo
    &&& n.empresa == v.empresa
    &&& n.tipo == v.tipo
    &&& n.cedula_editable == v.cedula_editable
    &&& n.error is None
    &&& n.campo == (if k.codigo == Codigo::Up || k.codigo == Codigo::BackTab {
        campo_movido(v, -1)
    } else if k.codigo == Codigo::Down || k.codigo == Codigo::Tab {
        campo_movido(v, 1)
    } else {
        v.campo
    })
    &&& n.desplegable == (if alt && c == crate::contratistas::CampoFormulario::Empresa {
        Some((Desplegable::Empresa, v.empresa))
    } else if alt && c == crate::contratistas::CampoFormulario::Tipo {
        Some((Desplegable::Tipo, posicion_tipo(v.tipo)))
    } else {
        v.desplegable
    })
    &&& n.personal_ruta == (if alt && c == crate::contratistas::CampoFormulario::Ruta {
        !v.personal_ruta
    } else {
        v.personal_ruta
    })
    &&& n.tiene_acceso == (if alt && c == crate::contratistas::CampoFormulario::Acceso {
        !v.tiene_acceso
    } else {
        v.tiene_acceso
    })
    &&& if edita && c == crate::contratistas::CampoFormulario::Cedula && v.cedula_editable {
        n.cedula@ == editar(v.cedula@, k)
    } else {
        n.cedula == v.cedula
    }
    &&& if edita && c == crate::contratistas::CampoFormulario::Nombre {
        n.nombre@ == editar(v.nombre@, k)
    } else {
        n.nombre == v.nombre
    }
    &&& if edita && c == crate::contratistas::CampoFormulario::FechaPraind && v.requiere() {
        n.fecha_praind@ == (match k.codigo {
            Codigo::Char(ch) => fecha_escrita_con(v.fecha_praind@, k, ch),
            _ => editar(v.fecha_praind@, k),
        })
    } else {
        n.fecha_praind == v.fecha_praind
    }
}

/// La acción que guarda los datos `d` del formulario en modo `modo`.
pub open spec fn es_guardado(a: AccionContratistas, modo: ModoFormulario, d: DatosVista) -> bool {
    match modo {
        ModoFormulario::Crear => a matches AccionContratistas::Crear { datos, nombre } && datos@
            == d && nombre@ == d.nombre,
        ModoFormulario::Editar { id } => a matches AccionContratistas::Actualizar {
            id: i,
            datos,
            nombre,
        } && i == id && datos@ == d && nombre@ == d.nombre,
    }
}

/// Lo que hace una tecla con el formulario `f` abierto.
pub open spec fn tecla_formulario(
    viejo: ContratistasState,
    nuevo: ContratistasState,
    f: FormularioContratista,
    k: Tecla,
    a: AccionContratistas,
) -> bool {
    &&& nuevo == (ContratistasState { modo: nuevo.modo, ..viejo })
    &&& match f.desplegable {
        Some((d, o)) => {
            &&& a == AccionContratistas::Ninguna
            &&& nuevo.modo == ModoContratistas::Formulario(
                desplegable_tras(f, d, o, k, viejo.empresas@.len()),
            )
        },
        None => if k.codigo == Codigo::Esc {
            a == AccionContratistas::Ninguna && nuevo.modo == ModoContratistas::Normal
        } else if k.codigo == Codigo::Enter {
            match datos_de(f, empresa_id_en(viejo.empresas@, f.empresa)) {
                Ok(d) => nuevo.modo == ModoContratistas::Formulario(f) && es_guardado(a, f.modo, d),
                Err(e) => {
                    &&& a == AccionContratistas::Ninguna
                    &&& nuevo.modo matches ModoContratistas::Formulario(g)
                    &&& g == (FormularioContratista { error: g.error, ..f })
                    &&& g.error matches Some(m) && m@ == e
                },
            }
        } else {
            &&& a == AccionContratistas::Ninguna
            &&& nuevo.modo matches ModoContratistas::Formulario(g)
            &&& formulario_tras(f, g, k)
        },
    }
}

/// Aplica una tecla (ni Esc ni Enter) al formulario sin desplegable.
fn tecla_en_campos(f: &mut FormularioContratista, k: Tecla)
    requires
        old(f).bien_formado(),
        old(f).desplegable is None,
        k.codigo != Codigo::Esc,
        k.codigo != Codigo::Enter,
    ensures
        final(f).bien_formado(),
        formulario_tras(*old(f), *final(f), k),
{
    let c = crate::contratistas::CampoFormulario::en(f.campo);
    let es_eleccion = match c {
        crate::contratistas::CampoFormulario::Empresa | crate::contratistas::CampoFormulario::Tipo
        | crate::contratistas::CampoFormulario::Ruta
        | crate::contratistas::CampoFormulario::Acceso => true,
        _ => false,
    };
    let espacio = match k.codigo {
        Codigo::Char(' ') => true,
        _ => false,
    };
    let es_caracter = match k.codigo {
        Codigo::Char(_) => true,
        _ => false,
    };
    let mueve = match k.codigo {
        Codigo::Left | Codigo::Right | Codigo::Home | Codigo::End | Codigo::Delete
        | Codigo::Backspace => true,
        _ => false,
    };
    match k.codigo {
        Codigo::Up | Codigo::BackTab => {
            crate::contratistas::mover_campo(f, -1);
        },
        Codigo::Down | Codigo::Tab => {
            crate::contratistas::mover_campo(f, 1);
        },
        _ => {
            if espacio && es_eleccion {
                match c {
                    crate::contratistas::CampoFormulario::Empresa => {
                        f.desplegable = Some((Desplegable::Empresa, f.empresa));
                    },
                    crate::contratistas::CampoFormulario::Tipo => {
                        f.desplegable = Some(
                            (Desplegable::Tipo, crate::contratistas::indice_tipo(f.tipo)),
                        );
                    },
                    crate::contratistas::CampoFormulario::Ruta => {
                        f.personal_ruta = !f.personal_ruta;
                    },
                    _ => {
                        f.tiene_acceso = !f.tiene_acceso;
                    },
                }
            } else if mueve || (!k.control && !k.alt && es_caracter) {
                match c {
                    crate::contratistas::CampoFormulario::Cedula => {
                        if f.cedula_editable {
                            f.cedula.handle_key(k);
                        }
                    },
                    crate::contratistas::CampoFormulario::Nombre => {
                        f.nombre.handle_key(k);
                    },
                    crate::contratistas::CampoFormulario::FechaPraind => {
                        if f.requiere_praind() {
                            match k.codigo {
                                Codigo::Char(ch) => {
                                    crate::contratistas::agregar_fecha(&mut f.fecha_praind, k, ch);
                                },
                                _ => {
                                    f.fecha_praind.handle_key(k);
                                },
                            }
                        }
                    },
                    _ => {},
                }
            }
        },
    }
    f.error = None;
}

impl ContratistasState {
    fn formulario(&mut self, k: Tecla) -> (a: AccionContratistas)
        requires
            old(self).bien_formado(),
            old(self).modo is Formulario,
        ensures
            final(self).bien_formado(),
            tecla_formulario(*old(self), *final(self), old(self).modo->0, k, a),
    {
        let mut modo = ModoContratistas::Normal;
        std::mem::swap(&mut modo, &mut self.modo);
        match modo {
            ModoContratistas::Formulario(f) => self.formulario_con(k, f),
            _ => AccionContratistas::Ninguna,
        }
    }

    fn formulario_con(&mut self, k: Tecla, f: FormularioContratista) -> (a: AccionContratistas)
        requires
            old(self).bien_formado(),
            f.bien_formado(),
        ensures
            final(self).bien_formado(),
            tecla_formulario(*old(self), *final(self), f, k, a),
    {
        let mut f = f;
        if let Some((d, o)) = f.desplegable {
            let ultimo: usize = match d {
                Desplegable::Empresa => if self.empresas.len() > 0 {
                    self.empresas.len() - 1
                } else {
                    0
                },
                Desplegable::Tipo => 3,
            };
            match k.codigo {
                Codigo::Up => {
                    f.desplegable = Some((d, if o > 0 { o - 1 } else { 0 }));
                },
                Codigo::Down => {
                    f.desplegable = Some((d, if o < ultimo { o + 1 } else { ultimo }));
                },
                Codigo::Enter => {
                    match d {
                        Desplegable::Empresa => {
                            f.empresa = o;
                        },
                        Desplegable::Tipo => {
                            let ts = crate::contratistas::tipos();
                            f.tipo = ts[o];
                        },
                    }
                    f.desplegable = None;
                },
                Codigo::Esc => {
                    f.desplegable = None;
                },
                _ => {},
            }
            self.modo = ModoContratistas::Formulario(f);
            return AccionContratistas::Ninguna;
        }
        match k.codigo {
            Codigo::Esc => {
                self.modo = ModoContratistas::Normal;
                AccionContratistas::Ninguna
            },
            Codigo::Enter => {
                let empresa_id = if f.empresa < self.empresas.len() {
                    Some(self.empresas[f.empresa].id)
                } else {
                    None
                };
                match crate::contratistas::construir(&f, empresa_id) {
                    Ok(datos) => {
                        let nombre = datos.nombre.clone();
                        let a = match f.modo {
                            ModoFormulario::Crear => AccionContratistas::Crear { datos, nombre },
                            ModoFormulario::Editar { id } => AccionContratistas::Actualizar {
                                id,
                                datos: crate::contratistas::convertir_actualizacion(datos),
                                nombre,
                            },
                        };
                        self.modo = ModoContratistas::Formulario(f);
                        a
                    },
                    Err(e) => {
                        f.error = Some(e);
                        self.modo = ModoContratistas::Formulario(f);
                        AccionContratistas::Ninguna
                    },
                }
            },
            _ => {
                tecla_en_campos(&mut f, k);
                self.modo = ModoContratistas::Formulario(f);
                AccionContratistas::Ninguna
            },
        }
    }
}

/// Lo que hace una tecla en la tabla: mover la selección, cambiar de
/// página, editar la fila (con la cédula editable según el rol), crear si
/// hay empresas, abrir la búsqueda o el editor de columnas, y Esc limpia la
/// búsqueda o vuelve.
pub open spec fn tecla_normal(
    viejo: ContratistasState,
    nuevo: ContratistasState,
    k: Tecla,
    a: AccionContratistas,
    rol: RolUsuario,
) -> bool {
    let nueva = k.codigo == Codigo::Char('n') || k.codigo == Codigo::Char('N');
    let limpia = k.codigo == Codigo::Enter || nueva || k.codigo == Codigo::Char('/') || k.codigo
        == Codigo::Esc;
    &&& nuevo.registros == viejo.registros
    &&& nuevo.empresas == viejo.empresas
    &&& nuevo.columnas == viejo.columnas
    &&& nuevo.total == viejo.total
    &&& nuevo.hoy == viejo.hoy
    &&& nuevo.ayuda_expandida == viejo.ayuda_expandida
    &&& nuevo.busqueda_debounce == viejo.busqueda_debounce
    &&& if nueva && viejo.empresas@.len() == 0 {
        nuevo.mensaje matches Some(m) && m@
            == "Debe registrar al menos una empresa antes de crear contratistas"@
    } else {
        nuevo.mensaje == (if limpia {
            None
        } else {
            viejo.mensaje
        })
    }
    &&& nuevo.seleccion == (if k.codigo == Codigo::Up {
        movida(viejo.seleccion, -1, viejo.registros@.len())
    } else if k.codigo == Codigo::Down {
        movida(viejo.seleccion, 1, viejo.registros@.len())
    } else {
        viejo.seleccion
    })
    &&& if k.codigo == Codigo::Enter {
        match viejo.seleccion {
            Some(i) => match posicion_contratista(viejo.registros@, viejo.registros@[i as int].id) {
                Some(p) => nuevo.modo matches ModoContratistas::Formulario(f) && es_edicion(
                    f,
                    viejo.registros@[p],
                    viejo.empresas@,
                    puede_editar_cedula(rol),
                ),
                None => nuevo.modo == viejo.modo,
            },
            None => nuevo.modo == viejo.modo,
        }
    } else if nueva {
        if viejo.empresas@.len() == 0 {
            nuevo.modo == viejo.modo
        } else {
            nuevo.modo matches ModoContratistas::Formulario(f) && es_nuevo(f)
        }
    } else if k.codigo == Codigo::Char('/') {
        nuevo.modo matches ModoContratistas::Busqueda { texto } && texto@.valor.len() == 0
            && texto@.cursor == 0 && texto@.maximo is None
    } else if k.codigo == Codigo::F(4) {
        nuevo.modo == ModoContratistas::Columnas { seleccion: 0 }
    } else {
        nuevo.modo == viejo.modo
    }
    &&& if k.codigo == Codigo::PageDown && viejo.offset + LIMITE_PAGINA < viejo.total {
        &&& nuevo.offset == viejo.offset + LIMITE_PAGINA
        &&& nuevo.filtro == viejo.filtro
        &&& es_busqueda(a, viejo.filtro@, viejo.empresas@, viejo.hoy, None, nuevo.offset)
    } else if k.codigo == Codigo::PageUp && viejo.offset > 0 {
        &&& nuevo.offset == (if viejo.offset >= LIMITE_PAGINA {
            (viejo.offset - LIMITE_PAGINA) as usize
        } else {
            0usize
        })
        &&& nuevo.filtro == viejo.filtro
        &&& es_busqueda(a, viejo.filtro@, viejo.empresas@, viejo.hoy, None, nuevo.offset)
    } else if k.codigo == Codigo::Esc && viejo.filtro@.len() > 0 {
        &&& nuevo.filtro@.len() == 0
        &&& nuevo.offset == 0
        &&& es_busqueda(a, Seq::empty(), viejo.empresas@, viejo.hoy, None, 0)
    } else {
        &&& nuevo.filtro == viejo.filtro
        &&& nuevo.offset == viejo.offset
        &&& a == (if k.codigo == Codigo::Esc {
            AccionContratistas::Volver
        } else {
            AccionContratistas::Ninguna
        })
    }
}

/// Lo que hace una tecla mientras se escribe la búsqueda: Esc la borra y
/// busca todo, Enter vuelve a la tabla, las flechas mueven la selección y
/// lo demás edita el texto; si el texto cambió se vuelve a la primera
/// página y se programa la búsqueda.
pub open spec fn tecla_busqueda(
    viejo: ContratistasState,
    nuevo: ContratistasState,
    texto: TextInput,
    k: Tecla,
    a: AccionContratistas,
    ahora: u64,
) -> bool {
    &&& nuevo.registros == viejo.registros
    &&& nuevo.empresas == viejo.empresas
    &&& nuevo.columnas == viejo.columnas
    &&& nuevo.mensaje == viejo.mensaje
    &&& nuevo.total == viejo.total
    &&& nuevo.hoy == viejo.hoy
    &&& nuevo.ayuda_expandida == viejo.ayuda_expandida
    &&& if k.codigo == Codigo::Esc {
        &&& nuevo.filtro@.len() == 0
        &&& nuevo.offset == 0
        &&& nuevo.modo == ModoContratistas::Normal
        &&& nuevo.seleccion == viejo.seleccion
        &&& nuevo.busqueda_debounce == viejo.busqueda_debounce
        &&& es_busqueda(a, Seq::empty(), viejo.empresas@, viejo.hoy, None, 0)
    } else if k.codigo == Codigo::Enter {
        &&& nuevo.filtro == viejo.filtro
        &&& nuevo.offset == viejo.offset
        &&& nuevo.modo == ModoContratistas::Normal
        &&& nuevo.seleccion == viejo.seleccion
        &&& nuevo.busqueda_debounce == viejo.busqueda_debounce
        &&& a == AccionContratistas::Ninguna
    } else if k.codigo == Codigo::Up || k.codigo == Codigo::Down {
        &&& nuevo.filtro == viejo.filtro
        &&& nuevo.offset == viejo.offset
        &&& nuevo.modo == viejo.modo
        &&& nuevo.busqueda_debounce == viejo.busqueda_debounce
        &&& nuevo.seleccion == movida(
            viejo.seleccion,
            if k.codigo == Codigo::Up {
                -1
            } else {
                1
            },
            viejo.registros@.len(),
        )
        &&& a == AccionContratistas::Ninguna
    } else {
        &&& (nuevo.modo matches ModoContratistas::Busqueda { texto: t } && t@ == editar(texto@, k))
        &&& nuevo.filtro@ == editar(texto@, k).valor
        &&& nuevo.seleccion == viejo.seleccion
        &&& a == AccionContratistas::Ninguna
        &&& if editar(texto@, k).valor != texto@.valor {
            nuevo.offset == 0 && nuevo.busqueda_debounce.pendiente == Some(ahora)
        } else {
            nuevo.offset == viejo.offset && nuevo.busqueda_debounce == viejo.busqueda_debounce
        }
    }
}

/// Lo que hace una tecla en el editor de columnas (posición `s`): moverse,
/// alternar la columna sin dejar ninguna visible de menos, o salir.
pub open spec fn tecla_columnas(
    viejo: ContratistasState,
    nuevo: ContratistasState,
    s: usize,
    k: Tecla,
) -> bool {
    &&& nuevo == (ContratistasState {
        modo: nuevo.modo,
        columnas: nuevo.columnas,
        mensaje: nuevo.mensaje,
        ..viejo
    })
    &&& if k.codigo == Codigo::Up {
        &&& nuevo.modo == (ModoContratistas::Columnas {
            seleccion: if s > 0 {
                (s - 1) as usize
            } else {
                0
            },
        })
        &&& nuevo.columnas == viejo.columnas
        &&& nuevo.mensaje == viejo.mensaje
    } else if k.codigo == Codigo::Down {
        &&& nuevo.modo == (ModoContratistas::Columnas {
            seleccion: if s + 1 < 6 {
                (s + 1) as usize
            } else {
                6
            },
        })
        &&& nuevo.columnas == viejo.columnas
        &&& nuevo.mensaje == viejo.mensaje
    } else if k.codigo == Codigo::Char(' ') {
        &&& nuevo.modo == viejo.modo
        &&& if viejo.columnas@[s as int].1 && visibles(viejo.columnas@) == 1 {
            &&& nuevo.columnas == viejo.columnas
            &&& (nuevo.mensaje matches Some(m) && m@ == "Debe conservar al menos una columna"@)
        } else {
            &&& nuevo.columnas@ == viejo.columnas@.update(
                s as int,
                (viejo.columnas@[s as int].0, !viejo.columnas@[s as int].1),
            )
            &&& nuevo.mensaje == viejo.mensaje
        }
    } else if k.codigo == Codigo::Esc {
        &&& nuevo.modo == ModoContratistas::Normal
        &&& nuevo.columnas == viejo.columnas
        &&& nuevo.mensaje == viejo.mensaje
    } else {
        &&& nuevo.modo == viejo.modo
        &&& nuevo.columnas == viejo.columnas
        &&& nuevo.mensaje == viejo.mensaje
    }
}

/// Lo que hace una tecla en la pantalla con una sesión de rol `rol`: F1
/// alterna la ayuda; lo demás depende del modo.
pub open spec fn tecla(
    viejo: ContratistasState,
    nuevo: ContratistasState,
    k: Tecla,
    a: AccionContratistas,
    rol: RolUsuario,
    ahora: u64,
) -> bool {
    if es_ayuda(k) {
        a == AccionContratistas::Ninguna && nuevo == (ContratistasState {
            ayuda_expandida: !viejo.ayuda_expandida,
            ..viejo
        })
    } else {
        match viejo.modo {
            ModoContratistas::Normal => tecla_normal(viejo, nuevo, k, a, rol),
            ModoContratistas::Busqueda { texto } => tecla_busqueda(viejo, nuevo, texto, k, a, ahora),
            ModoContratistas::Formulario(f) => tecla_formulario(viejo, nuevo, f, k, a),
            ModoContratistas::Columnas { seleccion } => a == AccionContratistas::Ninguna
                && tecla_columnas(viejo, nuevo, seleccion, k),
        }
    }
}

impl ContratistasState {
    /// Aplica una tecla con los permisos de un operador (la cédula de un
    /// contratista existente no se puede cambiar), pulsada ahora según el
    /// reloj.
    pub fn handle_key(&mut self, k: Tecla) -> (a: AccionContratistas)
        requires
            old(self).bien_formado(),
        ensures
            final(self).bien_formado(),
            visibles(old(self).columnas@) >= 1 ==> visibles(final(self).columnas@) >= 1,
            exists|ahora: u64|
                #[trigger] tecla(*old(self), *final(self), k, a, RolUsuario::Operador, ahora),
    {
        self.handle_key_con_rol(k, RolUsuario::Operador)
    }

    /// Aplica una tecla con los permisos del rol de la sesión, pulsada ahora
    /// según el reloj.
    pub fn handle_key_con_rol(&mut self, k: Tecla, rol: RolUsuario) -> (a: AccionContratistas)
        requires
            old(self).bien_formado(),
        ensures
            final(self).bien_formado(),
            visibles(old(self).columnas@) >= 1 ==> visibles(final(self).columnas@) >= 1,
            exists|ahora: u64| #[trigger] tecla(*old(self), *final(self), k, a, rol, ahora),
    {
        let ahora = reloj_ms();
        self.handle_key_en(k, rol, ahora)
    }

    /// Aplica la tecla `k`, pulsada en el instante `ahora` (ms), con los
    /// permisos de `rol`.
    pub fn handle_key_en(&mut self, k: Tecla, rol: RolUsuario, ahora: u64) -> (a: AccionContratistas)
        requires
            old(self).bien_formado(),
        ensures
            final(self).bien_formado(),
            visibles(old(self).columnas@) >= 1 ==> visibles(final(self).columnas@) >= 1,
            tecla(*old(self), *final(self), k, a, rol, ahora),
    {
        if comando_estandar(k).is_some() {
            self.ayuda_expandida = !self.ayuda_expandida;
            return AccionContratistas::Ninguna;
        }
        match &self.modo {
            ModoContratistas::Normal => self.normal(k, rol),
            ModoContratistas::Busqueda { .. } => self.busqueda(k, ahora),
            ModoContratistas::Formulario(_) => self.formulario(k),
            ModoContratistas::Columnas { seleccion } => {
                let s = *seleccion;
                self.columnas_key(k, s);
                AccionContratistas::Ninguna
            },
        }
    }

    fn normal(&mut self, k: Tecla, rol: RolUsuario) -> (a: AccionContratistas)
        requires
            old(self).bien_formado(),
            old(self).modo == ModoContratistas::Normal,
        ensures
            final(self).bien_formado(),
            tecla_normal(*old(self), *final(self), k, a, rol),
    {
        match k.codigo {
            Codigo::Enter | Codigo::Char('n') | Codigo::Char('N') | Codigo::Char('/')
            | Codigo::Esc => {
                self.mensaje = None;
            },
            _ => {},
        }
        match k.codigo {
            Codigo::Up => self.mover(-1),
            Codigo::Down => self.mover(1),
            Codigo::PageDown => {
                if self.offset < self.total && self.total - self.offset > LIMITE_PAGINA {
                    self.offset = self.offset + LIMITE_PAGINA;
                    return self.buscar(None);
                }
            },
            Codigo::PageUp => {
                if self.offset > 0 {
                    self.offset = if self.offset >= LIMITE_PAGINA {
                        self.offset - LIMITE_PAGINA
                    } else {
                        0
                    };
                    return self.buscar(None);
                }
            },
            Codigo::Enter => {
                if let Some(id) = self.id() {
                    self.editar(id, rol);
                }
            },
            Codigo::Char('n') | Codigo::Char('N') => {
                if self.empresas.len() == 0 {
                    self.mensaje = Some(
                        texto_de(
                            lit(
                                "Debe registrar al menos una empresa antes de crear contratistas",
                            ).as_slice(),
                        ),
                    );
                } else {
                    self.modo = ModoContratistas::Formulario(FormularioContratista::nuevo());
                }
            },
            Codigo::Char('/') => {
                self.modo = ModoContratistas::Busqueda { texto: TextInput::vacio() };
            },
            Codigo::F(4) => {
                self.modo = ModoContratistas::Columnas { seleccion: 0 };
            },
            Codigo::Esc => {
                if caracteres(self.filtro.as_str()).len() > 0 {
                    self.filtro = String::new();
                    self.offset = 0;
                    return self.buscar(None);
                }
                return AccionContratistas::Volver;
            },
            _ => {},
        }
        AccionContratistas::Ninguna
    }

    /// Abre el formulario de edición del primer contratista con ese id.
    fn editar(&mut self, id: i64, rol: RolUsuario)
        requires
            old(self).bien_formado(),
        ensures
            final(self).bien_formado(),
            *final(self) == (ContratistasState { modo: final(self).modo, ..*old(self) }),
            match posicion_contratista(old(self).registros@, id) {
                Some(p) => final(self).modo matches ModoContratistas::Formulario(f) && es_edicion(
                    f,
                    old(self).registros@[p],
                    old(self).empresas@,
                    puede_editar_cedula(rol),
                ),
                None => final(self).modo == old(self).modo,
            },
    {
        match posicion(self.registros.as_slice(), id) {
            Some(p) => {
                let editable = match rol {
                    RolUsuario::Operador => false,
                    _ => true,
                };
                let f = FormularioContratista::editar(
                    &self.registros[p],
                    self.empresas.as_slice(),
                    editable,
                );
                self.modo = ModoContratistas::Formulario(f);
            },
            None => {},
        }
    }

    fn busqueda(&mut self, k: Tecla, ahora: u64) -> (a: AccionContratistas)
        requires
            old(self).bien_formado(),
            old(self).modo is Busqueda,
        ensures
            final(self).bien_formado(),
            tecla_busqueda(*old(self), *final(self), old(self).modo->texto, k, a, ahora),
    {
        match k.codigo {
            Codigo::Esc => {
                self.filtro = String::new();
                self.offset = 0;
                self.modo = ModoContratistas::Normal;
                self.buscar(None)
            },
            Codigo::Enter => {
                self.modo = ModoContratistas::Normal;
                AccionContratistas::Ninguna
            },
            Codigo::Up => {
                self.mover(-1);
                AccionContratistas::Ninguna
            },
            Codigo::Down => {
                self.mover(1);
                AccionContratistas::Ninguna
            },
            _ => {
                let mut texto = match &self.modo {
                    ModoContratistas::Busqueda { texto } => texto.clone(),
                    _ => TextInput::vacio(),
                };
                let cambio = texto.handle_key(k);
                self.filtro = texto.texto();
                self.modo = ModoContratistas::Busqueda { texto };
                if cambio {
                    self.offset = 0;
                    self.busqueda_debounce.marcar(ahora);
                }
                AccionContratistas::Ninguna
            },
        }
    }

    fn columnas_key(&mut self, k: Tecla, s: usize)
        requires
            old(self).bien_formado(),
            old(self).modo == (ModoContratistas::Columnas { seleccion: s }),
        ensures
            final(self).bien_formado(),
            tecla_columnas(*old(self), *final(self), s, k),
            visibles(old(self).columnas@) >= 1 ==> visibles(final(self).columnas@) >= 1,
    {
        let u = self.columnas.len() - 1;
        match k.codigo {
            Codigo::Up => {
                self.modo = ModoContratistas::Columnas { seleccion: if s > 0 { s - 1 } else { 0 } };
            },
            Codigo::Down => {
                self.modo = ModoContratistas::Columnas {
                    seleccion: if s + 1 < u {
                        s + 1
                    } else {
                        u
                    },
                };
            },
            Codigo::Char(' ') => {
                let n = contar_visibles(self.columnas.as_slice());
                let (c, visible) = self.columnas[s];
                if visible && n == 1 {
                    self.mensaje = Some(
                        texto_de(lit("Debe conservar al menos una columna").as_slice()),
                    );
                } else {
                    let ghost antes = self.columnas@;
                    self.columnas.set(s, (c, !visible));
                    proof {
                        lema_visibles_cambio(antes, s as int, !visible);
                    }
                }
            },
            Codigo::Esc => {
                self.modo = ModoContratistas::Normal;
            },
            _ => {},
        }
    }

    /// Tras guardar (o no) el formulario: si salió bien vuelve a la tabla
    /// en la primera página, sin búsqueda, avisa y recarga seleccionando el
    /// contratista; si no, muestra el error en el formulario.
    pub fn completar_guardado(
        &mut self,
        r: Result<Option<i64>, String>,
        id: Option<i64>,
        nombre: &str,
    ) -> (a: AccionContratistas)
        requires
            old(self).bien_formado(),
        ensures
            final(self).bien_formado(),
            match r {
                Ok(creado) => {
                    &&& *final(self) == (ContratistasState {
                        modo: ModoContratistas::Normal,
                        filtro: final(self).filtro,
                        offset: 0,
                        mensaje: final(self).mensaje,
                        ..*old(self)
                    })
                    &&& final(self).filtro@.len() == 0
                    &&& final(self).mensaje matches Some(m) && m@ == aviso_guardado(creado is Some, nombre@)
                    &&& es_busqueda(
                        a,
                        Seq::empty(),
                        old(self).empresas@,
                        old(self).hoy,
                        match creado {
                            Some(x) => Some(x),
                            None => id,
                        },
                        0,
                    )
                },
                Err(e) => {
                    &&& a == AccionContratistas::Ninguna
                    &&& *final(self) == (ContratistasState { modo: final(self).modo, ..*old(self) })
                    &&& match old(self).modo {
                        ModoContratistas::Formulario(f) => final(self).modo == ModoContratistas::Formulario(
                            FormularioContratista { error: Some(e), ..f },
                        ),
                        _ => final(self).modo == old(self).modo,
                    }
                },
            },
    {
        match r {
            Ok(creado) => {
                self.modo = ModoContratistas::Normal;
                self.filtro = String::new();
                self.offset = 0;
                let que = if creado.is_some() {
                    lit("creado")
                } else {
                    lit("actualizado")
                };
                let m = unir(lit("✓ Contratista ").as_slice(), que.as_slice());
                let m = unir(m.as_slice(), lit(" — ").as_slice());
                let m = unir(m.as_slice(), caracteres(nombre).as_slice());
                self.mensaje = Some(texto_de(m.as_slice()));
                let elegido = match creado {
                    Some(x) => Some(x),
                    None => id,
                };
                self.buscar(elegido)
            },
            Err(e) => {
                let mut modo = ModoContratistas::Normal;
                std::mem::swap(&mut modo, &mut self.modo);
                match modo {
                    ModoContratistas::Formulario(f) => {
                        let mut f = f;
                        f.error = Some(e);
                        self.modo = ModoContratistas::Formulario(f);
                    },
                    otro => {
                        self.modo = otro;
                    },
                }
                AccionContratistas::Ninguna
            },
        }
    }
}

/// Claves de las columnas visibles, en orden.
pub open spec fn claves_visibles(c: Seq<(Columna, bool)>) -> Seq<Seq<char>>
    decreases c.len(),
{
    if c.len() == 0 {
        Seq::empty()
    } else if c.last().1 {
        claves_visibles(c.drop_last()).push(clave_columna(c.last().0))
    } else {
        claves_visibles(c.drop_last())
    }
}

/// Columnas tras aplicar una preferencia con esas claves: visibles quedan
/// exactamente las nombradas, salvo que no nombre ninguna.
pub open spec fn preferencia_aplicada(c: Seq<(Columna, bool)>, claves: Seq<Seq<char>>) -> Seq<
    (Columna, bool),
> {
    if exists|i: int| 0 <= i < c.len() && #[trigger] claves.contains(clave_columna(c[i].0)) {
        Seq::new(c.len(), |i: int| (c[i].0, claves.contains(clave_columna(c[i].0))))
    } else {
        c
    }
}

/// Palabras libres que no tienen forma `clave:valor`.
pub open spec fn sin_clave(libres: Seq<Seq<char>>) -> Seq<Seq<char>> {
    libres.filter(|w: Seq<char>| termino(w).clave is None)
}

pub open spec fn si_no(b: bool) -> Seq<char> {
    if b {
        "sí"@
    } else {
        "no"@
    }
}

pub open spec fn nombre_praind(p: FiltroPraind) -> Seq<char> {
    match p {
        FiltroPraind::Vencido { .. } => "vencido"@,
        FiltroPraind::ProximoAVencer { .. } => "próximo"@,
        FiltroPraind::SinFecha => "sin fecha"@,
    }
}

/// La parte del resumen sobre la empresa.
pub open spec fn parte_empresa(f: crate::contratistas::FiltroContratistasVista, empresas: Seq<Empresa>) -> Seq<Seq<char>> {
    match f.empresa_id {
        Some(e) => seq![
            "empresa"@ + signo(e is Excluye) + nombre_de_empresa(
                empresas,
                match e {
                    Igualdad::Incluye(v) => v,
                    Igualdad::Excluye(v) => v,
                },
            ),
        ],
        None => Seq::empty(),
    }
}

/// Las partes del resumen sobre tipo, PRAIND, ruta y acceso.
pub open spec fn partes_campos(f: crate::contratistas::FiltroContratistasVista) -> Seq<Seq<char>> {
    (match f.tipos {
        Some(ts) => seq!["tipo="@ + unidas_con(ts.map_values(|t: TipoIngreso| nombre_sql(t)), ',')],
        None => Seq::empty(),
    }) + (match f.praind {
        Some(p) => seq!["praind"@ + signo(f.praind_negado) + nombre_praind(p)],
        None => Seq::empty(),
    }) + (match f.personal_ruta {
        Some(b) => seq!["ruta="@ + si_no(b)],
        None => Seq::empty(),
    }) + (match f.tiene_acceso {
        Some(b) => seq!["acceso="@ + si_no(b)],
        None => Seq::empty(),
    })
}

/// Las partes del resumen sobre el texto libre y lo no interpretado.
pub open spec fn partes_libres(libres: Seq<Seq<char>>) -> Seq<Seq<char>> {
    (if sin_clave(libres).len() > 0 {
        seq!["texto=\""@ + unidas_por(sin_clave(libres), " "@) + "\""@]
    } else {
        Seq::empty()
    }) + (if sin_interpretar(libres).len() > 0 {
        seq!["⚠ sin interpretar: "@ + unidas_por(sin_interpretar(libres), ", "@)]
    } else {
        Seq::empty()
    })
}

/// Las partes del resumen de lo que se está filtrando.
pub open spec fn partes_resumen(
    f: crate::contratistas::FiltroContratistasVista,
    libres: Seq<Seq<char>>,
    empresas: Seq<Empresa>,
) -> Seq<Seq<char>> {
    parte_empresa(f, empresas) + partes_campos(f) + partes_libres(libres)
}

/// Resumen de la búsqueda para mostrar bajo el buscador.
pub open spec fn resumen_contratistas(filtro: Seq<char>, empresas: Seq<Empresa>, hoy: i32) -> Seq<char> {
    if solo_blancos(filtro) {
        "Ejemplo: empresa:Brisas tipo:praind acceso:si"@
    } else {
        let r = resolver_contratistas(palabras(filtro), empresas, hoy);
        unidas_por(partes_resumen(r.filtro, r.libres, empresas), " · "@)
    }
}

fn planas(libres: &Vec<Vec<char>>) -> (r: Vec<Vec<char>>)
    ensures
        vistas(r@) == sin_clave(vistas(libres@)),
{
    let ghost lv = vistas(libres@);
    let mut r: Vec<Vec<char>> = Vec::new();
    let mut k: usize = 0;
    while k < libres.len()
        invariant
            k <= libres.len(),
            lv == vistas(libres@),
            vistas(r@) == lv.take(k as int).filter(|w: Seq<char>| termino(w).clave is None),
        decreases libres.len() - k,
    {
        proof {
            reveal_with_fuel(Seq::filter, 1);
            assert(lv.take(k + 1).drop_last() =~= lv.take(k as int));
        }
        let t = interpretar(libres[k].as_slice());
        if t.clave.is_none() {
            let ghost antes = r@;
            let w = crate::texto::copiar_rango(libres[k].as_slice(), 0, libres[k].len());
            assert(w@ =~= lv[k as int]);
            r.push(w);
            assert(vistas(r@) =~= vistas(antes).push(lv[k as int]));
        }
        k += 1;
    }
    proof {
        assert(lv.take(lv.len() as int) =~= lv);
    }
    r
}

fn si_no_de(b: bool) -> (r: Vec<char>)
    ensures
        r@ == si_no(b),
{
    if b {
        lit("sí")
    } else {
        lit("no")
    }
}

impl ContratistasState {
    /// Claves de las columnas visibles separadas por comas, para guardar la
    /// preferencia.
    pub fn columnas_preferencia(&self) -> (r: String)
        ensures
            r@ == unidas_con(claves_visibles(self.columnas@), ','),
    {
        let mut acc: Vec<char> = Vec::new();
        let mut cuantas: usize = 0;
        let mut k: usize = 0;
        while k < self.columnas.len()
            invariant
                k <= self.columnas.len(),
                acc@ == unidas_con(claves_visibles(self.columnas@.take(k as int)), ','),
                cuantas == claves_visibles(self.columnas@.take(k as int)).len(),
                cuantas <= k,
            decreases self.columnas.len() - k,
        {
            let ghost previas = claves_visibles(self.columnas@.take(k as int));
            proof {
                assert(self.columnas@.take(k + 1).drop_last() =~= self.columnas@.take(k as int));
            }
            let (c, visible) = self.columnas[k];
            if visible {
                let clave = caracteres(c.clave());
                agregar_separado(&mut acc, cuantas, clave.as_slice(), ',', Ghost(previas));
                cuantas += 1;
            }
            k += 1;
        }
        proof {
            assert(self.columnas@.take(self.columnas@.len() as int) =~= self.columnas@);
        }
        texto_de(acc.as_slice())
    }

    /// Aplica una preferencia guardada (claves separadas por comas).
    pub fn aplicar_columnas_preferencia(&mut self, valor: &str)
        requires
            old(self).bien_formado(),
        ensures
            final(self).bien_formado(),
            *final(self) == (ContratistasState { columnas: final(self).columnas, ..*old(self) }),
            final(self).columnas@ == preferencia_aplicada(old(self).columnas@, valores(valor@)),
    {
        let claves = separar_valores(caracteres(valor).as_slice());
        let ghost cv = vistas(claves@);
        let mut alguna = false;
        let mut k: usize = 0;
        while k < self.columnas.len()
            invariant
                k <= self.columnas.len(),
                cv == vistas(claves@),
                alguna == exists|i: int|
                    0 <= i < k && #[trigger] cv.contains(clave_columna(self.columnas@[i].0)),
            decreases self.columnas.len() - k,
        {
            let clave = caracteres(self.columnas[k].0.clave());
            if esta_en(&claves, clave.as_slice()) {
                alguna = true;
            }
            k += 1;
        }
        if !alguna {
            return;
        }
        let ghost viejas = self.columnas@;
        let mut nuevas: Vec<(Columna, bool)> = Vec::new();
        let mut k: usize = 0;
        while k < self.columnas.len()
            invariant
                k <= self.columnas.len(),
                viejas == self.columnas@,
                cv == vistas(claves@),
                nuevas@.len() == k,
                forall|i: int|
                    0 <= i < k ==> #[trigger] nuevas@[i] == (viejas[i].0, cv.contains(
                        clave_columna(viejas[i].0),
                    )),
            decreases self.columnas.len() - k,
        {
            let c = self.columnas[k].0;
            let clave = caracteres(c.clave());
            let visible = esta_en(&claves, clave.as_slice());
            nuevas.push((c, visible));
            k += 1;
        }
        self.columnas = nuevas;
        assert(self.columnas@ =~= preferencia_aplicada(viejas, cv));
    }

    /// Resume lo que la búsqueda actual está filtrando, el texto libre y lo
    /// que no pudo interpretar.
    pub fn resumen_consulta(&self) -> (r: String)
        ensures
            r@ == resumen_contratistas(self.filtro@, self.empresas@, self.hoy),
    {
        let texto = caracteres(self.filtro.as_str());
        if es_vacio_recortado(texto.as_slice()) {
            return texto_de(lit("Ejemplo: empresa:Brisas tipo:praind acceso:si").as_slice());
        }
        let ps = separar_palabras(texto.as_slice());
        let (filtro, libres) = resolver_palabras(&ps, self.empresas.as_slice(), self.hoy);
        let partes = partes_de(&filtro, &libres, self.empresas.as_slice());
        let r = unir_por(&partes, lit(" · ").as_slice());
        texto_de(r.as_slice())
    }
}

fn resolver_palabras(ps: &Vec<Vec<char>>, empresas: &[Empresa], hoy: i32) -> (r: (FiltroContratistas, Vec<Vec<char>>))
    ensures
        r.0@ == resolver_contratistas(vistas(ps@), empresas@, hoy).filtro,
        vistas(r.1@) == resolver_contratistas(vistas(ps@), empresas@, hoy).libres,
{
    let ghost psv = vistas(ps@);
    let mut filtro = FiltroContratistas {
        empresa_id: None,
        tipos_incluidos: None,
        praind: None,
        praind_negado: false,
        personal_ruta: None,
        tiene_acceso: None,
    };
    let mut libres: Vec<Vec<char>> = Vec::new();
    let mut k: usize = 0;
    while k < ps.len()
        invariant
            k <= ps.len(),
            psv == vistas(ps@),
            filtro@ == resolver_contratistas(psv.take(k as int), empresas@, hoy).filtro,
            vistas(libres@) == resolver_contratistas(psv.take(k as int), empresas@, hoy).libres,
        decreases ps.len() - k,
    {
        proof {
            assert(psv.take(k + 1).drop_last() =~= psv.take(k as int));
            assert(psv.take(k + 1).last() == ps@[k as int]@);
        }
        let t = interpretar(ps[k].as_slice());
        if !aplicar_clave(&mut filtro, &t, empresas, hoy) {
            let ghost antes = libres@;
            let w = crate::texto::copiar_rango(ps[k].as_slice(), 0, ps[k].len());
            assert(w@ =~= ps@[k as int]@);
            libres.push(w);
            assert(vistas(libres@) =~= vistas(antes).push(ps@[k as int]@));
        }
        k += 1;
    }
    proof {
        assert(psv.take(psv.len() as int) =~= psv);
    }
    (filtro, libres)
}

fn partes_de(filtro: &FiltroContratistas, libres: &Vec<Vec<char>>, empresas: &[Empresa]) -> (partes: Vec<Vec<char>>)
    ensures
        vistas(partes@) == partes_resumen(filtro@, vistas(libres@), empresas@),
{
    let mut partes: Vec<Vec<char>> = Vec::new();
    match filtro.empresa_id {
        Some(e) => {
            let a = unir(lit("empresa").as_slice(), signo_de(e.negado()).as_slice());
            partes.push(unir(a.as_slice(), empresa_por_id(empresas, e.valor()).as_slice()));
        },
        None => {},
    }
    proof {
        assert(vistas(partes@) =~= parte_empresa(filtro@, empresas@));
    }
    let ghost p1 = vistas(partes@);
    let mut campos = partes_de_campos(filtro);
    let ghost p2 = vistas(campos@);
    partes.append(&mut campos);
    proof {
        assert(vistas(partes@) =~= p1 + p2);
    }
    let ghost p3 = vistas(partes@);
    let mut resto = partes_de_libres(libres);
    let ghost p4 = vistas(resto@);
    partes.append(&mut resto);
    proof {
        assert(vistas(partes@) =~= p3 + p4);
    }
    partes
}

fn partes_de_campos(filtro: &FiltroContratistas) -> (partes: Vec<Vec<char>>)
    ensures
        vistas(partes@) == partes_campos(filtro@),
{
    let mut partes: Vec<Vec<char>> = Vec::new();
    match &filtro.tipos_incluidos {
        Some(ts) => {
            partes.push(unir(lit("tipo=").as_slice(), tipos_en_sql(ts.as_slice()).as_slice()));
        },
        None => {},
    }
    let ghost p1 = vistas(partes@);
    match filtro.praind {
        Some(p) => {
            let a = unir(lit("praind").as_slice(), signo_de(filtro.praind_negado).as_slice());
            let n = match p {
                FiltroPraind::Vencido { .. } => lit("vencido"),
                FiltroPraind::ProximoAVencer { .. } => lit("próximo"),
                FiltroPraind::SinFecha => lit("sin fecha"),
            };
            partes.push(unir(a.as_slice(), n.as_slice()));
        },
        None => {},
    }
    let ghost p2 = vistas(partes@);
    match filtro.personal_ruta {
        Some(b) => {
            partes.push(unir(lit("ruta=").as_slice(), si_no_de(b).as_slice()));
        },
        None => {},
    }
    let ghost p3 = vistas(partes@);
    match filtro.tiene_acceso {
        Some(b) => {
            partes.push(unir(lit("acceso=").as_slice(), si_no_de(b).as_slice()));
        },
        None => {},
    }
    proof {
        assert(vistas(partes@) =~= partes_campos(filtro@));
    }
    partes
}

fn partes_de_libres(libres: &Vec<Vec<char>>) -> (partes: Vec<Vec<char>>)
    ensures
        vistas(partes@) == partes_libres(vistas(libres@)),
{
    let mut partes: Vec<Vec<char>> = Vec::new();
    let libre = planas(libres);
    if libre.len() > 0 {
        let lista = unir_por(&libre, lit(" ").as_slice());
        let a = unir(lit("texto=\"").as_slice(), lista.as_slice());
        partes.push(unir(a.as_slice(), lit("\"").as_slice()));
    }
    let no = no_interpretadas(libres);
    if no.len() > 0 {
        let lista = unir_por(&no, lit(", ").as_slice());
        partes.push(unir(lit("⚠ sin interpretar: ").as_slice(), lista.as_slice()));
    }
    proof {
        assert(vistas(partes@) =~= partes_libres(vistas(libres@)));
    }
    partes
}

fn lit(s: &str) -> (r: Vec<char>)
    ensures
        r@ == s@,
{
    caracteres(s)
}

/// El aviso tras guardar un contratista.
pub open spec fn aviso_guardado(creado: bool, nombre: Seq<char>) -> Seq<char> {
    "✓ Contratista "@ + (if creado {
        "creado"@
    } else {
        "actualizado"@
    }) + " — "@ + nombre
}

/// El aviso de un guardado es un mensaje de éxito, de los que sobreviven a
/// la recarga de la tabla que sigue.
pub proof fn ley_aviso_de_guardado_es_de_exito(creado: bool, nombre: Seq<char>)
    ensures
        aviso_guardado(creado, nombre).len() > 0,
        aviso_guardado(creado, nombre)[0] == '✓',
{
    reveal_strlit("✓ Contratista ");
    reveal_strlit("creado");
    reveal_strlit("actualizado");
    reveal_strlit(" — ");
    let a = "✓ Contratista "@;
    let b = if creado {
        "creado"@
    } else {
        "actualizado"@
    };
    assert((a + b + " — "@ + nombre)[0] == a[0]);
}

/// Avanzar una página y volver una deja la tabla en la página de partida.
pub proof fn ley_pagina_ida_y_vuelta(
    s0: ContratistasState,
    s1: ContratistasState,
    s2: ContratistasState,
    a1: AccionContratistas,
    a2: AccionContratistas,
    rol: RolUsuario,
)
    requires
        s0.offset + LIMITE_PAGINA < s0.total,
        s0.modo == ModoContratistas::Normal,
        tecla_normal(s0, s1, Tecla { codigo: Codigo::PageDown, control: false, alt: false, shift: false }, a1, rol),
        tecla_normal(s1, s2, Tecla { codigo: Codigo::PageUp, control: false, alt: false, shift: false }, a2, rol),
    ensures
        s2.offset == s0.offset,
        s2.filtro == s0.filtro,
        es_busqueda(a2, s0.filtro@, s0.empresas@, s0.hoy, None, s0.offset),
{
}

/// Posición del primer contratista con ese id.
fn posicion(r: &[ContratistaResumen], id: i64) -> (p: Option<usize>)
    ensures
        match p {
            Some(i) => posicion_contratista(r@, id) == Some(i as int) && i < r@.len(),
            None => posicion_contratista(r@, id) is None,
        },
{
    let ghost pr = es_contratista(r@, id);
    let mut k: usize = 0;
    while k < r.len()
        invariant
            k <= r.len(),
            pr == es_contratista(r@, id),
            forall|j: int| 0 <= j < k ==> !#[trigger] pr(j),
        decreases r.len() - k,
    {
        if r[k].id == id {
            proof {
                assert(es_primero(r@.len() as int, pr, k as int));
                lema_primero(r@.len() as int, pr, k as int);
            }
            return Some(k);
        }
        assert(!pr(k as int));
        k += 1;
    }
    proof {
        lema_ninguno(r@.len() as int, pr);
    }
    None
}

/// Una fila del formulario como se muestra: su etiqueta, su valor y si es
/// un campo donde se escribe.
pub struct FilaFormulario {
    pub etiqueta: &'static str,
    pub valor: String,
    pub escribible: bool,
}

pub open spec fn etiqueta_de_campo(c: CampoFormulario) -> Seq<char> {
    match c {
        CampoFormulario::Cedula => "CÉDULA"@,
        CampoFormulario::Nombre => "NOMBRE"@,
        CampoFormulario::Empresa => "EMPRESA"@,
        CampoFormulario::Tipo => "TIPO DE INGRESO"@,
        CampoFormulario::FechaPraind => "FECHA PRAIND"@,
        CampoFormulario::Ruta => "PERSONAL DE RUTA"@,
        CampoFormulario::Acceso => "TIENE ACCESO"@,
    }
}

/// Sí o no, como los muestra el formulario.
pub open spec fn si_no_formulario(b: bool) -> Seq<char> {
    if b {
        "SÍ"@
    } else {
        "NO"@
    }
}

/// Lo que muestra cada campo: la cédula de una edición no se edita; la
/// empresa sin catálogo es "Sin empresas"; la fecha PRAIND que no se exige
/// es "No requerida".
pub open spec fn valor_de_campo(
    f: FormularioContratista,
    empresas: Seq<Empresa>,
    c: CampoFormulario,
) -> Seq<char> {
    match c {
        CampoFormulario::Cedula => if f.modo is Crear {
            f.cedula@.valor
        } else {
            f.cedula@.valor + " (no editable)"@
        },
        CampoFormulario::Nombre => f.nombre@.valor,
        CampoFormulario::Empresa => if f.empresa < empresas.len() {
            empresas[f.empresa as int].nombre@
        } else {
            "Sin empresas"@
        },
        CampoFormulario::Tipo => texto_tipo(f.tipo),
        CampoFormulario::FechaPraind => if f.requiere() {
            f.fecha_praind@.valor
        } else {
            "No requerida"@
        },
        CampoFormulario::Ruta => si_no_formulario(f.personal_ruta),
        CampoFormulario::Acceso => si_no_formulario(f.tiene_acceso),
    }
}

/// Se escribe en la cédula de un alta, en el nombre y en la fecha PRAIND
/// cuando se exige; los demás campos se eligen.
pub open spec fn campo_escribible(f: FormularioContratista, c: CampoFormulario) -> bool {
    match c {
        CampoFormulario::Cedula => f.modo is Crear,
        CampoFormulario::Nombre => true,
        CampoFormulario::FechaPraind => f.requiere(),
        _ => false,
    }
}

/// La fila del campo `c` del formulario `f` con el catálogo `empresas`.
pub fn fila_formulario(f: &FormularioContratista, empresas: &[Empresa], c: CampoFormulario) -> (r: FilaFormulario)
    ensures
        r.etiqueta@ == etiqueta_de_campo(c),
        r.valor@ == valor_de_campo(*f, empresas@, c),
        r.escribible == campo_escribible(*f, c),
{
    match c {
        CampoFormulario::Cedula => {
            let crear = match f.modo {
                ModoFormulario::Crear => true,
                _ => false,
            };
            let valor = if crear {
                texto_de(f.cedula.value())
            } else {
                texto_de(unir(f.cedula.value(), caracteres(" (no editable)").as_slice()).as_slice())
            };
            FilaFormulario { etiqueta: "CÉDULA", valor, escribible: crear }
        },
        CampoFormulario::Nombre => FilaFormulario {
            etiqueta: "NOMBRE",
            valor: texto_de(f.nombre.value()),
            escribible: true,
        },
        CampoFormulario::Empresa => {
            let valor = if f.empresa < empresas.len() {
                texto_de(caracteres(empresas[f.empresa].nombre.as_str()).as_slice())
            } else {
                texto_de(caracteres("Sin empresas").as_slice())
            };
            FilaFormulario { etiqueta: "EMPRESA", valor, escribible: false }
        },
        CampoFormulario::Tipo => FilaFormulario {
            etiqueta: "TIPO DE INGRESO",
            valor: texto_de(caracteres(f.tipo.texto()).as_slice()),
            escribible: false,
        },
        CampoFormulario::FechaPraind => {
            let requiere = f.requiere_praind();
            let valor = if requiere {
                texto_de(f.fecha_praind.value())
            } else {
                texto_de(caracteres("No requerida").as_slice())
            };
            FilaFormulario { etiqueta: "FECHA PRAIND", valor, escribible: requiere }
        },
        CampoFormulario::Ruta => FilaFormulario {
            etiqueta: "PERSONAL DE RUTA",
            valor: texto_de(caracteres(if f.personal_ruta { "SÍ" } else { "NO" }).as_slice()),
            escribible: false,
        },
        CampoFormulario::Acceso => FilaFormulario {
            etiqueta: "TIENE ACCESO",
            valor: texto_de(caracteres(if f.tiene_acceso { "SÍ" } else { "NO" }).as_slice()),
            escribible: false,
        },
    }
}

} // verus!
