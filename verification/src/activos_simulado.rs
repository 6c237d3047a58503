//! Pantalla de ingresos activos sobre los datos simulados: búsqueda por
//! texto, detalle, salida confirmada, salida por número de gafete y editor
//! de columnas.
use crate::mocks::{IngresoActivoMock, ingresos_activos};
use crate::texto::{
    a_minusculas, caracteres, contiene, contiene_texto, decimal, decimal_dos, entero,
    escribir_decimal, escribir_decimal_dos, minusculas, parsear_entero, recortar, recorte,
    solo_digitos, texto_de, unir,
};
use crate::ui::{Codigo, Tecla, movida, mover_seleccion};
use crate::activos::{contar_visibles, lema_visibles_cambio, visibles};
use crate::consulta::{es_primero, lema_ninguno, lema_primero, primero};
use vstd::prelude::*;

verus! {

/// Columnas de la tabla.
#[derive(Clone, Copy, Debug, PartialEq, Eq, Structural)]
pub enum Columna {
    Cedula,
    Nombre,
    Empresa,
    Tipo,
    Hora,
    Gafete,
    Medio,
    Usuario,
}

pub open spec fn todas_las_columnas() -> Seq<Columna> {
    seq![
        Columna::Cedula,
        Columna::Nombre,
        Columna::Empresa,
        Columna::Tipo,
        Columna::Hora,
        Columna::Gafete,
        Columna::Medio,
        Columna::Usuario,
    ]
}

impl Columna {
    pub fn todas() -> (r: Vec<Columna>)
        ensures
            r@ == todas_las_columnas(),
    {
        let r = vec![
            Columna::Cedula,
            Columna::Nombre,
            Columna::Empresa,
            Columna::Tipo,
            Columna::Hora,
            Columna::Gafete,
            Columna::Medio,
            Columna::Usuario,
        ];
        assert(r@ =~= todas_las_columnas());
        r
    }

    pub fn titulo(self) -> (r: &'static str)
        ensures
            r@ == (match self {
                Columna::Cedula => "CÉDULA"@,
                Columna::Nombre => "NOMBRE"@,
                Columna::Empresa => "EMPRESA"@,
                Columna::Tipo => "TIPO"@,
                Columna::Hora => "HORA"@,
                Columna::Gafete => "GAFETE"@,
                Columna::Medio => "MEDIO"@,
                Columna::Usuario => "USUARIO INGRESO"@,
            }),
    {
        match self {
            Columna::Cedula => "CÉDULA",
            Columna::Nombre => "NOMBRE",
            Columna::Empresa => "EMPRESA",
            Columna::Tipo => "TIPO",
            Columna::Hora => "HORA",
            Columna::Gafete => "GAFETE",
            Columna::Medio => "MEDIO",
            Columna::Usuario => "USUARIO INGRESO",
        }
    }
}

/// Salida por número de gafete: capturando el número (con el error del
/// último intento) o con el ingreso encontrado, esperando confirmación.
#[derive(Clone, Debug, PartialEq, Eq)]
pub enum SalidaGafete {
    Capturando { numero: String, error: Option<String> },
    Encontrado { id: u64 },
}

/// En qué está la pantalla.
#[derive(Clone, Debug, PartialEq, Eq)]
pub enum ModoActivos {
    Normal,
    Busqueda { texto: String },
    Detalle { id: u64 },
    ConfirmarSalida { id: u64 },
    SalidaPorGafete(SalidaGafete),
    Columnas { seleccion: usize },
}

/// Lo que la pantalla pide a la aplicación.
#[derive(Clone, Copy, Debug, PartialEq, Eq, Structural)]
pub enum AccionActivos {
    Ninguna,
    Volver,
}

/// Estado de la pantalla.
#[derive(Debug)]
pub struct ActivosState {
    pub registros: Vec<IngresoActivoMock>,
    /// Posición dentro de las filas que pasan el filtro.
    pub seleccion: Option<usize>,
    pub modo: ModoActivos,
    pub columnas: Vec<(Columna, bool)>,
    pub mensaje: Option<String>,
    pub filtro: String,
}

/// Lo que se busca: el filtro recortado y en minúsculas.
pub open spec fn busqueda_de(filtro: Seq<char>) -> Seq<char> {
    minusculas(recorte(filtro))
}

/// Un ingreso coincide si no se busca nada o si el texto aparece en su
/// nombre, cédula o empresa (sin distinguir mayúsculas) o en su gafete.
pub open spec fn coincide(r: IngresoActivoMock, t: Seq<char>) -> bool {
    ||| t.len() == 0
    ||| contiene(minusculas(r.nombre@), t)
    ||| contiene(minusculas(r.cedula@), t)
    ||| contiene(minusculas(r.empresa@), t)
    ||| (r.gafete matches Some(g) && contiene(decimal(g as nat), t))
}

/// Posiciones, en orden, de los ingresos que coinciden.
pub open spec fn filtrados(rs: Seq<IngresoActivoMock>, t: Seq<char>) -> Seq<usize>
    decreases rs.len(),
{
    if rs.len() == 0 {
        Seq::empty()
    } else {
        let previas = filtrados(rs.drop_last(), t);
        if coincide(rs.last(), t) {
            previas.push((rs.len() - 1) as usize)
        } else {
            previas
        }
    }
}

pub proof fn lema_filtrados_en_rango(rs: Seq<IngresoActivoMock>, t: Seq<char>)
    ensures
        filtrados(rs, t).len() <= rs.len(),
        forall|i: int| 0 <= i < filtrados(rs, t).len() ==> #[trigger] filtrados(rs, t)[i] < rs.len(),
    decreases rs.len(),
{
    if rs.len() > 0 {
        lema_filtrados_en_rango(rs.drop_last(), t);
    }
}

/// La primera fila si hay alguna.
pub open spec fn al_inicio(n: nat) -> Option<usize> {
    if n > 0 {
        Some(0usize)
    } else {
        None
    }
}

/// La selección acotada a `n` filas.
pub open spec fn ajustada(sel: Option<usize>, n: nat) -> Option<usize> {
    if n == 0 {
        None
    } else {
        let i = match sel {
            Some(i) => i as int,
            None => 0,
        };
        Some(
            (if i < n - 1 {
                i
            } else {
                n - 1
            }) as usize,
        )
    }
}

/// Posición del primer ingreso con ese id.
pub open spec fn posicion_id(rs: Seq<IngresoActivoMock>, id: u64) -> Option<int> {
    primero(rs.len() as int, con_id(rs, id))
}

pub open spec fn con_id(rs: Seq<IngresoActivoMock>, id: u64) -> spec_fn(int) -> bool {
    |i: int| rs[i].id == id
}

/// Posición del primer ingreso con ese gafete (o sin gafete, si `g` es
/// `None`).
pub open spec fn posicion_gafete(rs: Seq<IngresoActivoMock>, g: Option<u32>) -> Option<int> {
    primero(rs.len() as int, con_gafete(rs, g))
}

pub open spec fn con_gafete(rs: Seq<IngresoActivoMock>, g: Option<u32>) -> spec_fn(int) -> bool {
    |i: int| rs[i].gafete == g
}

/// El número tecleado como gafete, si cabe en `u32`.
pub open spec fn gafete_de(numero: Seq<char>) -> Option<u32> {
    match entero(numero) {
        Some(v) => if 0 <= v && v <= u32::MAX {
            Some(v as u32)
        } else {
            None
        },
        None => None,
    }
}

/// Aviso tras registrar la salida de `r`.
pub open spec fn mensaje_salida(r: IngresoActivoMock) -> Seq<char> {
    match r.gafete {
        Some(g) => "✓ Salida registrada — "@ + r.nombre@ + " — Gafete "@ + decimal_dos(g as int)
            + " liberado"@,
        None => "✓ Salida registrada — "@ + r.nombre@,
    }
}

/// Error de un gafete que no está en ningún ingreso.
pub open spec fn error_gafete(numero: Seq<char>) -> Seq<char> {
    "El gafete "@ + (if numero.len() == 0 {
        "—"@
    } else {
        numero
    }) + " no está asignado a ningún ingreso activo"@
}

/// Texto de una celda.
pub open spec fn celda(r: IngresoActivoMock, c: Columna) -> Seq<char> {
    match c {
        Columna::Cedula => r.cedula@,
        Columna::Nombre => r.nombre@,
        Columna::Empresa => r.empresa@,
        Columna::Tipo => r.tipo@ + (if r.advertencia is Some {
            " !"@
        } else {
            ""@
        }),
        Columna::Hora => r.hora_ingreso@,
        Columna::Gafete => match r.gafete {
            Some(g) => decimal_dos(g as int),
            None => "S/G"@,
        },
        Columna::Medio => r.medio@,
        Columna::Usuario => r.usuario_ingreso@,
    }
}

impl ActivosState {
    /// Las posiciones de las filas visibles con el filtro actual.
    pub open spec fn vista(&self) -> Seq<usize> {
        filtrados(self.registros@, busqueda_de(self.filtro@))
    }

    /// El id del ingreso seleccionado entre los visibles.
    pub open spec fn id_elegido(&self) -> Option<u64> {
        match self.seleccion {
            Some(i) => if i < self.vista().len() {
                Some(self.registros@[self.vista()[i as int] as int].id)
            } else {
                None
            },
            None => None,
        }
    }

    pub open spec fn bien_formado(&self) -> bool {
        &&& self.seleccion matches Some(i) ==> i < self.registros.len()
        &&& self.columnas.len() == 8
        &&& self.modo matches ModoActivos::Columnas { seleccion } ==> seleccion < 8
        &&& self.modo matches ModoActivos::SalidaPorGafete(SalidaGafete::Capturando { numero, .. })
            ==> solo_digitos(numero@)
    }
}

impl Default for ActivosState {
    fn default() -> (s: ActivosState)
        ensures
            s.bien_formado(),
            s.registros@.len() == 80,
            s.seleccion == Some(0usize),
            s.modo == ModoActivos::Normal,
            s.mensaje is None,
            s.filtro@.len() == 0,
            forall|i: int|
                0 <= i < 8 ==> #[trigger] s.columnas@[i] == (todas_las_columnas()[i], i != 6 && i
                    != 7),
    {
        let todas = Columna::todas();
        let mut columnas: Vec<(Columna, bool)> = Vec::new();
        let mut k: usize = 0;
        while k < todas.len()
            invariant
                k <= todas.len(),
                todas@ == todas_las_columnas(),
                columnas@.len() == k,
                forall|i: int|
                    0 <= i < k ==> #[trigger] columnas@[i] == (todas@[i], (i != 6 && i != 7)),
            decreases todas.len() - k,
        {
            let c = todas[k];
            let visible = match c {
                Columna::Medio | Columna::Usuario => false,
                _ => true,
            };
            columnas.push((c, visible));
            k += 1;
        }
        ActivosState {
            registros: ingresos_activos(),
            seleccion: Some(0),
            modo: ModoActivos::Normal,
            columnas,
            mensaje: None,
            filtro: String::new(),
        }
    }
}

impl ActivosState {
    pub fn cantidad(&self) -> (r: usize)
        ensures
            r == self.registros@.len(),
    {
        self.registros.len()
    }

    pub fn modo(&self) -> (r: &ModoActivos)
        ensures
            r == self.modo,
    {
        &self.modo
    }

    /// Posiciones de los ingresos que pasan el filtro actual.
    pub fn indices_filtrados(&self) -> (r: Vec<usize>)
        ensures
            r@ == self.vista(),
            forall|i: int, j: int| 0 <= i < j < r@.len() ==> #[trigger] r@[i] < #[trigger] r@[j],
            forall|i: int| 0 <= i < r@.len() ==> #[trigger] r@[i] < self.registros@.len(),
            forall|n: int|
                0 <= n < self.registros@.len() ==> (coincide(
                    #[trigger] self.registros@[n],
                    busqueda_de(self.filtro@),
                ) <==> r@.contains(n as usize)),
    {
        assert(self.registros@.len() == self.registros.len());
        proof {
            ley_filtrados_son_los_que_coinciden(self.registros@, busqueda_de(self.filtro@));
        }
        let t = recortar(caracteres(self.filtro.as_str()).as_slice());
        let t = a_minusculas(t.as_slice());
        let ghost rs = self.registros@;
        let mut r: Vec<usize> = Vec::new();
        let mut k: usize = 0;
        while k < self.registros.len()
            invariant
                k <= self.registros.len(),
                rs == self.registros@,
                t@ == busqueda_de(self.filtro@),
                r@ == filtrados(rs.take(k as int), t@),
            decreases self.registros.len() - k,
        {
            proof {
                assert(rs.take(k + 1).drop_last() =~= rs.take(k as int));
            }
            if coincide_con(&self.registros[k], t.as_slice()) {
                r.push(k);
            }
            k += 1;
        }
        proof {
            assert(rs.take(rs.len() as int) =~= rs);
        }
        r
    }

    /// Primera fila visible en una tabla de `capacidad` filas.
    pub fn inicio_visible(&self, capacidad: usize) -> (r: usize)
        ensures
            r == (if capacidad == 0 {
                0
            } else {
                let s = match self.seleccion {
                    Some(i) => i as int,
                    None => 0,
                };
                if s >= capacidad - 1 {
                    (s - (capacidad - 1)) as usize
                } else {
                    0
                }
            }),
    {
        if capacidad == 0 {
            return 0;
        }
        let s = match self.seleccion {
            Some(i) => i,
            None => 0,
        };
        if s >= capacidad - 1 {
            s - (capacidad - 1)
        } else {
            0
        }
    }

    /// Id del ingreso seleccionado entre los visibles.
    pub fn id_seleccionado(&self) -> (r: Option<u64>)
        ensures
            r == self.id_elegido(),
    {
        let v = self.indices_filtrados();
        proof {
            lema_filtrados_en_rango(self.registros@, busqueda_de(self.filtro@));
        }
        match self.seleccion {
            Some(i) => if i < v.len() {
                let j = v[i];
                assert(j < self.registros@.len());
                Some(self.registros[j].id)
            } else {
                None
            },
            None => None,
        }
    }

    /// El ingreso con ese id.
    pub fn registro(&self, id: u64) -> (r: Option<&IngresoActivoMock>)
        ensures
            r == (match posicion_id(self.registros@, id) {
                Some(i) => Some(&self.registros@[i]),
                None => None,
            }),
    {
        match posicion_de_id(self.registros.as_slice(), id) {
            Some(i) => Some(&self.registros[i]),
            None => None,
        }
    }
}

/// Lo que queda tras registrar la salida del ingreso `id`: se quita de la
/// lista, se avisa (con el gafete liberado, si tenía) y la selección queda
/// dentro de la lista.
pub open spec fn eliminado(viejo: ActivosState, nuevo: ActivosState, id: u64) -> bool {
    match posicion_id(viejo.registros@, id) {
        None => nuevo == (ActivosState { modo: ModoActivos::Normal, ..viejo }),
        Some(p) => {
            &&& nuevo.registros@ == viejo.registros@.remove(p)
            &&& (nuevo.mensaje matches Some(m) && m@ == mensaje_salida(viejo.registros@[p]))
            &&& nuevo.modo == ModoActivos::Normal
            &&& nuevo.seleccion == ajustada(viejo.seleccion, (viejo.registros@.len() - 1) as nat)
            &&& nuevo.columnas == viejo.columnas
            &&& nuevo.filtro == viejo.filtro
        },
    }
}

/// Lo que hace una tecla en la tabla.
pub open spec fn tecla_normal(viejo: ActivosState, nuevo: ActivosState, k: Tecla, a: AccionActivos) -> bool {
    let esc_limpia = k.codigo == Codigo::Esc && viejo.filtro@.len() > 0;
    &&& nuevo.registros == viejo.registros
    &&& nuevo.columnas == viejo.columnas
    &&& nuevo.mensaje is None
    &&& nuevo.seleccion == (if k.codigo == Codigo::Up {
        movida(viejo.seleccion, -1, viejo.vista().len())
    } else if k.codigo == Codigo::Down {
        movida(viejo.seleccion, 1, viejo.vista().len())
    } else if k.codigo == Codigo::Char('/') || esc_limpia {
        al_inicio(viejo.registros@.len())
    } else {
        viejo.seleccion
    })
    &&& if esc_limpia {
        nuevo.filtro@.len() == 0
    } else {
        nuevo.filtro == viejo.filtro
    }
    &&& if k.codigo == Codigo::Enter {
        nuevo.modo == (match viejo.id_elegido() {
            Some(id) => ModoActivos::Detalle { id },
            None => viejo.modo,
        })
    } else if k.codigo == Codigo::Char('s') || k.codigo == Codigo::Char('S') {
        nuevo.modo == (match viejo.id_elegido() {
            Some(id) => ModoActivos::ConfirmarSalida { id },
            None => viejo.modo,
        })
    } else if k.codigo == Codigo::F(2) {
        nuevo.modo matches ModoActivos::SalidaPorGafete(SalidaGafete::Capturando { numero, error })
            && numero@.len() == 0 && error is None
    } else if k.codigo == Codigo::Char('/') {
        nuevo.modo matches ModoActivos::Busqueda { texto } && texto@ == viejo.filtro@
    } else if k.codigo == Codigo::Char('c') || k.codigo == Codigo::Char('C') || k.codigo
        == Codigo::F(6) {
        nuevo.modo == ModoActivos::Columnas { seleccion: 0 }
    } else {
        nuevo.modo == viejo.modo
    }
    &&& a == (if k.codigo == Codigo::Esc && !esc_limpia {
        AccionActivos::Volver
    } else {
        AccionActivos::Ninguna
    })
}

/// Lo que hace una tecla mientras se escribe la búsqueda `texto`: cada
/// carácter o borrado filtra al momento y acota la selección.
pub open spec fn tecla_busqueda(viejo: ActivosState, nuevo: ActivosState, texto: Seq<char>, k: Tecla) -> bool {
    let escribe = (k.codigo is Char) && !k.control && !k.alt;
    let nuevo_texto = if k.codigo == Codigo::Backspace {
        if texto.len() > 0 {
            texto.drop_last()
        } else {
            texto
        }
    } else {
        match k.codigo {
            Codigo::Char(c) => texto.push(c),
            _ => texto,
        }
    };
    &&& nuevo.registros == viejo.registros
    &&& nuevo.columnas == viejo.columnas
    &&& nuevo.mensaje == viejo.mensaje
    &&& if k.codigo == Codigo::Esc {
        &&& nuevo.filtro@.len() == 0
        &&& nuevo.modo == ModoActivos::Normal
        &&& nuevo.seleccion == al_inicio(viejo.registros@.len())
    } else if k.codigo == Codigo::Enter {
        nuevo.modo == ModoActivos::Normal && nuevo.filtro == viejo.filtro && nuevo.seleccion
            == viejo.seleccion
    } else if k.codigo == Codigo::Up || k.codigo == Codigo::Down {
        &&& nuevo.modo == viejo.modo
        &&& nuevo.filtro == viejo.filtro
        &&& nuevo.seleccion == movida(
            viejo.seleccion,
            if k.codigo == Codigo::Up {
                -1
            } else {
                1
            },
            viejo.vista().len(),
        )
    } else if k.codigo == Codigo::Backspace || escribe {
        &&& (nuevo.modo matches ModoActivos::Busqueda { texto: t } && t@ == nuevo_texto)
        &&& nuevo.filtro@ == nuevo_texto
        &&& nuevo.seleccion == ajustada(
            viejo.seleccion,
            filtrados(viejo.registros@, busqueda_de(nuevo_texto)).len(),
        )
    } else {
        nuevo.modo == viejo.modo && nuevo.filtro == viejo.filtro && nuevo.seleccion
            == viejo.seleccion
    }
}

/// Lo que hace una tecla con el detalle del ingreso `id` abierto.
pub open spec fn tecla_detalle(viejo: ActivosState, nuevo: ActivosState, id: u64, k: Tecla) -> bool {
    nuevo == (ActivosState {
        modo: if k.codigo == Codigo::Char('s') || k.codigo == Codigo::Char('S') {
            ModoActivos::ConfirmarSalida { id }
        } else if k.codigo == Codigo::Esc {
            ModoActivos::Normal
        } else {
            viejo.modo
        },
        ..viejo
    })
}

/// Lo que hace una tecla mientras se confirma la salida de `id`.
pub open spec fn tecla_confirmacion(viejo: ActivosState, nuevo: ActivosState, id: u64, k: Tecla) -> bool {
    if k.codigo == Codigo::Char('y') || k.codigo == Codigo::Char('Y') {
        eliminado(viejo, nuevo, id)
    } else if k.codigo == Codigo::Char('n') || k.codigo == Codigo::Char('N') || k.codigo
        == Codigo::Esc {
        nuevo == (ActivosState { modo: ModoActivos::Normal, ..viejo })
    } else {
        nuevo == viejo
    }
}

/// Lo que hace una tecla en la salida por gafete.
pub open spec fn tecla_gafete(viejo: ActivosState, nuevo: ActivosState, estado: SalidaGafete, k: Tecla) -> bool {
    match estado {
        SalidaGafete::Capturando { numero, .. } => {
            let n = numero@;
            if k.codigo == Codigo::Esc {
                nuevo == (ActivosState { modo: ModoActivos::Normal, ..viejo })
            } else if k.codigo == Codigo::Backspace || (k.codigo matches Codigo::Char(c) && '0' <= c
                && c <= '9') {
                let m = match k.codigo {
                    Codigo::Char(c) => n.push(c),
                    _ => if n.len() > 0 {
                        n.drop_last()
                    } else {
                        n
                    },
                };
                &&& nuevo == (ActivosState { modo: nuevo.modo, ..viejo })
                &&& nuevo.modo matches ModoActivos::SalidaPorGafete(
                    SalidaGafete::Capturando { numero: t, error },
                )
                &&& t@ == m
                &&& error is None
            } else if k.codigo == Codigo::Enter {
                &&& nuevo == (ActivosState { modo: nuevo.modo, ..viejo })
                &&& match posicion_gafete(viejo.registros@, gafete_de(n)) {
                    Some(p) => nuevo.modo == ModoActivos::SalidaPorGafete(
                        SalidaGafete::Encontrado { id: viejo.registros@[p].id },
                    ),
                    None => nuevo.modo matches ModoActivos::SalidaPorGafete(
                        SalidaGafete::Capturando { numero: t, error: Some(e) },
                    ) && t@ == n && e@ == error_gafete(n),
                }
            } else {
                nuevo == viejo
            }
        },
        SalidaGafete::Encontrado { id } => tecla_confirmacion(viejo, nuevo, id, k),
    }
}

/// Lo que hace una tecla en el editor de columnas (posición `s`).
pub open spec fn tecla_columnas(viejo: ActivosState, nuevo: ActivosState, s: usize, k: Tecla) -> bool {
    &&& nuevo.registros == viejo.registros
    &&& nuevo.seleccion == viejo.seleccion
    &&& nuevo.filtro == viejo.filtro
    &&& if k.codigo == Codigo::Up {
        nuevo.modo == (ModoActivos::Columnas { seleccion: if s > 0 { (s - 1) as usize } else { 0 } })
            && nuevo.columnas == viejo.columnas && nuevo.mensaje == viejo.mensaje
    } else if k.codigo == Codigo::Down {
        nuevo.modo == (ModoActivos::Columnas {
            seleccion: if s + 1 < 7 {
                (s + 1) as usize
            } else {
                7
            },
        }) && nuevo.columnas == viejo.columnas && nuevo.mensaje == viejo.mensaje
    } else if k.codigo == Codigo::Char(' ') {
        &&& nuevo.modo == viejo.modo
        &&& if viejo.columnas@[s as int].1 && visibles(viejo.columnas@) == 1 {
            &&& nuevo.columnas == viejo.columnas
            &&& (nuevo.mensaje matches Some(m) && m@ == "Debe conservar al menos una columna"@)
        } else {
            &&& nuevo.columnas@ == viejo.columnas@.update(
                s as int,
                (viejo.columnas@[s as int].0, !viejo.columnas@[s as int].1),
            )
            &&& nuevo.mensaje is None
        }
    } else if k.codigo == Codigo::Esc {
        nuevo.modo == ModoActivos::Normal && nuevo.columnas == viejo.columnas && nuevo.mensaje
            == viejo.mensaje
    } else {
        nuevo.modo == viejo.modo && nuevo.columnas == viejo.columnas && nuevo.mensaje
            == viejo.mensaje
    }
}

/// Lo que hace una tecla según el modo.
pub open spec fn tecla(viejo: ActivosState, nuevo: ActivosState, k: Tecla, a: AccionActivos) -> bool {
    match viejo.modo {
        ModoActivos::Normal => tecla_normal(viejo, nuevo, k, a),
        ModoActivos::Busqueda { texto } => a == AccionActivos::Ninguna && tecla_busqueda(
            viejo,
            nuevo,
            texto@,
            k,
        ),
        ModoActivos::Detalle { id } => a == AccionActivos::Ninguna && tecla_detalle(viejo, nuevo, id, k),
        ModoActivos::ConfirmarSalida { id } => a == AccionActivos::Ninguna && tecla_confirmacion(
            viejo,
            nuevo,
            id,
            k,
        ),
        ModoActivos::SalidaPorGafete(estado) => a == AccionActivos::Ninguna && tecla_gafete(
            viejo,
            nuevo,
            estado,
            k,
        ),
        ModoActivos::Columnas { seleccion } => a == AccionActivos::Ninguna && tecla_columnas(
            viejo,
            nuevo,
            seleccion,
            k,
        ),
    }
}

/// Los ingresos que se ven son exactamente los que coinciden con la
/// búsqueda, en el orden de la lista y cada uno una vez.
pub proof fn ley_filtrados_son_los_que_coinciden(rs: Seq<IngresoActivoMock>, t: Seq<char>)
    requires
        rs.len() <= usize::MAX,
    ensures
        forall|i: int, j: int|
            0 <= i < j < filtrados(rs, t).len() ==> #[trigger] filtrados(rs, t)[i]
                < #[trigger] filtrados(rs, t)[j],
        forall|i: int| 0 <= i < filtrados(rs, t).len() ==> #[trigger] filtrados(rs, t)[i] < rs.len(),
        forall|n: int|
            0 <= n < rs.len() ==> (coincide(#[trigger] rs[n], t) <==> filtrados(rs, t).contains(
                n as usize,
            )),
    decreases rs.len(),
{
    if rs.len() > 0 {
        let q = rs.drop_last();
        ley_filtrados_son_los_que_coinciden(q, t);
        let p = filtrados(q, t);
        let f = filtrados(rs, t);
        let ultimo = (rs.len() - 1) as usize;
        assert forall|n: int| 0 <= n < rs.len() implies (coincide(#[trigger] rs[n], t)
            <==> f.contains(n as usize)) by {
            if n < q.len() {
                assert(rs[n] == q[n]);
                if coincide(rs.last(), t) {
                    assert(f == p.push(ultimo));
                    if p.contains(n as usize) {
                        let i = choose|i: int| 0 <= i < p.len() && p[i] == n as usize;
                        assert(f[i] == p[i]);
                    }
                    if f.contains(n as usize) {
                        let i = choose|i: int| 0 <= i < f.len() && f[i] == n as usize;
                        if i < p.len() {
                            assert(p[i] == f[i]);
                        }
                    }
                }
            } else {
                if coincide(rs.last(), t) {
                    assert(f[p.len() as int] == ultimo);
                } else {
                    if f.contains(n as usize) {
                        let i = choose|i: int| 0 <= i < f.len() && f[i] == n as usize;
                        assert(p[i] < q.len());
                    }
                }
            }
        }
        if coincide(rs.last(), t) {
            assert forall|i: int, j: int| 0 <= i < j < f.len() implies #[trigger] f[i] < #[trigger] f[j] by {
                if j < p.len() {
                    assert(f[i] == p[i] && f[j] == p[j]);
                } else {
                    assert(f[i] == p[i]);
                }
            }
            assert forall|i: int| 0 <= i < f.len() implies #[trigger] f[i] < rs.len() by {
                if i < p.len() {
                    assert(f[i] == p[i]);
                }
            }
        }
    }
}

/// Sin texto de búsqueda se ven todos los ingresos, en su orden.
pub proof fn ley_sin_filtro_se_ven_todos(rs: Seq<IngresoActivoMock>)
    requires
        rs.len() <= usize::MAX,
    ensures
        filtrados(rs, Seq::empty()).len() == rs.len(),
        forall|i: int| 0 <= i < rs.len() ==> #[trigger] filtrados(rs, Seq::empty())[i] == i,
    decreases rs.len(),
{
    if rs.len() > 0 {
        let q = rs.drop_last();
        ley_sin_filtro_se_ven_todos(q);
        assert(coincide(rs.last(), Seq::empty()));
        let f = filtrados(rs, Seq::empty());
        assert(f == filtrados(q, Seq::empty()).push((rs.len() - 1) as usize));
        assert forall|i: int| 0 <= i < rs.len() implies #[trigger] f[i] == i by {
            if i < q.len() {
                assert(f[i] == filtrados(q, Seq::empty())[i]);
            }
        }
    }
}

/// Registrar la salida de un ingreso que está en la lista la acorta en uno
/// y deja la pantalla en la tabla.
pub proof fn ley_salida_quita_un_ingreso(viejo: ActivosState, nuevo: ActivosState, id: u64)
    requires
        eliminado(viejo, nuevo, id),
        posicion_id(viejo.registros@, id) is Some,
    ensures
        nuevo.registros@.len() == viejo.registros@.len() - 1,
        nuevo.modo == ModoActivos::Normal,
        nuevo.mensaje is Some,
{
    let p = posicion_id(viejo.registros@, id)->0;
    let q = con_id(viejo.registros@, id);
    assert(exists|i: int| es_primero(viejo.registros@.len() as int, q, i));
    let i = choose|i: int| es_primero(viejo.registros@.len() as int, q, i);
    lema_primero(viejo.registros@.len() as int, q, i);
}

fn al_inicio_de(n: usize) -> (r: Option<usize>)
    ensures
        r == al_inicio(n as nat),
{
    if n > 0 {
        Some(0)
    } else {
        None
    }
}

impl ActivosState {
    /// Aplica una tecla según el modo.
    pub fn handle_key(&mut self, k: Tecla) -> (a: AccionActivos)
        requires
            old(self).bien_formado(),
        ensures
            final(self).bien_formado(),
            tecla(*old(self), *final(self), k, a),
            visibles(old(self).columnas@) >= 1 ==> visibles(final(self).columnas@) >= 1,
    {
        match &self.modo {
            ModoActivos::Normal => self.handle_normal(k),
            ModoActivos::Busqueda { texto } => {
                let t = caracteres(texto.as_str());
                self.handle_busqueda(k, t);
                AccionActivos::Ninguna
            },
            ModoActivos::Detalle { id } => {
                let id = *id;
                self.handle_detalle(k, id);
                AccionActivos::Ninguna
            },
            ModoActivos::ConfirmarSalida { id } => {
                let id = *id;
                self.handle_confirmacion(k, id);
                AccionActivos::Ninguna
            },
            ModoActivos::SalidaPorGafete(SalidaGafete::Capturando { numero, .. }) => {
                let n = caracteres(numero.as_str());
                self.handle_numero(k, n);
                AccionActivos::Ninguna
            },
            ModoActivos::SalidaPorGafete(SalidaGafete::Encontrado { id }) => {
                let id = *id;
                self.handle_confirmacion(k, id);
                AccionActivos::Ninguna
            },
            ModoActivos::Columnas { seleccion } => {
                let s = *seleccion;
                self.handle_columnas(k, s);
                AccionActivos::Ninguna
            },
        }
    }

    fn mover(&mut self, d: isize)
        requires
            old(self).bien_formado(),
        ensures
            final(self).bien_formado(),
            *final(self) == (ActivosState {
                seleccion: movida(old(self).seleccion, d as int, old(self).vista().len()),
                ..*old(self)
            }),
    {
        let n = self.indices_filtrados().len();
        proof {
            lema_filtrados_en_rango(self.registros@, busqueda_de(self.filtro@));
        }
        self.seleccion = mover_seleccion(self.seleccion, d, n);
    }

    fn ajustar_seleccion_filtro(&mut self)
        requires
            old(self).bien_formado(),
        ensures
            final(self).bien_formado(),
            *final(self) == (ActivosState {
                seleccion: ajustada(old(self).seleccion, old(self).vista().len()),
                ..*old(self)
            }),
    {
        let n = self.indices_filtrados().len();
        proof {
            lema_filtrados_en_rango(self.registros@, busqueda_de(self.filtro@));
        }
        self.seleccion = if n == 0 {
            None
        } else {
            let i = match self.seleccion {
                Some(i) => i,
                None => 0,
            };
            Some(if i < n - 1 { i } else { n - 1 })
        };
    }

    fn abrir_confirmacion(&mut self)
        requires
            old(self).bien_formado(),
        ensures
            final(self).bien_formado(),
            *final(self) == (ActivosState {
                modo: match old(self).id_elegido() {
                    Some(id) => ModoActivos::ConfirmarSalida { id },
                    None => old(self).modo,
                },
                ..*old(self)
            }),
    {
        if let Some(id) = self.id_seleccionado() {
            self.modo = ModoActivos::ConfirmarSalida { id };
        }
    }

    fn eliminar(&mut self, id: u64)
        requires
            old(self).bien_formado(),
        ensures
            final(self).bien_formado(),
            eliminado(*old(self), *final(self), id),
    {
        let p = match posicion_de_id(self.registros.as_slice(), id) {
            Some(p) => p,
            None => {
                self.modo = ModoActivos::Normal;
                return;
            },
        };
        let quitado = self.registros.remove(p);
        let base = unir(
            caracteres("✓ Salida registrada — ").as_slice(),
            caracteres(quitado.nombre.as_str()).as_slice(),
        );
        let m = match quitado.gafete {
            Some(g) => {
                let a = unir(base.as_slice(), caracteres(" — Gafete ").as_slice());
                let b = unir(a.as_slice(), escribir_decimal_dos(g as i64).as_slice());
                unir(b.as_slice(), caracteres(" liberado").as_slice())
            },
            None => base,
        };
        self.mensaje = Some(texto_de(m.as_slice()));
        self.modo = ModoActivos::Normal;
        let n = self.registros.len();
        self.seleccion = if n == 0 {
            None
        } else {
            let i = match self.seleccion {
                Some(i) => i,
                None => 0,
            };
            Some(if i < n - 1 { i } else { n - 1 })
        };
    }

    fn handle_normal(&mut self, k: Tecla) -> (a: AccionActivos)
        requires
            old(self).bien_formado(),
            old(self).modo == ModoActivos::Normal,
        ensures
            final(self).bien_formado(),
            tecla_normal(*old(self), *final(self), k, a),
    {
        self.mensaje = None;
        match k.codigo {
            Codigo::Up => self.mover(-1),
            Codigo::Down => self.mover(1),
            Codigo::Enter => {
                if let Some(id) = self.id_seleccionado() {
                    self.modo = ModoActivos::Detalle { id };
                }
            },
            Codigo::Char('s') | Codigo::Char('S') => self.abrir_confirmacion(),
            Codigo::F(2) => {
                self.modo = ModoActivos::SalidaPorGafete(
                    SalidaGafete::Capturando { numero: String::new(), error: None },
                );
            },
            Codigo::Char('/') => {
                let texto = texto_de(caracteres(self.filtro.as_str()).as_slice());
                self.modo = ModoActivos::Busqueda { texto };
                self.seleccion = al_inicio_de(self.registros.len());
            },
            Codigo::Char('c') | Codigo::Char('C') | Codigo::F(6) => {
                self.modo = ModoActivos::Columnas { seleccion: 0 };
            },
            Codigo::Esc => {
                if caracteres(self.filtro.as_str()).len() > 0 {
                    self.filtro = String::new();
                    self.seleccion = al_inicio_de(self.registros.len());
                } else {
                    return AccionActivos::Volver;
                }
            },
            _ => {},
        }
        AccionActivos::Ninguna
    }

    fn handle_busqueda(&mut self, k: Tecla, texto: Vec<char>)
        requires
            old(self).bien_formado(),
            old(self).modo matches ModoActivos::Busqueda { texto: t } && t@ == texto@,
        ensures
            final(self).bien_formado(),
            tecla_busqueda(*old(self), *final(self), texto@, k),
    {
        let mut texto = texto;
        match k.codigo {
            Codigo::Esc => {
                self.filtro = String::new();
                self.modo = ModoActivos::Normal;
                self.seleccion = al_inicio_de(self.registros.len());
            },
            Codigo::Enter => {
                self.modo = ModoActivos::Normal;
            },
            Codigo::Up => self.mover(-1),
            Codigo::Down => self.mover(1),
            Codigo::Backspace => {
                if texto.len() > 0 {
                    texto.pop();
                }
                self.modo = ModoActivos::Busqueda { texto: texto_de(texto.as_slice()) };
                self.filtro = texto_de(texto.as_slice());
                self.ajustar_seleccion_filtro();
            },
            Codigo::Char(c) => {
                if !k.control && !k.alt {
                    texto.push(c);
                    self.modo = ModoActivos::Busqueda { texto: texto_de(texto.as_slice()) };
                    self.filtro = texto_de(texto.as_slice());
                    self.ajustar_seleccion_filtro();
                }
            },
            _ => {},
        }
    }

    fn handle_detalle(&mut self, k: Tecla, id: u64)
        requires
            old(self).bien_formado(),
            old(self).modo == (ModoActivos::Detalle { id }),
        ensures
            final(self).bien_formado(),
            tecla_detalle(*old(self), *final(self), id, k),
    {
        match k.codigo {
            Codigo::Char('s') | Codigo::Char('S') => {
                self.modo = ModoActivos::ConfirmarSalida { id };
            },
            Codigo::Esc => {
                self.modo = ModoActivos::Normal;
            },
            _ => {},
        }
    }

    fn handle_confirmacion(&mut self, k: Tecla, id: u64)
        requires
            old(self).bien_formado(),
        ensures
            final(self).bien_formado(),
            tecla_confirmacion(*old(self), *final(self), id, k),
    {
        match k.codigo {
            Codigo::Char('y') | Codigo::Char('Y') => self.eliminar(id),
            Codigo::Char('n') | Codigo::Char('N') | Codigo::Esc => {
                self.modo = ModoActivos::Normal;
            },
            _ => {},
        }
    }

    fn handle_numero(&mut self, k: Tecla, numero: Vec<char>)
        requires
            old(self).bien_formado(),
            old(self).modo matches ModoActivos::SalidaPorGafete(
                SalidaGafete::Capturando { numero: t, .. },
            ) && t@ == numero@,
        ensures
            final(self).bien_formado(),
            tecla_gafete(*old(self), *final(self), old(self).modo->0, k),
    {
        let mut numero = numero;
        match k.codigo {
            Codigo::Esc => {
                self.modo = ModoActivos::Normal;
            },
            Codigo::Backspace => {
                if numero.len() > 0 {
                    numero.pop();
                }
                self.modo = ModoActivos::SalidaPorGafete(
                    SalidaGafete::Capturando { numero: texto_de(numero.as_slice()), error: None },
                );
            },
            Codigo::Char(c) => {
                if '0' <= c && c <= '9' {
                    numero.push(c);
                    self.modo = ModoActivos::SalidaPorGafete(
                        SalidaGafete::Capturando {
                            numero: texto_de(numero.as_slice()),
                            error: None,
                        },
                    );
                }
            },
            Codigo::Enter => {
                let g = leer_gafete(numero.as_slice());
                match posicion_de_gafete(self.registros.as_slice(), g) {
                    Some(p) => {
                        self.modo = ModoActivos::SalidaPorGafete(
                            SalidaGafete::Encontrado { id: self.registros[p].id },
                        );
                    },
                    None => {
                        let mostrado = if numero.len() == 0 {
                            caracteres("—")
                        } else {
                            let c = crate::texto::copiar_rango(numero.as_slice(), 0, numero.len());
                            assert(c@ =~= numero@);
                            c
                        };
                        let a = unir(caracteres("El gafete ").as_slice(), mostrado.as_slice());
                        let e = unir(
                            a.as_slice(),
                            caracteres(" no está asignado a ningún ingreso activo").as_slice(),
                        );
                        self.modo = ModoActivos::SalidaPorGafete(
                            SalidaGafete::Capturando {
                                numero: texto_de(numero.as_slice()),
                                error: Some(texto_de(e.as_slice())),
                            },
                        );
                    },
                }
            },
            _ => {},
        }
    }

    fn handle_columnas(&mut self, k: Tecla, s: usize)
        requires
            old(self).bien_formado(),
            old(self).modo == (ModoActivos::Columnas { seleccion: s }),
        ensures
            final(self).bien_formado(),
            tecla_columnas(*old(self), *final(self), s, k),
            visibles(old(self).columnas@) >= 1 ==> visibles(final(self).columnas@) >= 1,
    {
        let u = self.columnas.len() - 1;
        match k.codigo {
            Codigo::Up => {
                self.modo = ModoActivos::Columnas { seleccion: if s > 0 { s - 1 } else { 0 } };
            },
            Codigo::Down => {
                self.modo = ModoActivos::Columnas { seleccion: if s + 1 < u { s + 1 } else { u } };
            },
            Codigo::Char(' ') => {
                let n = contar_visibles(self.columnas.as_slice());
                let (c, visible) = self.columnas[s];
                if visible && n == 1 {
                    self.mensaje = Some(
                        texto_de(caracteres("Debe conservar al menos una columna").as_slice()),
                    );
                } else {
                    let ghost antes = self.columnas@;
                    self.columnas.set(s, (c, !visible));
                    self.mensaje = None;
                    proof {
                        lema_visibles_cambio(antes, s as int, !visible);
                    }
                }
            },
            Codigo::Esc => {
                self.modo = ModoActivos::Normal;
            },
            _ => {},
        }
    }
}

fn coincide_con(r: &IngresoActivoMock, t: &[char]) -> (b: bool)
    ensures
        b == coincide(*r, t@),
{
    if t.len() == 0 {
        return true;
    }
    let nombre = a_minusculas(caracteres(r.nombre.as_str()).as_slice());
    if contiene_texto(nombre.as_slice(), t) {
        return true;
    }
    let cedula = a_minusculas(caracteres(r.cedula.as_str()).as_slice());
    if contiene_texto(cedula.as_slice(), t) {
        return true;
    }
    let empresa = a_minusculas(caracteres(r.empresa.as_str()).as_slice());
    if contiene_texto(empresa.as_slice(), t) {
        return true;
    }
    match r.gafete {
        Some(g) => {
            let d = escribir_decimal(g as u64);
            contiene_texto(d.as_slice(), t)
        },
        None => false,
    }
}

fn posicion_de_id(rs: &[IngresoActivoMock], id: u64) -> (p: Option<usize>)
    ensures
        match p {
            Some(i) => posicion_id(rs@, id) == Some(i as int) && i < rs@.len(),
            None => posicion_id(rs@, id) is None,
        },
{
    let ghost pr = con_id(rs@, id);
    let mut k: usize = 0;
    while k < rs.len()
        invariant
            k <= rs.len(),
            pr == con_id(rs@, id),
            forall|j: int| 0 <= j < k ==> !#[trigger] pr(j),
        decreases rs.len() - k,
    {
        if rs[k].id == id {
            proof {
                assert(es_primero(rs@.len() as int, pr, k as int));
                lema_primero(rs@.len() as int, pr, k as int);
            }
            return Some(k);
        }
        assert(!pr(k as int));
        k += 1;
    }
    proof {
        lema_ninguno(rs@.len() as int, pr);
    }
    None
}

fn posicion_de_gafete(rs: &[IngresoActivoMock], g: Option<u32>) -> (p: Option<usize>)
    ensures
        match p {
            Some(i) => posicion_gafete(rs@, g) == Some(i as int) && i < rs@.len(),
            None => posicion_gafete(rs@, g) is None,
        },
{
    let ghost pr = con_gafete(rs@, g);
    let mut k: usize = 0;
    while k < rs.len()
        invariant
            k <= rs.len(),
            pr == con_gafete(rs@, g),
            forall|j: int| 0 <= j < k ==> !#[trigger] pr(j),
        decreases rs.len() - k,
    {
        if rs[k].gafete == g {
            proof {
                assert(es_primero(rs@.len() as int, pr, k as int));
                lema_primero(rs@.len() as int, pr, k as int);
            }
            return Some(k);
        }
        assert(!pr(k as int));
        k += 1;
    }
    proof {
        lema_ninguno(rs@.len() as int, pr);
    }
    None
}

/// Lee el número tecleado como gafete.
pub fn leer_gafete(numero: &[char]) -> (r: Option<u32>)
    ensures
        r == gafete_de(numero@),
{
    match parsear_entero(numero) {
        Some(v) => if 0 <= v && v <= 4294967295i64 {
            Some(v as u32)
        } else {
            None
        },
        None => None,
    }
}

/// Texto de la celda de `registro` en la columna `columna`.
pub fn valor_columna(registro: &IngresoActivoMock, columna: Columna) -> (r: String)
    ensures
        r@ == celda(*registro, columna),
{
    match columna {
        Columna::Cedula => texto_de(caracteres(registro.cedula.as_str()).as_slice()),
        Columna::Nombre => texto_de(caracteres(registro.nombre.as_str()).as_slice()),
        Columna::Empresa => texto_de(caracteres(registro.empresa.as_str()).as_slice()),
        Columna::Tipo => {
            let marca = if registro.advertencia.is_some() {
                caracteres(" !")
            } else {
                caracteres("")
            };
            let t = unir(caracteres(registro.tipo.as_str()).as_slice(), marca.as_slice());
            texto_de(t.as_slice())
        },
        Columna::Hora => texto_de(caracteres(registro.hora_ingreso.as_str()).as_slice()),
        Columna::Gafete => match registro.gafete {
            Some(g) => texto_de(escribir_decimal_dos(g as i64).as_slice()),
            None => texto_de(caracteres("S/G").as_slice()),
        },
        Columna::Medio => texto_de(caracteres(registro.medio.as_str()).as_slice()),
        Columna::Usuario => texto_de(caracteres(registro.usuario_ingreso.as_str()).as_slice()),
    }
}

/// Posición de la selección entre las filas visibles (`—/—` sin
/// selección).
pub fn texto_posicion(state: &ActivosState) -> (r: String)
    requires
        state.bien_formado(),
    ensures
        r@ == (match state.seleccion {
            Some(i) => decimal((i + 1) as nat) + "/"@ + decimal(state.vista().len()),
            None => "—/—"@,
        }),
{
    match state.seleccion {
        Some(i) => {
            let n = state.indices_filtrados().len();
            let a = escribir_decimal(i as u64 + 1);
            let b = unir(a.as_slice(), caracteres("/").as_slice());
            let c = unir(b.as_slice(), escribir_decimal(n as u64).as_slice());
            texto_de(c.as_slice())
        },
        None => texto_de(caracteres("—/—").as_slice()),
    }
}

} // verus!
