//! Ajustes: la pantalla de respaldos de la base (listar, crear, revalidar,
//! exportar y restaurar) y el aviso del respaldo automático.
use crate::modelos::{RespaldoResumen, ResultadoValidacion, TipoRespaldo};
use crate::texto::{
    caracteres, decimal_con_signo, escribir_entero, recortar, recorte, ruta_canonica, ruta_sencilla,
    texto_de, ultimo_tramo, unir,
};
use crate::ui::{Codigo, Tecla, TextInput, VistaCampo, comando_estandar, editar, es_ayuda, movida, mover_seleccion};
use vstd::prelude::*;

verus! {

/// Un respaldo listado y, si ya se revalidó, su resultado.
#[derive(Clone, Debug, PartialEq, Eq)]
pub struct FilaRespaldo {
    pub resumen: RespaldoResumen,
    pub validacion: Option<ResultadoValidacion>,
}

#[derive(Clone, Debug, PartialEq, Eq)]
pub enum ModoRespaldos {
    Normal,
    Exportando { destino: TextInput },
    ConfirmandoRestauracion { ruta: String, fecha: String, tipo: &'static str },
}

#[derive(Clone, Debug, PartialEq, Eq)]
pub enum AccionRespaldos {
    Ninguna,
    Volver,
    Cargar,
    Crear,
    Revalidar { ruta: String },
    Exportar { ruta: String, destino: String },
    Restaurar { ruta: String },
}

#[derive(Clone, Debug, PartialEq, Eq)]
pub enum AccionAjustes {
    Ninguna,
    Volver,
    Respaldos(AccionRespaldos),
}

#[derive(Debug)]
pub struct RespaldosState {
    pub filas: Vec<FilaRespaldo>,
    pub seleccion: Option<usize>,
    pub modo: ModoRespaldos,
    /// Aviso transitorio: lo borra la siguiente tecla de acción.
    pub mensaje: Option<String>,
    /// Estado real del respaldo automático: sigue visible hasta que un
    /// intento nuevo lo reemplace.
    pub fallo_automatico: Option<String>,
    /// `true` mientras se espera el resultado de crear un respaldo: bloquea
    /// otro.
    pub creando: bool,
}

#[derive(Debug)]
pub struct ConfiguracionState {
    pub respaldos: RespaldosState,
    pub ayuda_expandida: bool,
}

/// Texto de fecha y hora (`DD/MM/YYYY HH:MM`, hora de Costa Rica) que
/// chrono escribe para un instante dado en segundos desde 1970.
pub uninterp spec fn fecha_hora_de(segundos: i64) -> Seq<char>;

/// Escribe el instante con `chrono::DateTime::from_timestamp`, lo pasa a la
/// hora fija de Costa Rica (UTC−6) y lo formatea con `"%d/%m/%Y %H:%M"`.
/// El resultado queda nombrado por `fecha_hora_de`: depende sólo del
/// instante (el desfase es fijo). Un instante fuera del rango de chrono da
/// el texto vacío.
#[verifier::external_body]
fn fecha_hora_texto(segundos: i64) -> (r: String)
    ensures
        r@ == fecha_hora_de(segundos),
{
    match chrono::DateTime::from_timestamp(segundos, 0) {
        Some(t) => match chrono::FixedOffset::west_opt(21_600) {
            Some(cr) => t.with_timezone(&cr).format("%d/%m/%Y %H:%M").to_string(),
            None => String::new(),
        },
        None => String::new(),
    }
}

/// Nombre del archivo de la ruta (`std::path::Path::file_name`, vacío si no
/// tiene). Se afirma lo que vale en toda plataforma según la documentación
/// de `Path`: `/` separa en todas, el nombre es el último componente, y en
/// una ruta sencilla (ver `ruta_sencilla`) ese componente es lo que sigue a
/// la última `/`. Cómo se parten las demás rutas depende de la plataforma y
/// queda sin decir.
#[verifier::external_body]
fn nombre_de_archivo(ruta: &str) -> (r: String)
    ensures
        !r@.contains('/'),
        ruta_sencilla(ruta@) ==> r@ == ultimo_tramo(ruta@),
{
    std::path::Path::new(ruta).file_name().map(|n| n.to_string_lossy().into_owned()).unwrap_or_default()
}

/// `std::path::Path::eq`: dos rutas iguales componente a componente. Se
/// afirma que una ruta es igual a sí misma y que dos rutas canónicas (ver
/// `ruta_canonica`, que se parten igual en toda plataforma) son iguales sólo
/// si su texto lo es. Cómo se comparan las demás depende de la plataforma.
#[verifier::external_body]
fn mismas_rutas(a: &str, b: &str) -> (r: bool)
    ensures
        a@ == b@ ==> r,
        ruta_canonica(a@) && ruta_canonica(b@) ==> r == (a@ == b@),
{
    std::path::Path::new(a) == std::path::Path::new(b)
}

/// Nombre del archivo de una ruta, para los mensajes: lo que sigue a la
/// última `/` en una ruta sencilla.
pub fn nombre_archivo(ruta: &str) -> (r: String)
    ensures
        !r@.contains('/'),
        ruta_sencilla(ruta@) ==> r@ == ultimo_tramo(ruta@),
{
    nombre_de_archivo(ruta)
}

/// Etiqueta de un tipo de respaldo.
pub open spec fn etiqueta_de_tipo(t: TipoRespaldo) -> Seq<char> {
    match t {
        TipoRespaldo::Manual => "Manual"@,
        TipoRespaldo::Automatico => "Automático"@,
        TipoRespaldo::PreMigracion => "Pre-migración"@,
        TipoRespaldo::PreRestauracion => "Pre-restauración"@,
        TipoRespaldo::PorFlag => "Por flag (CLI)"@,
    }
}

pub fn etiqueta_tipo(t: TipoRespaldo) -> (r: &'static str)
    ensures
        r@ == etiqueta_de_tipo(t),
{
    match t {
        TipoRespaldo::Manual => "Manual",
        TipoRespaldo::Automatico => "Automático",
        TipoRespaldo::PreMigracion => "Pre-migración",
        TipoRespaldo::PreRestauracion => "Pre-restauración",
        TipoRespaldo::PorFlag => "Por flag (CLI)",
    }
}

/// Etiqueta del resultado de revalidar (`—` si no se revalidó).
pub fn etiqueta_validacion(v: &Option<ResultadoValidacion>) -> (r: &'static str)
    ensures
        r@ == (match v {
            None => "—"@,
            Some(ResultadoValidacion::Valido { .. }) => "VÁLIDO"@,
            Some(ResultadoValidacion::Invalido(_)) => "INVÁLIDO"@,
            Some(ResultadoValidacion::EsquemaIncompatible { .. }) => "ESQUEMA FUTURO"@,
        }),
{
    match v {
        None => "—",
        Some(ResultadoValidacion::Valido { .. }) => "VÁLIDO",
        Some(ResultadoValidacion::Invalido(_)) => "INVÁLIDO",
        Some(ResultadoValidacion::EsquemaIncompatible { .. }) => "ESQUEMA FUTURO",
    }
}

/// Versión de esquema encontrada al revalidar (`—` si no hay).
pub fn etiqueta_esquema(v: &Option<ResultadoValidacion>) -> (r: String)
    ensures
        r@ == (match v {
            Some(ResultadoValidacion::Valido { version_esquema }) => decimal_con_signo(
                *version_esquema as int,
            ),
            Some(ResultadoValidacion::EsquemaIncompatible { version_encontrada }) => decimal_con_signo(
                *version_encontrada as int,
            ),
            _ => "—"@,
        }),
{
    match v {
        Some(ResultadoValidacion::Valido { version_esquema }) => texto_de(
            escribir_entero(*version_esquema).as_slice(),
        ),
        Some(ResultadoValidacion::EsquemaIncompatible { version_encontrada }) => texto_de(
            escribir_entero(*version_encontrada).as_slice(),
        ),
        _ => texto_de(caracteres("—").as_slice()),
    }
}

/// Teclas que borran el aviso transitorio en modo normal.
pub open spec fn borra_aviso(k: Tecla) -> bool {
    ||| k.codigo == Codigo::Esc
    ||| k.codigo == Codigo::Char('c') || k.codigo == Codigo::Char('C')
    ||| k.codigo == Codigo::Char('l') || k.codigo == Codigo::Char('L')
    ||| k.codigo == Codigo::Char('v') || k.codigo == Codigo::Char('V')
    ||| k.codigo == Codigo::Char('e') || k.codigo == Codigo::Char('E')
    ||| k.codigo == Codigo::Char('r') || k.codigo == Codigo::Char('R')
}

pub open spec fn es_letra(k: Tecla, minuscula: char, mayuscula: char) -> bool {
    k.codigo == Codigo::Char(minuscula) || k.codigo == Codigo::Char(mayuscula)
}

impl RespaldosState {
    pub open spec fn bien_formado(&self) -> bool {
        self.seleccion matches Some(i) ==> i < self.filas.len()
    }

    /// La ruta de la fila seleccionada.
    pub open spec fn ruta_elegida(&self) -> Option<Seq<char>> {
        match self.seleccion {
            Some(i) => if i < self.filas.len() {
                Some(self.filas@[i as int].resumen.ruta@)
            } else {
                None
            },
            None => None,
        }
    }
}

/// Lo que hace una tecla en el listado.
pub open spec fn tecla_listado(
    viejo: RespaldosState,
    nuevo: RespaldosState,
    k: Tecla,
    a: AccionRespaldos,
) -> bool {
    &&& nuevo.filas == viejo.filas
    &&& nuevo.fallo_automatico == viejo.fallo_automatico
    &&& nuevo.creando == viejo.creando
    &&& nuevo.mensaje == (if borra_aviso(k) {
        None
    } else {
        viejo.mensaje
    })
    &&& nuevo.seleccion == (if k.codigo == Codigo::Up {
        movida(viejo.seleccion, -1, viejo.filas@.len())
    } else if k.codigo == Codigo::Down {
        movida(viejo.seleccion, 1, viejo.filas@.len())
    } else {
        viejo.seleccion
    })
    &&& if es_letra(k, 'c', 'C') && !viejo.creando {
        a == AccionRespaldos::Crear && nuevo.modo == viejo.modo
    } else if es_letra(k, 'l', 'L') {
        a == AccionRespaldos::Cargar && nuevo.modo == viejo.modo
    } else if es_letra(k, 'v', 'V') {
        &&& nuevo.modo == viejo.modo
        &&& match viejo.ruta_elegida() {
            Some(r) => a matches AccionRespaldos::Revalidar { ruta } && ruta@ == r,
            None => a == AccionRespaldos::Ninguna,
        }
    } else if es_letra(k, 'e', 'E') {
        &&& a == AccionRespaldos::Ninguna
        &&& match viejo.ruta_elegida() {
            Some(_) => nuevo.modo matches ModoRespaldos::Exportando { destino } && destino@ == (
            VistaCampo { valor: Seq::empty(), cursor: 0, maximo: Some(240usize) }),
            None => nuevo.modo == viejo.modo,
        }
    } else if es_letra(k, 'r', 'R') {
        &&& a == AccionRespaldos::Ninguna
        &&& match viejo.seleccion {
            Some(i) => nuevo.modo matches ModoRespaldos::ConfirmandoRestauracion {
                ruta,
                fecha,
                tipo,
            } && ruta == viejo.filas@[i as int].resumen.ruta && fecha@ == fecha_hora_de(
                viejo.filas@[i as int].resumen.creado_en,
            ) && tipo@ == etiqueta_de_tipo(viejo.filas@[i as int].resumen.tipo),
            None => nuevo.modo == viejo.modo,
        }
    } else if k.codigo == Codigo::Esc {
        a == AccionRespaldos::Volver && nuevo.modo == viejo.modo
    } else {
        a == AccionRespaldos::Ninguna && nuevo.modo == viejo.modo
    }
}

/// Lo que hace una tecla mientras se escribe el destino de la exportación.
pub open spec fn tecla_exportando(
    viejo: RespaldosState,
    nuevo: RespaldosState,
    destino: TextInput,
    k: Tecla,
    a: AccionRespaldos,
) -> bool {
    &&& nuevo.filas == viejo.filas
    &&& nuevo.seleccion == viejo.seleccion
    &&& nuevo.mensaje == viejo.mensaje
    &&& nuevo.fallo_automatico == viejo.fallo_automatico
    &&& nuevo.creando == viejo.creando
    &&& if k.codigo == Codigo::Esc {
        nuevo.modo == ModoRespaldos::Normal && a == AccionRespaldos::Ninguna
    } else if k.codigo == Codigo::Enter {
        if recorte(destino@.valor).len() == 0 {
            a == AccionRespaldos::Ninguna && nuevo.modo == viejo.modo
        } else {
            &&& nuevo.modo == ModoRespaldos::Normal
            &&& match viejo.ruta_elegida() {
                Some(r) => a matches AccionRespaldos::Exportar { ruta, destino: d } && ruta@ == r
                    && d@ == recorte(destino@.valor),
                None => a == AccionRespaldos::Ninguna,
            }
        }
    } else {
        &&& a == AccionRespaldos::Ninguna
        &&& (nuevo.modo matches ModoRespaldos::Exportando { destino: d } && d@ == editar(
            destino@,
            k,
        ))
    }
}

/// Lo que hace una tecla mientras se confirma restaurar `ruta`.
pub open spec fn tecla_restaurar(
    viejo: RespaldosState,
    nuevo: RespaldosState,
    ruta: String,
    k: Tecla,
    a: AccionRespaldos,
) -> bool {
    &&& nuevo.filas == viejo.filas
    &&& nuevo.seleccion == viejo.seleccion
    &&& nuevo.mensaje == viejo.mensaje
    &&& nuevo.fallo_automatico == viejo.fallo_automatico
    &&& nuevo.creando == viejo.creando
    &&& if k.codigo == Codigo::Enter {
        nuevo.modo == ModoRespaldos::Normal && a == AccionRespaldos::Restaurar { ruta }
    } else if k.codigo == Codigo::Esc {
        nuevo.modo == ModoRespaldos::Normal && a == AccionRespaldos::Ninguna
    } else {
        nuevo.modo == viejo.modo && a == AccionRespaldos::Ninguna
    }
}

/// Lo que hace una tecla según el modo de la pantalla de respaldos.
pub open spec fn tecla_respaldos(
    viejo: RespaldosState,
    nuevo: RespaldosState,
    k: Tecla,
    a: AccionRespaldos,
) -> bool {
    match viejo.modo {
        ModoRespaldos::Normal => tecla_listado(viejo, nuevo, k, a),
        ModoRespaldos::Exportando { destino } => tecla_exportando(viejo, nuevo, destino, k, a),
        ModoRespaldos::ConfirmandoRestauracion { ruta, .. } => tecla_restaurar(
            viejo,
            nuevo,
            ruta,
            k,
            a,
        ),
    }
}

/// Las filas, con la validación de la primera cuya ruta coincide (si
/// alguna coincide), ya puesta.
pub open spec fn revalidada(
    viejo: Seq<FilaRespaldo>,
    nuevo: Seq<FilaRespaldo>,
    ruta: Seq<char>,
    v: ResultadoValidacion,
) -> bool {
    ||| exists|i: int|
        #![trigger viejo[i]]
        0 <= i < viejo.len() && nuevo == viejo.update(
            i,
            FilaRespaldo { validacion: Some(v), ..viejo[i] },
        ) && quizas_misma_ruta(viejo[i].resumen.ruta@, ruta) && forall|j: int|
            0 <= j < i ==> (#[trigger] viejo[j]).resumen.ruta@ != ruta
    ||| nuevo == viejo && forall|j: int| 0 <= j < viejo.len() ==> (#[trigger] viejo[j]).resumen.ruta@
        != ruta
}

/// Con rutas canónicas, revalidar anota el resultado en la primera fila
/// cuya ruta es la revalidada, y si ninguna lo es no cambia nada.
pub proof fn ley_revalidacion_en_su_fila(
    viejo: Seq<FilaRespaldo>,
    nuevo: Seq<FilaRespaldo>,
    ruta: Seq<char>,
    v: ResultadoValidacion,
)
    requires
        revalidada(viejo, nuevo, ruta, v),
        ruta_canonica(ruta),
        forall|j: int| 0 <= j < viejo.len() ==> ruta_canonica(#[trigger] viejo[j].resumen.ruta@),
    ensures
        (exists|i: int|
            #![trigger viejo[i]]
            0 <= i < viejo.len() && viejo[i].resumen.ruta@ == ruta && nuevo == viejo.update(
                i,
                FilaRespaldo { validacion: Some(v), ..viejo[i] },
            ) && forall|j: int| 0 <= j < i ==> (#[trigger] viejo[j]).resumen.ruta@ != ruta)
            || (nuevo == viejo && forall|j: int|
            0 <= j < viejo.len() ==> (#[trigger] viejo[j]).resumen.ruta@ != ruta),
{
}

/// Dos rutas que `Path` puede dar por iguales: el mismo texto, o alguna que
/// no es canónica (y entonces cómo se compara depende de la plataforma).
pub open spec fn quizas_misma_ruta(a: Seq<char>, b: Seq<char>) -> bool {
    a == b || !(ruta_canonica(a) && ruta_canonica(b))
}

fn copiar_resumen(r: &RespaldoResumen) -> (c: RespaldoResumen)
    ensures
        c == *r,
{
    RespaldoResumen { ruta: r.ruta.clone(), creado_en: r.creado_en, tipo: r.tipo, tamano_bytes: r.tamano_bytes }
}

fn lit(s: &str) -> (r: String)
    ensures
        r@ == s@,
{
    texto_de(caracteres(s).as_slice())
}

fn con_prefijo(prefijo: &str, resto: &str) -> (r: String)
    ensures
        r@ == prefijo@ + resto@,
{
    texto_de(unir(caracteres(prefijo).as_slice(), caracteres(resto).as_slice()).as_slice())
}

/// El nombre con que un aviso menciona el archivo de `ruta`: nunca lleva
/// `/`, y en una ruta sencilla es lo que sigue a la última `/`.
pub open spec fn nombre_en_aviso(ruta: Seq<char>, n: Seq<char>) -> bool {
    &&& !n.contains('/')
    &&& ruta_sencilla(ruta) ==> n == ultimo_tramo(ruta)
}

/// Recibir el listado: las filas sin validar y la primera seleccionada; un
/// error vacía la tabla y queda como aviso.
pub open spec fn listado_recibido(
    viejo: RespaldosState,
    nuevo: RespaldosState,
    resultado: Result<Vec<RespaldoResumen>, String>,
) -> bool {
    &&& nuevo.modo == viejo.modo
    &&& nuevo.fallo_automatico == viejo.fallo_automatico
    &&& nuevo.creando == viejo.creando
    &&& match resultado {
        Ok(items) => {
            &&& nuevo.filas@.len() == items@.len()
            &&& forall|i: int|
                0 <= i < items@.len() ==> #[trigger] nuevo.filas@[i] == (FilaRespaldo {
                    resumen: items@[i],
                    validacion: None,
                })
            &&& nuevo.seleccion == (if items@.len() > 0 {
                Some(0usize)
            } else {
                None
            })
            &&& nuevo.mensaje == viejo.mensaje
        },
        Err(e) => {
            &&& nuevo.filas@.len() == 0
            &&& nuevo.seleccion is None
            &&& nuevo.mensaje == Some(e)
        },
    }
}

/// Recibir el resultado de crear un respaldo: se libera la creación; si se
/// creó, va primero, queda seleccionado y se avisa con el nombre de su
/// archivo; si no, se avisa el error.
pub open spec fn creacion_recibida(
    viejo: RespaldosState,
    nuevo: RespaldosState,
    resultado: Result<RespaldoResumen, String>,
) -> bool {
    &&& !nuevo.creando
    &&& nuevo.modo == viejo.modo
    &&& nuevo.fallo_automatico == viejo.fallo_automatico
    &&& match resultado {
        Ok(r) => {
            &&& nuevo.filas@ == seq![FilaRespaldo { resumen: r, validacion: None }] + viejo.filas@
            &&& nuevo.seleccion == Some(0usize)
            &&& (nuevo.mensaje matches Some(m) && exists|n: Seq<char>|
                #[trigger] nombre_en_aviso(r.ruta@, n) && m@ == "✓ Respaldo creado — "@ + n)
        },
        Err(e) => {
            &&& nuevo.filas == viejo.filas
            &&& nuevo.seleccion == viejo.seleccion
            &&& (nuevo.mensaje matches Some(m) && m@ == "✕ "@ + e@)
        },
    }
}

/// Recibir el resultado de revalidar `ruta`: se anota en la primera fila
/// con esa ruta y se avisa con el nombre del archivo, o el error.
pub open spec fn validacion_recibida(
    viejo: RespaldosState,
    nuevo: RespaldosState,
    ruta: Seq<char>,
    resultado: Result<ResultadoValidacion, String>,
) -> bool {
    &&& nuevo.seleccion == viejo.seleccion
    &&& nuevo.modo == viejo.modo
    &&& nuevo.fallo_automatico == viejo.fallo_automatico
    &&& nuevo.creando == viejo.creando
    &&& match resultado {
        Ok(v) => {
            &&& revalidada(viejo.filas@, nuevo.filas@, ruta, v)
            &&& (nuevo.mensaje matches Some(m) && exists|n: Seq<char>|
                #[trigger] nombre_en_aviso(ruta, n) && m@ == "Revalidado — "@ + n)
        },
        Err(e) => {
            &&& nuevo.filas == viejo.filas
            &&& (nuevo.mensaje matches Some(m) && m@ == "✕ "@ + e@)
        },
    }
}

/// Recibir el resultado de exportar a `destino`: sólo cambia el aviso.
pub open spec fn exportacion_recibida(
    viejo: RespaldosState,
    nuevo: RespaldosState,
    resultado: Result<(), String>,
    destino: Seq<char>,
) -> bool {
    &&& nuevo == (RespaldosState { mensaje: nuevo.mensaje, ..viejo })
    &&& nuevo.mensaje matches Some(m) && m@ == (match resultado {
        Ok(()) => "✓ Exportado a "@ + destino,
        Err(e) => "✕ "@ + e@,
    })
}

impl RespaldosState {
    pub fn nuevo() -> (s: RespaldosState)
        ensures
            s.filas@.len() == 0,
            s.seleccion is None,
            s.modo == ModoRespaldos::Normal,
            s.mensaje is None,
            s.fallo_automatico is None,
            !s.creando,
    {
        RespaldosState {
            filas: Vec::new(),
            seleccion: None,
            modo: ModoRespaldos::Normal,
            mensaje: None,
            fallo_automatico: None,
            creando: false,
        }
    }

    pub fn handle_key(&mut self, k: Tecla) -> (a: AccionRespaldos)
        requires
            old(self).bien_formado(),
        ensures
            final(self).bien_formado(),
            tecla_respaldos(*old(self), *final(self), k, a),
    {
        match &self.modo {
            ModoRespaldos::Normal => self.normal(k),
            ModoRespaldos::Exportando { destino } => {
                let d = destino.clone();
                self.exportando(k, d)
            },
            ModoRespaldos::ConfirmandoRestauracion { ruta, .. } => {
                let r = ruta.clone();
                self.confirmando_restauracion(k, r)
            },
        }
    }

    fn ruta_seleccionada(&self) -> (r: Option<String>)
        ensures
            match r {
                Some(s) => self.ruta_elegida() == Some(s@),
                None => self.ruta_elegida() is None,
            },
    {
        match self.seleccion {
            Some(i) => if i < self.filas.len() {
                Some(self.filas[i].resumen.ruta.clone())
            } else {
                None
            },
            None => None,
        }
    }

    fn normal(&mut self, k: Tecla) -> (a: AccionRespaldos)
        requires
            old(self).bien_formado(),
            old(self).modo == ModoRespaldos::Normal,
        ensures
            final(self).bien_formado(),
            tecla_listado(*old(self), *final(self), k, a),
    {
        match k.codigo {
            Codigo::Char('c') | Codigo::Char('C') | Codigo::Char('l') | Codigo::Char('L')
            | Codigo::Char('v') | Codigo::Char('V') | Codigo::Char('e') | Codigo::Char('E')
            | Codigo::Char('r') | Codigo::Char('R') | Codigo::Esc => {
                self.mensaje = None;
            },
            _ => {},
        }
        match k.codigo {
            Codigo::Up => {
                self.seleccion = mover_seleccion(self.seleccion, -1, self.filas.len());
                AccionRespaldos::Ninguna
            },
            Codigo::Down => {
                self.seleccion = mover_seleccion(self.seleccion, 1, self.filas.len());
                AccionRespaldos::Ninguna
            },
            Codigo::Char('c') | Codigo::Char('C') => {
                if !self.creando {
                    AccionRespaldos::Crear
                } else {
                    AccionRespaldos::Ninguna
                }
            },
            Codigo::Char('l') | Codigo::Char('L') => AccionRespaldos::Cargar,
            Codigo::Char('v') | Codigo::Char('V') => match self.ruta_seleccionada() {
                Some(ruta) => AccionRespaldos::Revalidar { ruta },
                None => AccionRespaldos::Ninguna,
            },
            Codigo::Char('e') | Codigo::Char('E') => {
                if self.ruta_seleccionada().is_some() {
                    self.modo = ModoRespaldos::Exportando {
                        destino: TextInput::vacio().with_max_chars(240),
                    };
                }
                AccionRespaldos::Ninguna
            },
            Codigo::Char('r') | Codigo::Char('R') => {
                match self.seleccion {
                    Some(i) => {
                        let fila = &self.filas[i];
                        let ruta = fila.resumen.ruta.clone();
                        let fecha = fecha_hora_texto(fila.resumen.creado_en);
                        let tipo = etiqueta_tipo(fila.resumen.tipo);
                        self.modo = ModoRespaldos::ConfirmandoRestauracion { ruta, fecha, tipo };
                    },
                    None => {},
                }
                AccionRespaldos::Ninguna
            },
            Codigo::Esc => AccionRespaldos::Volver,
            _ => AccionRespaldos::Ninguna,
        }
    }

    fn confirmando_restauracion(&mut self, k: Tecla, ruta: String) -> (a: AccionRespaldos)
        requires
            old(self).bien_formado(),
            old(self).modo matches ModoRespaldos::ConfirmandoRestauracion { ruta: r, .. } && r
                == ruta,
        ensures
            final(self).bien_formado(),
            tecla_restaurar(*old(self), *final(self), ruta, k, a),
    {
        match k.codigo {
            Codigo::Enter => {
                self.modo = ModoRespaldos::Normal;
                AccionRespaldos::Restaurar { ruta }
            },
            Codigo::Esc => {
                self.modo = ModoRespaldos::Normal;
                AccionRespaldos::Ninguna
            },
            _ => AccionRespaldos::Ninguna,
        }
    }

    fn exportando(&mut self, k: Tecla, destino: TextInput) -> (a: AccionRespaldos)
        requires
            old(self).bien_formado(),
            old(self).modo matches ModoRespaldos::Exportando { destino: d } && d@ == destino@,
        ensures
            final(self).bien_formado(),
            tecla_exportando(*old(self), *final(self), destino, k, a),
    {
        match k.codigo {
            Codigo::Esc => {
                self.modo = ModoRespaldos::Normal;
                AccionRespaldos::Ninguna
            },
            Codigo::Enter => {
                let d = recortar(destino.value());
                if d.len() == 0 {
                    return AccionRespaldos::Ninguna;
                }
                let ruta = self.ruta_seleccionada();
                self.modo = ModoRespaldos::Normal;
                match ruta {
                    Some(ruta) => AccionRespaldos::Exportar { ruta, destino: texto_de(d.as_slice()) },
                    None => AccionRespaldos::Ninguna,
                }
            },
            _ => {
                let mut d = destino;
                d.handle_key(k);
                self.modo = ModoRespaldos::Exportando { destino: d };
                AccionRespaldos::Ninguna
            },
        }
    }

    /// Recibe el listado: selecciona la primera fila; un error vacía la
    /// tabla y queda como aviso.
    pub fn completar_listado(&mut self, resultado: Result<Vec<RespaldoResumen>, String>)
        requires
            old(self).bien_formado(),
        ensures
            final(self).bien_formado(),
            listado_recibido(*old(self), *final(self), resultado),
    {
        match resultado {
            Ok(items) => {
                let mut filas: Vec<FilaRespaldo> = Vec::new();
                let mut k: usize = 0;
                while k < items.len()
                    invariant
                        k <= items.len(),
                        filas@.len() == k,
                        forall|i: int|
                            0 <= i < k ==> #[trigger] filas@[i] == (FilaRespaldo {
                                resumen: items@[i],
                                validacion: None,
                            }),
                    decreases items.len() - k,
                {
                    filas.push(FilaRespaldo { resumen: copiar_resumen(&items[k]), validacion: None });
                    k += 1;
                }
                self.seleccion = if filas.len() > 0 {
                    Some(0)
                } else {
                    None
                };
                self.filas = filas;
            },
            Err(e) => {
                self.filas = Vec::new();
                self.seleccion = None;
                self.mensaje = Some(e);
            },
        }
    }

    /// Recibe el resultado de crear un respaldo: libera la creación; si se
    /// creó, lo agrega al principio, lo selecciona y avisa con el nombre del
    /// archivo.
    pub fn completar_creacion(&mut self, resultado: Result<RespaldoResumen, String>)
        requires
            old(self).bien_formado(),
        ensures
            final(self).bien_formado(),
            creacion_recibida(*old(self), *final(self), resultado),
    {
        self.creando = false;
        match resultado {
            Ok(r) => {
                let nombre = nombre_archivo(r.ruta.as_str());
                assert(nombre_en_aviso(r.ruta@, nombre@));
                self.mensaje = Some(con_prefijo("✓ Respaldo creado — ", nombre.as_str()));
                let ghost fila = FilaRespaldo { resumen: r, validacion: None };
                self.filas.insert(0, FilaRespaldo { resumen: r, validacion: None });
                assert(self.filas@ =~= seq![fila] + old(self).filas@);
                self.seleccion = Some(0);
            },
            Err(e) => {
                self.mensaje = Some(con_prefijo("✕ ", e.as_str()));
            },
        }
    }

    /// Recibe el resultado de revalidar `ruta`: lo anota en la primera fila
    /// con esa ruta y avisa.
    pub fn completar_validacion(&mut self, ruta: &str, resultado: Result<ResultadoValidacion, String>)
        requires
            old(self).bien_formado(),
        ensures
            final(self).bien_formado(),
            validacion_recibida(*old(self), *final(self), ruta@, resultado),
    {
        match resultado {
            Ok(v) => {
                let mut k: usize = 0;
                while k < self.filas.len()
                    invariant
                        k <= self.filas.len(),
                        self.filas == old(self).filas,
                        forall|j: int| 0 <= j < k ==> (#[trigger] self.filas@[j]).resumen.ruta@ != ruta@,
                    ensures
                        k <= self.filas.len(),
                        k < self.filas.len() ==> quizas_misma_ruta(self.filas@[k as int].resumen.ruta@, ruta@),
                    decreases self.filas.len() - k,
                {
                    if mismas_rutas(self.filas[k].resumen.ruta.as_str(), ruta) {
                        break;
                    }
                    k += 1;
                }
                if k < self.filas.len() {
                    let fila = FilaRespaldo {
                        resumen: copiar_resumen(&self.filas[k].resumen),
                        validacion: Some(v),
                    };
                    self.filas.set(k, fila);
                    assert(self.filas@ == old(self).filas@.update(
                        k as int,
                        FilaRespaldo { validacion: Some(v), ..old(self).filas@[k as int] },
                    ));
                    assert(old(self).filas@[k as int] == old(self).filas@[k as int]);
                }
                let nombre = nombre_archivo(ruta);
                assert(nombre_en_aviso(ruta@, nombre@));
                self.mensaje = Some(con_prefijo("Revalidado — ", nombre.as_str()));
            },
            Err(e) => {
                self.mensaje = Some(con_prefijo("✕ ", e.as_str()));
            },
        }
    }

    /// Recibe el resultado de exportar a `destino` y avisa.
    pub fn completar_exportacion(&mut self, resultado: Result<(), String>, destino: &str)
        ensures
            exportacion_recibida(*old(self), *final(self), resultado, destino@),
    {
        match resultado {
            Ok(()) => {
                self.mensaje = Some(con_prefijo("✓ Exportado a ", destino));
            },
            Err(e) => {
                self.mensaje = Some(con_prefijo("✕ ", e.as_str()));
            },
        }
    }
}

impl Default for ConfiguracionState {
    fn default() -> (s: ConfiguracionState)
        ensures
            s.respaldos.filas@.len() == 0,
            s.respaldos.seleccion is None,
            s.respaldos.modo == ModoRespaldos::Normal,
            s.respaldos.mensaje is None,
            s.respaldos.fallo_automatico is None,
            !s.respaldos.creando,
            !s.ayuda_expandida,
    {
        ConfiguracionState { respaldos: RespaldosState::nuevo(), ayuda_expandida: false }
    }
}

impl ConfiguracionState {
    pub open spec fn bien_formado(&self) -> bool {
        self.respaldos.bien_formado()
    }

    /// Entra a la pantalla: todo vuelve al inicio salvo el aviso del
    /// respaldo automático, y se pide el listado.
    pub fn reiniciar(&mut self) -> (a: AccionAjustes)
        ensures
            a == AccionAjustes::Respaldos(AccionRespaldos::Cargar),
            final(self).respaldos.fallo_automatico == old(self).respaldos.fallo_automatico,
            final(self).respaldos.filas@.len() == 0,
            final(self).respaldos.seleccion is None,
            final(self).respaldos.modo == ModoRespaldos::Normal,
            final(self).respaldos.mensaje is None,
            !final(self).respaldos.creando,
            !final(self).ayuda_expandida,
    {
        let fallo = self.respaldos.fallo_automatico.take();
        *self = ConfiguracionState::default();
        self.respaldos.fallo_automatico = fallo;
        AccionAjustes::Respaldos(AccionRespaldos::Cargar)
    }

    /// F1 alterna la ayuda; el resto va a la pantalla de respaldos, y su
    /// "volver" sale de los ajustes.
    pub fn handle_key(&mut self, k: Tecla) -> (a: AccionAjustes)
        requires
            old(self).bien_formado(),
        ensures
            final(self).bien_formado(),
            es_ayuda(k) ==> a == AccionAjustes::Ninguna && final(self).ayuda_expandida
                == !old(self).ayuda_expandida && final(self).respaldos.filas
                == old(self).respaldos.filas && final(self).respaldos.modo
                == old(self).respaldos.modo,
            !es_ayuda(k) ==> exists|r: AccionRespaldos|
                tecla_respaldos(old(self).respaldos, final(self).respaldos, k, r) && a == (if r
                    == AccionRespaldos::Volver {
                    AccionAjustes::Volver
                } else {
                    AccionAjustes::Respaldos(r)
                }),
    {
        if comando_estandar(k).is_some() {
            self.ayuda_expandida = !self.ayuda_expandida;
            return AccionAjustes::Ninguna;
        }
        let r = self.respaldos.handle_key(k);
        match r {
            AccionRespaldos::Volver => AccionAjustes::Volver,
            _ => AccionAjustes::Respaldos(r),
        }
    }

    pub fn completar_listado(&mut self, resultado: Result<Vec<RespaldoResumen>, String>)
        requires
            old(self).bien_formado(),
        ensures
            final(self).bien_formado(),
            listado_recibido(old(self).respaldos, final(self).respaldos, resultado),
            final(self).ayuda_expandida == old(self).ayuda_expandida,
    {
        self.respaldos.completar_listado(resultado);
    }

    /// Marca que hay un respaldo creándose.
    pub fn marcar_creando_respaldo(&mut self)
        ensures
            final(self).respaldos.creando,
            final(self).respaldos.filas == old(self).respaldos.filas,
            final(self).respaldos.seleccion == old(self).respaldos.seleccion,
            final(self).respaldos.modo == old(self).respaldos.modo,
            final(self).respaldos.fallo_automatico == old(self).respaldos.fallo_automatico,
    {
        self.respaldos.creando = true;
    }

    pub fn creando_respaldo(&self) -> (r: bool)
        ensures
            r == self.respaldos.creando,
    {
        self.respaldos.creando
    }

    pub fn completar_creacion(&mut self, resultado: Result<RespaldoResumen, String>)
        requires
            old(self).bien_formado(),
        ensures
            final(self).bien_formado(),
            creacion_recibida(old(self).respaldos, final(self).respaldos, resultado),
            final(self).ayuda_expandida == old(self).ayuda_expandida,
    {
        self.respaldos.completar_creacion(resultado);
    }

    pub fn completar_validacion(&mut self, ruta: &str, resultado: Result<ResultadoValidacion, String>)
        requires
            old(self).bien_formado(),
        ensures
            final(self).bien_formado(),
            validacion_recibida(old(self).respaldos, final(self).respaldos, ruta@, resultado),
            final(self).ayuda_expandida == old(self).ayuda_expandida,
    {
        self.respaldos.completar_validacion(ruta, resultado);
    }

    pub fn completar_exportacion(&mut self, resultado: Result<(), String>, destino: &str)
        ensures
            exportacion_recibida(old(self).respaldos, final(self).respaldos, resultado, destino@),
            final(self).ayuda_expandida == old(self).ayuda_expandida,
    {
        self.respaldos.completar_exportacion(resultado, destino);
    }

    /// Resultado de la revisión periódica del respaldo automático: `None`
    /// cuando el último salió bien o aún no hacía falta.
    pub fn actualizar_fallo_respaldo_automatico(&mut self, fallo: Option<String>)
        ensures
            final(self).respaldos.fallo_automatico == fallo,
            final(self).respaldos.filas == old(self).respaldos.filas,
            final(self).respaldos.seleccion == old(self).respaldos.seleccion,
            final(self).respaldos.modo == old(self).respaldos.modo,
            final(self).respaldos.mensaje == old(self).respaldos.mensaje,
            final(self).respaldos.creando == old(self).respaldos.creando,
    {
        self.respaldos.fallo_automatico = fallo;
    }
}

} // verus!
