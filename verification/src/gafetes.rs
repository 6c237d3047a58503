//! Catálogo de gafetes: búsqueda (número o `estado:`), alta individual o
//! por rango, baja, pérdida con deudor, resolución de la deuda e
//! historial de incidentes.
use crate::activos::{es_exito, igualdad, mensaje_de_exito};
use crate::consulta::{es_primero, lema_ninguno, lema_primero, primero};
use crate::modelos::{
    ContratistaResumen, EstadoGafete, FiltroGafetes, GafeteResumen, Igualdad, IncidenteGafete,
    MotivoResolucionGafete,
};
use crate::texto::{
    caracteres, copiar_rango, decimal, decimal_dos, escribir_decimal, escribir_decimal_dos, es_literal,
    minusculas, parsear_entero, entero, recortar, recorte, texto_de, unir,
};
use crate::ui::{
    Codigo, Debounce, Tecla, TextInput, VistaCampo, comando_estandar, editar, es_ayuda, movida,
    mover_seleccion, reloj_ms, vencio,
};
use vstd::prelude::*;

verus! {

/// Espera (ms) tras la última tecla antes de buscar.
pub const DURACION_DEBOUNCE_MS: u64 = 120;

/// Máximo de caracteres de un número de gafete en el alta.
pub const DIGITOS_ALTA: usize = 6;

/// Mayor diferencia entre "hasta" y "desde" en un alta por rango.
pub const RANGO_MAXIMO: i64 = 200;

#[derive(Clone, Copy, Debug, PartialEq, Eq, Structural)]
pub enum ModoFormularioAlta {
    Individual,
    Rango,
}

#[derive(Clone, Copy, Debug, PartialEq, Eq, Structural)]
pub enum CampoAlta {
    Numero,
    Desde,
    Hasta,
}

#[derive(Clone, Debug, PartialEq, Eq)]
pub struct FormularioAlta {
    pub modo: ModoFormularioAlta,
    pub campo: CampoAlta,
    pub numero: TextInput,
    pub desde: TextInput,
    pub hasta: TextInput,
    pub error: Option<String>,
}

/// Búsqueda del contratista al que se carga un gafete perdido.
#[derive(Clone, Debug, PartialEq, Eq)]
pub struct BuscarDeudor {
    pub gafete_id: i64,
    pub numero: i64,
    pub texto: TextInput,
    pub resultados: Vec<ContratistaResumen>,
    pub seleccion: Option<usize>,
    pub debounce: Debounce,
}

#[derive(Clone, Debug, PartialEq, Eq)]
pub enum ModoGafetes {
    Normal,
    Busqueda { texto: TextInput },
    Alta(FormularioAlta),
    MarcarPerdidoBuscarDeudor(BuscarDeudor),
    ConfirmacionResolver { gafete_id: i64, numero: i64, motivo: MotivoResolucionGafete },
    ConfirmacionBaja { gafete_id: i64, numero: i64 },
    /// Historial de incidentes de un gafete: se abre vacío y la aplicación
    /// lo llena.
    Historial { numero: i64, incidentes: Vec<IncidenteGafete> },
}

#[derive(Clone, Debug, PartialEq, Eq)]
pub enum AccionGafetes {
    Ninguna,
    Volver,
    Buscar { filtro: FiltroGafetes, seleccionar_id: Option<i64> },
    CrearUno { numero: i64 },
    CrearRango { desde: i64, hasta: i64 },
    DarDeBaja { id: i64, numero: i64 },
    BuscarDeudor { texto: Option<String> },
    MarcarPerdido { id: i64, numero: i64, contratista_id: i64 },
    Resolver { id: i64, numero: i64, motivo: MotivoResolucionGafete },
    VerHistorial { id: i64, numero: i64 },
}

#[derive(Debug)]
pub struct GafetesState {
    pub gafetes: Vec<GafeteResumen>,
    pub seleccion: Option<usize>,
    pub modo: ModoGafetes,
    pub filtro: String,
    pub mensaje: Option<String>,
    pub ayuda_expandida: bool,
    pub busqueda_debounce: Debounce,
}

/// Un alta que pasó la validación.
#[derive(Clone, Copy, Debug, PartialEq, Eq, Structural)]
pub enum AltaValida {
    Individual(i64),
    Rango(i64, i64),
}

/// El filtro sin nada.
pub open spec fn sin_filtro() -> FiltroGafetes {
    FiltroGafetes { numero: None, estado: None }
}

/// El filtro que corresponde al texto de búsqueda: un número exacto, o
/// `estado:<valor>` (con `-` delante para excluirlo); cualquier otra cosa
/// no filtra.
pub open spec fn filtro_interpretado(t: Seq<char>) -> FiltroGafetes {
    let s = recorte(t);
    if s.len() == 0 {
        sin_filtro()
    } else if entero(s) is Some {
        FiltroGafetes { numero: entero(s), estado: None }
    } else {
        let negado = s[0] == '-';
        let resto = if negado {
            s.drop_first()
        } else {
            s
        };
        if resto.len() >= 7 && resto.take(7) == "estado:"@ {
            FiltroGafetes {
                numero: None,
                estado: match crate::modelos::estado_gafete_de_palabra(minusculas(resto.skip(7))) {
                    Some(e) => Some(igualdad(negado, e)),
                    None => None,
                },
            }
        } else {
            sin_filtro()
        }
    }
}

/// Valida el alta según el modo del formulario.
pub open spec fn alta_de(
    modo: ModoFormularioAlta,
    numero: Seq<char>,
    desde: Seq<char>,
    hasta: Seq<char>,
) -> Result<AltaValida, Seq<char>> {
    match modo {
        ModoFormularioAlta::Individual => match entero(recorte(numero)) {
            None => Err("Ingrese un número de gafete válido"@),
            Some(n) => if n <= 0 {
                Err("El número debe ser mayor a cero"@)
            } else {
                Ok(AltaValida::Individual(n))
            },
        },
        ModoFormularioAlta::Rango => match entero(recorte(desde)) {
            None => Err("Ingrese un \"desde\" válido"@),
            Some(d) => match entero(recorte(hasta)) {
                None => Err("Ingrese un \"hasta\" válido"@),
                Some(h) => if d <= 0 || h < d {
                    Err("El rango no es válido"@)
                } else if h - d > RANGO_MAXIMO {
                    Err("El rango es demasiado grande (máximo 200 a la vez)"@)
                } else {
                    Ok(AltaValida::Rango(d, h))
                },
            },
        },
    }
}

/// Un campo del alta vacío, con su máximo.
pub open spec fn campo_alta_vacio() -> VistaCampo {
    VistaCampo { valor: Seq::empty(), cursor: 0, maximo: Some(DIGITOS_ALTA) }
}

/// Posición del primer gafete con ese id.
pub open spec fn posicion_gafete(g: Seq<GafeteResumen>, id: i64) -> Option<int> {
    primero(g.len() as int, |i: int| g[i].id == id)
}

/// La búsqueda que corresponde al filtro escrito.
pub open spec fn es_buscar(a: AccionGafetes, filtro: Seq<char>, sel: Option<i64>) -> bool {
    a == AccionGafetes::Buscar { filtro: filtro_interpretado(filtro), seleccionar_id: sel }
}

/// El texto a buscar como deudor: recortado, o nada si queda vacío.
pub open spec fn texto_deudor(t: Seq<char>, r: Option<String>) -> bool {
    if recorte(t).len() == 0 {
        r is None
    } else {
        r matches Some(s) && s@ == recorte(t)
    }
}

impl GafetesState {
    pub open spec fn bien_formado(&self) -> bool {
        self.seleccion matches Some(i) ==> i < self.gafetes.len()
    }

    pub open spec fn elegido(&self) -> Option<GafeteResumen> {
        match self.seleccion {
            Some(i) => Some(self.gafetes@[i as int]),
            None => None,
        }
    }
}

/// Lo que no cambia fuera del modo y el mensaje.
pub open spec fn mismos_datos(viejo: GafetesState, nuevo: GafetesState) -> bool {
    &&& nuevo.gafetes == viejo.gafetes
    &&& nuevo.seleccion == viejo.seleccion
    &&& nuevo.filtro == viejo.filtro
    &&& nuevo.busqueda_debounce == viejo.busqueda_debounce
}

/// Teclas que borran el aviso en la lista.
pub open spec fn borra_aviso(k: Tecla) -> bool {
    ||| k.codigo == Codigo::Esc
    ||| k.codigo == Codigo::Char('/')
    ||| k.codigo == Codigo::Char('n') || k.codigo == Codigo::Char('N')
    ||| k.codigo == Codigo::Char('b') || k.codigo == Codigo::Char('B')
    ||| k.codigo == Codigo::Char('p') || k.codigo == Codigo::Char('P')
    ||| k.codigo == Codigo::Char('r') || k.codigo == Codigo::Char('R')
    ||| k.codigo == Codigo::Char('h') || k.codigo == Codigo::Char('H')
}

pub open spec fn letra(k: Tecla, c: char, d: char) -> bool {
    k.codigo == Codigo::Char(c) || k.codigo == Codigo::Char(d)
}

/// Lo que hace una tecla en la lista.
pub open spec fn tecla_lista(viejo: GafetesState, nuevo: GafetesState, k: Tecla, a: AccionGafetes) -> bool {
    &&& nuevo.gafetes == viejo.gafetes
    &&& nuevo.busqueda_debounce == viejo.busqueda_debounce
    &&& nuevo.mensaje == (if borra_aviso(k) {
        None
    } else {
        viejo.mensaje
    })
    &&& if k.codigo == Codigo::Up || k.codigo == Codigo::Down {
        &&& nuevo.seleccion == movida(
            viejo.seleccion,
            if k.codigo == Codigo::Up {
                -1
            } else {
                1
            },
            viejo.gafetes@.len(),
        )
        &&& nuevo.modo == viejo.modo
        &&& nuevo.filtro == viejo.filtro
        &&& a == AccionGafetes::Ninguna
    } else if k.codigo == Codigo::Esc {
        if viejo.filtro@.len() > 0 {
            &&& nuevo.filtro@.len() == 0
            &&& nuevo.seleccion is None
            &&& nuevo.modo == viejo.modo
            &&& es_buscar(a, Seq::empty(), None)
        } else {
            &&& a == AccionGafetes::Volver
            &&& nuevo.filtro == viejo.filtro
            &&& nuevo.seleccion == viejo.seleccion
            &&& nuevo.modo == viejo.modo
        }
    } else {
        &&& nuevo.filtro == viejo.filtro
        &&& nuevo.seleccion == viejo.seleccion
        &&& if letra(k, 'h', 'H') {
            match viejo.elegido() {
                Some(g) => a == (AccionGafetes::VerHistorial { id: g.id, numero: g.numero })
                    && (nuevo.modo matches ModoGafetes::Historial { numero, incidentes } && numero
                    == g.numero && incidentes@.len() == 0),
                None => a == AccionGafetes::Ninguna && nuevo.modo == viejo.modo,
            }
        } else {
            &&& a == AccionGafetes::Ninguna
            &&& if letra(k, 'n', 'N') {
                nuevo.modo matches ModoGafetes::Alta(f) && f.modo == ModoFormularioAlta::Individual
                    && f.campo == CampoAlta::Numero && f.numero@ == campo_alta_vacio() && f.desde@
                    == campo_alta_vacio() && f.hasta@ == campo_alta_vacio() && f.error is None
            } else if letra(k, 'b', 'B') {
                match viejo.elegido() {
                    Some(g) => if g.estado == EstadoGafete::Disponible {
                        nuevo.modo == (ModoGafetes::ConfirmacionBaja {
                            gafete_id: g.id,
                            numero: g.numero,
                        })
                    } else {
                        nuevo.modo == viejo.modo
                    },
                    None => nuevo.modo == viejo.modo,
                }
            } else if letra(k, 'p', 'P') {
                match viejo.elegido() {
                    Some(g) => if g.estado == EstadoGafete::Disponible {
                        nuevo.modo matches ModoGafetes::MarcarPerdidoBuscarDeudor(b) && b.gafete_id
                            == g.id && b.numero == g.numero && b.texto@.valor.len() == 0
                            && b.texto@.cursor == 0 && b.texto@.maximo is None
                            && b.resultados@.len() == 0 && b.seleccion is None
                            && b.debounce.pendiente is None
                    } else {
                        nuevo.modo == viejo.modo
                    },
                    None => nuevo.modo == viejo.modo,
                }
            } else if letra(k, 'r', 'R') {
                match viejo.elegido() {
                    Some(g) => if g.estado == EstadoGafete::Perdido {
                        nuevo.modo == (ModoGafetes::ConfirmacionResolver {
                            gafete_id: g.id,
                            numero: g.numero,
                            motivo: MotivoResolucionGafete::Pagado,
                        })
                    } else {
                        nuevo.modo == viejo.modo
                    },
                    None => nuevo.modo == viejo.modo,
                }
            } else if k.codigo == Codigo::Char('/') {
                nuevo.modo matches ModoGafetes::Busqueda { texto } && texto@ == (VistaCampo {
                    valor: viejo.filtro@,
                    cursor: viejo.filtro@.len() as int,
                    maximo: None,
                })
            } else {
                nuevo.modo == viejo.modo
            }
        }
    }
}

/// Lo que hace una tecla mientras se escribe la búsqueda (`texto`).
pub open spec fn tecla_busqueda(
    viejo: GafetesState,
    nuevo: GafetesState,
    texto: TextInput,
    k: Tecla,
    a: AccionGafetes,
    ahora: u64,
) -> bool {
    &&& nuevo.gafetes == viejo.gafetes
    &&& nuevo.mensaje == viejo.mensaje
    &&& if k.codigo == Codigo::Esc {
        &&& nuevo.filtro@.len() == 0
        &&& nuevo.modo == ModoGafetes::Normal
        &&& nuevo.seleccion == viejo.seleccion
        &&& nuevo.busqueda_debounce == viejo.busqueda_debounce
        &&& es_buscar(a, Seq::empty(), None)
    } else if k.codigo == Codigo::Enter {
        &&& nuevo.filtro == viejo.filtro
        &&& nuevo.modo == ModoGafetes::Normal
        &&& nuevo.seleccion == viejo.seleccion
        &&& nuevo.busqueda_debounce == viejo.busqueda_debounce
        &&& a == AccionGafetes::Ninguna
    } else if k.codigo == Codigo::Up || k.codigo == Codigo::Down {
        &&& nuevo.filtro == viejo.filtro
        &&& (nuevo.modo matches ModoGafetes::Busqueda { texto: t } && t@ == texto@)
        &&& nuevo.busqueda_debounce == viejo.busqueda_debounce
        &&& nuevo.seleccion == movida(
            viejo.seleccion,
            if k.codigo == Codigo::Up {
                -1
            } else {
                1
            },
            viejo.gafetes@.len(),
        )
        &&& a == AccionGafetes::Ninguna
    } else {
        &&& (nuevo.modo matches ModoGafetes::Busqueda { texto: t } && t@ == editar(texto@, k))
        &&& nuevo.filtro@ == editar(texto@, k).valor
        &&& nuevo.seleccion == viejo.seleccion
        &&& a == AccionGafetes::Ninguna
        &&& (editar(texto@, k).valor != texto@.valor ==> nuevo.busqueda_debounce.pendiente == Some(ahora))
        &&& (editar(texto@, k).valor == texto@.valor ==> nuevo.busqueda_debounce
            == viejo.busqueda_debounce)
    }
}

/// El formulario tras cambiar entre alta individual y por rango.
pub open spec fn alternado(f: FormularioAlta, g: FormularioAlta) -> bool {
    &&& g.modo == (match f.modo {
        ModoFormularioAlta::Individual => ModoFormularioAlta::Rango,
        ModoFormularioAlta::Rango => ModoFormularioAlta::Individual,
    })
    &&& g.campo == (match f.modo {
        ModoFormularioAlta::Individual => CampoAlta::Desde,
        ModoFormularioAlta::Rango => CampoAlta::Numero,
    })
    &&& g.error is None
    &&& g.numero@ == f.numero@ && g.desde@ == f.desde@ && g.hasta@ == f.hasta@
}

/// El formulario tras escribir en el campo activo.
pub open spec fn alta_editada(f: FormularioAlta, g: FormularioAlta, k: Tecla) -> bool {
    let antes = match f.campo {
        CampoAlta::Numero => f.numero@,
        CampoAlta::Desde => f.desde@,
        CampoAlta::Hasta => f.hasta@,
    };
    &&& g.modo == f.modo
    &&& g.campo == f.campo
    &&& g.numero@ == (if f.campo == CampoAlta::Numero {
        editar(f.numero@, k)
    } else {
        f.numero@
    })
    &&& g.desde@ == (if f.campo == CampoAlta::Desde {
        editar(f.desde@, k)
    } else {
        f.desde@
    })
    &&& g.hasta@ == (if f.campo == CampoAlta::Hasta {
        editar(f.hasta@, k)
    } else {
        f.hasta@
    })
    &&& g.error == (if editar(antes, k).valor != antes.valor {
        None
    } else {
        f.error
    })
}

/// Lo que hace una tecla en el formulario de alta `f`.
pub open spec fn tecla_alta(
    viejo: GafetesState,
    nuevo: GafetesState,
    f: FormularioAlta,
    k: Tecla,
    a: AccionGafetes,
) -> bool {
    &&& mismos_datos(viejo, nuevo)
    &&& nuevo.mensaje == viejo.mensaje
    &&& if k.codigo == Codigo::Esc {
        nuevo.modo == ModoGafetes::Normal && a == AccionGafetes::Ninguna
    } else if k.codigo == Codigo::Tab {
        a == AccionGafetes::Ninguna && (nuevo.modo matches ModoGafetes::Alta(g) && alternado(f, g))
    } else if (k.codigo == Codigo::Down || k.codigo == Codigo::Up) && f.modo
        == ModoFormularioAlta::Rango {
        &&& a == AccionGafetes::Ninguna
        &&& (nuevo.modo matches ModoGafetes::Alta(g) && g.modo == f.modo && g.campo == (if f.campo
            == CampoAlta::Desde {
            CampoAlta::Hasta
        } else {
            CampoAlta::Desde
        }) && g.error == f.error && g.numero@ == f.numero@ && g.desde@ == f.desde@ && g.hasta@
            == f.hasta@)
    } else if k.codigo == Codigo::Enter {
        match alta_de(f.modo, f.numero@.valor, f.desde@.valor, f.hasta@.valor) {
            Ok(AltaValida::Individual(n)) => a == AccionGafetes::CrearUno { numero: n }
                && nuevo.modo == ModoGafetes::Alta(f),
            Ok(AltaValida::Rango(d, h)) => a == AccionGafetes::CrearRango { desde: d, hasta: h }
                && nuevo.modo == ModoGafetes::Alta(f),
            Err(m) => a == AccionGafetes::Ninguna && (nuevo.modo matches ModoGafetes::Alta(g)
                && g.modo == f.modo && g.campo == f.campo && g.numero@ == f.numero@ && g.desde@
                == f.desde@ && g.hasta@ == f.hasta@ && (g.error matches Some(e) && e@ == m)),
        }
    } else {
        a == AccionGafetes::Ninguna && (nuevo.modo matches ModoGafetes::Alta(g) && alta_editada(
            f,
            g,
            k,
        ))
    }
}

/// Lo que hace una tecla al buscar el deudor (`b`).
pub open spec fn tecla_deudor(
    viejo: GafetesState,
    nuevo: GafetesState,
    b: BuscarDeudor,
    k: Tecla,
    a: AccionGafetes,
    ahora: u64,
) -> bool {
    &&& mismos_datos(viejo, nuevo)
    &&& nuevo.mensaje == viejo.mensaje
    &&& if k.codigo == Codigo::Esc {
        nuevo.modo == ModoGafetes::Normal && a == AccionGafetes::Ninguna
    } else if k.codigo == Codigo::Enter && (b.seleccion matches Some(i) && i
        < b.resultados@.len()) {
        a == (AccionGafetes::MarcarPerdido {
            id: b.gafete_id,
            numero: b.numero,
            contratista_id: b.resultados@[b.seleccion->0 as int].id,
        }) && nuevo.modo == ModoGafetes::MarcarPerdidoBuscarDeudor(b)
    } else {
        &&& a == AccionGafetes::Ninguna
        &&& nuevo.modo matches ModoGafetes::MarcarPerdidoBuscarDeudor(c)
        &&& c.gafete_id == b.gafete_id && c.numero == b.numero && c.resultados == b.resultados
        &&& if k.codigo == Codigo::Up {
            &&& c.seleccion == (match b.seleccion {
                Some(s) => Some(
                    if s > 0 {
                        (s - 1) as usize
                    } else {
                        0usize
                    },
                ),
                None => None,
            })
            &&& c.texto@ == b.texto@ && c.debounce == b.debounce
        } else if k.codigo == Codigo::Down {
            &&& c.seleccion == (match b.seleccion {
                Some(s) => Some(
                    if s + 1 < b.resultados@.len() {
                        (s + 1) as usize
                    } else if b.resultados@.len() > 0 {
                        (b.resultados@.len() - 1) as usize
                    } else {
                        0usize
                    },
                ),
                None => None,
            })
            &&& c.texto@ == b.texto@ && c.debounce == b.debounce
        } else if k.codigo == Codigo::Enter {
            c.seleccion == b.seleccion && c.texto@ == b.texto@ && c.debounce == b.debounce
        } else {
            &&& c.seleccion == b.seleccion
            &&& c.texto@ == editar(b.texto@, k)
            &&& (editar(b.texto@, k).valor != b.texto@.valor ==> c.debounce.pendiente == Some(ahora))
            &&& (editar(b.texto@, k).valor == b.texto@.valor ==> c.debounce == b.debounce)
        }
    }
}

/// Lo que hace una tecla al confirmar la resolución de la deuda del gafete
/// `id` (con el motivo elegido `motivo`).
pub open spec fn tecla_resolver(
    viejo: GafetesState,
    nuevo: GafetesState,
    id: i64,
    motivo: MotivoResolucionGafete,
    k: Tecla,
    a: AccionGafetes,
) -> bool {
    &&& mismos_datos(viejo, nuevo)
    &&& nuevo.mensaje == viejo.mensaje
    &&& match posicion_gafete(viejo.gafetes@, id) {
        None => nuevo.modo == ModoGafetes::Normal && a == AccionGafetes::Ninguna,
        Some(p) => {
            let numero = viejo.gafetes@[p].numero;
            if k.codigo == Codigo::Char('1') || k.codigo == Codigo::Char('2') {
                a == AccionGafetes::Ninguna && nuevo.modo == (ModoGafetes::ConfirmacionResolver {
                    gafete_id: id,
                    numero,
                    motivo: if k.codigo == Codigo::Char('1') {
                        MotivoResolucionGafete::Pagado
                    } else {
                        MotivoResolucionGafete::Aparecido
                    },
                })
            } else if k.codigo == Codigo::Enter {
                a == (AccionGafetes::Resolver { id, numero, motivo }) && nuevo.modo == viejo.modo
            } else if k.codigo == Codigo::Esc {
                a == AccionGafetes::Ninguna && nuevo.modo == ModoGafetes::Normal
            } else {
                a == AccionGafetes::Ninguna && nuevo.modo == viejo.modo
            }
        },
    }
}

fn lit(s: &str) -> (r: String)
    ensures
        r@ == s@,
{
    texto_de(caracteres(s).as_slice())
}

fn unir3(a: &[char], b: &[char], c: &[char]) -> (r: Vec<char>)
    ensures
        r@ == a@ + b@ + c@,
{
    let x = unir(a, b);
    unir(x.as_slice(), c)
}

/// `"<antes><numero:02><despues>"`.
fn con_numero(antes: &str, numero: i64, despues: &str) -> (r: String)
    ensures
        r@ == antes@ + decimal_dos(numero as int) + despues@,
{
    let v = unir3(
        caracteres(antes).as_slice(),
        escribir_decimal_dos(numero).as_slice(),
        caracteres(despues).as_slice(),
    );
    texto_de(v.as_slice())
}

/// Interpreta el texto de búsqueda del catálogo (ver `filtro_interpretado`).
pub fn interpretar_filtro(texto: &str) -> (f: FiltroGafetes)
    ensures
        f == filtro_interpretado(texto@),
{
    let s = recortar(caracteres(texto).as_slice());
    if s.len() == 0 {
        return FiltroGafetes { numero: None, estado: None };
    }
    if let Some(n) = parsear_entero(s.as_slice()) {
        return FiltroGafetes { numero: Some(n), estado: None };
    }
    let negado = s[0] == '-';
    let resto = if negado {
        copiar_rango(s.as_slice(), 1, s.len())
    } else {
        copiar_rango(s.as_slice(), 0, s.len())
    };
    proof {
        assert(s@.subrange(1, s@.len() as int) =~= s@.drop_first());
        assert(s@.subrange(0, s@.len() as int) =~= s@);
    }
    if resto.len() >= 7 && es_literal(copiar_rango(resto.as_slice(), 0, 7).as_slice(), "estado:") {
        proof {
            assert(resto@.subrange(0, 7) =~= resto@.take(7));
        }
        let valor = copiar_rango(resto.as_slice(), 7, resto.len());
        proof {
            assert(resto@.subrange(7, resto@.len() as int) =~= resto@.skip(7));
        }
        let estado = match EstadoGafete::from_str_filtro(valor.as_slice()) {
            Some(e) => Some(
                if negado {
                    Igualdad::Excluye(e)
                } else {
                    Igualdad::Incluye(e)
                },
            ),
            None => None,
        };
        return FiltroGafetes { numero: None, estado };
    }
    proof {
        if resto@.len() >= 7 {
            assert(resto@.subrange(0, 7) =~= resto@.take(7));
        }
    }
    FiltroGafetes { numero: None, estado: None }
}

/// Valida el formulario de alta (ver `alta_de`).
pub fn construir_alta(f: &FormularioAlta) -> (r: Result<AltaValida, String>)
    ensures
        match (r, alta_de(f.modo, f.numero@.valor, f.desde@.valor, f.hasta@.valor)) {
            (Ok(a), Ok(b)) => a == b,
            (Err(a), Err(b)) => a@ == b,
            _ => false,
        },
{
    match f.modo {
        ModoFormularioAlta::Individual => {
            let n = match parsear_entero(recortar(f.numero.value()).as_slice()) {
                Some(n) => n,
                None => {
                    return Err(lit("Ingrese un número de gafete válido"));
                },
            };
            if n <= 0 {
                return Err(lit("El número debe ser mayor a cero"));
            }
            Ok(AltaValida::Individual(n))
        },
        ModoFormularioAlta::Rango => {
            let d = match parsear_entero(recortar(f.desde.value()).as_slice()) {
                Some(d) => d,
                None => {
                    return Err(lit("Ingrese un \"desde\" válido"));
                },
            };
            let h = match parsear_entero(recortar(f.hasta.value()).as_slice()) {
                Some(h) => h,
                None => {
                    return Err(lit("Ingrese un \"hasta\" válido"));
                },
            };
            if d <= 0 || h < d {
                return Err(lit("El rango no es válido"));
            }
            if h - d > RANGO_MAXIMO {
                return Err(lit("El rango es demasiado grande (máximo 200 a la vez)"));
            }
            Ok(AltaValida::Rango(d, h))
        },
    }
}

impl FormularioAlta {
    /// Alta individual, los tres campos vacíos.
    pub fn nuevo() -> (f: FormularioAlta)
        ensures
            f.modo == ModoFormularioAlta::Individual,
            f.campo == CampoAlta::Numero,
            f.numero@ == campo_alta_vacio(),
            f.desde@ == campo_alta_vacio(),
            f.hasta@ == campo_alta_vacio(),
            f.error is None,
    {
        FormularioAlta {
            modo: ModoFormularioAlta::Individual,
            campo: CampoAlta::Numero,
            numero: TextInput::vacio().with_max_chars(DIGITOS_ALTA),
            desde: TextInput::vacio().with_max_chars(DIGITOS_ALTA),
            hasta: TextInput::vacio().with_max_chars(DIGITOS_ALTA),
            error: None,
        }
    }

    /// Cambia entre alta individual y por rango; el foco vuelve al primer
    /// campo del modo y se quita el error.
    pub fn alternar_modo(self) -> (g: FormularioAlta)
        ensures
            alternado(self, g),
    {
        let modo = match self.modo {
            ModoFormularioAlta::Individual => ModoFormularioAlta::Rango,
            ModoFormularioAlta::Rango => ModoFormularioAlta::Individual,
        };
        let campo = match modo {
            ModoFormularioAlta::Individual => CampoAlta::Numero,
            ModoFormularioAlta::Rango => CampoAlta::Desde,
        };
        FormularioAlta { modo, campo, numero: self.numero, desde: self.desde, hasta: self.hasta, error: None }
    }
}

impl BuscarDeudor {
    pub fn nuevo(gafete_id: i64, numero: i64) -> (b: BuscarDeudor)
        ensures
            b.gafete_id == gafete_id,
            b.numero == numero,
            b.texto@.valor.len() == 0,
            b.texto@.cursor == 0,
            b.texto@.maximo is None,
            b.resultados@.len() == 0,
            b.seleccion is None,
            b.debounce.pendiente is None,
    {
        BuscarDeudor {
            gafete_id,
            numero,
            texto: TextInput::vacio(),
            resultados: Vec::new(),
            seleccion: None,
            debounce: Debounce::nuevo(),
        }
    }
}

impl Default for GafetesState {
    fn default() -> (s: GafetesState)
        ensures
            s.bien_formado(),
            s.gafetes@.len() == 0,
            s.seleccion is None,
            s.modo == ModoGafetes::Normal,
            s.filtro@.len() == 0,
            s.mensaje is None,
            !s.ayuda_expandida,
            s.busqueda_debounce.pendiente is None,
    {
        GafetesState {
            gafetes: Vec::new(),
            seleccion: None,
            modo: ModoGafetes::Normal,
            filtro: String::new(),
            mensaje: None,
            ayuda_expandida: false,
            busqueda_debounce: Debounce::nuevo(),
        }
    }
}

/// Lo que hace la tecla `k` pulsada en el instante `ahora` (ms): F1
/// alterna la ayuda; las demás, según el modo.
pub open spec fn tecla_en(
    viejo: GafetesState,
    nuevo: GafetesState,
    k: Tecla,
    a: AccionGafetes,
    ahora: u64,
) -> bool {
    &&& es_ayuda(k) ==> a == AccionGafetes::Ninguna && nuevo.ayuda_expandida
        == !viejo.ayuda_expandida && nuevo.modo == viejo.modo && mismos_datos(viejo, nuevo)
    &&& !es_ayuda(k) ==> match viejo.modo {
        ModoGafetes::Normal => tecla_lista(viejo, nuevo, k, a),
        ModoGafetes::Busqueda { texto } => tecla_busqueda(viejo, nuevo, texto, k, a, ahora),
        ModoGafetes::Alta(f) => tecla_alta(viejo, nuevo, f, k, a),
        ModoGafetes::MarcarPerdidoBuscarDeudor(b) => tecla_deudor(viejo, nuevo, b, k, a, ahora),
        ModoGafetes::ConfirmacionResolver { gafete_id, motivo, .. } => tecla_resolver(
            viejo,
            nuevo,
            gafete_id,
            motivo,
            k,
            a,
        ),
        ModoGafetes::ConfirmacionBaja { gafete_id, numero } => {
            &&& mismos_datos(viejo, nuevo)
            &&& nuevo.mensaje == viejo.mensaje
            &&& if k.codigo == Codigo::Enter {
                a == (AccionGafetes::DarDeBaja { id: gafete_id, numero }) && nuevo.modo
                    == viejo.modo
            } else if k.codigo == Codigo::Esc {
                a == AccionGafetes::Ninguna && nuevo.modo == ModoGafetes::Normal
            } else {
                a == AccionGafetes::Ninguna && nuevo.modo == viejo.modo
            }
        },
        ModoGafetes::Historial { .. } => {
            &&& mismos_datos(viejo, nuevo)
            &&& nuevo.mensaje == viejo.mensaje
            &&& a == AccionGafetes::Ninguna
            &&& nuevo.modo == (if k.codigo == Codigo::Esc {
                ModoGafetes::Normal
            } else {
                viejo.modo
            })
        },
    }
}

/// Lo que hace pasar el tiempo hasta `ahora` en el catálogo: la búsqueda
/// diferida sale cuando pasó la espera desde la última tecla; nada más
/// cambia.
pub open spec fn paso_del_tiempo(
    viejo: GafetesState,
    nuevo: GafetesState,
    ahora: u64,
    a: AccionGafetes,
) -> bool {
    &&& vencio(viejo.busqueda_debounce.pendiente, ahora, DURACION_DEBOUNCE_MS) ==> es_buscar(
        a,
        viejo.filtro@,
        None,
    ) && nuevo == (GafetesState { busqueda_debounce: Debounce { pendiente: None }, ..viejo })
    &&& !vencio(viejo.busqueda_debounce.pendiente, ahora, DURACION_DEBOUNCE_MS) ==> a
        == AccionGafetes::Ninguna && nuevo == viejo
}

/// Lo que hace pasar el tiempo hasta `ahora` mientras se busca el deudor:
/// la búsqueda diferida del deudor sale cuando pasó la espera desde la
/// última tecla; fuera de esa búsqueda no pasa nada.
pub open spec fn paso_del_tiempo_deudor(
    viejo: GafetesState,
    nuevo: GafetesState,
    ahora: u64,
    a: AccionGafetes,
) -> bool {
    &&& mismos_datos(viejo, nuevo)
    &&& nuevo.mensaje == viejo.mensaje
    &&& match viejo.modo {
        ModoGafetes::MarcarPerdidoBuscarDeudor(b) => {
            &&& nuevo.modo matches ModoGafetes::MarcarPerdidoBuscarDeudor(c)
            &&& c.gafete_id == b.gafete_id && c.numero == b.numero && c.texto@ == b.texto@
                && c.resultados == b.resultados && c.seleccion == b.seleccion
            &&& if vencio(b.debounce.pendiente, ahora, DURACION_DEBOUNCE_MS) {
                &&& c.debounce.pendiente is None
                &&& a matches AccionGafetes::BuscarDeudor { texto } && texto_deudor(
                    b.texto@.valor,
                    texto,
                )
            } else {
                a == AccionGafetes::Ninguna && c.debounce == b.debounce
            }
        },
        _ => a == AccionGafetes::Ninguna && nuevo.modo == viejo.modo,
    }
}

/// Escribir el nombre del deudor y dejar pasar la espera pide buscarlo con
/// el texto escrito.
pub proof fn ley_busqueda_del_deudor_diferida(
    s0: GafetesState,
    s1: GafetesState,
    s2: GafetesState,
    k: Tecla,
    a1: AccionGafetes,
    a2: AccionGafetes,
    tecleo: u64,
    despues: u64,
)
    requires
        s0.modo matches ModoGafetes::MarcarPerdidoBuscarDeudor(b) && editar(b.texto@, k).valor
            != b.texto@.valor,
        escribe_en_busqueda(k),
        tecla_en(s0, s1, k, a1, tecleo),
        paso_del_tiempo_deudor(s1, s2, despues, a2),
        despues >= tecleo + DURACION_DEBOUNCE_MS,
    ensures
        s0.modo matches ModoGafetes::MarcarPerdidoBuscarDeudor(b) && (a2 matches AccionGafetes::BuscarDeudor {
            texto,
        } && texto_deudor(editar(b.texto@, k).valor, texto)),
{
}

/// Una tecla que edita el texto de una búsqueda (no la cierra ni mueve la
/// selección ni pide ayuda).
pub open spec fn escribe_en_busqueda(k: Tecla) -> bool {
    &&& !es_ayuda(k)
    &&& k.codigo != Codigo::Esc
    &&& k.codigo != Codigo::Enter
    &&& k.codigo != Codigo::Up
    &&& k.codigo != Codigo::Down
}

/// Escribir en la búsqueda del catálogo y dejar pasar la espera pide la
/// búsqueda con el texto escrito.
pub proof fn ley_busqueda_diferida(
    s0: GafetesState,
    s1: GafetesState,
    s2: GafetesState,
    k: Tecla,
    a1: AccionGafetes,
    a2: AccionGafetes,
    tecleo: u64,
    despues: u64,
)
    requires
        s0.modo matches ModoGafetes::Busqueda { texto } && editar(texto@, k).valor
            != texto@.valor,
        escribe_en_busqueda(k),
        tecla_en(s0, s1, k, a1, tecleo),
        paso_del_tiempo(s1, s2, despues, a2),
        despues >= tecleo + DURACION_DEBOUNCE_MS,
    ensures
        s0.modo matches ModoGafetes::Busqueda { texto } && es_buscar(
            a2,
            editar(texto@, k).valor,
            None,
        ),
{
}

impl GafetesState {
    pub fn cantidad(&self) -> (r: usize)
        ensures
            r == self.gafetes@.len(),
    {
        self.gafetes.len()
    }

    pub fn gafete_seleccionado(&self) -> (r: Option<&GafeteResumen>)
        requires
            self.bien_formado(),
        ensures
            r == (match self.seleccion {
                Some(i) => Some(&self.gafetes@[i as int]),
                None => None,
            }),
    {
        match self.seleccion {
            Some(i) => Some(&self.gafetes[i]),
            None => None,
        }
    }

    fn accion_buscar(&self, seleccionar_id: Option<i64>) -> (a: AccionGafetes)
        ensures
            es_buscar(a, self.filtro@, seleccionar_id),
    {
        AccionGafetes::Buscar { filtro: interpretar_filtro(self.filtro.as_str()), seleccionar_id }
    }

    /// Pide el catálogo con el filtro actual.
    pub fn solicitar_carga(&self) -> (a: AccionGafetes)
        ensures
            es_buscar(a, self.filtro@, None),
    {
        self.accion_buscar(None)
    }

    fn posicion(&self, id: i64) -> (p: Option<usize>)
        ensures
            match p {
                Some(i) => posicion_gafete(self.gafetes@, id) == Some(i as int) && i
                    < self.gafetes@.len(),
                None => posicion_gafete(self.gafetes@, id) is None,
            },
    {
        let ghost pr = |i: int| self.gafetes@[i].id == id;
        let mut k: usize = 0;
        while k < self.gafetes.len()
            invariant
                k <= self.gafetes.len(),
                pr == (|i: int| self.gafetes@[i].id == id),
                forall|j: int| 0 <= j < k ==> !#[trigger] pr(j),
            decreases self.gafetes.len() - k,
        {
            if self.gafetes[k].id == id {
                proof {
                    assert(es_primero(self.gafetes@.len() as int, pr, k as int));
                    lema_primero(self.gafetes@.len() as int, pr, k as int);
                }
                return Some(k);
            }
            assert(!pr(k as int));
            k += 1;
        }
        proof {
            lema_ninguno(self.gafetes@.len() as int, pr);
        }
        None
    }

    /// Aplica una tecla según el modo; F1 alterna la ayuda. La tecla se
    /// toma como pulsada ahora, según el reloj.
    pub fn handle_key(&mut self, k: Tecla) -> (a: AccionGafetes)
        requires
            old(self).bien_formado(),
        ensures
            final(self).bien_formado(),
            exists|ahora: u64| #[trigger] tecla_en(*old(self), *final(self), k, a, ahora),
    {
        let ahora = reloj_ms();
        self.handle_key_en(k, ahora)
    }

    /// Aplica la tecla `k` pulsada en el instante `ahora` (ms).
    pub fn handle_key_en(&mut self, k: Tecla, ahora: u64) -> (a: AccionGafetes)
        requires
            old(self).bien_formado(),
        ensures
            final(self).bien_formado(),
            tecla_en(*old(self), *final(self), k, a, ahora),
    {
        if comando_estandar(k).is_some() {
            self.ayuda_expandida = !self.ayuda_expandida;
            return AccionGafetes::Ninguna;
        }
        let mut modo = ModoGafetes::Normal;
        std::mem::swap(&mut modo, &mut self.modo);
        match modo {
            ModoGafetes::Normal => self.handle_normal(k),
            ModoGafetes::Busqueda { texto } => self.handle_busqueda(k, texto, ahora),
            ModoGafetes::Alta(f) => self.handle_alta(k, f),
            ModoGafetes::MarcarPerdidoBuscarDeudor(b) => self.handle_buscar_deudor(k, b, ahora),
            ModoGafetes::ConfirmacionResolver { gafete_id, numero, motivo } => self.handle_confirmacion_resolver(
                k,
                gafete_id,
                numero,
                motivo,
            ),
            ModoGafetes::ConfirmacionBaja { gafete_id, numero } => {
                match k.codigo {
                    Codigo::Enter => {
                        self.modo = ModoGafetes::ConfirmacionBaja { gafete_id, numero };
                        AccionGafetes::DarDeBaja { id: gafete_id, numero }
                    },
                    Codigo::Esc => AccionGafetes::Ninguna,
                    _ => {
                        self.modo = ModoGafetes::ConfirmacionBaja { gafete_id, numero };
                        AccionGafetes::Ninguna
                    },
                }
            },
            ModoGafetes::Historial { numero, incidentes } => {
                if k.codigo != Codigo::Esc {
                    self.modo = ModoGafetes::Historial { numero, incidentes };
                }
                AccionGafetes::Ninguna
            },
        }
    }

    fn handle_normal(&mut self, k: Tecla) -> (a: AccionGafetes)
        requires
            old(self).bien_formado(),
            old(self).modo == ModoGafetes::Normal,
        ensures
            final(self).bien_formado(),
            tecla_lista(*old(self), *final(self), k, a),
    {
        match k.codigo {
            Codigo::Char('n') | Codigo::Char('N') | Codigo::Char('b') | Codigo::Char('B')
            | Codigo::Char('p') | Codigo::Char('P') | Codigo::Char('r') | Codigo::Char('R')
            | Codigo::Char('h') | Codigo::Char('H') | Codigo::Char('/') | Codigo::Esc => {
                self.mensaje = None;
            },
            _ => {},
        }
        match k.codigo {
            Codigo::Up => {
                self.seleccion = mover_seleccion(self.seleccion, -1, self.gafetes.len());
            },
            Codigo::Down => {
                self.seleccion = mover_seleccion(self.seleccion, 1, self.gafetes.len());
            },
            Codigo::Char('n') | Codigo::Char('N') => {
                self.modo = ModoGafetes::Alta(FormularioAlta::nuevo());
            },
            Codigo::Char('h') | Codigo::Char('H') => {
                if let Some(i) = self.seleccion {
                    let (id, numero) = (self.gafetes[i].id, self.gafetes[i].numero);
                    self.modo = ModoGafetes::Historial { numero, incidentes: Vec::new() };
                    return AccionGafetes::VerHistorial { id, numero };
                }
            },
            Codigo::Char('b') | Codigo::Char('B') => {
                if let Some(i) = self.seleccion {
                    if self.gafetes[i].estado == EstadoGafete::Disponible {
                        self.modo = ModoGafetes::ConfirmacionBaja {
                            gafete_id: self.gafetes[i].id,
                            numero: self.gafetes[i].numero,
                        };
                    }
                }
            },
            Codigo::Char('p') | Codigo::Char('P') => {
                if let Some(i) = self.seleccion {
                    if self.gafetes[i].estado == EstadoGafete::Disponible {
                        self.modo = ModoGafetes::MarcarPerdidoBuscarDeudor(
                            BuscarDeudor::nuevo(self.gafetes[i].id, self.gafetes[i].numero),
                        );
                    }
                }
            },
            Codigo::Char('r') | Codigo::Char('R') => {
                if let Some(i) = self.seleccion {
                    if self.gafetes[i].estado == EstadoGafete::Perdido {
                        self.modo = ModoGafetes::ConfirmacionResolver {
                            gafete_id: self.gafetes[i].id,
                            numero: self.gafetes[i].numero,
                            motivo: MotivoResolucionGafete::Pagado,
                        };
                    }
                }
            },
            Codigo::Char('/') => {
                self.modo = ModoGafetes::Busqueda { texto: TextInput::new(self.filtro.as_str()) };
            },
            Codigo::Esc => {
                if caracteres(self.filtro.as_str()).len() > 0 {
                    self.filtro = String::new();
                    self.seleccion = None;
                    return self.accion_buscar(None);
                }
                return AccionGafetes::Volver;
            },
            _ => {},
        }
        AccionGafetes::Ninguna
    }

    fn handle_busqueda(&mut self, k: Tecla, texto: TextInput, ahora: u64) -> (a: AccionGafetes)
        requires
            old(self).bien_formado(),
        ensures
            final(self).bien_formado(),
            tecla_busqueda(*old(self), *final(self), texto, k, a, ahora),
    {
        match k.codigo {
            Codigo::Esc => {
                self.filtro = String::new();
                self.modo = ModoGafetes::Normal;
                self.accion_buscar(None)
            },
            Codigo::Enter => {
                self.modo = ModoGafetes::Normal;
                AccionGafetes::Ninguna
            },
            Codigo::Up => {
                self.seleccion = mover_seleccion(self.seleccion, -1, self.gafetes.len());
                self.modo = ModoGafetes::Busqueda { texto };
                AccionGafetes::Ninguna
            },
            Codigo::Down => {
                self.seleccion = mover_seleccion(self.seleccion, 1, self.gafetes.len());
                self.modo = ModoGafetes::Busqueda { texto };
                AccionGafetes::Ninguna
            },
            _ => {
                let mut t = texto;
                let cambio = t.handle_key(k);
                self.filtro = t.texto();
                self.modo = ModoGafetes::Busqueda { texto: t };
                if cambio {
                    self.busqueda_debounce.marcar(ahora);
                }
                AccionGafetes::Ninguna
            },
        }
    }

    fn handle_alta(&mut self, k: Tecla, f: FormularioAlta) -> (a: AccionGafetes)
        requires
            old(self).bien_formado(),
        ensures
            final(self).bien_formado(),
            tecla_alta(*old(self), *final(self), f, k, a),
    {
        match k.codigo {
            Codigo::Esc => {
                self.modo = ModoGafetes::Normal;
                AccionGafetes::Ninguna
            },
            Codigo::Tab => {
                self.modo = ModoGafetes::Alta(f.alternar_modo());
                AccionGafetes::Ninguna
            },
            Codigo::Enter => {
                match construir_alta(&f) {
                    Ok(AltaValida::Individual(numero)) => {
                        self.modo = ModoGafetes::Alta(f);
                        AccionGafetes::CrearUno { numero }
                    },
                    Ok(AltaValida::Rango(desde, hasta)) => {
                        self.modo = ModoGafetes::Alta(f);
                        AccionGafetes::CrearRango { desde, hasta }
                    },
                    Err(e) => {
                        let mut g = f;
                        g.error = Some(e);
                        self.modo = ModoGafetes::Alta(g);
                        AccionGafetes::Ninguna
                    },
                }
            },
            _ => {
                let mut g = f;
                if (k.codigo == Codigo::Down || k.codigo == Codigo::Up) && g.modo
                    == ModoFormularioAlta::Rango {
                    g.campo = match g.campo {
                        CampoAlta::Desde => CampoAlta::Hasta,
                        _ => CampoAlta::Desde,
                    };
                } else {
                    let cambio = match g.campo {
                        CampoAlta::Numero => g.numero.handle_key(k),
                        CampoAlta::Desde => g.desde.handle_key(k),
                        CampoAlta::Hasta => g.hasta.handle_key(k),
                    };
                    if cambio {
                        g.error = None;
                    }
                }
                self.modo = ModoGafetes::Alta(g);
                AccionGafetes::Ninguna
            },
        }
    }

    fn handle_buscar_deudor(&mut self, k: Tecla, b: BuscarDeudor, ahora: u64) -> (a: AccionGafetes)
        requires
            old(self).bien_formado(),
        ensures
            final(self).bien_formado(),
            tecla_deudor(*old(self), *final(self), b, k, a, ahora),
    {
        let mut c = b;
        match k.codigo {
            Codigo::Esc => {
                self.modo = ModoGafetes::Normal;
                return AccionGafetes::Ninguna;
            },
            Codigo::Up => {
                if let Some(s) = c.seleccion {
                    c.seleccion = Some(
                        if s > 0 {
                            s - 1
                        } else {
                            0
                        },
                    );
                }
            },
            Codigo::Down => {
                if let Some(s) = c.seleccion {
                    let n = c.resultados.len();
                    c.seleccion = Some(
                        if n > 0 && s < n - 1 {
                            s + 1
                        } else if n > 0 {
                            n - 1
                        } else {
                            0
                        },
                    );
                }
            },
            Codigo::Enter => {
                if let Some(i) = c.seleccion {
                    if i < c.resultados.len() {
                        let accion = AccionGafetes::MarcarPerdido {
                            id: c.gafete_id,
                            numero: c.numero,
                            contratista_id: c.resultados[i].id,
                        };
                        self.modo = ModoGafetes::MarcarPerdidoBuscarDeudor(c);
                        return accion;
                    }
                }
            },
            _ => {
                if c.texto.handle_key(k) {
                    c.debounce.marcar(ahora);
                }
            },
        }
        self.modo = ModoGafetes::MarcarPerdidoBuscarDeudor(c);
        AccionGafetes::Ninguna
    }

    fn handle_confirmacion_resolver(
        &mut self,
        k: Tecla,
        gafete_id: i64,
        numero_actual: i64,
        motivo: MotivoResolucionGafete,
    ) -> (a: AccionGafetes)
        requires
            old(self).bien_formado(),
            old(self).modo == ModoGafetes::Normal,
        ensures
            final(self).bien_formado(),
            tecla_resolver(
                GafetesState {
                    modo: ModoGafetes::ConfirmacionResolver {
                        gafete_id,
                        numero: numero_actual,
                        motivo,
                    },
                    ..*old(self)
                },
                *final(self),
                gafete_id,
                motivo,
                k,
                a,
            ),
    {
        let p = match self.posicion(gafete_id) {
            Some(p) => p,
            None => {
                return AccionGafetes::Ninguna;
            },
        };
        let numero = self.gafetes[p].numero;
        match k.codigo {
            Codigo::Char('1') => {
                self.modo = ModoGafetes::ConfirmacionResolver {
                    gafete_id,
                    numero,
                    motivo: MotivoResolucionGafete::Pagado,
                };
                AccionGafetes::Ninguna
            },
            Codigo::Char('2') => {
                self.modo = ModoGafetes::ConfirmacionResolver {
                    gafete_id,
                    numero,
                    motivo: MotivoResolucionGafete::Aparecido,
                };
                AccionGafetes::Ninguna
            },
            Codigo::Enter => {
                self.modo = ModoGafetes::ConfirmacionResolver { gafete_id, numero: numero_actual, motivo };
                AccionGafetes::Resolver { id: gafete_id, numero, motivo }
            },
            Codigo::Esc => AccionGafetes::Ninguna,
            _ => {
                self.modo = ModoGafetes::ConfirmacionResolver { gafete_id, numero: numero_actual, motivo };
                AccionGafetes::Ninguna
            },
        }
    }

    /// Dispara la búsqueda diferida del catálogo (`ahora` en ms).
    pub fn tick(&mut self, ahora: u64) -> (a: AccionGafetes)
        requires
            old(self).bien_formado(),
        ensures
            final(self).bien_formado(),
            paso_del_tiempo(*old(self), *final(self), ahora, a),
    {
        if self.busqueda_debounce.listo(ahora, DURACION_DEBOUNCE_MS) {
            self.accion_buscar(None)
        } else {
            AccionGafetes::Ninguna
        }
    }

    /// Dispara la búsqueda diferida del deudor, sólo mientras se lo busca.
    pub fn tick_deudor(&mut self, ahora: u64) -> (a: AccionGafetes)
        requires
            old(self).bien_formado(),
        ensures
            final(self).bien_formado(),
            paso_del_tiempo_deudor(*old(self), *final(self), ahora, a),
    {
        let mut modo = ModoGafetes::Normal;
        std::mem::swap(&mut modo, &mut self.modo);
        match modo {
            ModoGafetes::MarcarPerdidoBuscarDeudor(b) => {
                let mut c = b;
                let a = if c.debounce.listo(ahora, DURACION_DEBOUNCE_MS) {
                    let t = recortar(c.texto.value());
                    AccionGafetes::BuscarDeudor {
                        texto: if t.len() == 0 {
                            None
                        } else {
                            Some(texto_de(t.as_slice()))
                        },
                    }
                } else {
                    AccionGafetes::Ninguna
                };
                self.modo = ModoGafetes::MarcarPerdidoBuscarDeudor(c);
                a
            },
            otro => {
                self.modo = otro;
                AccionGafetes::Ninguna
            },
        }
    }

    /// Recibe el catálogo: selecciona el gafete pedido (si está) o el
    /// primero; conserva un aviso de éxito y borra otro; un error vacía la
    /// lista y queda como aviso.
    pub fn completar_busqueda(&mut self, resultado: Result<Vec<GafeteResumen>, String>, seleccionar_id: Option<i64>)
        requires
            old(self).bien_formado(),
        ensures
            final(self).bien_formado(),
            match resultado {
                Ok(v) => {
                    &&& final(self).gafetes@ == v@
                    &&& final(self).mensaje == (if es_exito(old(self).mensaje) {
                        old(self).mensaje
                    } else {
                        None
                    })
                    &&& final(self).seleccion == (match seleccionar_id {
                        Some(id) => match posicion_gafete(v@, id) {
                            Some(p) => Some(p as usize),
                            None => if v@.len() > 0 {
                                Some(0usize)
                            } else {
                                None
                            },
                        },
                        None => if v@.len() > 0 {
                            Some(0usize)
                        } else {
                            None
                        },
                    })
                },
                Err(e) => {
                    &&& final(self).gafetes@.len() == 0
                    &&& final(self).seleccion is None
                    &&& final(self).mensaje == Some(e)
                },
            },
            final(self).modo == old(self).modo,
            final(self).filtro == old(self).filtro,
    {
        match resultado {
            Ok(v) => {
                self.gafetes = v;
                if !mensaje_de_exito(&self.mensaje) {
                    self.mensaje = None;
                }
                let p = match seleccionar_id {
                    Some(id) => self.posicion(id),
                    None => None,
                };
                self.seleccion = match p {
                    Some(i) => Some(i),
                    None => if self.gafetes.len() > 0 {
                        Some(0)
                    } else {
                        None
                    },
                };
            },
            Err(e) => {
                self.gafetes = Vec::new();
                self.seleccion = None;
                self.mensaje = Some(e);
            },
        }
    }

    /// Recibe los contratistas que coinciden con la búsqueda del deudor
    /// (sólo si se lo está buscando).
    pub fn completar_busqueda_deudor(&mut self, resultado: Result<Vec<ContratistaResumen>, String>)
        requires
            old(self).bien_formado(),
        ensures
            final(self).bien_formado(),
            mismos_datos(*old(self), *final(self)),
            match old(self).modo {
                ModoGafetes::MarcarPerdidoBuscarDeudor(b) => {
                    &&& final(self).modo matches ModoGafetes::MarcarPerdidoBuscarDeudor(c)
                    &&& c.gafete_id == b.gafete_id && c.numero == b.numero && c.texto@ == b.texto@
                        && c.debounce == b.debounce
                    &&& match resultado {
                        Ok(v) => c.resultados@ == v@ && c.seleccion == (if v@.len() > 0 {
                            Some(0usize)
                        } else {
                            None
                        }) && final(self).mensaje == old(self).mensaje,
                        Err(e) => c.resultados@.len() == 0 && c.seleccion is None && final(self).mensaje == Some(e),
                    }
                },
                _ => *final(self) == *old(self),
            },
            final(self).ayuda_expandida == old(self).ayuda_expandida,
    {
        let mut modo = ModoGafetes::Normal;
        std::mem::swap(&mut modo, &mut self.modo);
        match modo {
            ModoGafetes::MarcarPerdidoBuscarDeudor(b) => {
                let mut c = b;
                match resultado {
                    Ok(v) => {
                        c.seleccion = if v.len() > 0 {
                            Some(0)
                        } else {
                            None
                        };
                        c.resultados = v;
                    },
                    Err(e) => {
                        c.resultados = Vec::new();
                        c.seleccion = None;
                        self.mensaje = Some(e);
                    },
                }
                self.modo = ModoGafetes::MarcarPerdidoBuscarDeudor(c);
            },
            otro => {
                self.modo = otro;
            },
        }
    }

    fn error_alta(&mut self, e: String)
        requires
            old(self).bien_formado(),
        ensures
            final(self).bien_formado(),
            mismos_datos(*old(self), *final(self)),
            final(self).mensaje == old(self).mensaje,
            match old(self).modo {
                ModoGafetes::Alta(f) => final(self).modo matches ModoGafetes::Alta(g) && g.modo
                    == f.modo && g.campo == f.campo && g.numero@ == f.numero@ && g.desde@
                    == f.desde@ && g.hasta@ == f.hasta@ && g.error == Some(e),
                _ => final(self).modo == old(self).modo,
            },
    {
        let mut modo = ModoGafetes::Normal;
        std::mem::swap(&mut modo, &mut self.modo);
        match modo {
            ModoGafetes::Alta(f) => {
                let mut g = f;
                g.error = Some(e);
                self.modo = ModoGafetes::Alta(g);
            },
            otro => {
                self.modo = otro;
            },
        }
    }

    /// Recibe el resultado del alta individual.
    pub fn completar_alta(&mut self, resultado: Result<i64, String>, numero: i64) -> (a: AccionGafetes)
        requires
            old(self).bien_formado(),
        ensures
            final(self).bien_formado(),
            final(self).gafetes == old(self).gafetes,
            match resultado {
                Ok(id) => {
                    &&& final(self).modo == ModoGafetes::Normal
                    &&& (final(self).mensaje matches Some(m) && m@ == "✓ Gafete "@ + decimal_dos(
                        numero as int,
                    ) + " dado de alta"@)
                    &&& es_buscar(a, old(self).filtro@, Some(id))
                },
                Err(e) => a == AccionGafetes::Ninguna && (old(self).modo matches ModoGafetes::Alta(f) ==> final(self).modo matches ModoGafetes::Alta(g) && g.error == Some(e)),
            },
    {
        match resultado {
            Ok(id) => {
                self.modo = ModoGafetes::Normal;
                self.mensaje = Some(con_numero("✓ Gafete ", numero, " dado de alta"));
                self.accion_buscar(Some(id))
            },
            Err(e) => {
                self.error_alta(e);
                AccionGafetes::Ninguna
            },
        }
    }

    /// Recibe el resultado del alta por rango.
    pub fn completar_alta_rango(&mut self, resultado: Result<Vec<i64>, String>, desde: i64, hasta: i64) -> (a: AccionGafetes)
        requires
            old(self).bien_formado(),
        ensures
            final(self).bien_formado(),
            final(self).gafetes == old(self).gafetes,
            match resultado {
                Ok(ids) => {
                    &&& final(self).modo == ModoGafetes::Normal
                    &&& (final(self).mensaje matches Some(m) && m@ == "✓ Gafetes "@ + decimal_dos(
                        desde as int,
                    ) + "-"@ + decimal_dos(hasta as int) + " dados de alta ("@ + decimal(
                        ids@.len(),
                    ) + " en total)"@)
                    &&& es_buscar(
                        a,
                        old(self).filtro@,
                        if ids@.len() > 0 {
                            Some(ids@[0])
                        } else {
                            None
                        },
                    )
                },
                Err(e) => a == AccionGafetes::Ninguna && (old(self).modo matches ModoGafetes::Alta(f) ==> final(self).modo matches ModoGafetes::Alta(g) && g.error == Some(e)),
            },
    {
        match resultado {
            Ok(ids) => {
                self.modo = ModoGafetes::Normal;
                let v = unir3(
                    caracteres("✓ Gafetes ").as_slice(),
                    escribir_decimal_dos(desde).as_slice(),
                    caracteres("-").as_slice(),
                );
                let v = unir3(
                    v.as_slice(),
                    escribir_decimal_dos(hasta).as_slice(),
                    caracteres(" dados de alta (").as_slice(),
                );
                let v = unir3(
                    v.as_slice(),
                    escribir_decimal(ids.len() as u64).as_slice(),
                    caracteres(" en total)").as_slice(),
                );
                self.mensaje = Some(texto_de(v.as_slice()));
                let primero = if ids.len() > 0 {
                    Some(ids[0])
                } else {
                    None
                };
                self.accion_buscar(primero)
            },
            Err(e) => {
                self.error_alta(e);
                AccionGafetes::Ninguna
            },
        }
    }

    /// Recibe el resultado de dar de baja: vuelve a la lista y, si salió
    /// bien, avisa y pide el catálogo completo.
    pub fn completar_baja(&mut self, resultado: Result<(), String>, id: i64, numero: i64) -> (a: AccionGafetes)
        requires
            old(self).bien_formado(),
        ensures
            final(self).bien_formado(),
            final(self).modo == ModoGafetes::Normal,
            final(self).gafetes == old(self).gafetes,
            match resultado {
                Ok(()) => (final(self).mensaje matches Some(m) && m@ == "✓ Gafete "@ + decimal_dos(
                    numero as int,
                ) + " dado de baja"@) && a == (AccionGafetes::Buscar {
                    filtro: sin_filtro(),
                    seleccionar_id: Some(id),
                }),
                Err(e) => a == AccionGafetes::Ninguna && final(self).mensaje == Some(e),
            },
    {
        self.modo = ModoGafetes::Normal;
        match resultado {
            Ok(()) => {
                self.mensaje = Some(con_numero("✓ Gafete ", numero, " dado de baja"));
                AccionGafetes::Buscar {
                    filtro: FiltroGafetes { numero: None, estado: None },
                    seleccionar_id: Some(id),
                }
            },
            Err(e) => {
                self.mensaje = Some(e);
                AccionGafetes::Ninguna
            },
        }
    }

    /// Recibe el resultado de marcar un gafete como perdido.
    pub fn completar_marcar_perdido(&mut self, resultado: Result<(), String>, id: i64, numero: i64) -> (a: AccionGafetes)
        requires
            old(self).bien_formado(),
        ensures
            final(self).bien_formado(),
            final(self).modo == ModoGafetes::Normal,
            final(self).gafetes == old(self).gafetes,
            match resultado {
                Ok(()) => (final(self).mensaje matches Some(m) && m@ == "✓ Gafete "@ + decimal_dos(
                    numero as int,
                ) + " marcado como perdido"@) && a == (AccionGafetes::Buscar {
                    filtro: sin_filtro(),
                    seleccionar_id: Some(id),
                }),
                Err(e) => a == AccionGafetes::Ninguna && final(self).mensaje == Some(e),
            },
    {
        self.modo = ModoGafetes::Normal;
        match resultado {
            Ok(()) => {
                self.mensaje = Some(con_numero("✓ Gafete ", numero, " marcado como perdido"));
                AccionGafetes::Buscar {
                    filtro: FiltroGafetes { numero: None, estado: None },
                    seleccionar_id: Some(id),
                }
            },
            Err(e) => {
                self.mensaje = Some(e);
                AccionGafetes::Ninguna
            },
        }
    }

    /// Recibe el resultado de resolver la deuda de un gafete perdido.
    pub fn completar_resolver(&mut self, resultado: Result<(), String>, id: i64, numero: i64) -> (a: AccionGafetes)
        requires
            old(self).bien_formado(),
        ensures
            final(self).bien_formado(),
            final(self).modo == ModoGafetes::Normal,
            final(self).gafetes == old(self).gafetes,
            match resultado {
                Ok(()) => (final(self).mensaje matches Some(m) && m@ == "✓ Deuda del gafete "@
                    + decimal_dos(numero as int) + " resuelta"@) && a == (AccionGafetes::Buscar {
                    filtro: sin_filtro(),
                    seleccionar_id: Some(id),
                }),
                Err(e) => a == AccionGafetes::Ninguna && final(self).mensaje == Some(e),
            },
    {
        self.modo = ModoGafetes::Normal;
        match resultado {
            Ok(()) => {
                self.mensaje = Some(con_numero("✓ Deuda del gafete ", numero, " resuelta"));
                AccionGafetes::Buscar {
                    filtro: FiltroGafetes { numero: None, estado: None },
                    seleccionar_id: Some(id),
                }
            },
            Err(e) => {
                self.mensaje = Some(e);
                AccionGafetes::Ninguna
            },
        }
    }

    /// Recibe el historial de incidentes del gafete `numero`; un error
    /// vuelve a la lista con el aviso.
    pub fn completar_historial(&mut self, resultado: Result<Vec<IncidenteGafete>, String>, numero: i64)
        requires
            old(self).bien_formado(),
        ensures
            final(self).bien_formado(),
            final(self).gafetes == old(self).gafetes,
            match resultado {
                Ok(v) => final(self).modo matches ModoGafetes::Historial { numero: n, incidentes }
                    && n == numero && incidentes@ == v@ && final(self).mensaje == old(self).mensaje,
                Err(e) => final(self).modo == ModoGafetes::Normal && final(self).mensaje == Some(e),
            },
    {
        match resultado {
            Ok(v) => {
                self.modo = ModoGafetes::Historial { numero, incidentes: v };
            },
            Err(e) => {
                self.modo = ModoGafetes::Normal;
                self.mensaje = Some(e);
            },
        }
    }

    /// Primera fila visible para que la seleccionada quede en pantalla.
    pub fn inicio_visible(&self, capacidad: usize) -> (r: usize)
        ensures
            r == crate::ui::inicio_ventana(self.seleccion, capacidad),
    {
        crate::ui::inicio_visible(self.seleccion, capacidad)
    }
}

} // verus!
