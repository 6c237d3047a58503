//! Piezas comunes a todas las pantallas: la tecla ya traducida, el campo de
//! texto editable, la espera antes de buscar y el movimiento de selección.
use crate::texto::{caracteres, texto_de};
use vstd::prelude::*;

verus! {

/// Código de una tecla, independiente de la terminal.
#[derive(Clone, Copy, Debug, PartialEq, Eq, Structural)]
pub enum Codigo {
    Char(char),
    Enter,
    Esc,
    Tab,
    BackTab,
    Up,
    Down,
    Left,
    Right,
    Home,
    End,
    Backspace,
    Delete,
    PageUp,
    PageDown,
    F(u8),
    Otra,
}

/// Una pulsación: el código y los modificadores activos.
#[derive(Clone, Copy, Debug, PartialEq, Eq, Structural)]
pub struct Tecla {
    pub codigo: Codigo,
    pub control: bool,
    pub alt: bool,
    pub shift: bool,
}

impl Tecla {
    /// Una tecla sin modificadores.
    pub fn nueva(codigo: Codigo) -> (t: Tecla)
        ensures
            t.codigo == codigo,
            !t.control,
            !t.alt,
            !t.shift,
    {
        Tecla { codigo, control: false, alt: false, shift: false }
    }
}

/// Comandos que todas las pantallas interpretan igual.
#[derive(Clone, Copy, Debug, PartialEq, Eq, Structural)]
pub enum ComandoEstandar {
    Ayuda,
}

/// F1 pide la ayuda extendida de la pantalla.
pub open spec fn es_ayuda(t: Tecla) -> bool {
    t.codigo == Codigo::F(1)
}

pub fn comando_estandar(t: Tecla) -> (r: Option<ComandoEstandar>)
    ensures
        r == (if es_ayuda(t) {
            Some(ComandoEstandar::Ayuda)
        } else {
            None
        }),
{
    match t.codigo {
        Codigo::F(1) => Some(ComandoEstandar::Ayuda),
        _ => None,
    }
}

/// Una tecla de carácter que escribe: sin Control ni Alt.
pub open spec fn escribe(t: Tecla) -> bool {
    t.codigo is Char && !t.control && !t.alt
}

/// El contenido y el cursor de un campo de texto.
pub struct VistaCampo {
    pub valor: Seq<char>,
    pub cursor: int,
    pub maximo: Option<usize>,
}

/// Lo que una tecla hace a un campo de texto: escribir en el cursor (si no
/// se llegó al máximo), borrar antes o en el cursor, o moverlo.
pub open spec fn editar(v: VistaCampo, t: Tecla) -> VistaCampo {
    match t.codigo {
        Codigo::Char(c) => if !t.control && !t.alt && (v.maximo is None || v.valor.len()
            < v.maximo->0) {
            VistaCampo { valor: v.valor.insert(v.cursor, c), cursor: v.cursor + 1, ..v }
        } else {
            v
        },
        Codigo::Backspace => if v.cursor > 0 {
            VistaCampo { valor: v.valor.remove(v.cursor - 1), cursor: v.cursor - 1, ..v }
        } else {
            v
        },
        Codigo::Delete => if v.cursor < v.valor.len() {
            VistaCampo { valor: v.valor.remove(v.cursor), ..v }
        } else {
            v
        },
        Codigo::Left => if v.cursor > 0 {
            VistaCampo { cursor: v.cursor - 1, ..v }
        } else {
            v
        },
        Codigo::Right => if v.cursor < v.valor.len() {
            VistaCampo { cursor: v.cursor + 1, ..v }
        } else {
            v
        },
        Codigo::Home => VistaCampo { cursor: 0, ..v },
        Codigo::End => VistaCampo { cursor: v.valor.len() as int, ..v },
        _ => v,
    }
}

/// Campo de texto de una línea con cursor y, opcionalmente, un máximo de
/// caracteres.
#[derive(Debug, PartialEq, Eq)]
pub struct TextInput {
    valor: Vec<char>,
    cursor: usize,
    maximo: Option<usize>,
}

impl View for TextInput {
    type V = VistaCampo;

    closed spec fn view(&self) -> VistaCampo {
        VistaCampo { valor: self.valor@, cursor: self.cursor as int, maximo: self.maximo }
    }
}

impl TextInput {
    #[verifier::type_invariant]
    spec fn bien_formado(self) -> bool {
        self.cursor <= self.valor.len()
    }

    /// Campo vacío sin máximo.
    pub fn vacio() -> (r: TextInput)
        ensures
            r@.valor == Seq::<char>::empty(),
            r@.cursor == 0,
            r@.maximo is None,
    {
        TextInput { valor: Vec::new(), cursor: 0, maximo: None }
    }

    /// Campo con un texto inicial y el cursor al final.
    pub fn new(texto: &str) -> (r: TextInput)
        ensures
            r@.valor == texto@,
            r@.cursor == texto@.len(),
            r@.maximo is None,
    {
        let valor = caracteres(texto);
        let cursor = valor.len();
        TextInput { valor, cursor, maximo: None }
    }

    /// Campo con los caracteres dados y el cursor al final.
    pub fn desde_caracteres(valor: Vec<char>) -> (r: TextInput)
        ensures
            r@.valor == valor@,
            r@.cursor == valor@.len(),
            r@.maximo is None,
    {
        let cursor = valor.len();
        TextInput { valor, cursor, maximo: None }
    }

    /// Limita cuántos caracteres se pueden escribir.
    pub fn with_max_chars(self, maximo: usize) -> (r: TextInput)
        ensures
            r@ == (VistaCampo { maximo: Some(maximo), ..self@ }),
    {
        proof {
            use_type_invariant(&self);
        }
        TextInput { valor: self.valor, cursor: self.cursor, maximo: Some(maximo) }
    }

    pub fn value(&self) -> (r: &[char])
        ensures
            r@ == self@.valor,
    {
        self.valor.as_slice()
    }

    pub fn texto(&self) -> (r: String)
        ensures
            r@ == self@.valor,
    {
        texto_de(self.valor.as_slice())
    }

    pub fn is_empty(&self) -> (r: bool)
        ensures
            r == (self@.valor.len() == 0),
    {
        self.valor.len() == 0
    }

    pub fn cursor(&self) -> (r: usize)
        ensures
            r == self@.cursor,
    {
        self.cursor
    }

    /// Vacía el campo y deja el cursor al inicio.
    pub fn clear(&mut self)
        ensures
            final(self)@.valor == Seq::<char>::empty(),
            final(self)@.cursor == 0,
            final(self)@.maximo == old(self)@.maximo,
    {
        *self = TextInput { valor: Vec::new(), cursor: 0, maximo: self.maximo };
    }

    fn copia(&self) -> (r: Vec<char>)
        ensures
            r@ == self@.valor,
    {
        let r = crate::texto::copiar_rango(self.valor.as_slice(), 0, self.valor.len());
        proof {
            assert(self.valor@.subrange(0, self.valor@.len() as int) =~= self.valor@);
        }
        r
    }

    /// Aplica la tecla y dice si el texto cambió.
    pub fn handle_key(&mut self, t: Tecla) -> (cambio: bool)
        ensures
            final(self)@ == editar(old(self)@, t),
            cambio == (final(self)@.valor != old(self)@.valor),
    {
        proof {
            use_type_invariant(&*self);
        }
        match t.codigo {
            Codigo::Char(c) => {
                let cabe = match self.maximo {
                    None => true,
                    Some(m) => self.valor.len() < m,
                };
                if !t.control && !t.alt && cabe {
                    let mut v = self.copia();
                    v.insert(self.cursor, c);
                    let _n = v.len();
                    *self = TextInput { valor: v, cursor: self.cursor + 1, maximo: self.maximo };
                    true
                } else {
                    false
                }
            },
            Codigo::Backspace => {
                if self.cursor > 0 {
                    let ghost antes = self.valor@;
                    let mut v = self.copia();
                    v.remove(self.cursor - 1);
                    *self = TextInput { valor: v, cursor: self.cursor - 1, maximo: self.maximo };
                    assert(self.valor@.len() != antes.len());
                    true
                } else {
                    false
                }
            },
            Codigo::Delete => {
                if self.cursor < self.valor.len() {
                    let ghost antes = self.valor@;
                    let mut v = self.copia();
                    v.remove(self.cursor);
                    *self = TextInput { valor: v, cursor: self.cursor, maximo: self.maximo };
                    assert(self.valor@.len() != antes.len());
                    true
                } else {
                    false
                }
            },
            Codigo::Left => {
                if self.cursor > 0 {
                    *self = TextInput { valor: self.copia(), cursor: self.cursor - 1, maximo: self.maximo };
                }
                false
            },
            Codigo::Right => {
                if self.cursor < self.valor.len() {
                    *self = TextInput { valor: self.copia(), cursor: self.cursor + 1, maximo: self.maximo };
                }
                false
            },
            Codigo::Home => {
                *self = TextInput { valor: self.copia(), cursor: 0, maximo: self.maximo };
                false
            },
            Codigo::End => {
                *self = TextInput { valor: self.copia(), cursor: self.valor.len(), maximo: self.maximo };
                false
            },
            _ => false,
        }
    }
}

impl Clone for TextInput {
    fn clone(&self) -> (r: TextInput)
        ensures
            r@ == self@,
    {
        proof {
            use_type_invariant(self);
        }
        let valor = crate::texto::copiar_rango(self.valor.as_slice(), 0, self.valor.len());
        proof {
            assert(self.valor@.subrange(0, self.valor@.len() as int) =~= self.valor@);
        }
        TextInput { valor, cursor: self.cursor, maximo: self.maximo }
    }
}

impl TextInput {
    /// Escribir caracteres sin modificadores en un campo sin máximo los
    /// agrega al final cuando el cursor ya está al final.
    pub proof fn ley_escribir_al_final(v: VistaCampo, c: char)
        requires
            v.maximo is None,
            v.cursor == v.valor.len(),
        ensures
            editar(v, Tecla { codigo: Codigo::Char(c), control: false, alt: false, shift: false })
                == (VistaCampo { valor: v.valor.push(c), cursor: v.cursor + 1, maximo: None }),
    {
        assert(v.valor.insert(v.cursor, c) =~= v.valor.push(c));
    }
}

/// Marca de tiempo (milisegundos) de la última tecla de búsqueda aún no
/// atendida.
#[derive(Clone, Copy, Debug, PartialEq, Eq, Structural, Default)]
pub struct Debounce {
    pub pendiente: Option<u64>,
}

/// Pasó la espera desde la marca.
pub open spec fn vencio(pendiente: Option<u64>, ahora: u64, espera: u64) -> bool {
    match pendiente {
        Some(t) => ahora >= t && ahora - t >= espera,
        None => false,
    }
}

impl Debounce {
    pub fn nuevo() -> (d: Debounce)
        ensures
            d.pendiente is None,
    {
        Debounce { pendiente: None }
    }

    pub fn marcar(&mut self, ahora: u64)
        ensures
            final(self).pendiente == Some(ahora),
    {
        self.pendiente = Some(ahora);
    }

    /// `true` una sola vez, cuando pasó `espera` desde la última marca.
    pub fn listo(&mut self, ahora: u64, espera: u64) -> (r: bool)
        ensures
            r == vencio(old(self).pendiente, ahora, espera),
            final(self).pendiente == (if r {
                None
            } else {
                old(self).pendiente
            }),
    {
        match self.pendiente {
            Some(t) => {
                if ahora >= t && ahora - t >= espera {
                    self.pendiente = None;
                    true
                } else {
                    false
                }
            },
            None => false,
        }
    }
}

/// Milisegundos del reloj del sistema, para marcar cuándo se tecleó.
#[verifier::external_body]
pub(crate) fn reloj_ms() -> u64 {
    match std::time::SystemTime::now().duration_since(std::time::UNIX_EPOCH) {
        Ok(d) => d.as_millis() as u64,
        Err(_) => 0,
    }
}

/// Nueva selección al subir (`delta < 0`) o bajar en una lista de `n`
/// filas: se queda en los bordes y queda vacía si no hay filas.
pub open spec fn movida(sel: Option<usize>, delta: int, n: nat) -> Option<usize> {
    if n == 0 {
        None
    } else {
        let i = match sel {
            Some(i) => i as int,
            None => 0,
        };
        Some(
            (if delta < 0 {
                if i > 0 {
                    i - 1
                } else {
                    0
                }
            } else if i < n - 1 {
                i + 1
            } else {
                n - 1
            }) as usize,
        )
    }
}

pub fn mover_seleccion(sel: Option<usize>, delta: isize, n: usize) -> (r: Option<usize>)
    ensures
        r == movida(sel, delta as int, n as nat),
{
    if n == 0 {
        None
    } else {
        let i = match sel {
            Some(i) => i,
            None => 0,
        };
        Some(
            if delta < 0 {
                if i > 0 {
                    i - 1
                } else {
                    0
                }
            } else if i < n - 1 {
                i + 1
            } else {
                n - 1
            },
        )
    }
}

/// Primera fila visible para que la selección quede dentro de una ventana
/// de `capacidad` filas.
pub open spec fn inicio_ventana(sel: Option<usize>, capacidad: usize) -> usize {
    let s = match sel {
        Some(i) => i,
        None => 0,
    };
    let c: usize = if capacidad > 0 {
        (capacidad - 1) as usize
    } else {
        0
    };
    if s >= c {
        (s - c) as usize
    } else {
        0
    }
}

pub fn inicio_visible(sel: Option<usize>, capacidad: usize) -> (r: usize)
    ensures
        r == inicio_ventana(sel, capacidad),
{
    let s = match sel {
        Some(i) => i,
        None => 0,
    };
    let c = capacidad.saturating_sub(1);
    s.saturating_sub(c)
}

} // verus!
