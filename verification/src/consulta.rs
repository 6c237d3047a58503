//! El lenguaje de búsqueda de las pantallas: palabras separadas por espacios
//! (salvo entre comillas dobles), cada una de la forma `clave:valor`,
//! `-clave:valor` (negada) o texto libre; el valor admite una lista
//! separada por comas y comillas alrededor.
use crate::modelos::{TipoIngreso, todos_los_tipos};
use crate::texto::{blanco, copiar_rango, es_blanco};
use vstd::prelude::*;

verus! {

/// Estado del recorrido que separa las palabras.
pub struct Recorrido {
    pub hechas: Seq<Seq<char>>,
    pub actual: Seq<char>,
    pub comillas: bool,
}

/// Un carácter más: las comillas abren o cierran un tramo en que los
/// espacios no separan; un espacio fuera de comillas cierra la palabra en
/// curso (si tiene algo); lo demás se agrega a la palabra.
pub open spec fn paso(e: Recorrido, c: char) -> Recorrido {
    if c == '"' {
        Recorrido { actual: e.actual.push(c), comillas: !e.comillas, ..e }
    } else if blanco(c) && !e.comillas {
        if e.actual.len() > 0 {
            Recorrido { hechas: e.hechas.push(e.actual), actual: Seq::empty(), ..e }
        } else {
            e
        }
    } else {
        Recorrido { actual: e.actual.push(c), ..e }
    }
}

pub open spec fn recorrer(s: Seq<char>) -> Recorrido
    decreases s.len(),
{
    if s.len() == 0 {
        Recorrido { hechas: Seq::empty(), actual: Seq::empty(), comillas: false }
    } else {
        paso(recorrer(s.drop_last()), s.last())
    }
}

/// Las palabras de una búsqueda, en orden; ninguna vacía.
pub open spec fn palabras(s: Seq<char>) -> Seq<Seq<char>> {
    let e = recorrer(s);
    if e.actual.len() > 0 {
        e.hechas.push(e.actual)
    } else {
        e.hechas
    }
}

/// Las vistas de una lista de textos.
pub open spec fn vistas(v: Seq<Vec<char>>) -> Seq<Seq<char>> {
    v.map_values(|x: Vec<char>| x@)
}

proof fn lema_recorrer_sin_vacias(s: Seq<char>)
    ensures
        forall|i: int| 0 <= i < recorrer(s).hechas.len() ==> #[trigger] recorrer(s).hechas[i].len()
            > 0,
    decreases s.len(),
{
    if s.len() > 0 {
        lema_recorrer_sin_vacias(s.drop_last());
        let e = recorrer(s.drop_last());
        let f = recorrer(s);
        assert(f == paso(e, s.last()));
        assert forall|i: int| 0 <= i < f.hechas.len() implies #[trigger] f.hechas[i].len() > 0 by {
            if i < e.hechas.len() {
                assert(f.hechas[i] == e.hechas[i]);
            }
        }
    }
}

/// Ninguna palabra queda vacía.
pub proof fn ley_palabras_no_vacias(s: Seq<char>)
    ensures
        forall|i: int| 0 <= i < palabras(s).len() ==> #[trigger] palabras(s)[i].len() > 0,
{
    lema_recorrer_sin_vacias(s);
}

/// Separa la búsqueda en palabras.
pub fn separar_palabras(s: &[char]) -> (r: Vec<Vec<char>>)
    ensures
        vistas(r@) == palabras(s@),
{
    let mut hechas: Vec<Vec<char>> = Vec::new();
    let mut actual: Vec<char> = Vec::new();
    let mut comillas = false;
    let mut i: usize = 0;
    while i < s.len()
        invariant
            i <= s.len(),
            vistas(hechas@) == recorrer(s@.take(i as int)).hechas,
            actual@ == recorrer(s@.take(i as int)).actual,
            comillas == recorrer(s@.take(i as int)).comillas,
        decreases s.len() - i,
    {
        let c = s[i];
        proof {
            assert(s@.take(i + 1).drop_last() =~= s@.take(i as int));
            assert(s@.take(i + 1).last() == c);
        }
        if c == '"' {
            actual.push(c);
            comillas = !comillas;
        } else if es_blanco(c) && !comillas {
            if actual.len() > 0 {
                let ghost antes = hechas@;
                let hecha = actual;
                hechas.push(hecha);
                actual = Vec::new();
                assert(vistas(hechas@) =~= vistas(antes).push(hecha@));
            }
        } else {
            actual.push(c);
        }
        i += 1;
    }
    proof {
        assert(s@.take(s@.len() as int) =~= s@);
    }
    if actual.len() > 0 {
        let ghost antes = hechas@;
        let ghost a = actual@;
        hechas.push(actual);
        assert(vistas(hechas@) =~= vistas(antes).push(a));
    }
    hechas
}

/// Posición del primer `c` en `s`, o -1 si no aparece.
pub open spec fn primera(s: Seq<char>, c: char) -> int
    decreases s.len(),
{
    if s.len() == 0 {
        -1
    } else if s[0] == c {
        0
    } else {
        let k = primera(s.drop_first(), c);
        if k < 0 {
            -1
        } else {
            k + 1
        }
    }
}

proof fn lema_primera(s: Seq<char>, c: char, k: int)
    requires
        0 <= k <= s.len(),
        forall|j: int| 0 <= j < k ==> s[j] != c,
        k == s.len() || s[k] == c,
    ensures
        primera(s, c) == (if k == s.len() {
            -1
        } else {
            k
        }),
    decreases s.len(),
{
    if s.len() > 0 && s[0] != c {
        assert forall|j: int| 0 <= j < k - 1 implies s.drop_first()[j] != c by {
            assert(s.drop_first()[j] == s[j + 1]);
        }
        lema_primera(s.drop_first(), c, k - 1);
    }
}

pub fn buscar_caracter(s: &[char], c: char) -> (r: usize)
    ensures
        r <= s.len(),
        primera(s@, c) == (if r == s.len() {
            -1
        } else {
            r as int
        }),
{
    let mut k: usize = 0;
    while k < s.len() && s[k] != c
        invariant
            k <= s.len(),
            forall|j: int| 0 <= j < k ==> s@[j] != c,
        decreases s.len() - k,
    {
        k += 1;
    }
    proof {
        lema_primera(s@, c, k as int);
    }
    k
}

/// Quita un par de comillas dobles que rodeen todo el valor.
pub open spec fn sin_comillas(v: Seq<char>) -> Seq<char> {
    if v.len() >= 2 && v[0] == '"' && v.last() == '"' {
        v.subrange(1, v.len() - 1)
    } else {
        v
    }
}

/// Una palabra ya interpretada.
pub struct TerminoVista {
    pub clave: Option<Seq<char>>,
    pub valor: Seq<char>,
    pub negado: bool,
    pub crudo: Seq<char>,
}

/// Cómo se lee una palabra: un `-` inicial (si no es lo único) la niega; lo
/// que va antes del primer `:` (si hay algo antes) es la clave y lo de
/// después, el valor; sin clave, toda la palabra es el valor.
pub open spec fn termino(t: Seq<char>) -> TerminoVista {
    let negado = t.len() > 1 && t[0] == '-';
    let resto = if negado {
        t.drop_first()
    } else {
        t
    };
    let k = primera(resto, ':');
    if k > 0 {
        TerminoVista {
            clave: Some(resto.take(k)),
            valor: sin_comillas(resto.skip(k + 1)),
            negado,
            crudo: t,
        }
    } else {
        TerminoVista { clave: None, valor: sin_comillas(resto), negado, crudo: t }
    }
}

/// Una palabra de la búsqueda, separada en sus partes.
#[derive(Debug)]
pub struct Termino {
    pub clave: Option<Vec<char>>,
    pub valor: Vec<char>,
    pub negado: bool,
    pub crudo: Vec<char>,
}

impl View for Termino {
    type V = TerminoVista;

    open spec fn view(&self) -> TerminoVista {
        TerminoVista {
            clave: match self.clave {
                Some(k) => Some(k@),
                None => None,
            },
            valor: self.valor@,
            negado: self.negado,
            crudo: self.crudo@,
        }
    }
}

fn quitar_comillas(s: &[char], desde: usize) -> (r: Vec<char>)
    requires
        desde <= s.len(),
    ensures
        r@ == sin_comillas(s@.skip(desde as int)),
{
    let n = s.len();
    if n - desde >= 2 && s[desde] == '"' && s[n - 1] == '"' {
        let r = copiar_rango(s, desde + 1, n - 1);
        assert(r@ =~= sin_comillas(s@.skip(desde as int)));
        r
    } else {
        let r = copiar_rango(s, desde, n);
        assert(r@ =~= s@.skip(desde as int));
        r
    }
}

/// Interpreta una palabra.
pub fn interpretar(t: &[char]) -> (r: Termino)
    ensures
        r@ == termino(t@),
{
    let negado = t.len() > 1 && t[0] == '-';
    let inicio: usize = if negado {
        1
    } else {
        0
    };
    let resto = copiar_rango(t, inicio, t.len());
    proof {
        if negado {
            assert(resto@ =~= t@.drop_first());
        } else {
            assert(resto@ =~= t@);
        }
    }
    let crudo = copiar_rango(t, 0, t.len());
    assert(crudo@ =~= t@);
    let k = buscar_caracter(resto.as_slice(), ':');
    if k > 0 && k < resto.len() {
        let clave = copiar_rango(resto.as_slice(), 0, k);
        let valor = quitar_comillas(resto.as_slice(), k + 1);
        assert(clave@ =~= resto@.take(k as int));
        Termino { clave: Some(clave), valor, negado, crudo }
    } else {
        let valor = quitar_comillas(resto.as_slice(), 0);
        assert(resto@.skip(0) =~= resto@);
        Termino { clave: None, valor, negado, crudo }
    }
}

/// Estado al partir un valor por comas.
pub struct Particion {
    pub hechas: Seq<Seq<char>>,
    pub actual: Seq<char>,
}

pub open spec fn partir(s: Seq<char>) -> Particion
    decreases s.len(),
{
    if s.len() == 0 {
        Particion { hechas: Seq::empty(), actual: Seq::empty() }
    } else {
        let p = partir(s.drop_last());
        if s.last() == ',' {
            Particion { hechas: p.hechas.push(p.actual), actual: Seq::empty() }
        } else {
            Particion { actual: p.actual.push(s.last()), ..p }
        }
    }
}

/// Los valores de una lista `a,b,c` (siempre al menos uno).
pub open spec fn valores(v: Seq<char>) -> Seq<Seq<char>> {
    let p = partir(v);
    p.hechas.push(p.actual)
}

pub fn separar_valores(v: &[char]) -> (r: Vec<Vec<char>>)
    ensures
        vistas(r@) == valores(v@),
        r@.len() >= 1,
{
    let mut hechas: Vec<Vec<char>> = Vec::new();
    let mut actual: Vec<char> = Vec::new();
    let mut i: usize = 0;
    while i < v.len()
        invariant
            i <= v.len(),
            vistas(hechas@) == partir(v@.take(i as int)).hechas,
            actual@ == partir(v@.take(i as int)).actual,
        decreases v.len() - i,
    {
        let c = v[i];
        proof {
            assert(v@.take(i + 1).drop_last() =~= v@.take(i as int));
        }
        if c == ',' {
            let ghost antes = hechas@;
            let hecha = actual;
            hechas.push(hecha);
            actual = Vec::new();
            assert(vistas(hechas@) =~= vistas(antes).push(hecha@));
        } else {
            actual.push(c);
        }
        i += 1;
    }
    proof {
        assert(v@.take(v@.len() as int) =~= v@);
    }
    let ghost antes = hechas@;
    let ghost a = actual@;
    hechas.push(actual);
    assert(vistas(hechas@) =~= vistas(antes).push(a));
    hechas
}

/// Textos unidos con `sep` entre cada uno.
pub open spec fn unidas_con(xs: Seq<Seq<char>>, sep: char) -> Seq<char>
    decreases xs.len(),
{
    if xs.len() == 0 {
        Seq::empty()
    } else if xs.len() == 1 {
        xs[0]
    } else {
        unidas_con(xs.drop_last(), sep) + seq![sep] + xs.last()
    }
}

/// Palabras unidas con un espacio entre cada una.
pub open spec fn unidas(xs: Seq<Seq<char>>) -> Seq<char> {
    unidas_con(xs, ' ')
}

/// Agrega un texto a los ya unidos con `sep` (`cuantas` textos previos).
pub(crate) fn agregar_separado(
    acumulado: &mut Vec<char>,
    cuantas: usize,
    palabra: &[char],
    sep: char,
    Ghost(previas): Ghost<Seq<Seq<char>>>,
)
    requires
        old(acumulado)@ == unidas_con(previas, sep),
        cuantas == previas.len(),
    ensures
        final(acumulado)@ == unidas_con(previas.push(palabra@), sep),
{
    let ghost todas = previas.push(palabra@);
    proof {
        assert(todas.drop_last() =~= previas);
    }
    if cuantas == 0 {
        let mut k: usize = 0;
        while k < palabra.len()
            invariant
                k <= palabra.len(),
                acumulado@ == palabra@.take(k as int),
            decreases palabra.len() - k,
        {
            acumulado.push(palabra[k]);
            k += 1;
        }
        assert(palabra@.take(palabra@.len() as int) =~= palabra@);
    } else {
        let ghost base = acumulado@;
        acumulado.push(sep);
        let mut k: usize = 0;
        while k < palabra.len()
            invariant
                k <= palabra.len(),
                acumulado@ == base + seq![sep] + palabra@.take(k as int),
            decreases palabra.len() - k,
        {
            acumulado.push(palabra[k]);
            k += 1;
        }
        assert(palabra@.take(palabra@.len() as int) =~= palabra@);
    }
}

/// Agrega una palabra al texto libre ya acumulado (`cuantas` palabras
/// previas).
pub(crate) fn agregar_libre(
    acumulado: &mut Vec<char>,
    cuantas: usize,
    palabra: &[char],
    Ghost(previas): Ghost<Seq<Seq<char>>>,
)
    requires
        old(acumulado)@ == unidas(previas),
        cuantas == previas.len(),
    ensures
        final(acumulado)@ == unidas(previas.push(palabra@)),
{
    agregar_separado(acumulado, cuantas, palabra, ' ', Ghost(previas));
}

/// Los tipos que no están en `r`, en el orden de siempre.
pub open spec fn complemento(r: Seq<TipoIngreso>) -> Seq<TipoIngreso> {
    todos_los_tipos().filter(|t: TipoIngreso| !r.contains(t))
}

/// `true` si `t` está en la lista.
pub fn contiene_tipo(r: &[TipoIngreso], t: TipoIngreso) -> (b: bool)
    ensures
        b == r@.contains(t),
{
    let mut k: usize = 0;
    while k < r.len()
        invariant
            k <= r.len(),
            forall|j: int| 0 <= j < k ==> r@[j] != t,
        decreases r.len() - k,
    {
        if r[k] == t {
            assert(r@[k as int] == t);
            return true;
        }
        k += 1;
    }
    false
}

/// Todos los tipos salvo los de `r`: lo que pide `-tipo:...`.
pub fn tipos_excepto(r: &[TipoIngreso]) -> (c: Vec<TipoIngreso>)
    ensures
        c@ == complemento(r@),
{
    let todos = TipoIngreso::todos();
    let mut c: Vec<TipoIngreso> = Vec::new();
    let mut k: usize = 0;
    while k < todos.len()
        invariant
            k <= todos.len(),
            todos@ == todos_los_tipos(),
            c@ == todos@.take(k as int).filter(|t: TipoIngreso| !r@.contains(t)),
        decreases todos.len() - k,
    {
        let t = todos[k];
        proof {
            reveal_with_fuel(Seq::filter, 1);
            assert(todos@.take(k + 1).drop_last() =~= todos@.take(k as int));
        }
        if !contiene_tipo(r, t) {
            c.push(t);
        }
        k += 1;
    }
    proof {
        assert(todos@.take(todos@.len() as int) =~= todos@);
    }
    c
}

/// Negar una lista de tipos deja exactamente los que faltaban.
pub proof fn ley_complemento(r: Seq<TipoIngreso>, t: TipoIngreso)
    ensures
        complemento(r).contains(t) <==> !r.contains(t),
{
    let todos = todos_los_tipos();
    let p = |x: TipoIngreso| !r.contains(x);
    let i: int = match t {
        TipoIngreso::Praind => 0,
        TipoIngreso::InHouse => 1,
        TipoIngreso::PorCorreo => 2,
        TipoIngreso::Swat => 3,
    };
    assert(todos[i] == t);
    if !r.contains(t) {
        todos.lemma_filter_contains(p, i);
    }
    if complemento(r).contains(t) {
        let k = choose|k: int| 0 <= k < todos.filter(p).len() && todos.filter(p)[k] == t;
        todos.lemma_filter_pred(p, k);
    }
}

/// `i` es la primera posición (de `n`) que cumple `p`.
pub open spec fn es_primero(n: int, p: spec_fn(int) -> bool, i: int) -> bool {
    0 <= i < n && p(i) && forall|j: int| 0 <= j < i ==> !#[trigger] p(j)
}

/// La primera posición que cumple `p`, si hay alguna.
pub open spec fn primero(n: int, p: spec_fn(int) -> bool) -> Option<int> {
    if exists|i: int| es_primero(n, p, i) {
        Some(choose|i: int| es_primero(n, p, i))
    } else {
        None
    }
}

pub proof fn lema_primero(n: int, p: spec_fn(int) -> bool, k: int)
    requires
        es_primero(n, p, k),
    ensures
        primero(n, p) == Some(k),
{
    let i = choose|i: int| es_primero(n, p, i);
    if i < k {
        assert(!p(i));
    } else if i > k {
        assert(!p(k));
    }
}

pub proof fn lema_ninguno(n: int, p: spec_fn(int) -> bool)
    requires
        forall|j: int| 0 <= j < n ==> !#[trigger] p(j),
    ensures
        primero(n, p) is None,
{
    if exists|i: int| es_primero(n, p, i) {
        let i = choose|i: int| es_primero(n, p, i);
        assert(!p(i));
    }
}

/// Tipos nombrados por cada valor, si todos se reconocen.
pub open spec fn tipos_reconocidos(vs: Seq<Seq<char>>) -> Option<Seq<TipoIngreso>>
    decreases vs.len(),
{
    if vs.len() == 0 {
        Some(Seq::empty())
    } else {
        match (
            tipos_reconocidos(vs.drop_last()),
            crate::modelos::tipo_de_palabra(crate::texto::minusculas(vs.last())),
        ) {
            (Some(r), Some(t)) => Some(r.push(t)),
            _ => None,
        }
    }
}

pub fn reconocer_tipos(vs: &Vec<Vec<char>>) -> (r: Option<Vec<TipoIngreso>>)
    ensures
        match r {
            Some(v) => tipos_reconocidos(vistas(vs@)) == Some(v@),
            None => tipos_reconocidos(vistas(vs@)) is None,
        },
{
    let mut r: Vec<TipoIngreso> = Vec::new();
    let mut k: usize = 0;
    while k < vs.len()
        invariant
            k <= vs.len(),
            tipos_reconocidos(vistas(vs@).take(k as int)) == Some(r@),
        decreases vs.len() - k,
    {
        proof {
            assert(vistas(vs@).take(k + 1).drop_last() =~= vistas(vs@).take(k as int));
            assert(vistas(vs@).take(k + 1).last() == vs@[k as int]@);
        }
        match TipoIngreso::from_str_filtro(vs[k].as_slice()) {
            Some(t) => {
                r.push(t);
            },
            None => {
                proof {
                    lema_tipos_prefijo(vistas(vs@), k as int + 1);
                }
                return None;
            },
        }
        k += 1;
    }
    proof {
        assert(vistas(vs@).take(vs@.len() as int) =~= vistas(vs@));
    }
    Some(r)
}

/// Si un prefijo no se reconoce, la lista entera tampoco.
proof fn lema_tipos_prefijo(vs: Seq<Seq<char>>, k: int)
    requires
        0 <= k <= vs.len(),
        tipos_reconocidos(vs.take(k)) is None,
    ensures
        tipos_reconocidos(vs) is None,
    decreases vs.len() - k,
{
    if k < vs.len() {
        assert(vs.take(k + 1).drop_last() =~= vs.take(k));
        lema_tipos_prefijo(vs, k + 1);
    } else {
        assert(vs.take(k) =~= vs);
    }
}

/// Textos unidos con el separador `sep` entre cada uno.
pub open spec fn unidas_por(xs: Seq<Seq<char>>, sep: Seq<char>) -> Seq<char>
    decreases xs.len(),
{
    if xs.len() == 0 {
        Seq::empty()
    } else if xs.len() == 1 {
        xs[0]
    } else {
        unidas_por(xs.drop_last(), sep) + sep + xs.last()
    }
}

/// `[T]::join` con un separador de texto.
pub fn unir_por(xs: &Vec<Vec<char>>, sep: &[char]) -> (r: Vec<char>)
    ensures
        r@ == unidas_por(vistas(xs@), sep@),
{
    let mut acc: Vec<char> = Vec::new();
    let mut k: usize = 0;
    while k < xs.len()
        invariant
            k <= xs.len(),
            acc@ == unidas_por(vistas(xs@).take(k as int), sep@),
        decreases xs.len() - k,
    {
        proof {
            assert(vistas(xs@).take(k + 1).drop_last() =~= vistas(xs@).take(k as int));
        }
        if k == 0 {
            acc = crate::texto::copiar_rango(xs[0].as_slice(), 0, xs[0].len());
            assert(acc@ =~= xs@[0]@);
        } else {
            let con_sep = crate::texto::unir(acc.as_slice(), sep);
            acc = crate::texto::unir(con_sep.as_slice(), xs[k].as_slice());
        }
        k += 1;
    }
    proof {
        assert(vistas(xs@).take(xs@.len() as int) =~= vistas(xs@));
    }
    acc
}

} // verus!
