//! Operaciones sobre texto visto como secuencia de caracteres.
use vstd::prelude::*;
use vstd::std_specs::iter::IteratorSpec;

verus! {

/// Caracteres que `char::is_whitespace` considera espacio (la propiedad
/// Unicode `White_Space`).
pub open spec fn blanco(c: char) -> bool {
    ||| ('\t' <= c && c <= '\r')
    ||| c == ' '
    ||| c == '\u{85}'
    ||| c == '\u{a0}'
    ||| c == '\u{1680}'
    ||| ('\u{2000}' <= c && c <= '\u{200a}')
    ||| c == '\u{2028}'
    ||| c == '\u{2029}'
    ||| c == '\u{202f}'
    ||| c == '\u{205f}'
    ||| c == '\u{3000}'
}

pub fn es_blanco(c: char) -> (r: bool)
    ensures
        r == blanco(c),
{
    ('\t' <= c && c <= '\r') || c == ' ' || c == '\u{85}' || c == '\u{a0}' || c == '\u{1680}'
        || ('\u{2000}' <= c && c <= '\u{200a}') || c == '\u{2028}' || c == '\u{2029}'
        || c == '\u{202f}' || c == '\u{205f}' || c == '\u{3000}'
}

/// Sin los espacios iniciales.
pub open spec fn sin_blancos_iniciales(s: Seq<char>) -> Seq<char>
    decreases s.len(),
{
    if s.len() > 0 && blanco(s[0]) {
        sin_blancos_iniciales(s.drop_first())
    } else {
        s
    }
}

/// Sin los espacios finales.
pub open spec fn sin_blancos_finales(s: Seq<char>) -> Seq<char>
    decreases s.len(),
{
    if s.len() > 0 && blanco(s.last()) {
        sin_blancos_finales(s.drop_last())
    } else {
        s
    }
}

/// Lo que deja `str::trim`.
pub open spec fn recorte(s: Seq<char>) -> Seq<char> {
    sin_blancos_finales(sin_blancos_iniciales(s))
}

pub fn caracteres(s: &str) -> (v: Vec<char>)
    ensures
        v@ == s@,
{
    broadcast use vstd::string::group_string_axioms;
    let mut v: Vec<char> = Vec::new();
    for c in it: s.chars()
        invariant
            v@ == it.seq().take(it.index() as int),
    {
        v.push(c);
    }
    v
}

/// Convierte los caracteres en un `String` (el `FromIterator<char>` de std).
#[verifier::external_body]
pub(crate) fn texto_de(v: &[char]) -> (s: String)
    ensures
        s@ == v@,
{
    v.iter().collect()
}

/// Lo que `str::to_lowercase` devuelve para un texto (la tabla Unicode
/// completa de minúsculas).
pub uninterp spec fn minusculas(s: Seq<char>) -> Seq<char>;

/// Un carácter ASCII que no es una mayúscula: no tiene forma minúscula
/// distinta.
pub open spec fn ascii_sin_mayuscula(c: char) -> bool {
    &&& (c as u32) < 128
    &&& !('A' <= c && c <= 'Z')
}

/// Pasa a minúsculas con `str::to_lowercase`. Se afirma, además del nombre
/// del resultado, lo que la documentación de `char::to_lowercase` fija: un
/// carácter sin forma minúscula queda igual, así que un texto ASCII sin
/// mayúsculas no cambia.
#[verifier::external_body]
pub(crate) fn a_minusculas(s: &[char]) -> (r: Vec<char>)
    ensures
        r@ == minusculas(s@),
        (forall|i: int| 0 <= i < s@.len() ==> #[trigger] ascii_sin_mayuscula(s@[i])) ==> r@
            == s@,
{
    s.iter().collect::<String>().to_lowercase().chars().collect()
}

pub proof fn lema_blancos_iniciales(s: Seq<char>, i: int)
    requires
        0 <= i <= s.len(),
        forall|k: int| 0 <= k < i ==> blanco(#[trigger] s[k]),
    ensures
        sin_blancos_iniciales(s) == sin_blancos_iniciales(s.subrange(i, s.len() as int)),
    decreases i,
{
    if i > 0 {
        assert(s.drop_first().subrange(i - 1, s.len() - 1) =~= s.subrange(i, s.len() as int));
        assert forall|k: int| 0 <= k < i - 1 implies blanco(#[trigger] s.drop_first()[k]) by {
            assert(s.drop_first()[k] == s[k + 1]);
        }
        lema_blancos_iniciales(s.drop_first(), i - 1);
    } else {
        assert(s.subrange(0, s.len() as int) =~= s);
    }
}

pub proof fn lema_blancos_finales(s: Seq<char>, j: int)
    requires
        0 <= j <= s.len(),
        forall|k: int| j <= k < s.len() ==> blanco(#[trigger] s[k]),
    ensures
        sin_blancos_finales(s) == sin_blancos_finales(s.subrange(0, j)),
    decreases s.len() - j,
{
    if j < s.len() {
        assert(s.drop_last().subrange(0, j) =~= s.subrange(0, j));
        lema_blancos_finales(s.drop_last(), j);
    } else {
        assert(s.subrange(0, j) =~= s);
    }
}

/// Copia `s[desde..hasta]`.
pub fn copiar_rango(s: &[char], desde: usize, hasta: usize) -> (r: Vec<char>)
    requires
        desde <= hasta <= s.len(),
    ensures
        r@ == s@.subrange(desde as int, hasta as int),
{
    let mut r: Vec<char> = Vec::new();
    let mut k = desde;
    while k < hasta
        invariant
            desde <= k <= hasta <= s.len(),
            r@ == s@.subrange(desde as int, k as int),
        decreases hasta - k,
    {
        r.push(s[k]);
        k += 1;
    }
    r
}

/// `str::trim`: quita los espacios de ambos extremos.
pub fn recortar(s: &[char]) -> (r: Vec<char>)
    ensures
        r@ == recorte(s@),
{
    let mut i: usize = 0;
    while i < s.len() && es_blanco(s[i])
        invariant
            i <= s.len(),
            forall|k: int| 0 <= k < i ==> blanco(#[trigger] s@[k]),
        decreases s.len() - i,
    {
        i += 1;
    }
    let ghost t = s@.subrange(i as int, s@.len() as int);
    proof {
        lema_blancos_iniciales(s@, i as int);
    }
    let mut j: usize = s.len();
    while j > i && es_blanco(s[j - 1])
        invariant
            i <= j <= s.len(),
            forall|k: int| j <= k < s.len() ==> blanco(#[trigger] s@[k]),
        decreases j,
    {
        j -= 1;
    }
    proof {
        assert forall|k: int| j - i <= k < t.len() implies blanco(#[trigger] t[k]) by {
            assert(t[k] == s@[k + i]);
        }
        lema_blancos_finales(t, j - i);
        assert(t.subrange(0, j - i) =~= s@.subrange(i as int, j as int));
    }
    copiar_rango(s, i, j)
}

/// `true` si todos los caracteres son espacio (o no hay ninguno).
pub open spec fn solo_blancos(s: Seq<char>) -> bool {
    forall|k: int| 0 <= k < s.len() ==> blanco(#[trigger] s[k])
}

pub proof fn lema_recorte_vacio(s: Seq<char>)
    ensures
        (recorte(s).len() == 0) == solo_blancos(s),
{
    if solo_blancos(s) {
        lema_blancos_iniciales(s, s.len() as int);
        assert(s.subrange(s.len() as int, s.len() as int) =~= Seq::<char>::empty());
    } else {
        let k = choose|k: int| 0 <= k < s.len() && !blanco(s[k]);
        lema_recorte_conserva(s, k);
    }
}

/// Un carácter que no es espacio sobrevive al recorte.
pub proof fn lema_recorte_conserva(s: Seq<char>, k: int)
    requires
        0 <= k < s.len(),
        !blanco(s[k]),
    ensures
        recorte(s).len() > 0,
    decreases s.len(),
{
    lema_iniciales_conserva(s, k);
    let t = sin_blancos_iniciales(s);
    assert(t.len() > 0 && !blanco(t[0]));
    lema_finales_conserva(t);
}

proof fn lema_iniciales_conserva(s: Seq<char>, k: int)
    requires
        0 <= k < s.len(),
        !blanco(s[k]),
    ensures
        sin_blancos_iniciales(s).len() > 0,
        !blanco(sin_blancos_iniciales(s)[0]),
    decreases s.len(),
{
    if blanco(s[0]) {
        lema_iniciales_conserva(s.drop_first(), k - 1);
    }
}

proof fn lema_finales_conserva(t: Seq<char>)
    requires
        t.len() > 0,
        !blanco(t[0]),
    ensures
        sin_blancos_finales(t).len() > 0,
    decreases t.len(),
{
    if blanco(t.last()) {
        lema_finales_conserva(t.drop_last());
    }
}

/// `true` si el texto queda vacío al recortarlo.
pub fn es_vacio_recortado(s: &[char]) -> (r: bool)
    ensures
        r == (recorte(s@).len() == 0),
        r == solo_blancos(s@),
{
    proof {
        lema_recorte_vacio(s@);
    }
    let mut i: usize = 0;
    while i < s.len()
        invariant
            i <= s.len(),
            forall|k: int| 0 <= k < i ==> blanco(#[trigger] s@[k]),
        decreases s.len() - i,
    {
        if !es_blanco(s[i]) {
            assert(!blanco(s@[i as int]));
            assert(!solo_blancos(s@));
            proof {
                lema_recorte_vacio(s@);
            }
            return false;
        }
        i += 1;
    }
    true
}

/// Igualdad carácter a carácter.
pub fn iguales(a: &[char], b: &[char]) -> (r: bool)
    ensures
        r == (a@ == b@),
{
    if a.len() != b.len() {
        return false;
    }
    let mut i: usize = 0;
    while i < a.len()
        invariant
            i <= a.len() == b.len(),
            forall|k: int| 0 <= k < i ==> a@[k] == b@[k],
        decreases a.len() - i,
    {
        if a[i] != b[i] {
            return false;
        }
        i += 1;
    }
    assert(a@ =~= b@);
    true
}

/// Igualdad con un literal.
pub fn es_literal(a: &[char], lit: &str) -> (r: bool)
    ensures
        r == (a@ == lit@),
{
    let b = caracteres(lit);
    iguales(a, b.as_slice())
}

/// Versión sin tilde (ni diéresis) de una vocal o de la eñe; los demás
/// caracteres quedan igual.
pub open spec fn plegar_caracter(c: char) -> char {
    if c == 'á' || c == 'à' || c == 'ä' || c == 'â' {
        'a'
    } else if c == 'é' || c == 'è' || c == 'ë' || c == 'ê' {
        'e'
    } else if c == 'í' || c == 'ì' || c == 'ï' || c == 'î' {
        'i'
    } else if c == 'ó' || c == 'ò' || c == 'ö' || c == 'ô' {
        'o'
    } else if c == 'ú' || c == 'ù' || c == 'ü' || c == 'û' {
        'u'
    } else if c == 'ñ' {
        'n'
    } else if c == 'Á' || c == 'À' || c == 'Ä' || c == 'Â' {
        'A'
    } else if c == 'É' || c == 'È' || c == 'Ë' || c == 'Ê' {
        'E'
    } else if c == 'Í' || c == 'Ì' || c == 'Ï' || c == 'Î' {
        'I'
    } else if c == 'Ó' || c == 'Ò' || c == 'Ö' || c == 'Ô' {
        'O'
    } else if c == 'Ú' || c == 'Ù' || c == 'Ü' || c == 'Û' {
        'U'
    } else if c == 'Ñ' {
        'N'
    } else {
        c
    }
}

pub open spec fn plegado(s: Seq<char>) -> Seq<char> {
    s.map_values(|c: char| plegar_caracter(c))
}

pub fn plegar_car(c: char) -> (r: char)
    ensures
        r == plegar_caracter(c),
{
    if c == 'á' || c == 'à' || c == 'ä' || c == 'â' {
        'a'
    } else if c == 'é' || c == 'è' || c == 'ë' || c == 'ê' {
        'e'
    } else if c == 'í' || c == 'ì' || c == 'ï' || c == 'î' {
        'i'
    } else if c == 'ó' || c == 'ò' || c == 'ö' || c == 'ô' {
        'o'
    } else if c == 'ú' || c == 'ù' || c == 'ü' || c == 'û' {
        'u'
    } else if c == 'ñ' {
        'n'
    } else if c == 'Á' || c == 'À' || c == 'Ä' || c == 'Â' {
        'A'
    } else if c == 'É' || c == 'È' || c == 'Ë' || c == 'Ê' {
        'E'
    } else if c == 'Í' || c == 'Ì' || c == 'Ï' || c == 'Î' {
        'I'
    } else if c == 'Ó' || c == 'Ò' || c == 'Ö' || c == 'Ô' {
        'O'
    } else if c == 'Ú' || c == 'Ù' || c == 'Ü' || c == 'Û' {
        'U'
    } else if c == 'Ñ' {
        'N'
    } else {
        c
    }
}

/// Quita tildes, diéresis y la virgulilla de la eñe, para comparar nombres
/// sin depender de cómo se escribieron.
pub fn plegar_diacriticos(s: &[char]) -> (r: Vec<char>)
    ensures
        r@ == plegado(s@),
{
    let mut r: Vec<char> = Vec::new();
    let mut i: usize = 0;
    while i < s.len()
        invariant
            i <= s.len(),
            r@ == plegado(s@.take(i as int)),
        decreases s.len() - i,
    {
        r.push(plegar_car(s[i]));
        i += 1;
        assert(plegado(s@.take(i as int)) =~= plegado(s@.take(i - 1)).push(plegar_caracter(s@[i - 1])));
    }
    assert(s@.take(s.len() as int) =~= s@);
    r
}

/// `aguja` aparece dentro de `pajar` a partir de la posición `i`.
pub open spec fn aparece_en(pajar: Seq<char>, aguja: Seq<char>, i: int) -> bool {
    0 <= i && i + aguja.len() <= pajar.len() && pajar.subrange(i, i + aguja.len()) == aguja
}

/// `str::contains` con un texto como patrón.
pub open spec fn contiene(pajar: Seq<char>, aguja: Seq<char>) -> bool {
    exists|i: int| aparece_en(pajar, aguja, i)
}

pub fn contiene_texto(pajar: &[char], aguja: &[char]) -> (r: bool)
    ensures
        r == contiene(pajar@, aguja@),
{
    if aguja.len() > pajar.len() {
        return false;
    }
    if aguja.len() == 0 {
        assert(pajar@.subrange(0, 0) =~= aguja@);
        assert(aparece_en(pajar@, aguja@, 0));
        return true;
    }
    let n = pajar.len() - aguja.len();
    let mut i: usize = 0;
    while i <= n
        invariant
            n == pajar.len() - aguja.len(),
            aguja.len() > 0,
            i <= n + 1,
            forall|k: int| 0 <= k < i ==> !#[trigger] aparece_en(pajar@, aguja@, k),
        decreases n + 1 - i,
    {
        let mut j: usize = 0;
        let mut coincide = true;
        while j < aguja.len()
            invariant
                i + aguja.len() <= pajar.len(),
                j <= aguja.len(),
                coincide ==> forall|m: int| 0 <= m < j ==> pajar@[i + m] == aguja@[m],
                !coincide ==> !aparece_en(pajar@, aguja@, i as int),
            decreases aguja.len() - j,
        {
            if pajar[i + j] != aguja[j] {
                coincide = false;
                assert(pajar@.subrange(i as int, i + aguja.len())[j as int] != aguja@[j as int]);
            }
            j += 1;
        }
        if coincide {
            assert(pajar@.subrange(i as int, i + aguja.len()) =~= aguja@);
            assert(aparece_en(pajar@, aguja@, i as int));
            return true;
        }
        i += 1;
    }
    assert forall|k: int| !aparece_en(pajar@, aguja@, k) by {
        if 0 <= k && k < i {
        }
    }
    false
}

/// Un `•` por carácter: muestra cuántos hay sin mostrar cuáles.
pub open spec fn mascara(n: nat) -> Seq<char> {
    Seq::new(n, |k: int| '•')
}

pub fn enmascarar(n: usize) -> (r: String)
    ensures
        r@ == mascara(n as nat),
{
    let mut v: Vec<char> = Vec::new();
    let mut i: usize = 0;
    while i < n
        invariant
            i <= n,
            v@ == mascara(i as nat),
        decreases n - i,
    {
        v.push('•');
        i += 1;
        assert(v@ =~= mascara(i as nat));
    }
    texto_de(v.as_slice())
}

pub open spec fn digito(c: char) -> bool {
    '0' <= c && c <= '9'
}

pub open spec fn solo_digitos(d: Seq<char>) -> bool {
    forall|k: int| 0 <= k < d.len() ==> digito(#[trigger] d[k])
}

/// Valor decimal de una secuencia de dígitos.
pub open spec fn valor_digitos(d: Seq<char>) -> int
    decreases d.len(),
{
    if d.len() == 0 {
        0
    } else {
        valor_digitos(d.drop_last()) * 10 + (d.last() as int - '0' as int)
    }
}

/// Lo que `str::parse::<i64>` acepta: un signo opcional (`+` o `-`), al
/// menos un dígito ASCII, nada más, y un valor que cabe en `i64`.
pub open spec fn entero(s: Seq<char>) -> Option<i64> {
    let negativo = s.len() > 0 && s[0] == '-';
    let d = if s.len() > 0 && (s[0] == '-' || s[0] == '+') {
        s.drop_first()
    } else {
        s
    };
    let v = if negativo {
        -valor_digitos(d)
    } else {
        valor_digitos(d)
    };
    if d.len() == 0 || !solo_digitos(d) || v < i64::MIN || v > i64::MAX {
        None
    } else {
        Some(v as i64)
    }
}

proof fn lema_valor_no_negativo(d: Seq<char>)
    requires
        solo_digitos(d),
    ensures
        valor_digitos(d) >= 0,
    decreases d.len(),
{
    if d.len() > 0 {
        lema_valor_no_negativo(d.drop_last());
    }
}

proof fn lema_valor_crece(d: Seq<char>, k: int)
    requires
        solo_digitos(d),
        0 <= k <= d.len(),
    ensures
        valor_digitos(d.take(k)) <= valor_digitos(d),
    decreases d.len() - k,
{
    if k < d.len() {
        lema_valor_crece(d, k + 1);
        assert(d.take(k + 1).drop_last() =~= d.take(k));
        assert(solo_digitos(d.take(k)));
        lema_valor_no_negativo(d.take(k));
    } else {
        assert(d.take(k) =~= d);
    }
}

/// `str::parse::<i64>`.
pub fn parsear_entero(s: &[char]) -> (r: Option<i64>)
    ensures
        r == entero(s@),
{
    let negativo = s.len() > 0 && s[0] == '-';
    let inicio: usize = if s.len() > 0 && (s[0] == '-' || s[0] == '+') {
        1
    } else {
        0
    };
    let ghost d = s@.subrange(inicio as int, s@.len() as int);
    proof {
        if inicio == 1 {
            assert(d =~= s@.drop_first());
        } else {
            assert(d =~= s@);
        }
    }
    if inicio == s.len() {
        return None;
    }
    let limite: u64 = 9223372036854775808;
    let mut acc: u64 = 0;
    let mut desborde = false;
    let mut k: usize = inicio;
    while k < s.len()
        invariant
            inicio <= k <= s.len(),
            d == s@.subrange(inicio as int, s@.len() as int),
            d == (if s@.len() > 0 && (s@[0] == '-' || s@[0] == '+') {
                s@.drop_first()
            } else {
                s@
            }),
            negativo == (s@.len() > 0 && s@[0] == '-'),
            limite == 9223372036854775808,
            solo_digitos(d.take(k - inicio)),
            !desborde ==> acc == valor_digitos(d.take(k - inicio)),
            !desborde ==> acc <= limite,
            desborde ==> valor_digitos(d.take(k - inicio)) > limite,
        decreases s.len() - k,
    {
        let c = s[k];
        if !('0' <= c && c <= '9') {
            assert(d[k - inicio] == c);
            assert(!solo_digitos(d));
            return None;
        }
        let ghost previo = d.take(k - inicio);
        let ghost nuevo = d.take(k - inicio + 1);
        proof {
            assert(nuevo.drop_last() =~= previo);
            assert(nuevo.last() == c);
            assert(solo_digitos(nuevo));
            lema_valor_no_negativo(previo);
        }
        let digito = (c as u32 - '0' as u32) as u64;
        if !desborde {
            if acc > (limite - digito) / 10 {
                desborde = true;
            } else {
                acc = acc * 10 + digito;
            }
        }
        k += 1;
    }
    proof {
        assert(d.take(d.len() as int) =~= d);
    }
    if desborde {
        return None;
    }
    if negativo {
        if acc == limite {
            Some(i64::MIN)
        } else {
            Some(-(acc as i64))
        }
    } else if acc == limite {
        None
    } else {
        Some(acc as i64)
    }
}

/// Dígitos decimales de `n`, sin ceros a la izquierda.
pub open spec fn decimal(n: nat) -> Seq<char>
    decreases n,
{
    if n < 10 {
        seq![(n + '0' as nat) as char]
    } else {
        decimal(n / 10).push(((n % 10) + '0' as nat) as char)
    }
}

/// Representación decimal (`to_string`) de un entero sin signo.
pub fn escribir_decimal(n: u64) -> (r: Vec<char>)
    ensures
        r@ == decimal(n as nat),
    decreases n,
{
    if n < 10 {
        let c = char_de_digito(n as u32);
        let mut v: Vec<char> = Vec::new();
        v.push(c);
        v
    } else {
        let mut v = escribir_decimal(n / 10);
        v.push(char_de_digito((n % 10) as u32));
        v
    }
}

pub fn char_de_digito(d: u32) -> (c: char)
    requires
        d < 10,
    ensures
        c == (d + '0' as nat) as char,
{
    if d == 0 { '0' }
    else if d == 1 { '1' }
    else if d == 2 { '2' }
    else if d == 3 { '3' }
    else if d == 4 { '4' }
    else if d == 5 { '5' }
    else if d == 6 { '6' }
    else if d == 7 { '7' }
    else if d == 8 { '8' }
    else { '9' }
}

/// `format!("{n:02}")` para un entero: signo si es negativo y al menos dos
/// dígitos.
pub open spec fn decimal_dos(n: int) -> Seq<char> {
    let a: nat = if n < 0 { (-n) as nat } else { n as nat };
    let d = decimal(a);
    if n < 0 {
        seq!['-'] + d
    } else if d.len() < 2 {
        seq!['0'] + d
    } else {
        d
    }
}

pub fn escribir_decimal_dos(n: i64) -> (r: Vec<char>)
    ensures
        r@ == decimal_dos(n as int),
{
    let a: u64 = if n < 0 {
        if n == i64::MIN { 9223372036854775808u64 } else { (-n) as u64 }
    } else {
        n as u64
    };
    let d = escribir_decimal(a);
    if n < 0 {
        let mut r: Vec<char> = Vec::new();
        r.push('-');
        let mut d2 = d;
        r.append(&mut d2);
        r
    } else if d.len() < 2 {
        let mut r: Vec<char> = Vec::new();
        r.push('0');
        let mut d2 = d;
        r.append(&mut d2);
        r
    } else {
        d
    }
}

/// Concatenación de dos textos.
pub fn unir(a: &[char], b: &[char]) -> (r: Vec<char>)
    ensures
        r@ == a@ + b@,
{
    let mut r: Vec<char> = Vec::new();
    let mut i: usize = 0;
    while i < a.len()
        invariant
            i <= a.len(),
            r@ == a@.take(i as int),
        decreases a.len() - i,
    {
        r.push(a[i]);
        i += 1;
    }
    let mut j: usize = 0;
    while j < b.len()
        invariant
            j <= b.len(),
            r@ == a@ + b@.take(j as int),
        decreases b.len() - j,
    {
        r.push(b[j]);
        j += 1;
    }
    assert(a@.take(a.len() as int) =~= a@);
    assert(b@.take(b.len() as int) =~= b@);
    r
}

/// `to_string` de un entero con signo.
pub open spec fn decimal_con_signo(n: int) -> Seq<char> {
    if n < 0 {
        seq!['-'] + decimal((-n) as nat)
    } else {
        decimal(n as nat)
    }
}

pub fn escribir_entero(n: i64) -> (r: Vec<char>)
    ensures
        r@ == decimal_con_signo(n as int),
{
    if n < 0 {
        let a: u64 = if n == i64::MIN {
            9223372036854775808u64
        } else {
            (-n) as u64
        };
        let d = escribir_decimal(a);
        let mut r: Vec<char> = Vec::new();
        r.push('-');
        unir(r.as_slice(), d.as_slice())
    } else {
        escribir_decimal(n as u64)
    }
}

/// Lo que sigue a la última `/` de un texto (todo el texto si no tiene).
pub open spec fn ultimo_tramo(s: Seq<char>) -> Seq<char> {
    tras_ultimo(s, '/')
}

/// Lo que sigue a la última aparición de `c` (todo el texto si no aparece).
pub open spec fn tras_ultimo(s: Seq<char>, c: char) -> Seq<char>
    decreases s.len(),
{
    if s.len() == 0 {
        Seq::empty()
    } else if s.last() == c {
        Seq::empty()
    } else {
        tras_ultimo(s.drop_last(), c).push(s.last())
    }
}

/// La extensión de un nombre de archivo como la entiende `Path`: lo que
/// sigue al último punto, si ese punto no es el primer carácter.
pub open spec fn extension_nombre(n: Seq<char>) -> Option<Seq<char>> {
    if n.contains('.') && n.len() > tras_ultimo(n, '.').len() + 1 {
        Some(tras_ultimo(n, '.'))
    } else {
        None
    }
}

/// Una ruta que se parte igual en toda plataforma: sin `\` ni `:` (que
/// Windows trata como separador o prefijo), sin empezar con `//` (prefijo
/// UNC en Windows) y con un último tramo que es un nombre (no vacío, ni `.`
/// ni `..`).
pub open spec fn ruta_sencilla(s: Seq<char>) -> bool {
    &&& !s.contains('\\')
    &&& !s.contains(':')
    &&& !(s.len() >= 2 && s[0] == '/' && s[1] == '/')
    &&& ultimo_tramo(s).len() > 0
    &&& ultimo_tramo(s) != "."@
    &&& ultimo_tramo(s) != ".."@
}

/// Una ruta sencilla escrita de una sola forma: sin dos `/` seguidas, sin
/// tramos `.` y sin empezar por `./`. `Path` la parte exactamente en los
/// tramos que se leen en el texto.
pub open spec fn ruta_canonica(s: Seq<char>) -> bool {
    &&& ruta_sencilla(s)
    &&& forall|i: int| 0 <= i < s.len() - 1 ==> !(#[trigger] s[i] == '/' && s[i + 1] == '/')
    &&& forall|i: int|
        0 <= i < s.len() - 1 ==> !(#[trigger] s[i] == '/' && s[i + 1] == '.' && (i + 2
            == s.len() || s[i + 2] == '/'))
    &&& !(s.len() >= 2 && s[0] == '.' && s[1] == '/')
}

} // verus!
