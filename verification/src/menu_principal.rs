//! Menú principal: opciones según el rol, atajos, pestañas y las
//! confirmaciones de cerrar sesión, salir o cambiar a la interfaz CLI.
use crate::consulta::{es_primero, lema_ninguno, lema_primero, primero};
use crate::modelos::RolUsuario;
use crate::ui::{Codigo, Tecla, comando_estandar, es_ayuda};
use vstd::prelude::*;

verus! {

#[derive(Clone, Copy, Debug, PartialEq, Eq, Structural)]
pub enum OpcionMenu {
    NuevoIngreso,
    IngresosActivos,
    Historial,
    Contratistas,
    Empresas,
    Usuarios,
    Auditoria,
    Respaldos,
    CambiarPassword,
    GestionGafetes,
    Cli,
    CerrarSesion,
    Salir,
}

#[derive(Clone, Copy, Debug, PartialEq, Eq, Structural)]
pub enum ConfirmacionMenu {
    CerrarSesion,
    Salir,
    Cli,
}

#[derive(Clone, Copy, Debug, PartialEq, Eq, Structural)]
pub enum AccionMenu {
    Ninguna,
    Abrir(OpcionMenu),
    CerrarSesion,
    Salir,
    Cli,
}

#[derive(Clone, Debug, PartialEq, Eq)]
pub struct MenuPrincipalState {
    pub seleccion: OpcionMenu,
    pub confirmacion: Option<ConfirmacionMenu>,
    pub ayuda_expandida: bool,
    /// Por qué falló el último respaldo automático (`None` si el último
    /// salió bien): sólo decide si se muestra el aviso genérico.
    pub fallo_respaldo_automatico: Option<String>,
}

/// Una pestaña de la barra: atajo, nombre y nombre corto.
#[derive(Clone, Copy, Debug, PartialEq, Eq)]
pub struct Pestana {
    pub atajo: &'static str,
    pub nombre: &'static str,
    pub corto: &'static str,
}

/// Los textos de una pestaña: atajo, nombre y nombre corto.
pub open spec fn vista_pestana(p: Pestana) -> (Seq<char>, Seq<char>, Seq<char>) {
    (p.atajo@, p.nombre@, p.corto@)
}

/// Los textos de la pestaña de cada opción que tiene una.
pub open spec fn textos_pestana(o: OpcionMenu) -> Option<(Seq<char>, Seq<char>, Seq<char>)> {
    match o {
        OpcionMenu::NuevoIngreso => Some(("1"@, "Nuevo ingreso"@, "Nuevo"@)),
        OpcionMenu::IngresosActivos => Some(("2"@, "Ingresos activos"@, "Activos"@)),
        OpcionMenu::Historial => Some(("3"@, "Historial"@, "Hist."@)),
        OpcionMenu::Contratistas => Some(("4"@, "Contratistas"@, "Contr."@)),
        OpcionMenu::Empresas => Some(("5"@, "Empresas"@, "Emp."@)),
        OpcionMenu::Usuarios => Some(("6"@, "Usuarios"@, "Usr."@)),
        OpcionMenu::Auditoria => Some(("7"@, "Auditoría"@, "Aud."@)),
        OpcionMenu::Respaldos => Some(("8"@, "Respaldos"@, "Resp."@)),
        OpcionMenu::CambiarPassword => Some(("9"@, "Mi contraseña"@, "Clave"@)),
        _ => None,
    }
}

/// La barra de pestañas de un rol y cuál está activa.
#[derive(Clone, Debug, PartialEq, Eq)]
pub struct BarraPestanas {
    pub pestanas: Vec<Pestana>,
    pub seleccion: usize,
}

/// Todas las opciones, en el orden del menú.
pub open spec fn todas() -> Seq<OpcionMenu> {
    seq![
        OpcionMenu::NuevoIngreso,
        OpcionMenu::IngresosActivos,
        OpcionMenu::Historial,
        OpcionMenu::Contratistas,
        OpcionMenu::Empresas,
        OpcionMenu::Usuarios,
        OpcionMenu::Auditoria,
        OpcionMenu::Respaldos,
        OpcionMenu::CambiarPassword,
        OpcionMenu::GestionGafetes,
        OpcionMenu::Cli,
        OpcionMenu::CerrarSesion,
        OpcionMenu::Salir,
    ]
}

/// Usuarios y Auditoría no son para operadores; Respaldos sólo para ROOT.
pub open spec fn visible(o: OpcionMenu, rol: RolUsuario) -> bool {
    match o {
        OpcionMenu::Usuarios | OpcionMenu::Auditoria => rol != RolUsuario::Operador,
        OpcionMenu::Respaldos => rol == RolUsuario::Root,
        _ => true,
    }
}

/// Posición de una opción en la barra de pestañas (las que tienen atajo
/// numérico).
pub open spec fn indice_de_pestana(o: OpcionMenu) -> Option<usize> {
    match o {
        OpcionMenu::NuevoIngreso => Some(0),
        OpcionMenu::IngresosActivos => Some(1),
        OpcionMenu::Historial => Some(2),
        OpcionMenu::Contratistas => Some(3),
        OpcionMenu::Empresas => Some(4),
        OpcionMenu::Usuarios => Some(5),
        OpcionMenu::Auditoria => Some(6),
        OpcionMenu::Respaldos => Some(7),
        OpcionMenu::CambiarPassword => Some(8),
        _ => None,
    }
}

/// La opción de un atajo numérico.
pub open spec fn opcion_de_atajo(c: char) -> Option<OpcionMenu> {
    if c == '1' {
        Some(OpcionMenu::NuevoIngreso)
    } else if c == '2' {
        Some(OpcionMenu::IngresosActivos)
    } else if c == '3' {
        Some(OpcionMenu::Historial)
    } else if c == '4' {
        Some(OpcionMenu::Contratistas)
    } else if c == '5' {
        Some(OpcionMenu::Empresas)
    } else if c == '6' {
        Some(OpcionMenu::Usuarios)
    } else if c == '7' {
        Some(OpcionMenu::Auditoria)
    } else if c == '8' {
        Some(OpcionMenu::Respaldos)
    } else if c == '9' {
        Some(OpcionMenu::CambiarPassword)
    } else {
        None
    }
}

/// Las opciones de `s` que cumplen `p`, en orden.
pub open spec fn filtradas(s: Seq<OpcionMenu>, rol: RolUsuario, solo_pestanas: bool) -> Seq<
    OpcionMenu,
>
    decreases s.len(),
{
    if s.len() == 0 {
        Seq::empty()
    } else {
        let resto = filtradas(s.drop_last(), rol, solo_pestanas);
        if visible(s.last(), rol) && (!solo_pestanas || indice_de_pestana(s.last()) is Some) {
            resto.push(s.last())
        } else {
            resto
        }
    }
}

/// Las opciones que ve un rol.
pub open spec fn visibles_de(rol: RolUsuario) -> Seq<OpcionMenu> {
    filtradas(todas(), rol, false)
}

/// Qué ve cada rol, en el orden del menú: ROOT todo; un administrador todo
/// menos Respaldos; un operador todo menos Usuarios, Auditoría y Respaldos.
/// Mi contraseña la ven todos.
pub proof fn ley_opciones_por_rol()
    ensures
        visibles_de(RolUsuario::Root) == todas(),
        visibles_de(RolUsuario::Administrador) == seq![
            OpcionMenu::NuevoIngreso,
            OpcionMenu::IngresosActivos,
            OpcionMenu::Historial,
            OpcionMenu::Contratistas,
            OpcionMenu::Empresas,
            OpcionMenu::Usuarios,
            OpcionMenu::Auditoria,
            OpcionMenu::CambiarPassword,
            OpcionMenu::GestionGafetes,
            OpcionMenu::Cli,
            OpcionMenu::CerrarSesion,
            OpcionMenu::Salir,
        ],
        visibles_de(RolUsuario::Operador) == seq![
            OpcionMenu::NuevoIngreso,
            OpcionMenu::IngresosActivos,
            OpcionMenu::Historial,
            OpcionMenu::Contratistas,
            OpcionMenu::Empresas,
            OpcionMenu::CambiarPassword,
            OpcionMenu::GestionGafetes,
            OpcionMenu::Cli,
            OpcionMenu::CerrarSesion,
            OpcionMenu::Salir,
        ],
{
    reveal_with_fuel(filtradas, 14);
    assert(visibles_de(RolUsuario::Root) =~= todas());
    assert(visibles_de(RolUsuario::Administrador) =~= seq![
        OpcionMenu::NuevoIngreso,
        OpcionMenu::IngresosActivos,
        OpcionMenu::Historial,
        OpcionMenu::Contratistas,
        OpcionMenu::Empresas,
        OpcionMenu::Usuarios,
        OpcionMenu::Auditoria,
        OpcionMenu::CambiarPassword,
        OpcionMenu::GestionGafetes,
        OpcionMenu::Cli,
        OpcionMenu::CerrarSesion,
        OpcionMenu::Salir,
    ]);
    assert(visibles_de(RolUsuario::Operador) =~= seq![
        OpcionMenu::NuevoIngreso,
        OpcionMenu::IngresosActivos,
        OpcionMenu::Historial,
        OpcionMenu::Contratistas,
        OpcionMenu::Empresas,
        OpcionMenu::CambiarPassword,
        OpcionMenu::GestionGafetes,
        OpcionMenu::Cli,
        OpcionMenu::CerrarSesion,
        OpcionMenu::Salir,
    ]);
}

/// Las pestañas que ve un rol.
pub open spec fn pestanas_de(rol: RolUsuario) -> Seq<OpcionMenu> {
    filtradas(todas(), rol, true)
}

/// La posición `i` de `s` tiene `o`.
pub open spec fn es_o(s: Seq<OpcionMenu>, o: OpcionMenu) -> spec_fn(int) -> bool {
    |i: int| s[i] == o
}

/// Posición de la primera aparición de `o` en `s`, o 0.
pub open spec fn posicion_o_cero(s: Seq<OpcionMenu>, o: OpcionMenu) -> int {
    match primero(s.len() as int, es_o(s, o)) {
        Some(i) => i,
        None => 0,
    }
}

pub proof fn lema_filtradas(s: Seq<OpcionMenu>, rol: RolUsuario, solo: bool)
    ensures
        forall|i: int|
            0 <= i < filtradas(s, rol, solo).len() ==> visible(
                #[trigger] filtradas(s, rol, solo)[i],
                rol,
            ) && s.contains(filtradas(s, rol, solo)[i]) && (solo ==> indice_de_pestana(
                filtradas(s, rol, solo)[i],
            ) is Some),
        filtradas(s, rol, solo).len() <= s.len(),
    decreases s.len(),
{
    if s.len() > 0 {
        lema_filtradas(s.drop_last(), rol, solo);
        let r = filtradas(s.drop_last(), rol, solo);
        assert forall|i: int| 0 <= i < r.len() implies s.contains(#[trigger] r[i]) by {
            let j = choose|j: int| 0 <= j < s.drop_last().len() && s.drop_last()[j] == r[i];
            assert(s[j] == r[i]);
        }
        assert(s[s.len() - 1] == s.last());
    }
}

proof fn lema_posicion(s: Seq<OpcionMenu>, o: OpcionMenu)
    ensures
        0 <= posicion_o_cero(s, o),
        s.len() > 0 ==> posicion_o_cero(s, o) < s.len(),
        s.contains(o) ==> s[posicion_o_cero(s, o)] == o,
{
    let p = es_o(s, o);
    if exists|i: int| es_primero(s.len() as int, p, i) {
        let i = choose|i: int| es_primero(s.len() as int, p, i);
        lema_primero(s.len() as int, p, i);
    } else if s.contains(o) {
        let j = choose|j: int| 0 <= j < s.len() && s[j] == o;
        assert(p(j));
        lema_hay_primero(s.len() as int, p, j);
    }
}

/// Si alguna posición cumple `p`, hay una primera.
proof fn lema_hay_primero(n: int, p: spec_fn(int) -> bool, j: int)
    requires
        0 <= j < n,
        p(j),
    ensures
        exists|i: int| es_primero(n, p, i),
    decreases j,
{
    if exists|k: int| 0 <= k < j && #[trigger] p(k) {
        let k = choose|k: int| 0 <= k < j && #[trigger] p(k);
        lema_hay_primero(n, p, k);
    } else {
        assert(es_primero(n, p, j));
    }
}

impl OpcionMenu {
    pub fn todas() -> (r: Vec<OpcionMenu>)
        ensures
            r@ == todas(),
    {
        let r = vec![
            OpcionMenu::NuevoIngreso,
            OpcionMenu::IngresosActivos,
            OpcionMenu::Historial,
            OpcionMenu::Contratistas,
            OpcionMenu::Empresas,
            OpcionMenu::Usuarios,
            OpcionMenu::Auditoria,
            OpcionMenu::Respaldos,
            OpcionMenu::CambiarPassword,
            OpcionMenu::GestionGafetes,
            OpcionMenu::Cli,
            OpcionMenu::CerrarSesion,
            OpcionMenu::Salir,
        ];
        assert(r@ =~= todas());
        r
    }

    pub fn etiqueta(self) -> (r: &'static str)
        ensures
            r@ == (match self {
                OpcionMenu::NuevoIngreso => "1   Nuevo ingreso"@,
                OpcionMenu::IngresosActivos => "2   Ingresos activos"@,
                OpcionMenu::Historial => "3   Historial"@,
                OpcionMenu::Contratistas => "4   Contratistas"@,
                OpcionMenu::Empresas => "5   Empresas"@,
                OpcionMenu::Usuarios => "6   Usuarios"@,
                OpcionMenu::Auditoria => "7   Auditoría"@,
                OpcionMenu::Respaldos => "8   Respaldos"@,
                OpcionMenu::CambiarPassword => "9   Cambiar mi contraseña"@,
                OpcionMenu::GestionGafetes => "G   Gestión de gafetes"@,
                OpcionMenu::Cli => "M   Modo CLI"@,
                OpcionMenu::CerrarSesion => "L   Cerrar sesión"@,
                OpcionMenu::Salir => "Q   Salir"@,
            }),
    {
        match self {
            OpcionMenu::NuevoIngreso => "1   Nuevo ingreso",
            OpcionMenu::IngresosActivos => "2   Ingresos activos",
            OpcionMenu::Historial => "3   Historial",
            OpcionMenu::Contratistas => "4   Contratistas",
            OpcionMenu::Empresas => "5   Empresas",
            OpcionMenu::Usuarios => "6   Usuarios",
            OpcionMenu::Auditoria => "7   Auditoría",
            OpcionMenu::Respaldos => "8   Respaldos",
            OpcionMenu::CambiarPassword => "9   Cambiar mi contraseña",
            OpcionMenu::GestionGafetes => "G   Gestión de gafetes",
            OpcionMenu::Cli => "M   Modo CLI",
            OpcionMenu::CerrarSesion => "L   Cerrar sesión",
            OpcionMenu::Salir => "Q   Salir",
        }
    }

    pub fn descripcion(self) -> (r: &'static str)
        ensures
            r@ == (match self {
                OpcionMenu::NuevoIngreso => "Registrar la entrada de un contratista."@,
                OpcionMenu::IngresosActivos => "Consultar personas actualmente dentro."@,
                OpcionMenu::Historial => "Consultar movimientos de ingreso y salida."@,
                OpcionMenu::Contratistas => "Administrar la base de contratistas."@,
                OpcionMenu::Empresas => "Administrar empresas registradas."@,
                OpcionMenu::Usuarios => "Administrar usuarios del sistema."@,
                OpcionMenu::CambiarPassword => "Actualizar la contraseña de la sesión actual."@,
                OpcionMenu::Auditoria => "Consultar cambios en campos críticos de contratistas."@,
                OpcionMenu::Respaldos => "Crear, validar, exportar y restaurar respaldos."@,
                OpcionMenu::GestionGafetes => "Catálogo de gafetes: alta, baja, pérdidas y deudas."@,
                OpcionMenu::Cli => "Reiniciar en la interfaz CLI y dejarla como default."@,
                OpcionMenu::CerrarSesion => "Volver a la pantalla de autenticación."@,
                OpcionMenu::Salir => "Cerrar BRISAS CLI."@,
            }),
    {
        match self {
            OpcionMenu::NuevoIngreso => "Registrar la entrada de un contratista.",
            OpcionMenu::IngresosActivos => "Consultar personas actualmente dentro.",
            OpcionMenu::Historial => "Consultar movimientos de ingreso y salida.",
            OpcionMenu::Contratistas => "Administrar la base de contratistas.",
            OpcionMenu::Empresas => "Administrar empresas registradas.",
            OpcionMenu::Usuarios => "Administrar usuarios del sistema.",
            OpcionMenu::CambiarPassword => "Actualizar la contraseña de la sesión actual.",
            OpcionMenu::Auditoria => "Consultar cambios en campos críticos de contratistas.",
            OpcionMenu::Respaldos => "Crear, validar, exportar y restaurar respaldos.",
            OpcionMenu::GestionGafetes => "Catálogo de gafetes: alta, baja, pérdidas y deudas.",
            OpcionMenu::Cli => "Reiniciar en la interfaz CLI y dejarla como default.",
            OpcionMenu::CerrarSesion => "Volver a la pantalla de autenticación.",
            OpcionMenu::Salir => "Cerrar BRISAS CLI.",
        }
    }

    /// Si el rol puede ver (y abrir) la opción.
    pub fn visible_para(self, rol: RolUsuario) -> (r: bool)
        ensures
            r == visible(self, rol),
    {
        match self {
            OpcionMenu::Usuarios | OpcionMenu::Auditoria => rol != RolUsuario::Operador,
            OpcionMenu::Respaldos => rol == RolUsuario::Root,
            _ => true,
        }
    }

    fn filtrar(rol: RolUsuario, solo_pestanas: bool) -> (r: Vec<OpcionMenu>)
        ensures
            r@ == filtradas(todas(), rol, solo_pestanas),
    {
        let t = OpcionMenu::todas();
        let mut r: Vec<OpcionMenu> = Vec::new();
        let mut k: usize = 0;
        while k < t.len()
            invariant
                k <= t.len(),
                t@ == todas(),
                r@ == filtradas(t@.take(k as int), rol, solo_pestanas),
            decreases t.len() - k,
        {
            proof {
                assert(t@.take(k + 1).drop_last() =~= t@.take(k as int));
            }
            let o = t[k];
            if o.visible_para(rol) && (!solo_pestanas || o.indice_pestana().is_some()) {
                r.push(o);
            }
            k += 1;
        }
        proof {
            assert(t@.take(t@.len() as int) =~= t@);
        }
        r
    }

    /// Las opciones que ve un rol, en el orden del menú.
    pub fn visibles_para(rol: RolUsuario) -> (r: Vec<OpcionMenu>)
        ensures
            r@ == visibles_de(rol),
    {
        OpcionMenu::filtrar(rol, false)
    }

    /// Las pestañas que ve un rol, en orden.
    pub fn pestanas_para(rol: RolUsuario) -> (r: Vec<OpcionMenu>)
        ensures
            r@ == pestanas_de(rol),
    {
        OpcionMenu::filtrar(rol, true)
    }

    /// La opción de un atajo numérico.
    pub fn desde_atajo(c: char) -> (r: Option<OpcionMenu>)
        ensures
            r == opcion_de_atajo(c),
    {
        match c {
            '1' => Some(OpcionMenu::NuevoIngreso),
            '2' => Some(OpcionMenu::IngresosActivos),
            '3' => Some(OpcionMenu::Historial),
            '4' => Some(OpcionMenu::Contratistas),
            '5' => Some(OpcionMenu::Empresas),
            '6' => Some(OpcionMenu::Usuarios),
            '7' => Some(OpcionMenu::Auditoria),
            '8' => Some(OpcionMenu::Respaldos),
            '9' => Some(OpcionMenu::CambiarPassword),
            _ => None,
        }
    }

    pub fn indice_pestana(self) -> (r: Option<usize>)
        ensures
            r == indice_de_pestana(self),
    {
        match self {
            OpcionMenu::NuevoIngreso => Some(0),
            OpcionMenu::IngresosActivos => Some(1),
            OpcionMenu::Historial => Some(2),
            OpcionMenu::Contratistas => Some(3),
            OpcionMenu::Empresas => Some(4),
            OpcionMenu::Usuarios => Some(5),
            OpcionMenu::Auditoria => Some(6),
            OpcionMenu::Respaldos => Some(7),
            OpcionMenu::CambiarPassword => Some(8),
            _ => None,
        }
    }

    /// La pestaña de la opción (atajo, nombre, nombre corto), si tiene.
    pub fn pestana(self) -> (r: Option<Pestana>)
        ensures
            r is Some <==> indice_de_pestana(self) is Some,
            match r {
                Some(p) => textos_pestana(self) == Some(vista_pestana(p)),
                None => textos_pestana(self) is None,
            },
    {
        match self {
            OpcionMenu::NuevoIngreso => Some(Pestana { atajo: "1", nombre: "Nuevo ingreso", corto: "Nuevo" }),
            OpcionMenu::IngresosActivos => Some(Pestana { atajo: "2", nombre: "Ingresos activos", corto: "Activos" }),
            OpcionMenu::Historial => Some(Pestana { atajo: "3", nombre: "Historial", corto: "Hist." }),
            OpcionMenu::Contratistas => Some(Pestana { atajo: "4", nombre: "Contratistas", corto: "Contr." }),
            OpcionMenu::Empresas => Some(Pestana { atajo: "5", nombre: "Empresas", corto: "Emp." }),
            OpcionMenu::Usuarios => Some(Pestana { atajo: "6", nombre: "Usuarios", corto: "Usr." }),
            OpcionMenu::Auditoria => Some(Pestana { atajo: "7", nombre: "Auditoría", corto: "Aud." }),
            OpcionMenu::Respaldos => Some(Pestana { atajo: "8", nombre: "Respaldos", corto: "Resp." }),
            OpcionMenu::CambiarPassword => Some(Pestana { atajo: "9", nombre: "Mi contraseña", corto: "Clave" }),
            _ => None,
        }
    }

    /// La barra de pestañas de un rol con `activa` seleccionada (la
    /// primera si no está entre ellas).
    pub fn barra_pestanas(rol: RolUsuario, activa: OpcionMenu) -> (b: BarraPestanas)
        ensures
            b.pestanas@.len() == pestanas_de(rol).len(),
            b.seleccion == posicion_o_cero(pestanas_de(rol), activa),
            forall|i: int|
                0 <= i < b.pestanas@.len() ==> textos_pestana(pestanas_de(rol)[i]) == Some(
                    vista_pestana(#[trigger] b.pestanas@[i]),
                ),
    {
        let opciones = OpcionMenu::pestanas_para(rol);
        let seleccion = posicion(opciones.as_slice(), activa);
        let mut pestanas: Vec<Pestana> = Vec::new();
        let mut k: usize = 0;
        while k < opciones.len()
            invariant
                k <= opciones.len(),
                opciones@ == pestanas_de(rol),
                pestanas@.len() == k,
                forall|i: int|
                    0 <= i < k ==> textos_pestana(opciones@[i]) == Some(
                        vista_pestana(#[trigger] pestanas@[i]),
                    ),
            decreases opciones.len() - k,
        {
            proof {
                lema_filtradas(todas(), rol, true);
                assert(indice_de_pestana(opciones@[k as int]) is Some);
            }
            match opciones[k].pestana() {
                Some(p) => pestanas.push(p),
                None => {},
            }
            k += 1;
        }
        BarraPestanas { pestanas, seleccion }
    }
}

/// Posición de la primera aparición, o 0.
fn posicion(s: &[OpcionMenu], o: OpcionMenu) -> (r: usize)
    ensures
        r == posicion_o_cero(s@, o),
{
    let ghost p = es_o(s@, o);
    let mut k: usize = 0;
    while k < s.len()
        invariant
            k <= s.len(),
            p == es_o(s@, o),
            forall|j: int| 0 <= j < k ==> !#[trigger] p(j),
        decreases s.len() - k,
    {
        if s[k] == o {
            proof {
                assert(es_primero(s@.len() as int, p, k as int));
                lema_primero(s@.len() as int, p, k as int);
            }
            return k;
        }
        assert(!p(k as int));
        k += 1;
    }
    proof {
        lema_ninguno(s@.len() as int, p);
    }
    0
}

/// Lo que hace una tecla en el menú (sin confirmación pendiente).
pub open spec fn tecla_menu(
    viejo: MenuPrincipalState,
    nuevo: MenuPrincipalState,
    k: Tecla,
    rol: RolUsuario,
    a: AccionMenu,
) -> bool {
    let vis = visibles_de(rol);
    &&& nuevo.fallo_respaldo_automatico == viejo.fallo_respaldo_automatico
    &&& if k.codigo == Codigo::Up || k.codigo == Codigo::Down {
        let actual = posicion_o_cero(vis, viejo.seleccion);
        let n = if k.codigo == Codigo::Up {
            if actual > 0 {
                actual - 1
            } else {
                0
            }
        } else if actual + 1 < vis.len() {
            actual + 1
        } else {
            vis.len() - 1
        };
        a == AccionMenu::Ninguna && nuevo.seleccion == vis[n] && nuevo.confirmacion
            == viejo.confirmacion
    } else if k.codigo == Codigo::Enter {
        &&& nuevo.seleccion == viejo.seleccion
        &&& match viejo.seleccion {
            OpcionMenu::CerrarSesion => a == AccionMenu::Ninguna && nuevo.confirmacion == Some(
                ConfirmacionMenu::CerrarSesion,
            ),
            OpcionMenu::Salir => a == AccionMenu::Ninguna && nuevo.confirmacion == Some(
                ConfirmacionMenu::Salir,
            ),
            OpcionMenu::Cli => a == AccionMenu::Ninguna && nuevo.confirmacion == Some(
                ConfirmacionMenu::Cli,
            ),
            o => a == AccionMenu::Abrir(o) && nuevo.confirmacion == viejo.confirmacion,
        }
    } else {
        &&& nuevo.seleccion == viejo.seleccion
        &&& match k.codigo {
            Codigo::Char(c) => match opcion_de_atajo(c) {
                Some(o) => nuevo.confirmacion == viejo.confirmacion && a == (if visible(o, rol) {
                    AccionMenu::Abrir(o)
                } else {
                    AccionMenu::Ninguna
                }),
                None => if c == 'g' || c == 'G' {
                    a == AccionMenu::Abrir(OpcionMenu::GestionGafetes) && nuevo.confirmacion
                        == viejo.confirmacion
                } else if c == 'm' || c == 'M' {
                    a == AccionMenu::Ninguna && nuevo.confirmacion == Some(ConfirmacionMenu::Cli)
                } else if c == 'l' || c == 'L' {
                    a == AccionMenu::Ninguna && nuevo.confirmacion == Some(
                        ConfirmacionMenu::CerrarSesion,
                    )
                } else if c == 'q' || c == 'Q' {
                    a == AccionMenu::Ninguna && nuevo.confirmacion == Some(ConfirmacionMenu::Salir)
                } else {
                    a == AccionMenu::Ninguna && nuevo.confirmacion == viejo.confirmacion
                },
            },
            _ => a == AccionMenu::Ninguna && nuevo.confirmacion == viejo.confirmacion,
        }
    }
}

impl Default for MenuPrincipalState {
    fn default() -> (s: MenuPrincipalState)
        ensures
            s.seleccion == OpcionMenu::NuevoIngreso,
            s.confirmacion is None,
            !s.ayuda_expandida,
            s.fallo_respaldo_automatico is None,
    {
        MenuPrincipalState {
            seleccion: OpcionMenu::NuevoIngreso,
            confirmacion: None,
            ayuda_expandida: false,
            fallo_respaldo_automatico: None,
        }
    }
}

impl MenuPrincipalState {
    /// Al iniciar sesión: primera opción y sin confirmaciones.
    pub fn nueva_sesion(&mut self)
        ensures
            final(self).seleccion == OpcionMenu::NuevoIngreso,
            final(self).confirmacion is None,
            final(self).fallo_respaldo_automatico == old(self).fallo_respaldo_automatico,
            final(self).ayuda_expandida == old(self).ayuda_expandida,
    {
        self.seleccion = OpcionMenu::NuevoIngreso;
        self.confirmacion = None;
    }

    /// F1 alterna la ayuda; con una confirmación pendiente sólo Enter
    /// (confirma) y Esc (cancela) hacen algo; si no, mover, abrir o pedir
    /// confirmación. Una opción que el rol no ve no se abre por atajo, y la
    /// selección nunca sale de las que el rol ve.
    pub fn handle_key(&mut self, k: Tecla, rol: RolUsuario) -> (a: AccionMenu)
        ensures
            visible(old(self).seleccion, rol) ==> visible(final(self).seleccion, rol),
            visible(old(self).seleccion, rol) ==> (a matches AccionMenu::Abrir(o) ==> visible(o, rol)),
            es_ayuda(k) ==> a == AccionMenu::Ninguna && final(self).ayuda_expandida
                == !old(self).ayuda_expandida && final(self).seleccion == old(self).seleccion
                && final(self).confirmacion == old(self).confirmacion,
            !es_ayuda(k) ==> final(self).ayuda_expandida == old(self).ayuda_expandida,
            !es_ayuda(k) && old(self).confirmacion is Some ==> {
                &&& final(self).seleccion == old(self).seleccion
                &&& if k.codigo == Codigo::Enter {
                    &&& final(self).confirmacion is None
                    &&& a == (match old(self).confirmacion->0 {
                        ConfirmacionMenu::CerrarSesion => AccionMenu::CerrarSesion,
                        ConfirmacionMenu::Salir => AccionMenu::Salir,
                        ConfirmacionMenu::Cli => AccionMenu::Cli,
                    })
                } else if k.codigo == Codigo::Esc {
                    final(self).confirmacion is None && a == AccionMenu::Ninguna
                } else {
                    final(self).confirmacion == old(self).confirmacion && a == AccionMenu::Ninguna
                }
            },
            !es_ayuda(k) && old(self).confirmacion is None ==> tecla_menu(
                *old(self),
                *final(self),
                k,
                rol,
                a,
            ),
    {
        if comando_estandar(k).is_some() {
            self.ayuda_expandida = !self.ayuda_expandida;
            return AccionMenu::Ninguna;
        }
        if let Some(c) = self.confirmacion {
            return match k.codigo {
                Codigo::Enter => {
                    self.confirmacion = None;
                    match c {
                        ConfirmacionMenu::CerrarSesion => AccionMenu::CerrarSesion,
                        ConfirmacionMenu::Salir => AccionMenu::Salir,
                        ConfirmacionMenu::Cli => AccionMenu::Cli,
                    }
                },
                Codigo::Esc => {
                    self.confirmacion = None;
                    AccionMenu::Ninguna
                },
                _ => AccionMenu::Ninguna,
            };
        }
        let visibles = OpcionMenu::visibles_para(rol);
        proof {
            lema_filtradas(todas(), rol, false);
            assert(todas()[0] == OpcionMenu::NuevoIngreso);
            assert(visibles@.len() > 0) by {
                reveal_with_fuel(filtradas, 14);
            }
        }
        match k.codigo {
            Codigo::Up => {
                self.mover(-1, visibles.as_slice());
                AccionMenu::Ninguna
            },
            Codigo::Down => {
                self.mover(1, visibles.as_slice());
                AccionMenu::Ninguna
            },
            Codigo::Enter => self.abrir_seleccion(),
            Codigo::Char(c) => match OpcionMenu::desde_atajo(c) {
                Some(o) => {
                    if o.visible_para(rol) {
                        AccionMenu::Abrir(o)
                    } else {
                        AccionMenu::Ninguna
                    }
                },
                None => {
                    if c == 'g' || c == 'G' {
                        AccionMenu::Abrir(OpcionMenu::GestionGafetes)
                    } else if c == 'm' || c == 'M' {
                        self.confirmacion = Some(ConfirmacionMenu::Cli);
                        AccionMenu::Ninguna
                    } else if c == 'l' || c == 'L' {
                        self.confirmacion = Some(ConfirmacionMenu::CerrarSesion);
                        AccionMenu::Ninguna
                    } else if c == 'q' || c == 'Q' {
                        self.confirmacion = Some(ConfirmacionMenu::Salir);
                        AccionMenu::Ninguna
                    } else {
                        AccionMenu::Ninguna
                    }
                },
            },
            _ => AccionMenu::Ninguna,
        }
    }

    fn mover(&mut self, delta: isize, visibles: &[OpcionMenu])
        requires
            visibles@.len() > 0,
        ensures
            final(self).seleccion == visibles@[if delta < 0 {
                let a = posicion_o_cero(visibles@, old(self).seleccion);
                if a > 0 {
                    a - 1
                } else {
                    0
                }
            } else {
                let a = posicion_o_cero(visibles@, old(self).seleccion);
                if a + 1 < visibles@.len() {
                    a + 1
                } else {
                    visibles@.len() - 1
                }
            }],
            final(self).confirmacion == old(self).confirmacion,
            final(self).ayuda_expandida == old(self).ayuda_expandida,
            final(self).fallo_respaldo_automatico == old(self).fallo_respaldo_automatico,
    {
        let actual = posicion(visibles, self.seleccion);
        proof {
            lema_posicion(visibles@, self.seleccion);
        }
        let n = if delta < 0 {
            if actual > 0 {
                actual - 1
            } else {
                0
            }
        } else if actual < visibles.len() - 1 {
            actual + 1
        } else {
            visibles.len() - 1
        };
        self.seleccion = visibles[n];
    }

    fn abrir_seleccion(&mut self) -> (a: AccionMenu)
        ensures
            final(self).seleccion == old(self).seleccion,
            final(self).ayuda_expandida == old(self).ayuda_expandida,
            final(self).fallo_respaldo_automatico == old(self).fallo_respaldo_automatico,
            match old(self).seleccion {
                OpcionMenu::CerrarSesion => a == AccionMenu::Ninguna && final(self).confirmacion
                    == Some(ConfirmacionMenu::CerrarSesion),
                OpcionMenu::Salir => a == AccionMenu::Ninguna && final(self).confirmacion == Some(
                    ConfirmacionMenu::Salir,
                ),
                OpcionMenu::Cli => a == AccionMenu::Ninguna && final(self).confirmacion == Some(
                    ConfirmacionMenu::Cli,
                ),
                o => a == AccionMenu::Abrir(o) && final(self).confirmacion == old(self).confirmacion,
            },
    {
        match self.seleccion {
            OpcionMenu::CerrarSesion => {
                self.confirmacion = Some(ConfirmacionMenu::CerrarSesion);
                AccionMenu::Ninguna
            },
            OpcionMenu::Salir => {
                self.confirmacion = Some(ConfirmacionMenu::Salir);
                AccionMenu::Ninguna
            },
            OpcionMenu::Cli => {
                self.confirmacion = Some(ConfirmacionMenu::Cli);
                AccionMenu::Ninguna
            },
            o => AccionMenu::Abrir(o),
        }
    }
}

} // verus!
