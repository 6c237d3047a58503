//! Navegación entre pantallas: a qué pantalla lleva cada opción del menú,
//! el recorrido de pestañas con vuelta, los atajos Ctrl+número y qué pasa
//! con la pantalla al cambiar de tema.
use crate::consulta::{es_primero, lema_ninguno, lema_primero, primero};
use crate::menu_principal::{
    OpcionMenu, es_o, indice_de_pestana, lema_filtradas, opcion_de_atajo, pestanas_de, todas,
    visible,
};
use crate::configuracion::{ConfiguracionState, RespaldosState};
use crate::menu_principal::MenuPrincipalState;
use crate::modelos::{RolUsuario, UsuarioSesion};
use crate::cambio_password::AccionCambioPassword;
use crate::configuracion_inicial::AccionConfiguracion;
use crate::elegir_interfaz::AccionElegirInterfaz;
use crate::login::AccionLogin;
use crate::ui::{Codigo, Tecla};
use vstd::prelude::*;

verus! {

/// Pantalla activa.
#[derive(Clone, Copy, Debug, PartialEq, Eq, Structural)]
pub enum Vista {
    ConfiguracionInicial,
    Login,
    ElegirInterfaz,
    MenuPrincipal,
    IngresosActivos,
    Historial,
    Contratistas,
    Empresas,
    Usuarios,
    CambiarPassword,
    Auditoria,
    Respaldos,
    NuevoIngreso,
}

/// Cómo terminó el bucle principal: cierre normal, restauración de un
/// respaldo (con el archivo candidato), paso al modo de comandos con la
/// misma sesión, o reinicio con el modo de comandos como interfaz.
#[derive(Clone, Debug, PartialEq, Eq)]
pub enum SalidaApp {
    Cerrar,
    Restaurar { candidata: String },
    ModoComandos { sesion: UsuarioSesion },
    ReiniciarEnComandos,
}

/// La opción del menú que abre cada pantalla (las de entrada y el menú no
/// tienen).
pub open spec fn opcion_de_vista(v: Vista) -> Option<OpcionMenu> {
    match v {
        Vista::NuevoIngreso => Some(OpcionMenu::NuevoIngreso),
        Vista::IngresosActivos => Some(OpcionMenu::IngresosActivos),
        Vista::Historial => Some(OpcionMenu::Historial),
        Vista::Contratistas => Some(OpcionMenu::Contratistas),
        Vista::Empresas => Some(OpcionMenu::Empresas),
        Vista::Usuarios => Some(OpcionMenu::Usuarios),
        Vista::Auditoria => Some(OpcionMenu::Auditoria),
        Vista::Respaldos => Some(OpcionMenu::Respaldos),
        Vista::CambiarPassword => Some(OpcionMenu::CambiarPassword),
        Vista::ConfiguracionInicial | Vista::Login | Vista::ElegirInterfaz
        | Vista::MenuPrincipal => None,
    }
}

/// La pantalla que abre cada opción; las que no tienen pantalla propia
/// quedan en el menú.
pub open spec fn vista_de(o: OpcionMenu) -> Vista {
    match o {
        OpcionMenu::NuevoIngreso => Vista::NuevoIngreso,
        OpcionMenu::IngresosActivos => Vista::IngresosActivos,
        OpcionMenu::Historial => Vista::Historial,
        OpcionMenu::Contratistas => Vista::Contratistas,
        OpcionMenu::Empresas => Vista::Empresas,
        OpcionMenu::Usuarios => Vista::Usuarios,
        OpcionMenu::CambiarPassword => Vista::CambiarPassword,
        OpcionMenu::Auditoria => Vista::Auditoria,
        OpcionMenu::Respaldos => Vista::Respaldos,
        _ => Vista::MenuPrincipal,
    }
}

impl Vista {
    pub fn opcion_menu(self) -> (r: Option<OpcionMenu>)
        ensures
            r == opcion_de_vista(self),
    {
        match self {
            Vista::NuevoIngreso => Some(OpcionMenu::NuevoIngreso),
            Vista::IngresosActivos => Some(OpcionMenu::IngresosActivos),
            Vista::Historial => Some(OpcionMenu::Historial),
            Vista::Contratistas => Some(OpcionMenu::Contratistas),
            Vista::Empresas => Some(OpcionMenu::Empresas),
            Vista::Usuarios => Some(OpcionMenu::Usuarios),
            Vista::Auditoria => Some(OpcionMenu::Auditoria),
            Vista::Respaldos => Some(OpcionMenu::Respaldos),
            Vista::CambiarPassword => Some(OpcionMenu::CambiarPassword),
            _ => None,
        }
    }
}

pub fn vista_de_opcion(o: OpcionMenu) -> (v: Vista)
    ensures
        v == vista_de(o),
{
    match o {
        OpcionMenu::NuevoIngreso => Vista::NuevoIngreso,
        OpcionMenu::IngresosActivos => Vista::IngresosActivos,
        OpcionMenu::Historial => Vista::Historial,
        OpcionMenu::Contratistas => Vista::Contratistas,
        OpcionMenu::Empresas => Vista::Empresas,
        OpcionMenu::Usuarios => Vista::Usuarios,
        OpcionMenu::CambiarPassword => Vista::CambiarPassword,
        OpcionMenu::Auditoria => Vista::Auditoria,
        OpcionMenu::Respaldos => Vista::Respaldos,
        _ => Vista::MenuPrincipal,
    }
}

/// Posición de la primera aparición de `o` en `s`.
pub open spec fn posicion_opcion(s: Seq<OpcionMenu>, o: OpcionMenu) -> Option<int> {
    primero(s.len() as int, es_o(s, o))
}

/// La pestaña a `d` posiciones de la pantalla actual entre las pestañas
/// `visibles`, dando la vuelta en los extremos; ninguna si la pantalla no
/// es una de ellas.
pub open spec fn pestana_vecina_de(visibles: Seq<OpcionMenu>, actual: Vista, d: int) -> Option<
    OpcionMenu,
> {
    match opcion_de_vista(actual) {
        Some(o) => match posicion_opcion(visibles, o) {
            Some(i) => Some(visibles[(i + d) % (visibles.len() as int)]),
            None => None,
        },
        None => None,
    }
}

fn posicion_de(s: &Vec<OpcionMenu>, o: OpcionMenu) -> (r: Option<usize>)
    ensures
        match r {
            Some(i) => posicion_opcion(s@, o) == Some(i as int) && i < s@.len(),
            None => posicion_opcion(s@, o) is None,
        },
{
    let ghost p = es_o(s@, o);
    let mut k: usize = 0;
    while k < s.len()
        invariant
            k <= s.len(),
            p == es_o(s@, o),
            forall|j: int| 0 <= j < k ==> !#[trigger] p(j),
        decreases s.len() - k,
    {
        if s[k] == o {
            proof {
                assert(es_primero(s@.len() as int, p, k as int));
                lema_primero(s@.len() as int, p, k as int);
            }
            return Some(k);
        }
        assert(!p(k as int));
        k += 1;
    }
    proof {
        lema_ninguno(s@.len() as int, p);
    }
    None
}

/// La pestaña anterior (`d = -1`) o siguiente (`d = 1`) a la pantalla
/// actual entre las que ve el rol.
pub fn pestana_vecina(rol: RolUsuario, actual: Vista, d: isize) -> (r: Option<OpcionMenu>)
    requires
        d == 1 || d == -1,
    ensures
        r == pestana_vecina_de(pestanas_de(rol), actual, d as int),
{
    let o = match actual.opcion_menu() {
        Some(o) => o,
        None => {
            return None;
        },
    };
    let visibles = OpcionMenu::pestanas_para(rol);
    match posicion_de(&visibles, o) {
        Some(i) => {
            let n = visibles.len();
            let destino = if d < 0 {
                if i > 0 {
                    i - 1
                } else {
                    n - 1
                }
            } else if i + 1 < n {
                i + 1
            } else {
                0
            };
            proof {
                let q = i as int;
                let m = n as int;
                if d < 0 {
                    if i > 0 {
                        assert((q - 1) % m == q - 1) by (nonlinear_arith)
                            requires
                                0 < q < m,
                        ;
                    } else {
                        assert((q - 1) % m == m - 1) by (nonlinear_arith)
                            requires
                                q == 0,
                                m > 0,
                        ;
                    }
                } else if i + 1 < n {
                    assert((q + 1) % m == q + 1) by (nonlinear_arith)
                        requires
                            0 <= q,
                            q + 1 < m,
                    ;
                } else {
                    assert((q + 1) % m == 0) by (nonlinear_arith)
                        requires
                            q + 1 == m,
                            m > 0,
                    ;
                }
            }
            Some(visibles[destino])
        },
        None => None,
    }
}

/// Recorrer las pestañas nunca lleva a una pantalla que el rol no puede
/// ver, y siempre a una pestaña.
pub proof fn ley_pestana_vecina_visible(rol: RolUsuario, actual: Vista, d: int)
    ensures
        pestana_vecina_de(pestanas_de(rol), actual, d) matches Some(o) ==> visible(o, rol)
            && indice_de_pestana(o) is Some,
{
    lema_filtradas(todas(), rol, true);
    let s = pestanas_de(rol);
    if let Some(o) = opcion_de_vista(actual) {
        if let Some(i) = posicion_opcion(s, o) {
            let m = s.len() as int;
            assert(es_primero(m, es_o(s, o), i));
            assert(0 <= (i + d) % m < m) by (nonlinear_arith)
                requires
                    m > 0,
            ;
            assert(visible(s[(i + d) % m], rol));
        }
    }
}

/// Las pestañas de cada rol, en orden.
pub open spec fn pestanas_listadas(rol: RolUsuario) -> Seq<OpcionMenu> {
    match rol {
        RolUsuario::Operador => seq![
            OpcionMenu::NuevoIngreso,
            OpcionMenu::IngresosActivos,
            OpcionMenu::Historial,
            OpcionMenu::Contratistas,
            OpcionMenu::Empresas,
            OpcionMenu::CambiarPassword,
        ],
        RolUsuario::Administrador => seq![
            OpcionMenu::NuevoIngreso,
            OpcionMenu::IngresosActivos,
            OpcionMenu::Historial,
            OpcionMenu::Contratistas,
            OpcionMenu::Empresas,
            OpcionMenu::Usuarios,
            OpcionMenu::Auditoria,
            OpcionMenu::CambiarPassword,
        ],
        RolUsuario::Root => seq![
            OpcionMenu::NuevoIngreso,
            OpcionMenu::IngresosActivos,
            OpcionMenu::Historial,
            OpcionMenu::Contratistas,
            OpcionMenu::Empresas,
            OpcionMenu::Usuarios,
            OpcionMenu::Auditoria,
            OpcionMenu::Respaldos,
            OpcionMenu::CambiarPassword,
        ],
    }
}

proof fn lema_pestanas_listadas(rol: RolUsuario)
    ensures
        pestanas_de(rol) == pestanas_listadas(rol),
{
    reveal_with_fuel(crate::menu_principal::filtradas, 14);
    assert(pestanas_de(rol) =~= pestanas_listadas(rol));
}

proof fn lema_posicion_opcion(s: Seq<OpcionMenu>, j: int)
    requires
        0 <= j < s.len(),
        forall|a: int, b: int| 0 <= a < b < s.len() ==> #[trigger] s[a] != #[trigger] s[b],
    ensures
        posicion_opcion(s, s[j]) == Some(j),
{
    let p = es_o(s, s[j]);
    assert forall|i: int| 0 <= i < j implies !#[trigger] p(i) by {
        assert(s[i] != s[j]);
    }
    assert(es_primero(s.len() as int, p, j));
    lema_primero(s.len() as int, p, j);
}

/// Pasar a la pestaña siguiente y volver a la anterior regresa a la
/// pantalla de partida (y al revés).
pub proof fn ley_pestanas_ida_y_vuelta(rol: RolUsuario, v: Vista)
    requires
        opcion_de_vista(v) matches Some(o) && pestanas_de(rol).contains(o),
    ensures
        pestana_vecina_de(pestanas_de(rol), v, 1) matches Some(p) && pestana_vecina_de(
            pestanas_de(rol),
            vista_de(p),
            -1,
        ) == opcion_de_vista(v),
        pestana_vecina_de(pestanas_de(rol), v, -1) matches Some(p) && pestana_vecina_de(
            pestanas_de(rol),
            vista_de(p),
            1,
        ) == opcion_de_vista(v),
{
    lema_pestanas_listadas(rol);
    let s = pestanas_de(rol);
    let n = s.len() as int;
    let o = opcion_de_vista(v)->0;
    assert(forall|a: int, b: int| 0 <= a < b < s.len() ==> #[trigger] s[a] != #[trigger] s[b]);
    let j = choose|j: int| 0 <= j < n && s[j] == o;
    lema_posicion_opcion(s, j);
    let q = (j + 1) % n;
    let r = (j - 1) % n;
    assert(0 <= q < n && 0 <= r < n && (q - 1) % n == j && (r + 1) % n == j) by (nonlinear_arith)
        requires
            0 <= j < n,
            q == (j + 1) % n,
            r == (j - 1) % n,
    ;
    assert(opcion_de_vista(vista_de(s[q])) == Some(s[q]));
    assert(opcion_de_vista(vista_de(s[r])) == Some(s[r]));
    lema_posicion_opcion(s, q);
    lema_posicion_opcion(s, r);
}

/// Si `o` está entre las pestañas del rol.
fn es_pestana_de(rol: RolUsuario, o: OpcionMenu) -> (r: bool)
    ensures
        r == pestanas_de(rol).contains(o),
{
    let visibles = OpcionMenu::pestanas_para(rol);
    let mut k: usize = 0;
    while k < visibles.len()
        invariant
            k <= visibles.len(),
            visibles@ == pestanas_de(rol),
            forall|j: int| 0 <= j < k ==> visibles@[j] != o,
        decreases visibles.len() - k,
    {
        if visibles[k] == o {
            assert(visibles@[k as int] == o);
            return true;
        }
        k += 1;
    }
    false
}

/// Ir a la pestaña `o`: sólo si el rol la ve. Devuelve la pantalla y si es
/// la primera visita de la sesión (entonces la pantalla se prepara), y la
/// marca como visitada.
pub fn ir_a_pestana(rol: RolUsuario, o: OpcionMenu, visitadas: &mut Vec<bool>) -> (r: Option<(Vista, bool)>)
    requires
        old(visitadas)@.len() == 9,
    ensures
        final(visitadas)@.len() == 9,
        if pestanas_de(rol).contains(o) {
            let i = indice_de_pestana(o)->0 as int;
            &&& r == Some((vista_de(o), !old(visitadas)@[i]))
            &&& final(visitadas)@ == old(visitadas)@.update(i, true)
        } else {
            r is None && final(visitadas)@ == old(visitadas)@
        },
{
    if !es_pestana_de(rol, o) {
        return None;
    }
    proof {
        lema_filtradas(todas(), rol, true);
        let s = pestanas_de(rol);
        let j = choose|j: int| 0 <= j < s.len() && s[j] == o;
        assert(indice_de_pestana(s[j]) is Some);
    }
    let i = match o.indice_pestana() {
        Some(i) => i,
        None => {
            return None;
        },
    };
    let primera = !visitadas[i];
    visitadas.set(i, true);
    Some((vista_de_opcion(o), primera))
}

/// La opción a la que salta Ctrl+1…Ctrl+9 (sin Alt).
pub open spec fn atajo_de(k: Tecla) -> Option<OpcionMenu> {
    match k.codigo {
        Codigo::Char(c) => if k.control && !k.alt && '1' <= c && c <= '9' {
            opcion_de_atajo(c)
        } else {
            None
        },
        _ => None,
    }
}

pub fn atajo_de_pestana(k: Tecla) -> (r: Option<OpcionMenu>)
    ensures
        r == atajo_de(k),
{
    match k.codigo {
        Codigo::Char(c) => {
            if k.control && !k.alt && '1' <= c && c <= '9' {
                OpcionMenu::desde_atajo(c)
            } else {
                None
            }
        },
        _ => None,
    }
}

/// Qué hacer con la pantalla al cambiar de tema.
#[derive(Clone, Copy, Debug, PartialEq, Eq, Structural)]
pub enum CambioDeTema {
    /// Ir a esta pestaña (el tema navega por pestañas y se estaba en el
    /// menú).
    IrAPestana(OpcionMenu),
    /// Volver al menú con esta opción seleccionada (el tema usa menú y se
    /// estaba en una pantalla de pestaña).
    VolverAlMenu(OpcionMenu),
    Nada,
}

/// El menú y las pestañas no conviven: un tema con pestañas salta del menú
/// a la primera pestaña del rol; uno sin pestañas vuelve al menú desde una
/// pantalla de pestaña.
pub open spec fn cambio_de_tema(con_pestanas: bool, vista: Vista, rol: RolUsuario) -> CambioDeTema {
    if con_pestanas {
        if vista == Vista::MenuPrincipal && pestanas_de(rol).len() > 0 {
            CambioDeTema::IrAPestana(pestanas_de(rol)[0])
        } else {
            CambioDeTema::Nada
        }
    } else {
        match opcion_de_vista(vista) {
            Some(o) => CambioDeTema::VolverAlMenu(o),
            None => CambioDeTema::Nada,
        }
    }
}

pub fn al_cambiar_tema(con_pestanas: bool, vista: Vista, rol: RolUsuario) -> (r: CambioDeTema)
    ensures
        r == cambio_de_tema(con_pestanas, vista, rol),
{
    if con_pestanas {
        let visibles = OpcionMenu::pestanas_para(rol);
        if vista == Vista::MenuPrincipal && visibles.len() > 0 {
            CambioDeTema::IrAPestana(visibles[0])
        } else {
            CambioDeTema::Nada
        }
    } else {
        match vista.opcion_menu() {
            Some(o) => CambioDeTema::VolverAlMenu(o),
            None => CambioDeTema::Nada,
        }
    }
}

/// Adónde vuelve una pantalla de pestaña: a la primera pestaña del rol si
/// el tema navega por pestañas, o al menú (`None`).
pub fn destino_al_volver(con_pestanas: bool, rol: RolUsuario) -> (r: Option<OpcionMenu>)
    ensures
        r == (if con_pestanas && pestanas_de(rol).len() > 0 {
            Some(pestanas_de(rol)[0])
        } else {
            None
        }),
{
    if con_pestanas {
        let visibles = OpcionMenu::pestanas_para(rol);
        if visibles.len() > 0 {
            return Some(visibles[0]);
        }
    }
    None
}

/// Los comandos que la aplicación atiende desde cualquier pantalla, tal
/// como el teclado del sistema de la interfaz los reconoce.
#[derive(Clone, Copy, Debug, PartialEq, Eq, Structural)]
pub enum ComandoGlobal {
    SalidaEmergencia,
    CerrarSesion,
    Tema,
    PestanaAnterior,
    PestanaSiguiente,
    SalidaRapida,
}

/// El comando global de una tecla: F2 abre la salida rápida y F7 cambia el
/// tema; con Control y sin Alt, C sale, Q cierra la sesión y ←/→ recorren
/// las pestañas.
pub open spec fn comando_de_tecla(k: Tecla) -> Option<ComandoGlobal> {
    if k.codigo == Codigo::F(2) {
        Some(ComandoGlobal::SalidaRapida)
    } else if k.codigo == Codigo::F(7) {
        Some(ComandoGlobal::Tema)
    } else if !k.control || k.alt {
        None
    } else if k.codigo == Codigo::Char('c') || k.codigo == Codigo::Char('C') {
        Some(ComandoGlobal::SalidaEmergencia)
    } else if k.codigo == Codigo::Char('q') || k.codigo == Codigo::Char('Q') {
        Some(ComandoGlobal::CerrarSesion)
    } else if k.codigo == Codigo::Left {
        Some(ComandoGlobal::PestanaAnterior)
    } else if k.codigo == Codigo::Right {
        Some(ComandoGlobal::PestanaSiguiente)
    } else {
        None
    }
}

/// Reconoce el comando global de una tecla, si tiene uno.
pub fn comando_global(k: Tecla) -> (r: Option<ComandoGlobal>)
    ensures
        r == comando_de_tecla(k),
{
    match k.codigo {
        Codigo::F(2) => Some(ComandoGlobal::SalidaRapida),
        Codigo::F(7) => Some(ComandoGlobal::Tema),
        _ => {
            if !k.control || k.alt {
                None
            } else {
                match k.codigo {
                    Codigo::Char('c') | Codigo::Char('C') => Some(ComandoGlobal::SalidaEmergencia),
                    Codigo::Char('q') | Codigo::Char('Q') => Some(ComandoGlobal::CerrarSesion),
                    Codigo::Left => Some(ComandoGlobal::PestanaAnterior),
                    Codigo::Right => Some(ComandoGlobal::PestanaSiguiente),
                    _ => None,
                }
            }
        },
    }
}

/// Qué hace la aplicación con una tecla antes de dársela a la pantalla.
#[derive(Clone, Copy, Debug, PartialEq, Eq, Structural)]
pub enum DecisionGlobal {
    /// Terminar los trabajos pendientes y salir.
    Salir,
    /// Pedir confirmación para cerrar la sesión, en el menú principal.
    ConfirmarCierreSesion,
    /// Pasar al tema siguiente.
    CambiarTema,
    /// Ir a la pestaña anterior (`false`) o siguiente (`true`).
    MoverPestana(bool),
    /// Abrir la salida rápida.
    AbrirSalidaRapida,
    /// Saltar a la pestaña de esta opción (si el rol la ve).
    IrAPestana(OpcionMenu),
    /// La tecla es para la salida rápida abierta.
    ASalidaRapida,
    /// La tecla es para la pantalla activa.
    AVista,
}

/// La decisión sobre una tecla: salir y cambiar de tema siempre; cerrar
/// sesión y abrir la salida rápida con sesión (la salida rápida, si no está
/// ya abierta); recorrer pestañas y saltar con Ctrl+número con sesión, en un
/// tema con pestañas y sin la salida rápida abierta; si no, la tecla es de
/// la salida rápida abierta o de la pantalla.
pub open spec fn decision_global(
    k: Tecla,
    comando: Option<ComandoGlobal>,
    con_sesion: bool,
    con_pestanas: bool,
    salida_rapida_abierta: bool,
) -> DecisionGlobal {
    let navega = con_sesion && con_pestanas && !salida_rapida_abierta;
    if comando == Some(ComandoGlobal::SalidaEmergencia) {
        DecisionGlobal::Salir
    } else if comando == Some(ComandoGlobal::CerrarSesion) && con_sesion {
        DecisionGlobal::ConfirmarCierreSesion
    } else if comando == Some(ComandoGlobal::Tema) {
        DecisionGlobal::CambiarTema
    } else if comando == Some(ComandoGlobal::PestanaAnterior) && navega {
        DecisionGlobal::MoverPestana(false)
    } else if comando == Some(ComandoGlobal::PestanaSiguiente) && navega {
        DecisionGlobal::MoverPestana(true)
    } else if comando == Some(ComandoGlobal::SalidaRapida) && !salida_rapida_abierta
        && con_sesion {
        DecisionGlobal::AbrirSalidaRapida
    } else if navega && atajo_de(k) is Some {
        DecisionGlobal::IrAPestana(atajo_de(k)->0)
    } else if salida_rapida_abierta {
        DecisionGlobal::ASalidaRapida
    } else {
        DecisionGlobal::AVista
    }
}

/// Decide qué hacer con la tecla `k`, que el teclado reconoció como
/// `comando` (si es uno de los globales).
pub fn tecla_global(
    k: Tecla,
    comando: Option<ComandoGlobal>,
    con_sesion: bool,
    con_pestanas: bool,
    salida_rapida_abierta: bool,
) -> (d: DecisionGlobal)
    ensures
        d == decision_global(k, comando, con_sesion, con_pestanas, salida_rapida_abierta),
{
    let navega = con_sesion && con_pestanas && !salida_rapida_abierta;
    match comando {
        Some(ComandoGlobal::SalidaEmergencia) => {
            return DecisionGlobal::Salir;
        },
        Some(ComandoGlobal::CerrarSesion) => {
            if con_sesion {
                return DecisionGlobal::ConfirmarCierreSesion;
            }
        },
        Some(ComandoGlobal::Tema) => {
            return DecisionGlobal::CambiarTema;
        },
        Some(ComandoGlobal::PestanaAnterior) => {
            if navega {
                return DecisionGlobal::MoverPestana(false);
            }
        },
        Some(ComandoGlobal::PestanaSiguiente) => {
            if navega {
                return DecisionGlobal::MoverPestana(true);
            }
        },
        Some(ComandoGlobal::SalidaRapida) => {
            if !salida_rapida_abierta && con_sesion {
                return DecisionGlobal::AbrirSalidaRapida;
            }
        },
        None => {},
    }
    if navega {
        match atajo_de_pestana(k) {
            Some(o) => {
                return DecisionGlobal::IrAPestana(o);
            },
            None => {},
        }
    }
    if salida_rapida_abierta {
        DecisionGlobal::ASalidaRapida
    } else {
        DecisionGlobal::AVista
    }
}

/// Cada cuánto se revisa el respaldo automático diario, en milisegundos.
pub const REVISION_RESPALDO_AUTOMATICO_MS: u64 = 60_000;

/// Toca revisar el respaldo automático: nunca se revisó, o pasó el
/// intervalo desde la última revisión.
pub open spec fn toca_revision(ultima: Option<u64>, ahora: u64) -> bool {
    match ultima {
        None => true,
        Some(t) => ahora >= t && ahora - t >= REVISION_RESPALDO_AUTOMATICO_MS,
    }
}

/// Si en el instante `ahora` (ms) toca revisar el respaldo automático.
pub fn revisar_respaldo_ahora(ultima: Option<u64>, ahora: u64) -> (r: bool)
    ensures
        r == toca_revision(ultima, ahora),
{
    match ultima {
        None => true,
        Some(t) => ahora >= t && ahora - t >= REVISION_RESPALDO_AUTOMATICO_MS,
    }
}

/// Lo que informó la revisión del respaldo automático diario.
#[derive(Clone, Debug, PartialEq, Eq)]
pub enum EstadoRespaldoAutomatico {
    SinCambios,
    Creado,
    Fallo(String),
}

/// El fallo que deja una revisión: sólo el de un respaldo que falló.
pub open spec fn fallo_de_revision(e: EstadoRespaldoAutomatico) -> Option<String> {
    match e {
        EstadoRespaldoAutomatico::Fallo(m) => Some(m),
        _ => None,
    }
}

/// Anota el resultado de una revisión en el menú y en los ajustes, y dice si
/// cambia lo que se ve (el aviso del menú aparece o desaparece).
pub fn anotar_revision_respaldo(
    menu: &mut MenuPrincipalState,
    ajustes: &mut ConfiguracionState,
    estado: EstadoRespaldoAutomatico,
) -> (cambio: bool)
    ensures
        *final(menu) == (MenuPrincipalState {
            fallo_respaldo_automatico: fallo_de_revision(estado),
            ..*old(menu)
        }),
        *final(ajustes) == (ConfiguracionState {
            respaldos: RespaldosState {
                fallo_automatico: fallo_de_revision(estado),
                ..old(ajustes).respaldos
            },
            ..*old(ajustes)
        }),
        cambio == (fallo_de_revision(estado) is Some != old(menu).fallo_respaldo_automatico is Some),
{
    let (para_menu, para_ajustes) = match estado {
        EstadoRespaldoAutomatico::Fallo(m) => {
            let copia = m.clone();
            (Some(m), Some(copia))
        },
        _ => (None, None),
    };
    let cambio = para_menu.is_some() != menu.fallo_respaldo_automatico.is_some();
    menu.fallo_respaldo_automatico = para_menu;
    ajustes.respaldos.fallo_automatico = para_ajustes;
    cambio
}

/// Lo que respondió a una tecla la pantalla activa, en las pantallas cuya
/// respuesta decide la aplicación misma (las demás piden trabajo a la base).
#[derive(Debug)]
pub enum RespuestaPantalla {
    ConfiguracionInicial(AccionConfiguracion),
    Login(AccionLogin),
    ElegirInterfaz(AccionElegirInterfaz),
    CambioPassword(AccionCambioPassword),
}

/// Qué hace la aplicación con esa respuesta.
#[derive(Debug)]
pub enum DecisionVista {
    /// Nada que hacer fuera de la pantalla.
    Nada,
    /// Cerrar la aplicación.
    Salir,
    /// Verificar las credenciales.
    Autenticar { cedula: String, password: String },
    /// Ir al menú principal.
    AlMenu,
    /// Ir a la pestaña de esta opción.
    APestana(OpcionMenu),
    /// Terminar para seguir en el modo de comandos con esta sesión.
    ModoComandos(UsuarioSesion),
    /// Cambiar la contraseña propia.
    CambiarPassword { actual: String, nueva: String },
}

/// La decisión: salir donde la pantalla lo pide; autenticar; tras elegir la
/// interfaz, el menú (TUI) o el modo de comandos (sólo con sesión); al
/// volver del cambio de contraseña, la primera pestaña del rol en un tema
/// con pestañas o el menú; y el cambio de contraseña pedido.
pub open spec fn decision_de_vista(
    r: RespuestaPantalla,
    sesion: Option<UsuarioSesion>,
    con_pestanas: bool,
) -> DecisionVista {
    match r {
        RespuestaPantalla::ConfiguracionInicial(a) => if a == AccionConfiguracion::Salir {
            DecisionVista::Salir
        } else {
            DecisionVista::Nada
        },
        RespuestaPantalla::Login(a) => match a {
            AccionLogin::Ninguna => DecisionVista::Nada,
            AccionLogin::Salir => DecisionVista::Salir,
            AccionLogin::Autenticar { cedula, password } => DecisionVista::Autenticar {
                cedula,
                password,
            },
        },
        RespuestaPantalla::ElegirInterfaz(a) => match a {
            AccionElegirInterfaz::Ninguna => DecisionVista::Nada,
            AccionElegirInterfaz::Tui => DecisionVista::AlMenu,
            AccionElegirInterfaz::Cli => match sesion {
                Some(u) => DecisionVista::ModoComandos(u),
                None => DecisionVista::Nada,
            },
        },
        RespuestaPantalla::CambioPassword(a) => match a {
            AccionCambioPassword::Ninguna => DecisionVista::Nada,
            AccionCambioPassword::Volver => match sesion {
                Some(u) => if con_pestanas && pestanas_de(u.rol).len() > 0 {
                    DecisionVista::APestana(pestanas_de(u.rol)[0])
                } else {
                    DecisionVista::AlMenu
                },
                None => DecisionVista::AlMenu,
            },
            AccionCambioPassword::Cambiar { password_actual, nueva_password } =>
                DecisionVista::CambiarPassword { actual: password_actual, nueva: nueva_password },
        },
    }
}

/// Decide qué hace la aplicación con la respuesta de la pantalla activa.
pub fn tras_respuesta_de_pantalla(
    r: RespuestaPantalla,
    sesion: Option<UsuarioSesion>,
    con_pestanas: bool,
) -> (d: DecisionVista)
    ensures
        d == decision_de_vista(r, sesion, con_pestanas),
{
    match r {
        RespuestaPantalla::ConfiguracionInicial(a) => match a {
            AccionConfiguracion::Salir => DecisionVista::Salir,
            AccionConfiguracion::Ninguna => DecisionVista::Nada,
        },
        RespuestaPantalla::Login(a) => match a {
            AccionLogin::Ninguna => DecisionVista::Nada,
            AccionLogin::Salir => DecisionVista::Salir,
            AccionLogin::Autenticar { cedula, password } => DecisionVista::Autenticar {
                cedula,
                password,
            },
        },
        RespuestaPantalla::ElegirInterfaz(a) => match a {
            AccionElegirInterfaz::Ninguna => DecisionVista::Nada,
            AccionElegirInterfaz::Tui => DecisionVista::AlMenu,
            AccionElegirInterfaz::Cli => match sesion {
                Some(u) => DecisionVista::ModoComandos(u),
                None => DecisionVista::Nada,
            },
        },
        RespuestaPantalla::CambioPassword(a) => match a {
            AccionCambioPassword::Ninguna => DecisionVista::Nada,
            AccionCambioPassword::Volver => match sesion {
                Some(u) => match destino_al_volver(con_pestanas, u.rol) {
                    Some(o) => DecisionVista::APestana(o),
                    None => DecisionVista::AlMenu,
                },
                None => DecisionVista::AlMenu,
            },
            AccionCambioPassword::Cambiar { password_actual, nueva_password } =>
                DecisionVista::CambiarPassword { actual: password_actual, nueva: nueva_password },
        },
    }
}

} // verus!
