use brisas_tui::menu_principal::{AccionMenu, ConfirmacionMenu, MenuPrincipalState, OpcionMenu};
use brisas_tui::modelos::RolUsuario;
use brisas_tui::ui::{Codigo, Tecla};

fn k(c: Codigo) -> Tecla {
    Tecla::nueva(c)
}

#[test]
fn seleccion_inicial_movimiento_y_limites() {
    let mut s = MenuPrincipalState::default();
    assert_eq!(s.seleccion, OpcionMenu::NuevoIngreso);
    s.handle_key(k(Codigo::Up), RolUsuario::Root);
    assert_eq!(s.seleccion, OpcionMenu::NuevoIngreso);
    s.handle_key(k(Codigo::Down), RolUsuario::Root);
    assert_eq!(s.seleccion, OpcionMenu::IngresosActivos);
    s.handle_key(k(Codigo::Up), RolUsuario::Root);
    assert_eq!(s.seleccion, OpcionMenu::NuevoIngreso);
    for _ in 0..20 {
        s.handle_key(k(Codigo::Down), RolUsuario::Root);
    }
    assert_eq!(s.seleccion, OpcionMenu::Salir);
}

#[test]
fn enter_y_accesos_numericos_emiten_apertura_correcta() {
    let mut s = MenuPrincipalState::default();
    assert_eq!(
        s.handle_key(k(Codigo::Enter), RolUsuario::Root),
        AccionMenu::Abrir(OpcionMenu::NuevoIngreso)
    );
    for (c, opcion) in [
        ('1', OpcionMenu::NuevoIngreso),
        ('2', OpcionMenu::IngresosActivos),
        ('3', OpcionMenu::Historial),
        ('4', OpcionMenu::Contratistas),
        ('5', OpcionMenu::Empresas),
        ('6', OpcionMenu::Usuarios),
        ('7', OpcionMenu::Auditoria),
        ('8', OpcionMenu::Respaldos),
        ('9', OpcionMenu::CambiarPassword),
    ] {
        assert_eq!(s.handle_key(k(Codigo::Char(c)), RolUsuario::Root), AccionMenu::Abrir(opcion));
    }
}

#[test]
fn logout_confirma_o_cancela() {
    let mut s = MenuPrincipalState::default();
    s.handle_key(k(Codigo::Char('L')), RolUsuario::Root);
    assert_eq!(s.confirmacion, Some(ConfirmacionMenu::CerrarSesion));
    s.handle_key(k(Codigo::Char('N')), RolUsuario::Root);
    assert_eq!(s.confirmacion, Some(ConfirmacionMenu::CerrarSesion));
    s.handle_key(k(Codigo::Esc), RolUsuario::Root);
    assert_eq!(s.confirmacion, None);
    s.handle_key(k(Codigo::Char('L')), RolUsuario::Root);
    assert_eq!(s.handle_key(k(Codigo::Char('Y')), RolUsuario::Root), AccionMenu::Ninguna);
    assert_eq!(s.handle_key(k(Codigo::Enter), RolUsuario::Root), AccionMenu::CerrarSesion);
}

#[test]
fn salida_confirma_o_cancela_y_escape_raiz_no_hace_nada() {
    let mut s = MenuPrincipalState::default();
    assert_eq!(s.handle_key(k(Codigo::Esc), RolUsuario::Root), AccionMenu::Ninguna);
    s.handle_key(k(Codigo::Char('Q')), RolUsuario::Root);
    s.handle_key(k(Codigo::Esc), RolUsuario::Root);
    assert_eq!(s.confirmacion, None);
    s.handle_key(k(Codigo::Char('Q')), RolUsuario::Root);
    s.handle_key(k(Codigo::Char('N')), RolUsuario::Root);
    assert_eq!(s.confirmacion, Some(ConfirmacionMenu::Salir));
    s.handle_key(k(Codigo::Esc), RolUsuario::Root);
    assert_eq!(s.confirmacion, None);
    s.handle_key(k(Codigo::Char('Q')), RolUsuario::Root);
    assert_eq!(s.handle_key(k(Codigo::Char('Y')), RolUsuario::Root), AccionMenu::Ninguna);
    assert_eq!(s.handle_key(k(Codigo::Enter), RolUsuario::Root), AccionMenu::Salir);
}

#[test]
fn un_operador_no_ve_ni_puede_abrir_respaldos() {
    let visibles = OpcionMenu::visibles_para(RolUsuario::Operador);
    assert!(!visibles.contains(&OpcionMenu::Respaldos));
    let mut s = MenuPrincipalState::default();
    assert_eq!(s.handle_key(k(Codigo::Char('8')), RolUsuario::Operador), AccionMenu::Ninguna);
}

#[test]
fn un_administrador_no_ve_ni_puede_abrir_respaldos() {
    let visibles = OpcionMenu::visibles_para(RolUsuario::Administrador);
    assert!(!visibles.contains(&OpcionMenu::Respaldos));
    let mut s = MenuPrincipalState::default();
    assert_eq!(
        s.handle_key(k(Codigo::Char('8')), RolUsuario::Administrador),
        AccionMenu::Ninguna
    );
}

#[test]
fn todos_los_roles_pueden_abrir_cambio_de_password() {
    for rol in [RolUsuario::Root, RolUsuario::Administrador, RolUsuario::Operador] {
        assert!(OpcionMenu::visibles_para(rol).contains(&OpcionMenu::CambiarPassword));
        let mut state = MenuPrincipalState::default();
        assert_eq!(
            state.handle_key(k(Codigo::Char('9')), rol),
            AccionMenu::Abrir(OpcionMenu::CambiarPassword)
        );
    }
}

#[test]
fn auditoria_es_visible_para_administrador_y_root_pero_no_operador() {
    for rol in [RolUsuario::Root, RolUsuario::Administrador] {
        assert!(OpcionMenu::visibles_para(rol).contains(&OpcionMenu::Auditoria));
        let mut state = MenuPrincipalState::default();
        assert_eq!(
            state.handle_key(k(Codigo::Char('7')), rol),
            AccionMenu::Abrir(OpcionMenu::Auditoria)
        );
    }
    assert!(!OpcionMenu::visibles_para(RolUsuario::Operador).contains(&OpcionMenu::Auditoria));
}

#[test]
fn un_operador_no_ve_ni_puede_abrir_usuarios() {
    let visibles = OpcionMenu::visibles_para(RolUsuario::Operador);
    assert!(!visibles.contains(&OpcionMenu::Usuarios));
    let mut s = MenuPrincipalState::default();
    assert_eq!(s.handle_key(k(Codigo::Char('6')), RolUsuario::Operador), AccionMenu::Ninguna);
}

#[test]
fn un_administrador_si_ve_y_puede_abrir_usuarios() {
    let visibles = OpcionMenu::visibles_para(RolUsuario::Administrador);
    assert!(visibles.contains(&OpcionMenu::Usuarios));
    let mut s = MenuPrincipalState::default();
    assert_eq!(
        s.handle_key(k(Codigo::Char('6')), RolUsuario::Administrador),
        AccionMenu::Abrir(OpcionMenu::Usuarios)
    );
}

// Propias.

#[test]
fn pestanas_y_atajos_por_rol() {
    assert_eq!(OpcionMenu::pestanas_para(RolUsuario::Root).len(), 9);
    assert_eq!(OpcionMenu::pestanas_para(RolUsuario::Operador).len(), 6);
    let barra = OpcionMenu::barra_pestanas(RolUsuario::Operador, OpcionMenu::CambiarPassword);
    assert_eq!(barra.seleccion, 5);
    assert_eq!(barra.pestanas[5].corto, "Clave");
    let barra = OpcionMenu::barra_pestanas(RolUsuario::Operador, OpcionMenu::Respaldos);
    assert_eq!(barra.seleccion, 0);
    assert_eq!(OpcionMenu::desde_atajo('4'), Some(OpcionMenu::Contratistas));
    assert_eq!(OpcionMenu::desde_atajo('x'), None);
    assert_eq!(OpcionMenu::Salir.indice_pestana(), None);
    assert_eq!(OpcionMenu::Auditoria.etiqueta(), "7   Auditoría");
    assert_eq!(OpcionMenu::Salir.descripcion(), "Cerrar BRISAS CLI.");
}

#[test]
fn el_operador_recorre_solo_lo_que_ve() {
    let mut s = MenuPrincipalState::default();
    for _ in 0..5 {
        s.handle_key(k(Codigo::Down), RolUsuario::Operador);
    }
    assert_eq!(s.seleccion, OpcionMenu::CambiarPassword);
    s.handle_key(k(Codigo::Char('g')), RolUsuario::Operador);
    s.handle_key(k(Codigo::Char('M')), RolUsuario::Operador);
    assert_eq!(s.handle_key(k(Codigo::Enter), RolUsuario::Operador), AccionMenu::Cli);
    s.seleccion = OpcionMenu::Salir;
    s.nueva_sesion();
    assert_eq!(s.seleccion, OpcionMenu::NuevoIngreso);
}

#[test]
fn cada_pestana_lleva_su_atajo_nombre_y_nombre_corto() {
    let p = OpcionMenu::Auditoria.pestana().unwrap();
    assert_eq!((p.atajo, p.nombre, p.corto), ("7", "Auditoría", "Aud."));
    let p = OpcionMenu::CambiarPassword.pestana().unwrap();
    assert_eq!((p.atajo, p.nombre, p.corto), ("9", "Mi contraseña", "Clave"));
    assert!(OpcionMenu::GestionGafetes.pestana().is_none());
}

#[test]
fn la_barra_muestra_las_pestanas_del_rol_en_orden() {
    let barra = OpcionMenu::barra_pestanas(RolUsuario::Root, OpcionMenu::Historial);
    let nombres: Vec<&str> = barra.pestanas.iter().map(|p| p.nombre).collect();
    assert_eq!(nombres[0], "Nuevo ingreso");
    assert_eq!(nombres[2], "Historial");
    assert_eq!(barra.seleccion, 2);
    let cortos: Vec<&str> = barra.pestanas.iter().map(|p| p.corto).collect();
    assert_eq!(cortos[1], "Activos");
    let barra = OpcionMenu::barra_pestanas(RolUsuario::Root, OpcionMenu::GestionGafetes);
    assert_eq!(barra.seleccion, 0);
}

#[test]
fn cada_rol_ve_sus_opciones_en_orden() {
    assert_eq!(OpcionMenu::visibles_para(RolUsuario::Root).len(), 13);
    let admin = OpcionMenu::visibles_para(RolUsuario::Administrador);
    assert_eq!(admin.len(), 12);
    assert!(!admin.contains(&OpcionMenu::Respaldos));
    let op = OpcionMenu::visibles_para(RolUsuario::Operador);
    assert_eq!(op.len(), 10);
    assert!(!op.contains(&OpcionMenu::Usuarios) && !op.contains(&OpcionMenu::Auditoria));
    assert!(op.contains(&OpcionMenu::CambiarPassword));
}
