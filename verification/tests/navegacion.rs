use brisas_tui::cambio_password::AccionCambioPassword;
use brisas_tui::configuracion_inicial::AccionConfiguracion;
use brisas_tui::elegir_interfaz::AccionElegirInterfaz;
use brisas_tui::login::AccionLogin;
use brisas_tui::configuracion::ConfiguracionState;
use brisas_tui::menu_principal::{MenuPrincipalState, OpcionMenu};
use brisas_tui::modelos::{RolUsuario, UsuarioSesion};
use brisas_tui::navegacion::{
    al_cambiar_tema, atajo_de_pestana, destino_al_volver, ir_a_pestana, pestana_vecina,
    anotar_revision_respaldo, comando_global, revisar_respaldo_ahora, tecla_global,
    tras_respuesta_de_pantalla, DecisionVista, RespuestaPantalla, vista_de_opcion,
    CambioDeTema, EstadoRespaldoAutomatico, ComandoGlobal, DecisionGlobal, SalidaApp, Vista,
};
use brisas_tui::ui::{Codigo, Tecla};

fn ctrl(c: char) -> Tecla {
    Tecla { codigo: Codigo::Char(c), control: true, alt: false, shift: false }
}

#[test]
fn cada_pantalla_de_pestana_vuelve_a_su_opcion() {
    for o in [
        OpcionMenu::NuevoIngreso,
        OpcionMenu::IngresosActivos,
        OpcionMenu::Historial,
        OpcionMenu::Contratistas,
        OpcionMenu::Empresas,
        OpcionMenu::Usuarios,
        OpcionMenu::Auditoria,
        OpcionMenu::Respaldos,
        OpcionMenu::CambiarPassword,
    ] {
        assert_eq!(vista_de_opcion(o).opcion_menu(), Some(o));
    }
    assert_eq!(vista_de_opcion(OpcionMenu::Salir), Vista::MenuPrincipal);
    assert_eq!(Vista::Login.opcion_menu(), None);
}

#[test]
fn recorrer_pestanas_envuelve_y_respeta_el_rol() {
    assert_eq!(
        pestana_vecina(RolUsuario::Operador, Vista::NuevoIngreso, -1),
        Some(OpcionMenu::CambiarPassword)
    );
    assert_eq!(
        pestana_vecina(RolUsuario::Operador, Vista::Empresas, 1),
        Some(OpcionMenu::CambiarPassword)
    );
    assert_eq!(
        pestana_vecina(RolUsuario::Root, Vista::Empresas, 1),
        Some(OpcionMenu::Usuarios)
    );
    assert_eq!(
        pestana_vecina(RolUsuario::Root, Vista::CambiarPassword, 1),
        Some(OpcionMenu::NuevoIngreso)
    );
    assert_eq!(pestana_vecina(RolUsuario::Root, Vista::MenuPrincipal, 1), None);
    assert_eq!(pestana_vecina(RolUsuario::Operador, Vista::Usuarios, 1), None);
}

#[test]
fn ir_a_pestana_prepara_solo_la_primera_vez_y_respeta_el_rol() {
    let mut visitadas = vec![false; 9];
    assert_eq!(
        ir_a_pestana(RolUsuario::Operador, OpcionMenu::Historial, &mut visitadas),
        Some((Vista::Historial, true))
    );
    assert_eq!(
        ir_a_pestana(RolUsuario::Operador, OpcionMenu::Historial, &mut visitadas),
        Some((Vista::Historial, false))
    );
    assert_eq!(ir_a_pestana(RolUsuario::Operador, OpcionMenu::Usuarios, &mut visitadas), None);
    assert_eq!(ir_a_pestana(RolUsuario::Root, OpcionMenu::Salir, &mut visitadas), None);
    assert_eq!(visitadas.iter().filter(|v| **v).count(), 1);
}

#[test]
fn atajo_exige_ctrl_sin_alt_y_un_digito_de_uno_a_nueve() {
    assert_eq!(atajo_de_pestana(ctrl('3')), Some(OpcionMenu::Historial));
    assert_eq!(atajo_de_pestana(ctrl('0')), None);
    assert_eq!(atajo_de_pestana(Tecla::nueva(Codigo::Char('3'))), None);
    let mut con_alt = ctrl('3');
    con_alt.alt = true;
    assert_eq!(atajo_de_pestana(con_alt), None);
}

#[test]
fn cambiar_de_tema_alterna_entre_menu_y_pestanas() {
    assert_eq!(
        al_cambiar_tema(true, Vista::MenuPrincipal, RolUsuario::Operador),
        CambioDeTema::IrAPestana(OpcionMenu::NuevoIngreso)
    );
    assert_eq!(al_cambiar_tema(true, Vista::Historial, RolUsuario::Operador), CambioDeTema::Nada);
    assert_eq!(
        al_cambiar_tema(false, Vista::Historial, RolUsuario::Operador),
        CambioDeTema::VolverAlMenu(OpcionMenu::Historial)
    );
    assert_eq!(al_cambiar_tema(false, Vista::Login, RolUsuario::Root), CambioDeTema::Nada);
    assert_eq!(destino_al_volver(true, RolUsuario::Root), Some(OpcionMenu::NuevoIngreso));
    assert_eq!(destino_al_volver(false, RolUsuario::Root), None);
}

#[test]
fn salida_con_sesion_conserva_la_sesion() {
    let sesion = UsuarioSesion { id: 1, cedula: "ROOT".into(), nombre: "Root".into(), rol: RolUsuario::Root };
    let salida = SalidaApp::ModoComandos { sesion: sesion.clone() };
    assert_eq!(salida, SalidaApp::ModoComandos { sesion });
    assert_ne!(salida, SalidaApp::Cerrar);
}

#[test]
fn siguiente_y_anterior_pestana_vuelven_al_inicio() {
    for rol in [RolUsuario::Operador, RolUsuario::Administrador, RolUsuario::Root] {
        for o in OpcionMenu::pestanas_para(rol) {
            let v = vista_de_opcion(o);
            let sig = pestana_vecina(rol, v, 1).unwrap();
            assert_eq!(pestana_vecina(rol, vista_de_opcion(sig), -1), Some(o));
            let ant = pestana_vecina(rol, v, -1).unwrap();
            assert_eq!(pestana_vecina(rol, vista_de_opcion(ant), 1), Some(o));
        }
    }
}

#[test]
fn teclas_globales_deciden_segun_sesion_tema_y_salida_rapida() {
    let nada = Tecla::nueva(Codigo::Char('x'));
    assert_eq!(tecla_global(nada, Some(ComandoGlobal::SalidaEmergencia), false, false, false), DecisionGlobal::Salir);
    assert_eq!(
        tecla_global(nada, Some(ComandoGlobal::CerrarSesion), true, false, false),
        DecisionGlobal::ConfirmarCierreSesion
    );
    assert_eq!(tecla_global(nada, Some(ComandoGlobal::CerrarSesion), false, false, false), DecisionGlobal::AVista);
    assert_eq!(tecla_global(nada, Some(ComandoGlobal::Tema), false, false, true), DecisionGlobal::CambiarTema);
    assert_eq!(
        tecla_global(nada, Some(ComandoGlobal::PestanaSiguiente), true, true, false),
        DecisionGlobal::MoverPestana(true)
    );
    assert_eq!(
        tecla_global(nada, Some(ComandoGlobal::PestanaAnterior), true, false, false),
        DecisionGlobal::AVista
    );
    assert_eq!(
        tecla_global(nada, Some(ComandoGlobal::SalidaRapida), true, false, false),
        DecisionGlobal::AbrirSalidaRapida
    );
    assert_eq!(
        tecla_global(nada, Some(ComandoGlobal::SalidaRapida), true, false, true),
        DecisionGlobal::ASalidaRapida
    );
}

#[test]
fn ctrl_numero_salta_solo_con_sesion_pestanas_y_sin_salida_rapida() {
    assert_eq!(tecla_global(ctrl('3'), None, true, true, false), DecisionGlobal::IrAPestana(OpcionMenu::Historial));
    assert_eq!(tecla_global(ctrl('3'), None, false, true, false), DecisionGlobal::AVista);
    assert_eq!(tecla_global(ctrl('3'), None, true, false, false), DecisionGlobal::AVista);
    assert_eq!(tecla_global(ctrl('3'), None, true, true, true), DecisionGlobal::ASalidaRapida);
    let ctrl_alt = Tecla { codigo: Codigo::Char('3'), control: true, alt: true, shift: false };
    assert_eq!(tecla_global(ctrl_alt, None, true, true, false), DecisionGlobal::AVista);
    assert_eq!(tecla_global(Tecla::nueva(Codigo::Char('3')), None, true, true, false), DecisionGlobal::AVista);
}

#[test]
fn el_respaldo_automatico_se_revisa_al_empezar_y_luego_cada_minuto() {
    assert!(revisar_respaldo_ahora(None, 5));
    assert!(!revisar_respaldo_ahora(Some(1_000), 60_999));
    assert!(revisar_respaldo_ahora(Some(1_000), 61_000));
    assert!(!revisar_respaldo_ahora(Some(1_000), 500));
}

#[test]
fn un_fallo_del_respaldo_automatico_aparece_en_menu_y_ajustes_y_se_borra_al_salir_bien() {
    let mut menu = MenuPrincipalState::default();
    let mut ajustes = ConfiguracionState::default();
    let cambio = anotar_revision_respaldo(&mut menu, &mut ajustes, EstadoRespaldoAutomatico::Fallo("disco lleno".into()));
    assert!(cambio);
    assert_eq!(menu.fallo_respaldo_automatico.as_deref(), Some("disco lleno"));
    assert_eq!(ajustes.respaldos.fallo_automatico.as_deref(), Some("disco lleno"));
    let cambio = anotar_revision_respaldo(&mut menu, &mut ajustes, EstadoRespaldoAutomatico::Fallo("otro".into()));
    assert!(!cambio);
    let cambio = anotar_revision_respaldo(&mut menu, &mut ajustes, EstadoRespaldoAutomatico::Creado);
    assert!(cambio);
    assert_eq!(menu.fallo_respaldo_automatico, None);
    assert_eq!(ajustes.respaldos.fallo_automatico, None);
    assert!(!anotar_revision_respaldo(&mut menu, &mut ajustes, EstadoRespaldoAutomatico::SinCambios));
}

#[test]
fn las_teclas_globales_se_reconocen() {
    assert_eq!(comando_global(ctrl('c')), Some(ComandoGlobal::SalidaEmergencia));
    assert_eq!(comando_global(ctrl('q')), Some(ComandoGlobal::CerrarSesion));
    assert_eq!(comando_global(Tecla::nueva(Codigo::F(2))), Some(ComandoGlobal::SalidaRapida));
    assert_eq!(comando_global(Tecla::nueva(Codigo::F(7))), Some(ComandoGlobal::Tema));
    let ctrl_der = Tecla { codigo: Codigo::Right, control: true, alt: false, shift: false };
    assert_eq!(comando_global(ctrl_der), Some(ComandoGlobal::PestanaSiguiente));
    let ctrl_alt_c = Tecla { codigo: Codigo::Char('c'), control: true, alt: true, shift: false };
    assert_eq!(comando_global(ctrl_alt_c), None);
    assert_eq!(comando_global(Tecla::nueva(Codigo::Char('c'))), None);
}

#[test]
fn la_respuesta_de_cada_pantalla_decide_el_paso_siguiente() {
    let sesion = UsuarioSesion { id: 1, cedula: "1".into(), nombre: "Ana".into(), rol: RolUsuario::Operador };
    assert!(matches!(
        tras_respuesta_de_pantalla(RespuestaPantalla::ConfiguracionInicial(AccionConfiguracion::Salir), None, false),
        DecisionVista::Salir
    ));
    assert!(matches!(
        tras_respuesta_de_pantalla(RespuestaPantalla::Login(AccionLogin::Salir), None, false),
        DecisionVista::Salir
    ));
    assert!(matches!(
        tras_respuesta_de_pantalla(RespuestaPantalla::ElegirInterfaz(AccionElegirInterfaz::Tui), None, true),
        DecisionVista::AlMenu
    ));
    assert!(matches!(
        tras_respuesta_de_pantalla(RespuestaPantalla::ElegirInterfaz(AccionElegirInterfaz::Cli), None, true),
        DecisionVista::Nada
    ));
    match tras_respuesta_de_pantalla(
        RespuestaPantalla::ElegirInterfaz(AccionElegirInterfaz::Cli),
        Some(sesion.clone()),
        true,
    ) {
        DecisionVista::ModoComandos(u) => assert_eq!(u.nombre, "Ana"),
        otra => panic!("{otra:?}"),
    }
    assert!(matches!(
        tras_respuesta_de_pantalla(RespuestaPantalla::CambioPassword(AccionCambioPassword::Volver), Some(sesion.clone()), true),
        DecisionVista::APestana(OpcionMenu::NuevoIngreso)
    ));
    assert!(matches!(
        tras_respuesta_de_pantalla(RespuestaPantalla::CambioPassword(AccionCambioPassword::Volver), Some(sesion), false),
        DecisionVista::AlMenu
    ));
}
