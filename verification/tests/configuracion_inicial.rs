use brisas_tui::configuracion_inicial::{
    AccionConfiguracion, CampoConfiguracion, ConfiguracionInicialState, EstadoConfiguracion,
};
use brisas_tui::ui::{Codigo, Tecla};

fn tecla(code: Codigo) -> Tecla {
    Tecla::nueva(code)
}

fn escribir(state: &mut ConfiguracionInicialState, texto: &str) {
    for caracter in texto.chars() {
        state.handle_key(tecla(Codigo::Char(caracter)));
    }
}

fn guardar(state: &mut ConfiguracionInicialState) {
    state.handle_key(Tecla { codigo: Codigo::Char('G'), control: false, alt: false, shift: true });
}

fn formulario_valido() -> ConfiguracionInicialState {
    let mut state = ConfiguracionInicialState::default();
    escribir(&mut state, "1-1111-1111");
    state.handle_key(tecla(Codigo::Tab));
    escribir(&mut state, "Daniel Quintana");
    state.handle_key(tecla(Codigo::Tab));
    escribir(&mut state, "password1");
    state.handle_key(tecla(Codigo::Tab));
    escribir(&mut state, "password1");
    state
}

#[test]
fn campo_inicial_y_navegacion_funcionan() {
    let mut state = ConfiguracionInicialState::default();
    assert_eq!(state.campo_activo(), CampoConfiguracion::Cedula);
    state.handle_key(tecla(Codigo::Tab));
    assert_eq!(state.campo_activo(), CampoConfiguracion::Nombre);
    state.handle_key(tecla(Codigo::Down));
    assert_eq!(state.campo_activo(), CampoConfiguracion::Password);
    state.handle_key(tecla(Codigo::Up));
    assert_eq!(state.campo_activo(), CampoConfiguracion::Nombre);
    state.handle_key(Tecla { codigo: Codigo::BackTab, control: false, alt: false, shift: true });
    assert_eq!(state.campo_activo(), CampoConfiguracion::Cedula);
}

#[test]
fn campos_aceptan_texto_conservan_contenido_y_backspace_funciona() {
    let mut state = ConfiguracionInicialState::default();
    escribir(&mut state, "ABC-1x");
    state.handle_key(tecla(Codigo::Backspace));
    state.handle_key(tecla(Codigo::Tab));
    escribir(&mut state, "Nombre");
    state.handle_key(tecla(Codigo::Tab));
    escribir(&mut state, "secreto1");
    state.handle_key(tecla(Codigo::Tab));
    escribir(&mut state, "secreto1");

    assert_eq!(state.cedula.texto(), "ABC-1");
    assert_eq!(state.nombre.texto(), "Nombre");
    assert_eq!(state.password.texto(), "secreto1");
    assert_eq!(state.confirmar_password.texto(), "secreto1");
    assert_eq!(state.password_enmascarado(), "••••••••");
}

#[test]
fn escape_solicita_salida() {
    let mut state = ConfiguracionInicialState::default();
    assert_eq!(state.handle_key(tecla(Codigo::Esc)), AccionConfiguracion::Salir);
}

#[test]
fn cedula_vacia_es_rechazada() {
    let mut state = ConfiguracionInicialState::default();
    guardar(&mut state);
    assert!(matches!(state.estado(), EstadoConfiguracion::Error(_)));
    assert_eq!(state.campo_activo(), CampoConfiguracion::Cedula);
}

#[test]
fn nombre_vacio_es_rechazado() {
    let mut state = ConfiguracionInicialState::default();
    escribir(&mut state, "1001");
    guardar(&mut state);
    assert_eq!(state.campo_activo(), CampoConfiguracion::Nombre);
}

#[test]
fn password_vacio_es_rechazado() {
    let mut state = ConfiguracionInicialState::default();
    escribir(&mut state, "1001");
    state.handle_key(tecla(Codigo::Tab));
    escribir(&mut state, "Nombre");
    guardar(&mut state);
    assert_eq!(state.campo_activo(), CampoConfiguracion::Password);
}

#[test]
fn confirmacion_vacia_es_rechazada() {
    let mut state = ConfiguracionInicialState::default();
    escribir(&mut state, "1001");
    state.handle_key(tecla(Codigo::Tab));
    escribir(&mut state, "Nombre");
    state.handle_key(tecla(Codigo::Tab));
    escribir(&mut state, "password1");
    guardar(&mut state);
    assert_eq!(state.campo_activo(), CampoConfiguracion::ConfirmarPassword);
}

#[test]
fn passwords_distintos_son_rechazados() {
    let mut state = formulario_valido();
    state.handle_key(tecla(Codigo::Backspace));
    state.handle_key(tecla(Codigo::Char('2')));
    guardar(&mut state);
    assert!(matches!(
        state.estado(),
        EstadoConfiguracion::Error(error) if error == "Las contraseñas no coinciden"
    ));
}

#[test]
fn password_corto_es_rechazado() {
    let mut state = ConfiguracionInicialState::default();
    escribir(&mut state, "1001");
    state.handle_key(tecla(Codigo::Tab));
    escribir(&mut state, "Nombre");
    state.handle_key(tecla(Codigo::Tab));
    escribir(&mut state, "corta");
    state.handle_key(tecla(Codigo::Tab));
    escribir(&mut state, "corta");
    guardar(&mut state);
    assert_eq!(state.campo_activo(), CampoConfiguracion::Password);
}

#[test]
fn formulario_valido_produce_solicitud_normalizada() {
    let mut state = formulario_valido();
    guardar(&mut state);
    assert_eq!(state.estado(), &EstadoConfiguracion::Creando);
    let solicitud = state.tomar_solicitud().unwrap();
    assert_eq!(solicitud.cedula, "1-1111-1111");
    assert_eq!(solicitud.nombre, "Daniel Quintana");
    assert_eq!(solicitud.password, "password1");
}

#[test]
fn limpiar_secretos_no_los_expone_en_debug() {
    let mut state = formulario_valido();
    assert!(!state.depuracion().contains("password1"));
    state.limpiar_secretos();
    assert!(state.password.is_empty());
    assert!(state.confirmar_password.is_empty());
}

// Propias.

#[test]
fn mientras_se_crea_no_se_edita_y_la_solicitud_se_entrega_una_vez() {
    let mut state = formulario_valido();
    state.handle_key(tecla(Codigo::Enter));
    assert_eq!(state.estado(), &EstadoConfiguracion::Creando);
    state.handle_key(tecla(Codigo::Char('x')));
    assert_eq!(state.confirmar_password.texto(), "password1");
    assert!(state.tomar_solicitud().is_some());
    assert!(state.tomar_solicitud().is_none());
    let s = formulario_valido();
    assert!(s.depuracion().contains("1-1111-1111"));
}

#[test]
fn error_de_creacion_se_corrige_escribiendo() {
    let mut state = formulario_valido();
    guardar(&mut state);
    state.completar_con_error("Ya existe".into());
    assert_eq!(state.estado(), &EstadoConfiguracion::Error("Ya existe".into()));
    state.handle_key(tecla(Codigo::Char('x')));
    assert_eq!(state.estado(), &EstadoConfiguracion::Editando);
    assert_eq!(state.confirmacion_enmascarada(), "••••••••••");
}

#[test]
fn el_cursor_parpadea_cada_medio_segundo() {
    let mut state = ConfiguracionInicialState::default();
    let t0 = state.cursor_iniciado;
    state.tick(t0 + 499);
    assert!(state.cursor_visible);
    state.tick(t0 + 500);
    assert!(!state.cursor_visible);
    state.tick(t0 + 1000);
    assert!(state.cursor_visible);
}

#[test]
fn el_maximo_de_la_cedula_se_respeta() {
    let mut state = ConfiguracionInicialState::default();
    escribir(&mut state, &"9".repeat(40));
    assert_eq!(state.cedula.texto().chars().count(), 30);
}

#[test]
fn depuracion_muestra_todos_los_campos_sin_contrasenas() {
    let state = formulario_valido();
    let d = state.depuracion();
    assert!(d.contains("campo_activo: "));
    assert!(d.contains("estado: Editando"));
    assert!(d.contains("solicitud: None"));
    assert!(d.contains("ayuda_expandida: false"));
    assert!(!d.contains("password1"));
}
