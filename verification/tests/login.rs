use brisas_tui::login::{AccionLogin, CampoLogin, EstadoLogin, LoginState, DURACION_PARPADEO_MS};
use brisas_tui::ui::{Codigo, Tecla};

fn reloj_ms() -> u64 {
    std::time::SystemTime::now()
        .duration_since(std::time::UNIX_EPOCH)
        .map(|d| d.as_millis() as u64)
        .unwrap_or(0)
}


fn tecla(code: Codigo) -> Tecla {
    Tecla::nueva(code)
}

fn login_completo() -> LoginState {
    let mut state = LoginState::default();
    for character in "1-1111-1111".chars() {
        state.handle_key(tecla(Codigo::Char(character)));
    }
    state.handle_key(tecla(Codigo::Tab));
    for character in "secreto".chars() {
        state.handle_key(tecla(Codigo::Char(character)));
    }
    state
}

#[test]
fn tests_cambia_el_foco_en_ambas_direcciones() {
    let mut state = LoginState::default();
    state.handle_key(tecla(Codigo::Tab));
    assert_eq!(state.campo_activo(), CampoLogin::Password);
    state.handle_key(tecla(Codigo::BackTab));
    assert_eq!(state.campo_activo(), CampoLogin::Cedula);
}

#[test]
fn tests_enter_desde_cedula_avanza_a_password() {
    let mut state = LoginState::default();
    state.handle_key(tecla(Codigo::Enter));
    assert_eq!(state.campo_activo(), CampoLogin::Password);
}

#[test]
fn tests_backspace_elimina_el_ultimo_caracter() {
    let mut state = LoginState::default();
    state.handle_key(tecla(Codigo::Char('á')));
    state.handle_key(tecla(Codigo::Char('b')));
    state.handle_key(tecla(Codigo::Backspace));
    assert_eq!(state.cedula.texto(), "á");
}

#[test]
fn tests_campos_vacios_producen_error() {
    let mut state = LoginState::default();
    state.handle_key(tecla(Codigo::Enter));
    state.handle_key(tecla(Codigo::Enter));
    assert!(matches!(state.estado(), EstadoLogin::Error(_)));
}

#[test]
fn campos_completos_disparan_autenticacion_de_inmediato_y_quedan_validando() {
    let mut state = login_completo();
    assert_eq!(
        state.handle_key(tecla(Codigo::Enter)),
        AccionLogin::Autenticar {
            cedula: "1-1111-1111".to_owned(),
            password: "secreto".to_owned(),
        }
    );
    assert!(matches!(state.estado(), EstadoLogin::Validando { .. }));
}

#[test]
fn completar_validacion_tras_el_resultado_real_limpia_la_contrasena() {
    let mut state = login_completo();
    state.handle_key(tecla(Codigo::Enter));
    assert!(matches!(state.estado(), EstadoLogin::Validando { .. }));
    state.completar_validacion(None);
    assert_eq!(state.estado(), &EstadoLogin::Exito);
    assert!(state.password.texto().is_empty());
}

#[test]
fn tests_escribir_limpia_un_error_anterior() {
    let mut state = LoginState::default();
    state.handle_key(tecla(Codigo::Enter));
    state.handle_key(tecla(Codigo::Enter));
    state.handle_key(tecla(Codigo::Char('x')));
    assert_eq!(state.estado(), &EstadoLogin::Normal);
}

#[test]
fn tests_mascara_conserva_cantidad_de_caracteres() {
    let state = login_completo();
    assert_eq!(state.password_enmascarado(), "•••••••");
}

#[test]
fn tests_representacion_para_render_no_expone_password() {
    let state = login_completo();
    let mascara = state.password_enmascarado();
    assert!(!mascara.contains("secreto"));
    assert!(!mascara.contains('s'));
}

#[test]
fn escape_limpia_la_contrasena_y_senala_salir() {
    let mut state = login_completo();
    assert_eq!(state.handle_key(tecla(Codigo::Esc)), AccionLogin::Salir);
    assert!(state.password.texto().is_empty());
}

#[test]
fn escape_funciona_incluso_mientras_valida() {
    let mut state = login_completo();
    state.handle_key(tecla(Codigo::Enter));
    assert!(matches!(state.estado(), EstadoLogin::Validando { .. }));
    assert_eq!(state.handle_key(tecla(Codigo::Esc)), AccionLogin::Salir);
    assert!(state.password.texto().is_empty());
}

#[test]
fn tests_cursor_parpadea_y_se_reinicia_al_escribir() {
    let inicio = reloj_ms();
    let mut state = LoginState { cursor_iniciado: inicio, ..LoginState::default() };
    state.tick(inicio + DURACION_PARPADEO_MS);
    assert!(!state.cursor_visible);
    state.handle_key(tecla(Codigo::Char('1')));
    assert!(state.cursor_visible);
}

// Propias.

#[test]
fn la_validacion_se_muestra_un_tiempo_minimo_y_anima_el_indicador() {
    let mut state = login_completo();
    state.handle_key(tecla(Codigo::Enter));
    let EstadoLogin::Validando { iniciado } = *state.estado() else { panic!() };
    assert_eq!(state.credenciales_si_validacion_lista(iniciado + 799), None);
    assert_eq!(
        state.credenciales_si_validacion_lista(iniciado + 800),
        Some(("1-1111-1111".to_owned(), "secreto".to_owned()))
    );
    state.tick(iniciado + 185);
    assert_eq!(state.spinner_frame, 2);
    assert_eq!(state.spinner(), '⠹');
    state.handle_key(tecla(Codigo::Char('z')));
    assert_eq!(state.password_enmascarado(), "•••••••");
    state.completar_validacion(Some("Credenciales inválidas".into()));
    assert!(!state.acceso_simulado_exitoso());
    assert_eq!(state.estado(), &EstadoLogin::Error("Credenciales inválidas".into()));
    state.reiniciar();
    assert_eq!(state.campo_activo(), CampoLogin::Cedula);
}
