use brisas_tui::login_simulado::{
    CampoLogin, EstadoLogin, LoginState, DURACION_PARPADEO_MS, DURACION_VALIDACION_MS,
};
use brisas_tui::ui::{Codigo, Tecla};

fn reloj_ms() -> u64 {
    std::time::SystemTime::now()
        .duration_since(std::time::UNIX_EPOCH)
        .map(|d| d.as_millis() as u64)
        .unwrap_or(0)
}


fn tecla(code: Codigo) -> Tecla {
    Tecla::nueva(code)
}

fn login_completo() -> LoginState {
    let mut state = LoginState::default();
    for character in "1-1111-1111".chars() {
        state.handle_key(tecla(Codigo::Char(character)));
    }
    state.handle_key(tecla(Codigo::Tab));
    for character in "secreto".chars() {
        state.handle_key(tecla(Codigo::Char(character)));
    }
    state
}

#[test]
fn cambia_el_foco_en_ambas_direcciones() {
    let mut state = LoginState::default();
    state.handle_key(tecla(Codigo::Tab));
    assert_eq!(state.campo_activo(), CampoLogin::Password);
    state.handle_key(tecla(Codigo::BackTab));
    assert_eq!(state.campo_activo(), CampoLogin::Cedula);
}

#[test]
fn enter_desde_cedula_avanza_a_password() {
    let mut state = LoginState::default();
    state.handle_key(tecla(Codigo::Enter));
    assert_eq!(state.campo_activo(), CampoLogin::Password);
}

#[test]
fn backspace_elimina_el_ultimo_caracter() {
    let mut state = LoginState::default();
    state.handle_key(tecla(Codigo::Char('á')));
    state.handle_key(tecla(Codigo::Char('b')));
    state.handle_key(tecla(Codigo::Backspace));
    assert_eq!(state.cedula, "á");
}

#[test]
fn campos_vacios_producen_error() {
    let mut state = LoginState::default();
    state.handle_key(tecla(Codigo::Enter));
    state.handle_key(tecla(Codigo::Enter));
    assert!(matches!(state.estado(), EstadoLogin::Error(_)));
}

#[test]
fn campos_completos_inician_validacion() {
    let mut state = login_completo();
    state.handle_key(tecla(Codigo::Enter));
    assert!(matches!(state.estado(), EstadoLogin::Validando { .. }));
}

#[test]
fn tick_completa_la_validacion_simulada() {
    let inicio = reloj_ms();
    let mut state = login_completo();
    state.iniciar_validacion_en(inicio);
    state.tick(inicio + DURACION_VALIDACION_MS);
    assert_eq!(state.estado(), &EstadoLogin::Exito);
}

#[test]
fn escribir_limpia_un_error_anterior() {
    let mut state = LoginState::default();
    state.handle_key(tecla(Codigo::Enter));
    state.handle_key(tecla(Codigo::Enter));
    state.handle_key(tecla(Codigo::Char('x')));
    assert_eq!(state.estado(), &EstadoLogin::Normal);
}

#[test]
fn mascara_conserva_cantidad_de_caracteres() {
    let state = login_completo();
    assert_eq!(state.password_enmascarado(), "•••••••");
}

#[test]
fn representacion_para_render_no_expone_password() {
    let state = login_completo();
    let mascara = state.password_enmascarado();
    assert!(!mascara.contains("secreto"));
    assert!(!mascara.contains('s'));
}

#[test]
fn cursor_parpadea_y_se_reinicia_al_escribir() {
    let inicio = reloj_ms();
    let mut state = LoginState { cursor_iniciado: inicio, ..LoginState::default() };
    state.tick(inicio + DURACION_PARPADEO_MS);
    assert!(!state.cursor_visible);

    state.handle_key(tecla(Codigo::Char('1')));
    assert!(state.cursor_visible);
}

// Propias.

#[test]
fn validacion_anima_y_no_acepta_teclas_hasta_terminar() {
    let mut state = login_completo();
    state.iniciar_validacion_en(1_000);
    state.tick(1_000 + 95);
    assert_eq!(state.spinner_frame, 1);
    assert_eq!(state.spinner(), '⠙');
    assert!(!state.acceso_simulado_exitoso());
    state.handle_key(tecla(Codigo::Char('z')));
    assert_eq!(state.password, "secreto");
    state.tick(1_000 + 799);
    assert!(matches!(state.estado(), EstadoLogin::Validando { .. }));
    state.tick(1_000 + 800);
    assert!(state.acceso_simulado_exitoso());
}

#[test]
fn cedula_solo_con_espacios_cuenta_como_vacia() {
    let mut state = LoginState::default();
    state.handle_key(tecla(Codigo::Char(' ')));
    state.handle_key(tecla(Codigo::Tab));
    state.handle_key(tecla(Codigo::Char('x')));
    state.handle_key(tecla(Codigo::Enter));
    assert_eq!(state.estado(), &EstadoLogin::Error("Complete cédula y contraseña".into()));
}
