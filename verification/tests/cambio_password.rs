use brisas_tui::cambio_password::{AccionCambioPassword, Campo, CambioPasswordState};
use brisas_tui::ui::{Codigo, Tecla};

fn tecla(code: Codigo) -> Tecla {
    Tecla::nueva(code)
}

fn escribir(state: &mut CambioPasswordState, texto: &str) {
    for caracter in texto.chars() {
        state.handle_key(tecla(Codigo::Char(caracter)));
    }
}

#[test]
fn exige_actual_y_confirmacion_coincidente() {
    let mut state = CambioPasswordState::default();
    escribir(&mut state, "password-actual");
    state.handle_key(tecla(Codigo::Tab));
    escribir(&mut state, "password-nueva");
    state.handle_key(tecla(Codigo::Tab));
    escribir(&mut state, "password-nueva");
    assert_eq!(
        state.handle_key(tecla(Codigo::Enter)),
        AccionCambioPassword::Cambiar {
            password_actual: "password-actual".into(),
            nueva_password: "password-nueva".into(),
        }
    );
}

#[test]
fn completar_o_salir_limpia_los_tres_secretos() {
    let mut state = CambioPasswordState::default();
    escribir(&mut state, "password-actual");
    state.completar(Ok(()));
    assert_eq!(state.mascara(Campo::Actual), "");
    assert_eq!(state.mascara(Campo::Nueva), "");
    assert_eq!(state.mascara(Campo::Confirmacion), "");
}

// Propias.

#[test]
fn cada_rechazo_lleva_al_campo_a_corregir() {
    let mut state = CambioPasswordState::default();
    state.handle_key(tecla(Codigo::Up));
    assert_eq!(state.campo, Campo::Confirmacion);
    assert_eq!(state.handle_key(tecla(Codigo::Enter)), AccionCambioPassword::Ninguna);
    assert_eq!(state.campo, Campo::Actual);
    assert_eq!(state.mensaje, Some(Err("Ingrese su contraseña actual".into())));
    escribir(&mut state, "vieja");
    state.handle_key(tecla(Codigo::Tab));
    escribir(&mut state, "corta");
    state.handle_key(tecla(Codigo::Tab));
    state.handle_key(tecla(Codigo::Enter));
    assert_eq!(state.campo, Campo::Nueva);
    assert_eq!(
        state.mensaje,
        Some(Err("La contraseña nueva debe tener al menos 8 caracteres".into()))
    );
    escribir(&mut state, "-larga");
    state.handle_key(tecla(Codigo::Tab));
    escribir(&mut state, "otra-cosa");
    state.handle_key(tecla(Codigo::Enter));
    assert_eq!(state.campo, Campo::Confirmacion);
    assert_eq!(state.mensaje, Some(Err("Las contraseñas nuevas no coinciden".into())));
}

#[test]
fn escape_borra_y_vuelve_y_guardando_ignora_teclas() {
    let mut state = CambioPasswordState::default();
    escribir(&mut state, "secreto");
    assert_eq!(state.mascara(Campo::Actual), "•••••••");
    assert_eq!(state.handle_key(tecla(Codigo::Esc)), AccionCambioPassword::Volver);
    assert_eq!(state.mascara(Campo::Actual), "");
    state.guardando = true;
    escribir(&mut state, "x");
    assert_eq!(state.mascara(Campo::Actual), "");
    state.completar(Err("Contraseña actual incorrecta".into()));
    assert!(!state.guardando);
    assert_eq!(state.mensaje, Some(Err("Contraseña actual incorrecta".into())));
    state.completar(Ok(()));
    assert_eq!(state.mensaje, Some(Ok("Contraseña actualizada".into())));
    state.reiniciar();
    assert_eq!(state.mensaje, None);
}
