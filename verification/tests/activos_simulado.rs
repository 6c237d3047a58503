use brisas_tui::activos_simulado::{
    texto_posicion, valor_columna, AccionActivos, ActivosState, Columna, ModoActivos,
    SalidaGafete,
};
use brisas_tui::ui::{Codigo, Tecla};

fn tecla(code: Codigo) -> Tecla {
    Tecla::nueva(code)
}

fn escribir(state: &mut ActivosState, texto: &str) {
    for caracter in texto.chars() {
        state.handle_key(tecla(Codigo::Char(caracter)));
    }
}

fn buscar(texto: &str) -> ActivosState {
    let mut state = ActivosState::default();
    state.handle_key(tecla(Codigo::Char('/')));
    escribir(&mut state, texto);
    state
}

#[test]
fn seleccion_se_mueve_y_respeta_limites() {
    let mut state = ActivosState::default();
    state.handle_key(tecla(Codigo::Down));
    assert_eq!(state.seleccion, Some(1));
    state.handle_key(tecla(Codigo::Up));
    state.handle_key(tecla(Codigo::Up));
    assert_eq!(state.seleccion, Some(0));
    for _ in 0..100 {
        state.handle_key(tecla(Codigo::Down));
    }
    assert_eq!(state.seleccion, Some(79));
}

#[test]
fn scroll_logico_sigue_a_la_seleccion() {
    let mut state = ActivosState::default();
    for _ in 0..8 {
        state.handle_key(tecla(Codigo::Down));
    }
    assert_eq!(state.inicio_visible(5), 4);
}

#[test]
fn busca_por_nombre_cedula_empresa_y_gafete() {
    for (consulta, nombre) in [
        ("carlos", "Carlos Rojas"),
        ("310220488", "Carlos Rojas"),
        ("electromecánicos", "Marco Antonio Hernández"),
        ("47", "Laura Villalobos"),
    ] {
        let state = buscar(consulta);
        let indices = state.indices_filtrados();
        assert!(indices.iter().any(|indice| state.registros[*indice].nombre == nombre));
    }
}

#[test]
fn busqueda_sin_resultados_y_escape_limpia_filtro() {
    let mut state = buscar("nadie-existe");
    assert!(state.indices_filtrados().is_empty());
    assert_eq!(state.seleccion, None);
    state.handle_key(tecla(Codigo::Esc));
    assert_eq!(state.indices_filtrados().len(), 80);
    assert_eq!(state.seleccion, Some(0));
}

#[test]
fn enter_conserva_filtro_y_devuelve_foco_a_tabla() {
    let mut state = buscar("carlos");
    state.handle_key(tecla(Codigo::Enter));
    assert_eq!(state.modo, ModoActivos::Normal);
    assert_eq!(state.indices_filtrados().len(), 4);
}

#[test]
fn escape_limpia_primero_el_filtro_y_despues_vuelve() {
    let mut state = buscar("carlos");
    state.handle_key(tecla(Codigo::Enter));

    assert_eq!(state.handle_key(tecla(Codigo::Esc)), AccionActivos::Ninguna);
    assert!(state.filtro.is_empty());
    assert_eq!(state.indices_filtrados().len(), 80);

    assert_eq!(state.handle_key(tecla(Codigo::Esc)), AccionActivos::Volver);
}

#[test]
fn confirmacion_se_abre_y_n_o_escape_cancelan() {
    for cancelar in [Codigo::Char('n'), Codigo::Esc] {
        let mut state = ActivosState::default();
        state.handle_key(tecla(Codigo::Char('s')));
        assert!(matches!(state.modo, ModoActivos::ConfirmarSalida { .. }));
        state.handle_key(tecla(cancelar));
        assert_eq!(state.modo, ModoActivos::Normal);
        assert_eq!(state.cantidad(), 80);
    }
}

#[test]
fn confirmar_salida_elimina_disminuye_contador_y_conserva_posicion() {
    let mut state = ActivosState::default();
    for _ in 0..7 {
        state.handle_key(tecla(Codigo::Down));
    }
    let id = state.id_seleccionado().unwrap();
    state.handle_key(tecla(Codigo::Char('s')));
    state.handle_key(tecla(Codigo::Char('y')));
    assert_eq!(state.cantidad(), 79);
    assert!(!state.registros.iter().any(|registro| registro.id == id));
    assert_eq!(state.seleccion, Some(7));
}

#[test]
fn salida_sin_gafete_no_inventa_liberacion() {
    let mut state = ActivosState::default();
    state.handle_key(tecla(Codigo::Down));
    state.handle_key(tecla(Codigo::Char('s')));
    state.handle_key(tecla(Codigo::Char('y')));
    assert!(!state.mensaje.as_deref().unwrap().contains("liberado"));
}

#[test]
fn f2_encuentra_gafete_y_salida_elimina_registro_correcto() {
    let mut state = ActivosState::default();
    state.handle_key(tecla(Codigo::F(2)));
    escribir(&mut state, "8");
    state.handle_key(tecla(Codigo::Enter));
    assert_eq!(state.modo, ModoActivos::SalidaPorGafete(SalidaGafete::Encontrado { id: 3 }));
    state.handle_key(tecla(Codigo::Char('y')));
    assert_eq!(state.cantidad(), 79);
    assert!(!state.registros.iter().any(|registro| registro.gafete == Some(8)));
    state.handle_key(tecla(Codigo::F(2)));
    escribir(&mut state, "8");
    state.handle_key(tecla(Codigo::Enter));
    assert!(matches!(
        &state.modo,
        ModoActivos::SalidaPorGafete(SalidaGafete::Capturando { error: Some(_), .. })
    ));
}

#[test]
fn f2_reporta_gafete_inexistente() {
    let mut state = ActivosState::default();
    state.handle_key(tecla(Codigo::F(2)));
    escribir(&mut state, "999");
    state.handle_key(tecla(Codigo::Enter));
    assert!(matches!(
        &state.modo,
        ModoActivos::SalidaPorGafete(SalidaGafete::Capturando { error: Some(_), .. })
    ));
}

#[test]
fn detalle_se_abre_cierra_y_puede_iniciar_salida() {
    let mut state = ActivosState::default();
    state.handle_key(tecla(Codigo::Enter));
    assert!(matches!(state.modo, ModoActivos::Detalle { id: 1 }));
    state.handle_key(tecla(Codigo::Esc));
    assert_eq!(state.modo, ModoActivos::Normal);
    state.handle_key(tecla(Codigo::Enter));
    state.handle_key(tecla(Codigo::Char('s')));
    assert!(matches!(state.modo, ModoActivos::ConfirmarSalida { id: 1 }));
}

#[test]
fn columnas_se_abren_cambian_y_no_permiten_ocultar_todas() {
    let mut state = ActivosState::default();
    state.handle_key(tecla(Codigo::Char('c')));
    assert!(matches!(state.modo, ModoActivos::Columnas { .. }));
    state.handle_key(tecla(Codigo::Char(' ')));
    assert!(!state.columnas[0].1);
    for indice in 1..state.columnas.len() {
        state.columnas[indice].1 = false;
    }
    state.columnas[0].1 = true;
    state.modo = ModoActivos::Columnas { seleccion: 0 };
    state.handle_key(tecla(Codigo::Char(' ')));
    assert!(state.columnas[0].1);
    assert!(state.mensaje.is_some());
    state.handle_key(tecla(Codigo::Esc));
    assert_eq!(state.modo, ModoActivos::Normal);
}

#[test]
fn advertencia_no_altera_seleccion() {
    let mut state = ActivosState::default();
    for _ in 0..3 {
        state.handle_key(tecla(Codigo::Down));
    }
    assert!(state.registros[3].advertencia.is_some());
    assert_eq!(state.id_seleccionado(), Some(4));
}

// Propias.

#[test]
fn salida_con_gafete_avisa_el_gafete_liberado_con_dos_cifras() {
    let mut state = ActivosState::default();
    state.handle_key(tecla(Codigo::Char('s')));
    state.handle_key(tecla(Codigo::Char('y')));
    assert_eq!(
        state.mensaje.as_deref(),
        Some("✓ Salida registrada — Juan Pérez — Gafete 05 liberado")
    );
}

#[test]
fn gafete_vacio_busca_el_primer_ingreso_sin_gafete() {
    let mut state = ActivosState::default();
    state.handle_key(tecla(Codigo::F(2)));
    state.handle_key(tecla(Codigo::Enter));
    assert_eq!(state.modo, ModoActivos::SalidaPorGafete(SalidaGafete::Encontrado { id: 2 }));
}

#[test]
fn gafete_ignora_letras_y_borra_con_retroceso() {
    let mut state = ActivosState::default();
    state.handle_key(tecla(Codigo::F(2)));
    escribir(&mut state, "9x9");
    state.handle_key(tecla(Codigo::Backspace));
    escribir(&mut state, "99");
    state.handle_key(tecla(Codigo::Enter));
    assert_eq!(
        state.modo,
        ModoActivos::SalidaPorGafete(SalidaGafete::Capturando {
            numero: "999".into(),
            error: Some("El gafete 999 no está asignado a ningún ingreso activo".into()),
        })
    );
}

#[test]
fn celdas_y_posicion_se_escriben_como_en_la_tabla() {
    let mut state = ActivosState::default();
    assert_eq!(valor_columna(&state.registros[0], Columna::Gafete), "05");
    assert_eq!(valor_columna(&state.registros[1], Columna::Gafete), "S/G");
    assert!(valor_columna(&state.registros[3], Columna::Tipo).ends_with(" !"));
    assert_eq!(Columna::Usuario.titulo(), "USUARIO INGRESO");
    assert_eq!(texto_posicion(&state), "1/80");
    let mut vacio = buscar("nadie-existe");
    assert_eq!(texto_posicion(&vacio), "—/—");
    vacio.handle_key(tecla(Codigo::Esc));
    state.handle_key(tecla(Codigo::Down));
    assert_eq!(texto_posicion(&state), "2/80");
    assert_eq!(state.inicio_visible(0), 0);
}
