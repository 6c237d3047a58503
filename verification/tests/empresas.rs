use brisas_tui::empresas::{
    AccionEmpresas, EmpresasState, ModoEmpresas, ModoFormularioEmpresa, DURACION_DEBOUNCE_MS,
};
use brisas_tui::modelos::EmpresaResumen;
use brisas_tui::ui::{Codigo, Tecla};

fn reloj_ms() -> u64 {
    std::time::SystemTime::now()
        .duration_since(std::time::UNIX_EPOCH)
        .map(|d| d.as_millis() as u64)
        .unwrap_or(0)
}


fn k(c: Codigo) -> Tecla {
    Tecla::nueva(c)
}

fn escribir(s: &mut EmpresasState, texto: &str) {
    for c in texto.chars() {
        s.handle_key(k(Codigo::Char(c)));
    }
}

fn datos() -> Vec<EmpresaResumen> {
    vec![
        EmpresaResumen { id: 7, nombre: "Constructora Álvarez".into(), contratistas: 3, activo: true },
        EmpresaResumen { id: 9, nombre: "Brisas".into(), contratistas: 0, activo: true },
    ]
}

#[test]
fn inicia_vacia_y_aplica_resultados_reales() {
    let mut s = EmpresasState::default();
    assert!(s.empresas.is_empty() && s.seleccion.is_none());
    s.completar_busqueda(Ok(datos()), None);
    assert_eq!(s.empresas.len(), 2);
    assert_eq!(s.seleccion, Some(0));
}

#[test]
fn busqueda_incremental_emite_consulta_real_sin_filtrar_vec() {
    let mut s = EmpresasState::default();
    s.completar_busqueda(Ok(datos()), None);
    s.handle_key(k(Codigo::Char('/')));
    assert_eq!(s.handle_key(k(Codigo::Char('a'))), AccionEmpresas::Ninguna);
    assert_eq!(
        s.tick(reloj_ms() + DURACION_DEBOUNCE_MS + 1),
        AccionEmpresas::Buscar { texto: Some("a".into()), seleccionar_id: None }
    );
    assert_eq!(s.empresas.len(), 2);
    s.completar_busqueda(Ok(vec![]), None);
    assert!(s.empresas.is_empty() && s.seleccion.is_none());
}

#[test]
fn enter_edita_directamente_con_id_y_nombre_reales() {
    let mut s = EmpresasState::default();
    s.completar_busqueda(Ok(datos()), None);
    s.handle_key(k(Codigo::Enter));
    let ModoEmpresas::Formulario(f) = &s.modo else { panic!() };
    assert_eq!(f.nombre.texto(), "Constructora Álvarez");
    assert!(matches!(f.modo, ModoFormularioEmpresa::Editar { id: 7 }));
}

#[test]
fn tests_panel_refleja_la_seleccion_resaltada_sin_pasos_extra() {
    let mut s = EmpresasState::default();
    s.completar_busqueda(Ok(datos()), None);
    assert_eq!(s.empresa_seleccionada().map(|e| e.id), Some(7));
    s.handle_key(k(Codigo::Down));
    assert_eq!(s.empresa_seleccionada().map(|e| e.id), Some(9));
}

#[test]
fn crear_y_actualizar_emiten_intenciones_sin_mutar_datos() {
    let mut s = EmpresasState::default();
    s.completar_busqueda(Ok(datos()), None);
    s.handle_key(k(Codigo::Char('N')));
    escribir(&mut s, "Nueva");
    assert_eq!(s.handle_key(k(Codigo::Enter)), AccionEmpresas::Crear { nombre: "Nueva".into() });
    assert_eq!(s.empresas.len(), 2);
    s.handle_key(k(Codigo::Esc));
    s.handle_key(k(Codigo::Enter));
    assert!(matches!(s.handle_key(k(Codigo::Enter)), AccionEmpresas::Actualizar { id: 7, .. }));
}

#[test]
fn nombre_vacio_o_solo_espacios_no_se_despacha_y_muestra_error() {
    let mut s = EmpresasState::default();
    s.handle_key(k(Codigo::Char('N')));
    escribir(&mut s, "   ");
    assert_eq!(s.handle_key(k(Codigo::Enter)), AccionEmpresas::Ninguna);
    let ModoEmpresas::Formulario(f) = &s.modo else { panic!() };
    assert_eq!(f.error.as_deref(), Some("El nombre es obligatorio"));
}

#[test]
fn callbacks_exito_recargan_y_error_permanece_en_formulario() {
    let mut s = EmpresasState::default();
    s.handle_key(k(Codigo::Char('N')));
    escribir(&mut s, " Nueva ");
    assert_eq!(
        s.completar_creacion(Ok(12), " Nueva "),
        AccionEmpresas::Buscar { texto: None, seleccionar_id: Some(12) }
    );
    s.completar_busqueda(
        Ok(vec![EmpresaResumen { id: 12, nombre: "Nueva".into(), contratistas: 0, activo: true }]),
        Some(12),
    );
    assert_eq!(s.seleccion, Some(0));
    s.handle_key(k(Codigo::Enter));
    s.completar_actualizacion(Err("Ya existe una empresa con ese nombre".into()), 12, "Duplicada");
    let ModoEmpresas::Formulario(f) = &s.modo else { panic!() };
    assert!(f.error.is_some());
}

#[test]
fn cancelar_no_emite_escritura_y_escape_raiz_vuelve() {
    let mut s = EmpresasState::default();
    s.handle_key(k(Codigo::Char('N')));
    escribir(&mut s, "No guardar");
    assert_eq!(s.handle_key(k(Codigo::Esc)), AccionEmpresas::Ninguna);
    assert_eq!(s.handle_key(k(Codigo::Esc)), AccionEmpresas::Volver);
}

#[test]
fn error_de_carga_es_presentable_y_movimiento_respeta_limites() {
    let mut s = EmpresasState::default();
    s.completar_busqueda(Err("No se pudo cargar la base de empresas".into()), None);
    assert_eq!(s.mensaje.as_deref(), Some("No se pudo cargar la base de empresas"));
    s.completar_busqueda(Ok(datos()), None);
    s.handle_key(k(Codigo::Up));
    assert_eq!(s.seleccion, Some(0));
    for _ in 0..5 {
        s.handle_key(k(Codigo::Down));
    }
    assert_eq!(s.seleccion, Some(1));
}

// Propias.

#[test]
fn activar_pide_confirmacion_con_el_estado_opuesto() {
    let mut s = EmpresasState::default();
    let mut d = datos();
    d[0].activo = false;
    s.completar_busqueda(Ok(d), None);
    s.handle_key(k(Codigo::Char('a')));
    assert!(matches!(
        s.modo,
        ModoEmpresas::ConfirmacionEstado(c) if c.id == 7 && c.activar
    ));
    assert_eq!(
        s.handle_key(k(Codigo::Enter)),
        AccionEmpresas::EstablecerActivo {
            id: 7,
            activar: true,
            nombre: "Constructora Álvarez".into()
        }
    );
    let a = s.completar_estado(Ok(()), 7, true, "Constructora Álvarez");
    assert_eq!(a, AccionEmpresas::Buscar { texto: None, seleccionar_id: Some(7) });
    assert_eq!(s.mensaje.as_deref(), Some("✓ Empresa activada — Constructora Álvarez"));
    assert_eq!(s.modo, ModoEmpresas::Normal);
}

#[test]
fn escape_con_filtro_lo_limpia_antes_de_volver() {
    let mut s = EmpresasState::default();
    s.completar_busqueda(Ok(datos()), Some(9));
    assert_eq!(s.seleccion, Some(1));
    s.handle_key(k(Codigo::Char('/')));
    escribir(&mut s, "bri");
    s.handle_key(k(Codigo::Enter));
    assert_eq!(s.filtro, "bri");
    assert_eq!(
        s.handle_key(k(Codigo::Esc)),
        AccionEmpresas::Buscar { texto: None, seleccionar_id: None }
    );
    assert_eq!(s.seleccion, None);
    assert_eq!(s.handle_key(k(Codigo::Esc)), AccionEmpresas::Volver);
    assert_eq!(s.solicitar_carga(), AccionEmpresas::Buscar { texto: None, seleccionar_id: None });
}

#[test]
fn la_busqueda_espera_desde_la_ultima_tecla() {
    let mut s = EmpresasState::default();
    s.completar_busqueda(Ok(datos()), None);
    s.handle_key_en(k(Codigo::Char('/')), 1_000);
    s.handle_key_en(k(Codigo::Char('a')), 1_000);
    s.handle_key_en(k(Codigo::Char('c')), 1_200);
    assert_eq!(s.tick(1_000 + DURACION_DEBOUNCE_MS), AccionEmpresas::Ninguna);
    assert_eq!(
        s.tick(1_200 + DURACION_DEBOUNCE_MS),
        AccionEmpresas::Buscar { texto: Some("ac".into()), seleccionar_id: None }
    );
    assert_eq!(s.tick(5_000), AccionEmpresas::Ninguna);
}
