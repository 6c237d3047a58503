use brisas_tui::gafetes::{
    interpretar_filtro, AccionGafetes, GafetesState, ModoFormularioAlta, ModoGafetes,
    DURACION_DEBOUNCE_MS,
};
use brisas_tui::modelos::{
    ContratistaResumen, EstadoGafete, FiltroGafetes, GafeteResumen, Igualdad, IncidenteGafete,
    MotivoResolucionGafete, TipoIncidenteGafete, TipoIngreso,
};
use brisas_tui::ui::{Codigo, Tecla};

fn reloj_ms() -> u64 {
    std::time::SystemTime::now()
        .duration_since(std::time::UNIX_EPOCH)
        .map(|d| d.as_millis() as u64)
        .unwrap_or(0)
}


fn k(c: Codigo) -> Tecla {
    Tecla::nueva(c)
}

fn escribir(s: &mut GafetesState, texto: &str) {
    for c in texto.chars() {
        s.handle_key(k(Codigo::Char(c)));
    }
}

fn gafete(id: i64, numero: i64, estado: EstadoGafete) -> GafeteResumen {
    GafeteResumen {
        id,
        numero,
        estado,
        contratista_deudor_id: None,
        contratista_deudor_nombre: None,
        fecha_marcado_perdido: None,
    }
}

fn datos() -> Vec<GafeteResumen> {
    vec![gafete(1, 5, EstadoGafete::Disponible), gafete(2, 9, EstadoGafete::Perdido)]
}

#[test]
fn inicia_vacio_y_aplica_resultados_reales() {
    let mut s = GafetesState::default();
    assert!(s.gafetes.is_empty() && s.seleccion.is_none());
    s.completar_busqueda(Ok(datos()), None);
    assert_eq!(s.gafetes.len(), 2);
    assert_eq!(s.seleccion, Some(0));
}

#[test]
fn n_abre_alta_individual_por_defecto_y_tab_alterna_a_rango() {
    let mut s = GafetesState::default();
    s.handle_key(k(Codigo::Char('N')));
    let ModoGafetes::Alta(f) = &s.modo else { panic!() };
    assert_eq!(f.modo, ModoFormularioAlta::Individual);
    s.handle_key(k(Codigo::Tab));
    let ModoGafetes::Alta(f) = &s.modo else { panic!() };
    assert_eq!(f.modo, ModoFormularioAlta::Rango);
}

#[test]
fn alta_individual_valida_numero_antes_de_despachar() {
    let mut s = GafetesState::default();
    s.handle_key(k(Codigo::Char('N')));
    assert_eq!(s.handle_key(k(Codigo::Enter)), AccionGafetes::Ninguna);
    assert!(matches!(&s.modo, ModoGafetes::Alta(f) if f.error.is_some()));
    escribir(&mut s, "12");
    assert_eq!(s.handle_key(k(Codigo::Enter)), AccionGafetes::CrearUno { numero: 12 });
}

#[test]
fn alta_rango_exige_desde_menor_o_igual_a_hasta() {
    let mut s = GafetesState::default();
    s.handle_key(k(Codigo::Char('N')));
    s.handle_key(k(Codigo::Tab));
    escribir(&mut s, "9");
    s.handle_key(k(Codigo::Down));
    escribir(&mut s, "3");
    assert_eq!(s.handle_key(k(Codigo::Enter)), AccionGafetes::Ninguna);
    assert!(matches!(&s.modo, ModoGafetes::Alta(f) if f.error.is_some()));
}

#[test]
fn alta_rango_valido_despacha_crear_rango() {
    let mut s = GafetesState::default();
    s.handle_key(k(Codigo::Char('N')));
    s.handle_key(k(Codigo::Tab));
    escribir(&mut s, "1");
    s.handle_key(k(Codigo::Down));
    escribir(&mut s, "5");
    assert_eq!(s.handle_key(k(Codigo::Enter)), AccionGafetes::CrearRango { desde: 1, hasta: 5 });
}

#[test]
fn completar_alta_deja_prefijo_de_exito_solo_si_no_hubo_error() {
    let mut s = GafetesState::default();
    s.handle_key(k(Codigo::Char('N')));
    escribir(&mut s, "12");
    let recarga = s.completar_alta(Ok(1), 12);
    assert!(matches!(recarga, AccionGafetes::Buscar { seleccionar_id: Some(1), .. }));
    assert!(s.mensaje.as_deref().unwrap().starts_with('✓'));
    assert!(matches!(s.modo, ModoGafetes::Normal));
    s.handle_key(k(Codigo::Char('N')));
    escribir(&mut s, "12");
    let recarga = s.completar_alta(Err("Ya existe un gafete con ese número".into()), 12);
    assert_eq!(recarga, AccionGafetes::Ninguna);
    assert!(matches!(&s.modo, ModoGafetes::Alta(f) if f.error.is_some()));
}

#[test]
fn b_solo_ofrece_baja_si_esta_disponible() {
    let mut s = GafetesState::default();
    s.completar_busqueda(Ok(datos()), None);
    s.handle_key(k(Codigo::Char('B')));
    assert!(matches!(s.modo, ModoGafetes::ConfirmacionBaja { gafete_id: 1, numero: 5 }));
    let mut s2 = GafetesState::default();
    s2.completar_busqueda(Ok(datos()), None);
    s2.handle_key(k(Codigo::Down));
    s2.handle_key(k(Codigo::Char('B')));
    assert!(matches!(s2.modo, ModoGafetes::Normal));
}

#[test]
fn p_solo_ofrece_marcar_perdido_si_esta_disponible() {
    let mut s = GafetesState::default();
    s.completar_busqueda(Ok(datos()), None);
    s.handle_key(k(Codigo::Char('P')));
    assert!(matches!(s.modo, ModoGafetes::MarcarPerdidoBuscarDeudor(_)));
}

#[test]
fn r_solo_ofrece_resolver_si_esta_perdido() {
    let mut s = GafetesState::default();
    s.completar_busqueda(Ok(datos()), None);
    s.handle_key(k(Codigo::Char('R')));
    assert!(matches!(s.modo, ModoGafetes::Normal));
    s.handle_key(k(Codigo::Down));
    s.handle_key(k(Codigo::Char('R')));
    assert!(matches!(
        s.modo,
        ModoGafetes::ConfirmacionResolver {
            gafete_id: 2,
            numero: 9,
            motivo: MotivoResolucionGafete::Pagado,
        }
    ));
    s.handle_key(k(Codigo::Char('2')));
    assert!(matches!(
        s.modo,
        ModoGafetes::ConfirmacionResolver { motivo: MotivoResolucionGafete::Aparecido, .. }
    ));
}

#[test]
fn buscar_deudor_navega_resultados_y_enter_marca_perdido() {
    let mut s = GafetesState::default();
    s.completar_busqueda(Ok(datos()), None);
    s.handle_key(k(Codigo::Char('P')));
    escribir(&mut s, "jose");
    assert_eq!(
        s.tick_deudor(reloj_ms() + DURACION_DEBOUNCE_MS + 1),
        AccionGafetes::BuscarDeudor { texto: Some("jose".into()) }
    );
    s.completar_busqueda_deudor(Ok(vec![ContratistaResumen {
        id: 42,
        empresa_id: 1,
        cedula: "1".into(),
        nombre: "José".into(),
        empresa_nombre: "Acme".into(),
        tipo_ingreso: TipoIngreso::Praind,
        fecha_vencimiento_praind: None,
        es_personal_ruta: false,
        tiene_acceso: true,
        tiene_ingreso_activo: false,
    }]));
    assert_eq!(
        s.handle_key(k(Codigo::Enter)),
        AccionGafetes::MarcarPerdido { id: 1, numero: 5, contratista_id: 42 }
    );
}

#[test]
fn h_abre_historial_vacio_y_completar_lo_llena() {
    let mut s = GafetesState::default();
    s.completar_busqueda(Ok(datos()), None);
    assert_eq!(s.handle_key(k(Codigo::Char('H'))), AccionGafetes::VerHistorial { id: 1, numero: 5 });
    assert!(matches!(
        &s.modo,
        ModoGafetes::Historial { numero: 5, incidentes } if incidentes.is_empty()
    ));
    let incidente = IncidenteGafete {
        id: 1,
        tipo: TipoIncidenteGafete::Perdido,
        fecha_hora: chrono::Utc::now().timestamp(),
        usuario_nombre: "Root".into(),
        contratista_nombre: Some("Juan".into()),
        motivo_resolucion: None,
        gafete_numero: 5,
    };
    s.completar_historial(Ok(vec![incidente.clone()]), 5);
    assert!(matches!(
        &s.modo,
        ModoGafetes::Historial { numero: 5, incidentes } if incidentes == &vec![incidente]
    ));
    assert_eq!(s.handle_key(k(Codigo::Esc)), AccionGafetes::Ninguna);
    assert!(matches!(s.modo, ModoGafetes::Normal));
}

#[test]
fn completar_historial_con_error_vuelve_a_normal_con_mensaje() {
    let mut s = GafetesState::default();
    s.completar_busqueda(Ok(datos()), None);
    s.handle_key(k(Codigo::Char('H')));
    s.completar_historial(Err("No se pudo cargar el historial del gafete".into()), 5);
    assert!(matches!(s.modo, ModoGafetes::Normal));
    assert_eq!(s.mensaje.as_deref(), Some("No se pudo cargar el historial del gafete"));
}

#[test]
fn interpretar_filtro_reconoce_numero_y_estado_negado() {
    assert_eq!(interpretar_filtro("9"), FiltroGafetes { numero: Some(9), estado: None });
    assert_eq!(
        interpretar_filtro("-estado:de_baja"),
        FiltroGafetes { numero: None, estado: Some(Igualdad::Excluye(EstadoGafete::DeBaja)) }
    );
    assert_eq!(interpretar_filtro(""), FiltroGafetes::default());
}

// Propias.

#[test]
fn mensajes_de_exito_usan_dos_digitos() {
    let mut s = GafetesState::default();
    s.completar_baja(Ok(()), 3, 7);
    assert_eq!(s.mensaje.as_deref(), Some("✓ Gafete 07 dado de baja"));
    s.completar_marcar_perdido(Ok(()), 3, 12);
    assert_eq!(s.mensaje.as_deref(), Some("✓ Gafete 12 marcado como perdido"));
    s.completar_resolver(Ok(()), 3, 4);
    assert_eq!(s.mensaje.as_deref(), Some("✓ Deuda del gafete 04 resuelta"));
    let a = s.completar_alta_rango(Ok(vec![10, 11, 12]), 1, 3);
    assert_eq!(s.mensaje.as_deref(), Some("✓ Gafetes 01-03 dados de alta (3 en total)"));
    assert!(matches!(a, AccionGafetes::Buscar { seleccionar_id: Some(10), .. }));
    // Un éxito sobrevive a la recarga; un error no.
    s.completar_busqueda(Ok(datos()), None);
    assert!(s.mensaje.is_some());
    s.completar_resolver(Err("falló".into()), 3, 4);
    s.completar_busqueda(Ok(datos()), None);
    assert!(s.mensaje.is_none());
}

#[test]
fn filtros_no_reconocidos_no_filtran_y_estado_ignora_mayusculas() {
    assert_eq!(interpretar_filtro("  texto libre "), FiltroGafetes::default());
    assert_eq!(
        interpretar_filtro("estado:PERDIDO"),
        FiltroGafetes { numero: None, estado: Some(Igualdad::Incluye(EstadoGafete::Perdido)) }
    );
    assert_eq!(interpretar_filtro("estado:roto"), FiltroGafetes::default());
    assert_eq!(interpretar_filtro("-3"), FiltroGafetes { numero: Some(-3), estado: None });
}

#[test]
fn rango_demasiado_grande_y_numero_cero_se_rechazan() {
    let mut s = GafetesState::default();
    s.handle_key(k(Codigo::Char('n')));
    escribir(&mut s, "0");
    s.handle_key(k(Codigo::Enter));
    assert!(matches!(&s.modo, ModoGafetes::Alta(f) if f.error.as_deref() == Some("El número debe ser mayor a cero")));
    s.handle_key(k(Codigo::Tab));
    escribir(&mut s, "1");
    s.handle_key(k(Codigo::Down));
    escribir(&mut s, "500");
    s.handle_key(k(Codigo::Enter));
    assert!(matches!(
        &s.modo,
        ModoGafetes::Alta(f) if f.error.as_deref() == Some("El rango es demasiado grande (máximo 200 a la vez)")
    ));
}

#[test]
fn la_busqueda_del_catalogo_espera_desde_la_ultima_tecla() {
    let mut s = GafetesState::default();
    s.completar_busqueda(Ok(datos()), None);
    s.handle_key_en(k(Codigo::Char('/')), 2_000);
    s.handle_key_en(k(Codigo::Char('1')), 2_000);
    assert_eq!(s.tick(2_000 + DURACION_DEBOUNCE_MS - 1), AccionGafetes::Ninguna);
    assert!(matches!(s.tick(2_000 + DURACION_DEBOUNCE_MS), AccionGafetes::Buscar { .. }));
}

#[test]
fn la_busqueda_del_deudor_espera_desde_la_ultima_tecla() {
    let mut s = GafetesState::default();
    s.completar_busqueda(Ok(datos()), None);
    s.handle_key_en(k(Codigo::Char('P')), 50);
    s.handle_key_en(k(Codigo::Char('j')), 50);
    assert_eq!(s.tick_deudor(49 + DURACION_DEBOUNCE_MS), AccionGafetes::Ninguna);
    assert_eq!(
        s.tick_deudor(50 + DURACION_DEBOUNCE_MS),
        AccionGafetes::BuscarDeudor { texto: Some("j".into()) }
    );
}
