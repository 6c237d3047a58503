use brisas_tui::historial::{
    construir, empresa_texto, estado_texto, normalizar_destino, parsear_consulta, tipos_texto,
    AccionHistorial, ColumnaHistorial,
    FiltrosHistorial, HistorialState, ModoHistorial, PropositoColumnas, ViewMode,
    DURACION_DEBOUNCE_MS,
};
use brisas_tui::modelos::{
    Empresa, EstadoMovimiento, Igualdad, MedioIngreso, MovimientoIngresoResumen, PaginaHistorial,
    TipoIngreso,
};
use brisas_tui::ui::{Codigo, Tecla};
use chrono::NaiveDate;

fn reloj_ms() -> u64 {
    std::time::SystemTime::now()
        .duration_since(std::time::UNIX_EPOCH)
        .map(|d| d.as_millis() as u64)
        .unwrap_or(0)
}


fn tecla(code: Codigo) -> Tecla {
    Tecla::nueva(code)
}

fn utc(y: i32, m: u32, d: u32, h: u32, min: u32) -> i64 {
    NaiveDate::from_ymd_opt(y, m, d)
        .unwrap()
        .and_hms_opt(h, min, 0)
        .unwrap()
        .and_utc()
        .timestamp()
}

fn pagina(cantidad: usize, total: usize) -> PaginaHistorial {
    PaginaHistorial {
        items: (0..cantidad)
            .map(|i| MovimientoIngresoResumen {
                registro_id: i as i64 + 1,
                contratista_id: 10,
                cedula: "101010101".into(),
                contratista_nombre: "Ana Solano".into(),
                empresa_nombre: "Brisas".into(),
                tipo_ingreso: TipoIngreso::Praind,
                medio_ingreso: MedioIngreso::Caminando,
                // 08:30 en Costa Rica (UTC−6).
                fecha_hora_ingreso: utc(2026, 8, 12, 14, 30),
                fecha_hora_salida: None,
                gafete_numero: Some(7),
                usuario_ingreso_nombre: "Quintana".into(),
                usuario_salida_nombre: None,
            })
            .collect(),
        total,
        corte_id: 100,
    }
}

fn base() -> FiltrosHistorial {
    FiltrosHistorial::default()
}

fn tras_la_espera() -> u64 {
    reloj_ms() + DURACION_DEBOUNCE_MS + 1
}

#[test]
fn fechas_visuales_generan_rango_backend_inclusivo_exclusivo() {
    let filtro = FiltrosHistorial {
        desde: "01/08/2026".into(),
        hasta: "12/08/2026".into(),
        ..base()
    };
    let query = construir(&filtro, "", 50, 0, None).unwrap();
    assert_eq!(query.desde, utc(2026, 8, 1, 6, 0));
    assert_eq!(query.hasta, utc(2026, 8, 13, 6, 0));
}

#[test]
fn filtros_mapean_ids_enums_gafete_exacto_y_texto() {
    let filtro = FiltrosHistorial {
        nombre_cedula: "  Ana  ".into(),
        empresa_id: Some(Igualdad::Incluye(8)),
        tipos: Some(vec![TipoIngreso::PorCorreo]),
        gafete: "27".into(),
        estado: EstadoMovimiento::Cerrados,
        ..base()
    };
    let query = construir(&filtro, "", 50, 100, Some(77)).unwrap();
    assert_eq!(query.texto_persona.as_deref(), Some("Ana"));
    assert_eq!(query.empresa_id, Some(Igualdad::Incluye(8)));
    assert_eq!(query.tipos_incluidos, Some(vec![TipoIngreso::PorCorreo]));
    assert_eq!(query.gafete_numero, Some(Igualdad::Incluye(27)));
    assert_eq!(query.estado, EstadoMovimiento::Cerrados);
    assert_eq!((query.limite, query.offset), (50, 100));
    assert_eq!(query.corte_id, Some(77));
}

#[test]
fn busqueda_rapida_se_combina_con_filtros_aplicados_tras_el_debounce() {
    let mut state = HistorialState::default();
    state.filtro_aplicado.empresa_id = Some(Igualdad::Incluye(3));
    let accion = state.handle_key(tecla(Codigo::Char('a')));
    assert_eq!(accion, AccionHistorial::Ninguna);
    let accion = state.tick(tras_la_espera());
    let AccionHistorial::Consultar(filtro) = accion else {
        panic!("debía consultar")
    };
    assert_eq!(filtro.texto_persona.as_deref(), Some("a"));
    assert_eq!(filtro.empresa_id, Some(Igualdad::Incluye(3)));
}

#[test]
fn completar_pagina_usa_total_real_y_seleccion_segura() {
    let mut state = HistorialState::default();
    state.completar(Ok(pagina(2, 73)));
    assert_eq!(state.total, 73);
    assert_eq!(state.registros.len(), 2);
    assert_eq!(state.seleccion, Some(0));
    state.completar(Ok(pagina(0, 0)));
    assert_eq!(state.seleccion, None);
}

#[test]
fn page_down_y_page_up_emiten_offsets_de_cincuenta() {
    let mut state = HistorialState::default();
    state.completar(Ok(pagina(50, 120)));
    let AccionHistorial::Consultar(siguiente) = state.handle_key(tecla(Codigo::PageDown)) else {
        panic!("debía consultar")
    };
    assert_eq!(siguiente.offset, 50);
    assert_eq!(siguiente.corte_id, Some(100));
    let AccionHistorial::Consultar(anterior) = state.handle_key(tecla(Codigo::PageUp)) else {
        panic!("debía consultar")
    };
    assert_eq!(anterior.offset, 0);
    assert_eq!(anterior.corte_id, Some(100));
}

#[test]
fn una_busqueda_nueva_descarta_el_corte_de_la_navegacion_anterior() {
    let mut state = HistorialState::default();
    state.completar(Ok(pagina(50, 120)));
    assert_eq!(state.handle_key(tecla(Codigo::Char('a'))), AccionHistorial::Ninguna);
    let accion = state.tick(tras_la_espera());
    let AccionHistorial::Consultar(filtro) = accion else {
        panic!("debía iniciar una consulta nueva")
    };
    assert_eq!(filtro.offset, 0);
    assert_eq!(filtro.corte_id, None);
}

#[test]
fn volver_a_abrir_historial_inicia_una_fotografia_nueva() {
    let mut state = HistorialState::default();
    state.completar(Ok(pagina(50, 120)));
    state.handle_key(tecla(Codigo::PageDown));
    let AccionHistorial::Consultar(filtro) = state.solicitud_carga() else {
        panic!("debía recargar el historial")
    };
    assert_eq!(filtro.offset, 0);
    assert_eq!(filtro.corte_id, None);
}

#[test]
fn fechas_y_campos_rechazan_formato_o_caracteres_invalidos() {
    assert!(construir(
        &FiltrosHistorial {
            desde: "31/02/2026".into(),
            ..base()
        },
        "",
        50,
        0,
        None
    )
    .is_err());
}

#[test]
fn historial_panel_refleja_la_seleccion_resaltada_sin_pasos_extra() {
    let mut state = HistorialState::default();
    state.completar(Ok(pagina(2, 2)));
    assert_eq!(state.seleccionado().map(|r| r.registro_id), Some(1));
    state.handle_key(tecla(Codigo::Down));
    assert_eq!(state.seleccionado().map(|r| r.registro_id), Some(2));
}

#[test]
fn f3_alterna_entre_linea_de_tiempo_y_vista_clasica() {
    let mut state = HistorialState::default();
    assert_eq!(state.vista, ViewMode::Timeline);
    state.handle_key(tecla(Codigo::F(3)));
    assert_eq!(state.vista, ViewMode::Classic);
    state.handle_key(tecla(Codigo::F(3)));
    assert_eq!(state.vista, ViewMode::Timeline);
}

#[test]
fn f4_no_hace_nada_fuera_de_la_vista_clasica_y_letras_sueltas_van_a_la_busqueda() {
    let mut state = HistorialState::default();
    state.handle_key(tecla(Codigo::F(4)));
    assert_eq!(state.modo, ModoHistorial::Normal);
    state.handle_key(tecla(Codigo::Char('f')));
    assert_eq!(state.modo, ModoHistorial::Normal);
    assert_eq!(state.busqueda.texto(), "f");
}

#[test]
fn f4_abre_el_editor_de_columnas_solo_en_la_vista_clasica() {
    let mut state = HistorialState::default();
    state.handle_key(tecla(Codigo::F(3)));
    assert_eq!(state.vista, ViewMode::Classic);
    state.handle_key(tecla(Codigo::F(4)));
    assert!(matches!(
        state.modo,
        ModoHistorial::Columnas {
            seleccion: 0,
            proposito: PropositoColumnas::Vista,
        }
    ));
    state.handle_key(tecla(Codigo::Char(' ')));
    assert!(!state.columnas_clasica[0].1);
    state.handle_key(tecla(Codigo::Esc));
    assert_eq!(state.modo, ModoHistorial::Normal);
}

#[test]
fn f5_pide_columnas_y_ruta_antes_de_exportar_todo_el_filtro() {
    let mut state = HistorialState::default();
    state.completar(Ok(pagina(2, 73)));
    assert_eq!(state.handle_key(tecla(Codigo::F(5))), AccionHistorial::Ninguna);
    assert!(matches!(
        state.modo,
        ModoHistorial::Columnas {
            seleccion: 0,
            proposito: PropositoColumnas::Exportacion,
        }
    ));
    state.handle_key(tecla(Codigo::Char(' ')));
    assert!(!state.columnas_clasica[0].1, "FECHA debía quedar omitida");
    state.handle_key(tecla(Codigo::Enter));
    assert!(matches!(state.modo, ModoHistorial::RutaExportacion { .. }));
    let AccionHistorial::Exportar { filtro, columnas, destino } =
        state.handle_key(tecla(Codigo::Enter))
    else {
        panic!("debía confirmar la exportación")
    };
    assert_eq!(filtro.offset, 0);
    assert_eq!(filtro.corte_id, Some(100));
    assert_eq!(columnas.len(), ColumnaHistorial::todas().len() - 1);
    assert!(!columnas.contains(&ColumnaHistorial::Fecha));
    assert_eq!(
        std::path::Path::new(&destino).extension().and_then(|e| e.to_str()),
        Some("xlsx")
    );
}

#[test]
fn f5_sin_resultados_no_abre_el_flujo_de_exportacion() {
    let mut state = HistorialState::default();
    state.handle_key(tecla(Codigo::F(5)));
    assert_eq!(state.modo, ModoHistorial::Normal);
    assert_eq!(state.mensaje.as_deref(), Some("No hay movimientos para exportar"));
}

fn empresas_brisas_aldama() -> Vec<Empresa> {
    vec![
        Empresa { id: 5, nombre: "Brisas del Oeste".into(), activo: true },
        Empresa { id: 9, nombre: "Aldama Servicios".into(), activo: true },
    ]
}

fn alvarez() -> Vec<Empresa> {
    vec![Empresa { id: 9, nombre: "Álvarez Ingeniería".into(), activo: true }]
}

#[test]
fn parsear_consulta_resuelve_empresa_por_nombre_parcial_y_deja_texto_libre() {
    let (filtros, libre) =
        parsear_consulta(&base(), "empresa:\"Brisas del Oeste\" Ana", &empresas_brisas_aldama());
    assert_eq!(filtros.empresa_id, Some(Igualdad::Incluye(5)));
    assert_eq!(libre, "Ana");
}

#[test]
fn parsear_consulta_empresa_ignora_tildes_en_ambos_lados() {
    let (filtros, _) = parsear_consulta(&base(), "empresa:alvarez", &alvarez());
    assert_eq!(filtros.empresa_id, Some(Igualdad::Incluye(9)));
}

#[test]
fn parsear_consulta_niega_empresa_gafete_ingreso_y_salida() {
    let (filtros, libre) = parsear_consulta(
        &base(),
        "-empresa:alvarez -gafete:26 -ingreso:ana -salida:ana",
        &alvarez(),
    );
    assert_eq!(filtros.empresa_id, Some(Igualdad::Excluye(9)));
    assert_eq!(filtros.gafete, "26");
    assert!(filtros.gafete_negado);
    assert_eq!(filtros.usuario_ingreso, "ana");
    assert!(filtros.usuario_ingreso_negado);
    assert_eq!(filtros.usuario_salida, "ana");
    assert!(filtros.usuario_salida_negado);
    assert!(libre.is_empty());
}

#[test]
fn parsear_consulta_reconoce_tipo_estado_y_gafete() {
    let (filtros, libre) = parsear_consulta(&base(), "tipo:praind estado:activos gafete:27", &[]);
    assert_eq!(filtros.tipos, Some(vec![TipoIngreso::Praind]));
    assert_eq!(filtros.estado, EstadoMovimiento::Activos);
    assert_eq!(filtros.gafete, "27");
    assert!(libre.is_empty());
}

#[test]
fn parsear_consulta_gafete_no_numerico_cae_a_texto_libre() {
    let (filtros, libre) = parsear_consulta(&base(), "gafete:abc", &[]);
    assert_eq!(filtros.gafete, "");
    assert_eq!(libre, "gafete:abc");
}

#[test]
fn parsear_consulta_reconoce_quien_dio_ingreso_y_quien_dio_salida() {
    let (filtros, libre) = parsear_consulta(&base(), "ingreso:quintana salida:\"Ana Solano\"", &[]);
    assert_eq!(filtros.usuario_ingreso, "quintana");
    assert_eq!(filtros.usuario_salida, "Ana Solano");
    assert!(libre.is_empty());
}

#[test]
fn ingreso_y_salida_no_admiten_lista_pero_si_negacion() {
    let (filtros, libre) = parsear_consulta(&base(), "ingreso:a,b -salida:c", &[]);
    assert_eq!(filtros.usuario_ingreso, "");
    assert_eq!(filtros.usuario_salida, "c");
    assert!(filtros.usuario_salida_negado);
    assert_eq!(libre, "ingreso:a,b");
}

#[test]
fn parsear_consulta_admite_listas_de_tipo() {
    let (filtros, libre) = parsear_consulta(&base(), "tipo:praind,swat", &[]);
    assert_eq!(filtros.tipos, Some(vec![TipoIngreso::Praind, TipoIngreso::Swat]));
    assert!(libre.is_empty());
}

#[test]
fn parsear_consulta_niega_tipo_incluyendo_los_demas() {
    let (filtros, _) = parsear_consulta(&base(), "-tipo:swat", &[]);
    let tipos = filtros.tipos.expect("debía filtrar por tipos");
    assert_eq!(tipos.len(), 3);
    assert!(!tipos.contains(&TipoIngreso::Swat));
    assert!(tipos.contains(&TipoIngreso::Praind));
}

#[test]
fn parsear_consulta_niega_estado_invirtiendo_activos_y_cerrados() {
    let (activos, _) = parsear_consulta(&base(), "-estado:cerrados", &[]);
    assert_eq!(activos.estado, EstadoMovimiento::Activos);
    let (cerrados, _) = parsear_consulta(&base(), "-estado:activos", &[]);
    assert_eq!(cerrados.estado, EstadoMovimiento::Cerrados);
}

#[test]
fn parsear_consulta_deja_como_texto_libre_las_listas_pero_admite_negacion_de_gafete() {
    let (filtros, libre) = parsear_consulta(&base(), "gafete:1,2 -gafete:3", &[]);
    assert_eq!(filtros.gafete, "3");
    assert!(filtros.gafete_negado);
    assert_eq!(libre, "gafete:1,2");
}

#[test]
fn parsear_consulta_conserva_lo_no_reconocido_como_texto_libre() {
    let (filtros, libre) =
        parsear_consulta(&base(), "empresa:Inexistente tipo:invalido Juan", &[]);
    assert_eq!(filtros.empresa_id, None);
    assert_eq!(filtros.tipos, None);
    assert_eq!(libre, "empresa:Inexistente tipo:invalido Juan");
}

#[test]
fn parsear_consulta_no_pisa_los_campos_no_mencionados_del_filtro_base() {
    let base = FiltrosHistorial {
        desde: "01/08/2026".into(),
        empresa_id: Some(Igualdad::Incluye(3)),
        ..base()
    };
    let (filtros, _) = parsear_consulta(&base, "tipo:swat", &[]);
    assert_eq!(filtros.desde, "01/08/2026");
    assert_eq!(filtros.empresa_id, Some(Igualdad::Incluye(3)));
    assert_eq!(filtros.tipos, Some(vec![TipoIngreso::Swat]));
}

#[test]
fn busqueda_rapida_admite_clave_valor_y_se_combina_con_filtros_del_panel() {
    let mut state = HistorialState::default();
    state.completar_empresas(Ok(vec![Empresa {
        id: 3,
        nombre: "Expenic Industrial".into(),
        activo: true,
    }]));
    state.filtro_aplicado.tipos = Some(vec![TipoIngreso::Praind]);
    for c in "empresa:Expenic".chars() {
        state.handle_key(tecla(Codigo::Char(c)));
    }
    let accion = state.handle_key(tecla(Codigo::Enter));
    assert_eq!(accion, AccionHistorial::Ninguna);
    let AccionHistorial::Consultar(filtro) = state.solicitud_carga() else {
        panic!("debía consultar")
    };
    assert_eq!(filtro.empresa_id, Some(Igualdad::Incluye(3)));
    assert_eq!(filtro.tipos_incluidos, Some(vec![TipoIngreso::Praind]));
    assert_eq!(filtro.texto_persona, None);
}

#[test]
fn activo_no_tiene_fecha_de_salida_ni_usuario_de_salida() {
    let registro = pagina(1, 1).items.remove(0);
    assert_eq!(registro.fecha_hora_salida, None);
    assert_eq!(registro.usuario_salida_nombre, None);
}

// Propias.

#[test]
fn el_destino_de_exportacion_se_recorta_y_exige_xlsx() {
    assert_eq!(
        normalizar_destino("   ").unwrap_err(),
        "Ingrese una ruta para el archivo XLSX"
    );
    assert_eq!(normalizar_destino(" informe ").unwrap(), "informe.xlsx");
    assert_eq!(normalizar_destino("informe.XLSX").unwrap(), "informe.XLSX");
    assert_eq!(
        normalizar_destino("informe.csv").unwrap_err(),
        "La exportación debe usar la extensión .xlsx"
    );
}

#[test]
fn la_pagina_se_cuenta_desde_uno_y_redondea_hacia_arriba() {
    let mut state = HistorialState::default();
    assert_eq!(state.pagina(), (0, 0));
    state.completar(Ok(pagina(50, 120)));
    assert_eq!(state.pagina(), (1, 3));
    state.handle_key(tecla(Codigo::PageDown));
    assert_eq!(state.pagina(), (2, 3));
}

#[test]
fn no_se_puede_ocultar_la_ultima_columna() {
    let mut state = HistorialState::default();
    state.handle_key(tecla(Codigo::F(3)));
    state.handle_key(tecla(Codigo::F(4)));
    for _ in 0..10 {
        state.handle_key(tecla(Codigo::Char(' ')));
        state.handle_key(tecla(Codigo::Down));
    }
    state.handle_key(tecla(Codigo::Char(' ')));
    assert_eq!(state.columnas_clasica.iter().filter(|c| c.1).count(), 1);
    assert_eq!(state.mensaje.as_deref(), Some("Debe conservar al menos una columna"));
}

#[test]
fn preferencias_de_vista_y_columnas_ida_y_vuelta() {
    let mut state = HistorialState::default();
    state.aplicar_vista_preferencia("classic");
    assert_eq!(state.vista_preferencia(), "classic");
    state.aplicar_vista_preferencia("otra");
    assert_eq!(state.vista, ViewMode::Classic);
    state.aplicar_columnas_preferencia("cedula,nombre");
    assert_eq!(state.columnas_preferencia(), "cedula,nombre");
    state.aplicar_columnas_preferencia("desconocida");
    assert_eq!(state.columnas_preferencia(), "cedula,nombre");
}

#[test]
fn exportacion_terminada_libera_y_deja_mensaje() {
    let mut state = HistorialState::default();
    state.marcar_exportando();
    assert!(state.exportando());
    state.completar_exportacion(Ok(12), "c:/x.xlsx");
    assert!(!state.exportando());
    assert_eq!(state.mensaje.as_deref(), Some("✓ Exportados 12 movimientos a c:/x.xlsx"));
    state.completar_exportacion(Err("disco lleno".into()), "c:/x.xlsx");
    assert_eq!(state.mensaje.as_deref(), Some("✕ disco lleno"));
}

#[test]
fn escape_limpia_la_busqueda_antes_de_volver() {
    let mut state = HistorialState::default();
    state.handle_key(tecla(Codigo::Char('x')));
    assert!(matches!(state.handle_key(tecla(Codigo::Esc)), AccionHistorial::Consultar(_)));
    assert!(state.busqueda.is_empty());
    assert_eq!(state.handle_key(tecla(Codigo::Esc)), AccionHistorial::Volver);
}

#[test]
fn textos_del_resumen_de_filtros() {
    use_textos();
}

fn use_textos() {
    let empresas = vec![brisas_tui::modelos::Empresa { id: 3, nombre: "Acme".into(), activo: true }];
    assert_eq!(empresa_texto(Some(3), &empresas), "Acme");
    assert_eq!(empresa_texto(Some(4), &empresas), "Todas");
    assert_eq!(empresa_texto(None, &empresas), "Todas");
    assert_eq!(estado_texto(brisas_tui::modelos::EstadoMovimiento::Cerrados), "Cerrados");
    assert_eq!(tipos_texto(None), "Todos");
    assert_eq!(
        tipos_texto(Some(&[
            brisas_tui::modelos::TipoIngreso::Praind,
            brisas_tui::modelos::TipoIngreso::PorCorreo
        ])),
        "PRAIND o POR CORREO"
    );
}

#[test]
fn destino_sencillo_sin_extension_recibe_xlsx_y_otra_extension_se_rechaza() {
    assert_eq!(normalizar_destino("  /tmp/reportes/a  ").unwrap(), "/tmp/reportes/a.xlsx");
    assert_eq!(normalizar_destino("/tmp/reportes/a.XLSX").unwrap(), "/tmp/reportes/a.XLSX");
    assert_eq!(normalizar_destino("/tmp/v1.2/informe").unwrap(), "/tmp/v1.2/informe.xlsx");
    assert_eq!(normalizar_destino(".oculto").unwrap(), ".oculto.xlsx");
    assert_eq!(
        normalizar_destino("/tmp/reportes/a.csv").unwrap_err(),
        "La exportación debe usar la extensión .xlsx"
    );
}

#[test]
fn la_busqueda_no_toca_el_texto_de_nombre_ni_los_campos_sin_clave() {
    let base = FiltrosHistorial {
        nombre_cedula: "Pérez".into(),
        hasta: "31/08/2026".into(),
        gafete: "12".into(),
        ..FiltrosHistorial::default()
    };
    let (f, libre) = parsear_consulta(&base, "estado:cerrados juan", &[]);
    assert_eq!(f.nombre_cedula, "Pérez");
    assert_eq!(f.hasta, "31/08/2026");
    assert_eq!(f.gafete, "12");
    assert_eq!(f.estado, EstadoMovimiento::Cerrados);
    assert_eq!(libre, "juan");
}

#[test]
fn los_filtros_iniciales_siempre_arman_una_consulta() {
    let state = HistorialState::default();
    let consulta = state.consulta().unwrap();
    assert!(consulta.desde < consulta.hasta);
    assert_eq!(consulta.offset, 0);
}

#[test]
fn la_busqueda_del_historial_espera_desde_la_ultima_tecla() {
    let mut state = HistorialState::default();
    state.completar(Ok(pagina(50, 120)));
    state.handle_key_en(tecla(Codigo::Char('a')), 100);
    assert_eq!(state.tick(99 + DURACION_DEBOUNCE_MS), AccionHistorial::Ninguna);
    match state.tick(100 + DURACION_DEBOUNCE_MS) {
        AccionHistorial::Consultar(f) => {
            assert_eq!(f.offset, 0);
            assert_eq!(f.corte_id, None);
            assert_eq!(f.texto_persona.as_deref(), Some("a"));
        },
        otra => panic!("{otra:?}"),
    }
}

#[test]
fn con_una_exportacion_en_curso_f5_no_empieza_otra() {
    let mut state = HistorialState::default();
    state.completar(Ok(pagina(50, 73)));
    state.marcar_exportando();
    assert!(state.exportando());
    let mensaje = state.mensaje.clone();
    assert_eq!(state.handle_key(tecla(Codigo::F(5))), AccionHistorial::Ninguna);
    assert_eq!(state.modo, ModoHistorial::Normal);
    assert_eq!(state.mensaje, mensaje);
}
