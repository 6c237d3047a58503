use brisas_tui::configuracion::{
    etiqueta_esquema, etiqueta_tipo, etiqueta_validacion, nombre_archivo, AccionAjustes, AccionRespaldos,
    ConfiguracionState, ModoRespaldos,
};
use brisas_tui::modelos::{RespaldoResumen, ResultadoValidacion, TipoRespaldo};
use brisas_tui::ui::{Codigo, Tecla};

fn tecla(codigo: Codigo) -> Tecla {
    Tecla::nueva(codigo)
}

fn ahora() -> i64 {
    chrono::Utc::now().timestamp()
}

fn respaldo(ruta: &str, tamano_bytes: u64) -> RespaldoResumen {
    RespaldoResumen { ruta: ruta.into(), creado_en: ahora(), tipo: TipoRespaldo::Manual, tamano_bytes }
}

#[test]
fn reiniciar_respaldos_solicita_la_carga_inicial() {
    let mut estado = ConfiguracionState::default();
    let accion = estado.reiniciar();
    assert_eq!(accion, AccionAjustes::Respaldos(AccionRespaldos::Cargar));
}

#[test]
fn reiniciar_conserva_el_fallo_del_respaldo_automatico() {
    let mut estado = ConfiguracionState::default();
    estado.actualizar_fallo_respaldo_automatico(Some("Error de archivo: disco lleno".into()));
    estado.reiniciar();
    assert_eq!(
        estado.respaldos.fallo_automatico.as_deref(),
        Some("Error de archivo: disco lleno")
    );
}

#[test]
fn un_intento_nuevo_reemplaza_el_fallo_del_respaldo_automatico() {
    let mut estado = ConfiguracionState::default();
    estado.actualizar_fallo_respaldo_automatico(Some("Error de archivo: disco lleno".into()));
    estado.actualizar_fallo_respaldo_automatico(None);
    assert_eq!(estado.respaldos.fallo_automatico, None);
}

#[test]
fn esc_en_respaldos_vuelve_directamente_al_menu_principal() {
    let mut estado = ConfiguracionState::default();
    assert_eq!(estado.handle_key(tecla(Codigo::Esc)), AccionAjustes::Volver);
}

#[test]
fn l_recarga_el_listado_de_respaldos() {
    let mut estado = ConfiguracionState::default();
    assert_eq!(
        estado.handle_key(tecla(Codigo::Char('l'))),
        AccionAjustes::Respaldos(AccionRespaldos::Cargar)
    );
    assert_eq!(
        estado.handle_key(tecla(Codigo::Char('a'))),
        AccionAjustes::Respaldos(AccionRespaldos::Ninguna)
    );
}

#[test]
fn crear_y_revalidar_disparan_las_acciones_correctas_solo_con_seleccion() {
    let mut estado = ConfiguracionState::default();
    assert_eq!(
        estado.handle_key(tecla(Codigo::Char('c'))),
        AccionAjustes::Respaldos(AccionRespaldos::Crear)
    );
    assert_eq!(
        estado.handle_key(tecla(Codigo::Char('v'))),
        AccionAjustes::Respaldos(AccionRespaldos::Ninguna)
    );
}

#[test]
fn marcar_creando_respaldo_bloquea_c_hasta_que_completar_creacion_lo_libera() {
    let mut estado = ConfiguracionState::default();
    estado.marcar_creando_respaldo();
    assert!(estado.creando_respaldo());
    assert_eq!(
        estado.handle_key(tecla(Codigo::Char('c'))),
        AccionAjustes::Respaldos(AccionRespaldos::Ninguna),
        "no debía disparar un segundo respaldo mientras el primero sigue en vuelo"
    );
    estado.completar_creacion(Err("fallo".into()));
    assert!(!estado.creando_respaldo());
    assert_eq!(
        estado.handle_key(tecla(Codigo::Char('c'))),
        AccionAjustes::Respaldos(AccionRespaldos::Crear)
    );
}

#[test]
fn completar_listado_puebla_la_tabla_y_permite_revalidar_la_fila_seleccionada() {
    let mut estado = ConfiguracionState::default();
    let resumen = respaldo("control_acceso_2026-08-18_120000_manual.db", 1024);
    estado.completar_listado(Ok(vec![resumen.clone()]));
    let accion = estado.handle_key(tecla(Codigo::Char('v')));
    assert_eq!(
        accion,
        AccionAjustes::Respaldos(AccionRespaldos::Revalidar { ruta: resumen.ruta })
    );
}

#[test]
fn restaurar_exige_confirmacion_y_esc_cancela_sin_disparar_nada() {
    let mut estado = ConfiguracionState::default();
    estado.completar_listado(Ok(vec![respaldo("respaldo.db", 10)]));
    assert_eq!(
        estado.handle_key(tecla(Codigo::Char('r'))),
        AccionAjustes::Respaldos(AccionRespaldos::Ninguna)
    );
    assert!(matches!(estado.respaldos.modo, ModoRespaldos::ConfirmandoRestauracion { .. }));
    assert_eq!(
        estado.handle_key(tecla(Codigo::Esc)),
        AccionAjustes::Respaldos(AccionRespaldos::Ninguna)
    );
    assert_eq!(estado.respaldos.modo, ModoRespaldos::Normal);
}

#[test]
fn restaurar_confirmado_con_enter_emite_la_accion_con_la_ruta_correcta() {
    let mut estado = ConfiguracionState::default();
    let resumen = respaldo("respaldo.db", 10);
    estado.completar_listado(Ok(vec![resumen.clone()]));
    estado.handle_key(tecla(Codigo::Char('r')));
    let accion = estado.handle_key(tecla(Codigo::Enter));
    assert_eq!(
        accion,
        AccionAjustes::Respaldos(AccionRespaldos::Restaurar { ruta: resumen.ruta })
    );
}

#[test]
fn exportar_sin_texto_no_dispara_nada_y_esc_cancela() {
    let mut estado = ConfiguracionState::default();
    estado.completar_listado(Ok(vec![respaldo("respaldo.db", 10)]));
    estado.handle_key(tecla(Codigo::Char('e')));
    assert_eq!(
        estado.handle_key(tecla(Codigo::Enter)),
        AccionAjustes::Respaldos(AccionRespaldos::Ninguna)
    );
    for c in "C:\\destino\\respaldo.db".chars() {
        estado.handle_key(tecla(Codigo::Char(c)));
    }
    let accion = estado.handle_key(tecla(Codigo::Enter));
    assert!(matches!(accion, AccionAjustes::Respaldos(AccionRespaldos::Exportar { .. })));
}

// Propias.

#[test]
fn la_confirmacion_muestra_fecha_de_costa_rica_y_tipo() {
    let mut estado = ConfiguracionState::default();
    let mut r = respaldo("a/respaldo.db", 10);
    // 2026-08-18 18:00 UTC = 12:00 en Costa Rica.
    r.creado_en = chrono::NaiveDate::from_ymd_opt(2026, 8, 18)
        .unwrap()
        .and_hms_opt(18, 0, 0)
        .unwrap()
        .and_utc()
        .timestamp();
    r.tipo = TipoRespaldo::Automatico;
    estado.completar_listado(Ok(vec![r]));
    estado.handle_key(tecla(Codigo::Char('R')));
    assert_eq!(
        estado.respaldos.modo,
        ModoRespaldos::ConfirmandoRestauracion {
            ruta: "a/respaldo.db".into(),
            fecha: "18/08/2026 12:00".into(),
            tipo: "Automático",
        }
    );
}

#[test]
fn crear_y_revalidar_dejan_mensajes_con_el_nombre_del_archivo() {
    let mut estado = ConfiguracionState::default();
    estado.completar_listado(Ok(vec![respaldo("dir/viejo.db", 1)]));
    estado.completar_creacion(Ok(respaldo("dir/nuevo.db", 2)));
    assert_eq!(estado.respaldos.mensaje.as_deref(), Some("✓ Respaldo creado — nuevo.db"));
    assert_eq!(estado.respaldos.filas.len(), 2);
    assert_eq!(estado.respaldos.seleccion, Some(0));
    estado.completar_validacion("dir/viejo.db", Ok(ResultadoValidacion::Valido { version_esquema: 7 }));
    assert_eq!(estado.respaldos.mensaje.as_deref(), Some("Revalidado — viejo.db"));
    assert_eq!(estado.respaldos.filas[0].validacion, None);
    assert_eq!(
        estado.respaldos.filas[1].validacion,
        Some(ResultadoValidacion::Valido { version_esquema: 7 })
    );
    estado.completar_exportacion(Ok(()), "x.db");
    assert_eq!(estado.respaldos.mensaje.as_deref(), Some("✓ Exportado a x.db"));
    estado.completar_listado(Err("sin acceso".into()));
    assert!(estado.respaldos.filas.is_empty());
    assert_eq!(estado.respaldos.mensaje.as_deref(), Some("sin acceso"));
}

#[test]
fn etiquetas_de_tipo_validacion_y_esquema() {
    assert_eq!(etiqueta_tipo(TipoRespaldo::PorFlag), "Por flag (CLI)");
    assert_eq!(etiqueta_validacion(&None), "—");
    assert_eq!(
        etiqueta_validacion(&Some(ResultadoValidacion::EsquemaIncompatible { version_encontrada: 9 })),
        "ESQUEMA FUTURO"
    );
    assert_eq!(etiqueta_esquema(&Some(ResultadoValidacion::Valido { version_esquema: 12 })), "12");
    assert_eq!(etiqueta_esquema(&Some(ResultadoValidacion::Invalido("x".into()))), "—");
}

#[test]
fn nombre_archivo_toma_el_ultimo_tramo_de_la_ruta() {
    assert_eq!(nombre_archivo("/var/respaldos/brisas_2026.db"), "brisas_2026.db");
    assert_eq!(nombre_archivo("respaldo.db"), "respaldo.db");
    assert_eq!(nombre_archivo("/var/respaldos/.."), "");
}

#[test]
fn revalidar_anota_solo_la_fila_de_esa_ruta() {
    let mut estado = ConfiguracionState::default();
    estado.completar_listado(Ok(vec![respaldo("dir/a.db", 1), respaldo("dir/b.db", 2)]));
    estado.completar_validacion("dir/b.db", Ok(ResultadoValidacion::Valido { version_esquema: 3 }));
    assert_eq!(estado.respaldos.filas[0].validacion, None);
    assert_eq!(estado.respaldos.filas[1].validacion, Some(ResultadoValidacion::Valido { version_esquema: 3 }));
    estado.completar_validacion("dir/c.db", Ok(ResultadoValidacion::Valido { version_esquema: 4 }));
    assert_eq!(estado.respaldos.filas[0].validacion, None);
    assert_eq!(estado.respaldos.filas[1].validacion, Some(ResultadoValidacion::Valido { version_esquema: 3 }));
}
