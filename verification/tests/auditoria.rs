use brisas_tui::auditoria::{descripcion_cambio, valor_presentable, AccionAuditoria, AuditoriaState};
use brisas_tui::elegir_interfaz::{AccionElegirInterfaz, ElegirInterfazState, OpcionInterfaz};
use brisas_tui::modelos::{CambioAuditado, EntidadAuditada, PaginaAuditoria, LIMITE_AUDITORIA_PREDETERMINADO};
use brisas_tui::ui::{Codigo, Tecla};

fn tecla(code: Codigo) -> Tecla {
    Tecla::nueva(code)
}

fn cambio() -> CambioAuditado {
    CambioAuditado {
        id: 1,
        fecha_hora: chrono::Utc::now().timestamp(),
        usuario_id: 1,
        usuario_nombre: "Root".into(),
        entidad: EntidadAuditada::Contratista,
        entidad_id: 1,
        entidad_nombre: "Persona".into(),
        campo: "tipo_ingreso".into(),
        valor_anterior: Some("SWAT".into()),
        valor_nuevo: Some("IN_HOUSE".into()),
    }
}

#[test]
fn reinicia_carga_y_escape_vuelve() {
    let mut state = AuditoriaState::default();
    assert_eq!(state.reiniciar(), AccionAuditoria::Cargar { offset: 0 });
    assert_eq!(state.handle_key(tecla(Codigo::Esc)), AccionAuditoria::Volver);
}

#[test]
fn pagina_siguiente_respeta_el_total_real() {
    let mut state = AuditoriaState { total: 51, ..Default::default() };
    state.items.resize_with(LIMITE_AUDITORIA_PREDETERMINADO, cambio);
    assert_eq!(state.handle_key(tecla(Codigo::PageDown)), AccionAuditoria::Cargar { offset: 50 });
}

// Propias.

#[test]
fn la_ultima_pagina_no_avanza_y_la_primera_no_retrocede() {
    let mut state = AuditoriaState::default();
    state.completar(Ok(PaginaAuditoria { items: vec![cambio(), cambio()], total: 2 }));
    assert_eq!(state.seleccion, Some(0));
    assert_eq!(state.handle_key(tecla(Codigo::PageDown)), AccionAuditoria::Ninguna);
    assert_eq!(state.handle_key(tecla(Codigo::PageUp)), AccionAuditoria::Ninguna);
    state.handle_key(tecla(Codigo::Down));
    state.handle_key(tecla(Codigo::Down));
    assert_eq!(state.seleccion, Some(1));
    state.offset = 30;
    assert_eq!(state.handle_key(tecla(Codigo::PageUp)), AccionAuditoria::Cargar { offset: 0 });
    state.completar(Err("sin conexión".into()));
    assert!(state.items.is_empty());
    assert_eq!(state.error.as_deref(), Some("sin conexión"));
}

#[test]
fn elegir_interfaz_alterna_y_confirma() {
    let mut s = ElegirInterfazState::default();
    assert_eq!(s.handle_key(tecla(Codigo::Enter)), AccionElegirInterfaz::Tui);
    s.handle_key(tecla(Codigo::Down));
    assert_eq!(s.seleccion, OpcionInterfaz::Cli);
    assert_eq!(s.etiqueta(OpcionInterfaz::Cli), "▸ Modo CLI");
    assert_eq!(s.etiqueta(OpcionInterfaz::Tui), "  TUI clásica");
    assert_eq!(s.handle_key(tecla(Codigo::Enter)), AccionElegirInterfaz::Cli);
    assert_eq!(s.handle_key(tecla(Codigo::Char('1'))), AccionElegirInterfaz::Tui);
    assert_eq!(s.handle_key(tecla(Codigo::Char('x'))), AccionElegirInterfaz::Ninguna);
    s.reiniciar();
    assert_eq!(s.seleccion, OpcionInterfaz::Tui);
}

#[test]
fn cambio_de_praind_usa_la_convencion_de_fecha_de_la_ui() {
    let c = CambioAuditado {
        campo: "fecha_vencimiento_praind".into(),
        valor_anterior: Some("2028-05-01".into()),
        valor_nuevo: Some("2026-05-01".into()),
        ..cambio()
    };
    assert_eq!(descripcion_cambio(&c), "Vencimiento PRAIND: 01/05/2028 → 01/05/2026");
}

#[test]
fn cambio_de_cedula_usa_una_etiqueta_legible() {
    let c = CambioAuditado {
        usuario_nombre: "Administradora".into(),
        campo: "cedula".into(),
        valor_anterior: Some("1-1111-1111".into()),
        valor_nuevo: Some("1-2222-2222".into()),
        ..cambio()
    };
    assert_eq!(descripcion_cambio(&c), "Cédula: 1-1111-1111 → 1-2222-2222");
}

#[test]
fn cambio_de_password_no_muestra_valores() {
    let c = CambioAuditado {
        entidad: EntidadAuditada::Usuario,
        entidad_id: 2,
        entidad_nombre: "Operador".into(),
        campo: "password".into(),
        valor_anterior: None,
        valor_nuevo: None,
        ..cambio()
    };
    assert_eq!(descripcion_cambio(&c), "Contraseña actualizada");
}

#[test]
fn valores_presentables_por_campo() {
    assert_eq!(descripcion_cambio(&cambio()), "Tipo de ingreso: SWAT → IN HOUSE");
    assert_eq!(valor_presentable("tiene_acceso", Some("HABILITADO")), "Habilitado");
    assert_eq!(valor_presentable("tiene_acceso", Some("DESHABILITADO")), "Deshabilitado");
    assert_eq!(valor_presentable("fecha_vencimiento_praind", None), "Sin fecha");
    assert_eq!(valor_presentable("fecha_vencimiento_praind", Some("mañana")), "mañana");
    assert_eq!(valor_presentable("nombre", None), "—");
    assert_eq!(valor_presentable("tipo_ingreso", Some("POR_CORREO")), "POR CORREO");
}
