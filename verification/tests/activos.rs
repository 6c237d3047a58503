use brisas_tui::activos::{AccionActivos, ActivosState, ModoActivos, DURACION_DEBOUNCE_MS};
use brisas_tui::modelos::{
    Empresa, Igualdad, IngresoActivoResumen, ListaIngresosActivosResumen, MedioIngreso,
    TipoIngreso,
};
use brisas_tui::ui::{Codigo, Tecla};

fn reloj_ms() -> u64 {
    std::time::SystemTime::now()
        .duration_since(std::time::UNIX_EPOCH)
        .map(|d| d.as_millis() as u64)
        .unwrap_or(0)
}


fn k(c: Codigo) -> Tecla {
    Tecla::nueva(c)
}

fn r(id: i64, g: Option<i64>) -> IngresoActivoResumen {
    IngresoActivoResumen {
        registro_id: id,
        contratista_id: id,
        cedula: format!("C-{id}"),
        contratista_nombre: format!("Persona {id}"),
        empresa_nombre: "Empresa".into(),
        tipo_ingreso: TipoIngreso::Praind,
        medio_ingreso: MedioIngreso::Caminando,
        fecha_hora_ingreso: 1_786_543_200,
        gafete_numero: g,
        usuario_ingreso_nombre: "Ana".into(),
    }
}

fn cargar(s: &mut ActivosState) {
    s.completar_busqueda(
        Ok(ListaIngresosActivosResumen {
            items: vec![r(7, Some(26)), r(9, None)],
            total: 2,
        }),
        None,
    )
}

#[test]
fn inicia_vacio_y_carga_real() {
    let mut s = ActivosState::default();
    assert_eq!(s.cantidad(), 0);
    cargar(&mut s);
    assert_eq!(s.cantidad(), 2);
    assert_eq!(s.total_activos(), 2);
    assert_eq!(s.seleccion, Some(0))
}

#[test]
fn busqueda_emite_consulta_real_tras_el_debounce() {
    let mut s = ActivosState::default();
    cargar(&mut s);
    s.handle_key(k(Codigo::Char('/')));
    assert_eq!(s.handle_key(k(Codigo::Char('j'))), AccionActivos::Ninguna);
    let accion = s.tick(reloj_ms() + DURACION_DEBOUNCE_MS + 1);
    assert!(matches!(accion, AccionActivos::Buscar{texto:Some(t),..} if t=="j"));
    assert_eq!(s.cantidad(), 2)
}

#[test]
fn busqueda_admite_clave_valor_de_empresa_tipo_gafete_medio_y_deja_texto_libre() {
    let mut s = ActivosState::default();
    cargar(&mut s);
    s.completar_empresas(Ok(vec![Empresa {
        id: 5,
        nombre: "Brisas del Oeste".into(),
        activo: true,
    }]));
    s.filtro = "empresa:brisas tipo:praind,swat gafete:26 medio:caminando Ana".into();
    let AccionActivos::Buscar {
        texto,
        empresa_id,
        tipos,
        gafete,
        medio,
        ..
    } = s.buscar(None)
    else {
        panic!("debía consultar")
    };
    assert_eq!(empresa_id, Some(Igualdad::Incluye(5)));
    assert_eq!(tipos, Some(vec![TipoIngreso::Praind, TipoIngreso::Swat]));
    assert_eq!(gafete, Some(Igualdad::Incluye(26)));
    assert_eq!(medio, Some(MedioIngreso::Caminando));
    assert_eq!(texto.as_deref(), Some("Ana"));
}

#[test]
fn negar_medio_pide_el_medio_opuesto() {
    let s = ActivosState {
        filtro: "-medio:caminando".into(),
        ..Default::default()
    };
    let AccionActivos::Buscar { medio, texto, .. } = s.buscar(None) else {
        panic!("debía consultar")
    };
    assert_eq!(medio, Some(MedioIngreso::Vehiculo));
    assert_eq!(texto, None);
}

#[test]
fn tests_empresa_con_clave_valor_ignora_tildes_en_ambos_lados() {
    let mut s = ActivosState::default();
    s.completar_empresas(Ok(vec![Empresa {
        id: 9,
        nombre: "Álvarez Ingeniería".into(),
        activo: true,
    }]));
    s.filtro = "empresa:alvarez".into();
    let AccionActivos::Buscar { empresa_id, .. } = s.buscar(None) else {
        panic!("debía consultar")
    };
    assert_eq!(empresa_id, Some(Igualdad::Incluye(9)));
}

#[test]
fn negar_empresa_y_gafete() {
    let mut s = ActivosState::default();
    s.completar_empresas(Ok(vec![Empresa {
        id: 9,
        nombre: "Álvarez Ingeniería".into(),
        activo: true,
    }]));
    s.filtro = "-empresa:alvarez -gafete:26".into();
    let AccionActivos::Buscar {
        empresa_id,
        gafete,
        texto,
        ..
    } = s.buscar(None)
    else {
        panic!("debía consultar")
    };
    assert_eq!(empresa_id, Some(Igualdad::Excluye(9)));
    assert_eq!(gafete, Some(Igualdad::Excluye(26)));
    assert_eq!(texto, None);
}

#[test]
fn negar_tipo_incluye_los_demas_y_clave_invalida_cae_a_texto_libre() {
    let mut s = ActivosState {
        filtro: "-tipo:swat".into(),
        ..Default::default()
    };
    let AccionActivos::Buscar { tipos, .. } = s.buscar(None) else {
        panic!("debía consultar")
    };
    let tipos = tipos.expect("debía filtrar por tipos");
    assert_eq!(tipos.len(), 3);
    assert!(!tipos.contains(&TipoIngreso::Swat));

    s.filtro = "gafete:no-numero".into();
    assert!(s.resumen_consulta().contains("sin interpretar"));
    let AccionActivos::Buscar { texto, gafete, .. } = s.buscar(None) else {
        panic!("debía consultar")
    };
    assert_eq!(gafete, None);
    assert_eq!(texto.as_deref(), Some("gafete:no-numero"));
}

#[test]
fn enter_pide_confirmar_la_salida_del_registro_seleccionado() {
    let mut s = ActivosState::default();
    cargar(&mut s);
    s.handle_key(k(Codigo::Enter));
    assert!(matches!(s.modo, ModoActivos::ConfirmarSalida { id: 7 }));
    assert!(matches!(
        s.handle_key(k(Codigo::Enter)),
        AccionActivos::RegistrarSalida { registro_id: 7, .. }
    ));
}

#[test]
fn cancelar_salida_no_emite_accion() {
    let mut s = ActivosState::default();
    cargar(&mut s);
    s.handle_key(k(Codigo::Enter));
    assert!(matches!(s.handle_key(k(Codigo::Esc)), AccionActivos::Ninguna));
    assert_eq!(s.cantidad(), 2)
}

#[test]
fn callback_salida_recarga_sin_remover_localmente() {
    let mut s = ActivosState::default();
    cargar(&mut s);
    let a = s.completar_salida(Ok(()), 7, "Persona 7");
    assert_eq!(s.cantidad(), 2);
    assert!(matches!(a, AccionActivos::Buscar { .. }));
    s.completar_busqueda(
        Ok(ListaIngresosActivosResumen {
            items: vec![r(9, None)],
            total: 1,
        }),
        None,
    );
    assert_eq!(s.cantidad(), 1)
}

#[test]
fn columnas_y_movimiento_conservan_ux() {
    let mut s = ActivosState::default();
    cargar(&mut s);
    s.handle_key(k(Codigo::F(4)));
    assert!(matches!(s.modo, ModoActivos::Columnas { .. }));
}

#[test]
fn mensaje_de_salida_sobrevive_recarga_y_navegacion() {
    let mut s = ActivosState::default();
    cargar(&mut s);

    let recarga = s.completar_salida(Ok(()), 7, "Ana");
    assert!(matches!(recarga, AccionActivos::Buscar { .. }));
    cargar(&mut s);
    s.handle_key(k(Codigo::Down));

    assert_eq!(s.mensaje.as_deref(), Some("✓ Salida registrada — Ana"));
}

#[test]
fn resumen_muestra_ejemplo_si_no_hay_busqueda_y_describe_los_filtros() {
    let mut s = ActivosState::default();
    assert_eq!(
        s.resumen_consulta(),
        "Ejemplo: empresa:Brisas tipo:praind gafete:26"
    );
    s.completar_empresas(Ok(vec![Empresa {
        id: 5,
        nombre: "Brisas".into(),
        activo: true,
    }]));
    s.filtro = "-empresa:bris tipo:praind,swat -gafete:26 medio:carro tipo:xx Ana".into();
    assert_eq!(
        s.resumen_consulta(),
        "empresa≠Brisas · tipo=PRAIND,SWAT · gafete≠26 · medio=vehículo · ⚠ sin interpretar: tipo:xx"
    );
}

#[test]
fn el_editor_de_columnas_no_permite_ocultar_todas() {
    let mut s = ActivosState::default();
    s.aplicar_columnas_preferencia("nombre");
    assert_eq!(s.columnas_preferencia(), "nombre");
    s.handle_key(k(Codigo::F(4)));
    s.handle_key(k(Codigo::Down));
    s.handle_key(k(Codigo::Char(' ')));
    assert_eq!(s.columnas_preferencia(), "nombre");
    assert_eq!(
        s.mensaje.as_deref(),
        Some("Debe conservar al menos una columna")
    );
    s.handle_key(k(Codigo::Down));
    s.handle_key(k(Codigo::Char(' ')));
    assert_eq!(s.columnas_preferencia(), "nombre,empresa");
    s.aplicar_columnas_preferencia("desconocida");
    assert_eq!(s.columnas_preferencia(), "nombre,empresa");
}

#[test]
fn columnas_predeterminadas_ocultan_medio_y_usuario() {
    let s = ActivosState::default();
    assert_eq!(
        s.columnas_preferencia(),
        "cedula,nombre,empresa,tipo,hora,gafete"
    );
}

#[test]
fn la_busqueda_de_activos_espera_desde_la_ultima_tecla() {
    let mut s = ActivosState::default();
    cargar(&mut s);
    s.handle_key_en(k(Codigo::Char('/')), 10);
    s.handle_key_en(k(Codigo::Char('j')), 10);
    assert_eq!(s.tick(9 + DURACION_DEBOUNCE_MS), AccionActivos::Ninguna);
    let accion = s.tick(10 + DURACION_DEBOUNCE_MS);
    assert!(matches!(accion, AccionActivos::Buscar{texto:Some(t),..} if t=="j"));
}
