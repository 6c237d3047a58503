use brisas_tui::contratistas::{
    construir, AccionContratistas, CampoFormulario, ContratistasState, DatosContratista,
    FiltroPraind, FormularioContratista, ModoContratistas, ModoFormulario, DURACION_DEBOUNCE_MS,
    LIMITE_PAGINA,
};
use brisas_tui::contratistas::estado::fila_formulario;
use brisas_tui::modelos::{ContratistaResumen, Empresa, Igualdad, PaginaContratistas, RolUsuario, TipoIngreso};
use brisas_tui::ui::{Codigo, Tecla, TextInput};
use chrono::{Datelike, NaiveDate};

fn reloj_ms() -> u64 {
    std::time::SystemTime::now()
        .duration_since(std::time::UNIX_EPOCH)
        .map(|d| d.as_millis() as u64)
        .unwrap_or(0)
}


fn k(c: Codigo) -> Tecla {
    Tecla::nueva(c)
}

fn dia(y: i32, m: u32, d: u32) -> i32 {
    NaiveDate::from_ymd_opt(y, m, d).unwrap().num_days_from_ce()
}

fn empresa() -> Empresa {
    Empresa { id: 5, nombre: "Empresa Real".into(), activo: true }
}

fn resumen() -> ContratistaResumen {
    ContratistaResumen {
        id: 7,
        empresa_id: 5,
        cedula: "001-2".into(),
        nombre: "José Hernández".into(),
        empresa_nombre: "Empresa Real".into(),
        tipo_ingreso: TipoIngreso::Praind,
        fecha_vencimiento_praind: Some(dia(2026, 12, 31)),
        es_personal_ruta: false,
        tiene_acceso: true,
        tiene_ingreso_activo: false,
    }
}

fn cargar(s: &mut ContratistasState) {
    s.completar_empresas(Ok(vec![empresa()]));
    s.completar_busqueda(Ok(PaginaContratistas { items: vec![resumen()], total: 1 }), None)
}

fn escribir(s: &mut ContratistasState, t: &str) {
    for c in t.chars() {
        s.handle_key(k(Codigo::Char(c)));
    }
}

fn formulario(s: &ContratistasState) -> &FormularioContratista {
    match &s.modo {
        ModoContratistas::Formulario(f) => f,
        _ => panic!("debía estar en el formulario"),
    }
}

fn texto(t: &TextInput) -> String {
    t.value().iter().collect()
}

#[test]
fn pagedown_avanza_una_pagina_y_pageup_retrocede() {
    let mut s = ContratistasState::default();
    s.completar_empresas(Ok(vec![empresa()]));
    s.completar_busqueda(Ok(PaginaContratistas { items: vec![resumen()], total: 120 }), None);

    let AccionContratistas::Buscar { offset, .. } = s.handle_key(k(Codigo::PageDown)) else {
        panic!("debía pedir la siguiente página")
    };
    assert_eq!(offset, LIMITE_PAGINA);

    s.completar_busqueda(Ok(PaginaContratistas { items: vec![resumen()], total: 120 }), None);
    let AccionContratistas::Buscar { offset, .. } = s.handle_key(k(Codigo::PageUp)) else {
        panic!("debía pedir la página anterior")
    };
    assert_eq!(offset, 0);
}

#[test]
fn pagedown_no_hace_nada_si_ya_esta_en_la_ultima_pagina() {
    let mut s = ContratistasState::default();
    s.completar_empresas(Ok(vec![empresa()]));
    s.completar_busqueda(Ok(PaginaContratistas { items: vec![resumen()], total: 1 }), None);
    assert!(matches!(s.handle_key(k(Codigo::PageDown)), AccionContratistas::Ninguna));
}

#[test]
fn inicia_vacio_y_carga_resultados_reales() {
    let mut s = ContratistasState::default();
    assert!(s.registros.is_empty());
    cargar(&mut s);
    assert_eq!(s.registros[0].empresa_id, 5);
    assert_eq!(s.seleccion, Some(0));
}

#[test]
fn sin_empresas_bloquea_creacion() {
    let mut s = ContratistasState::default();
    s.handle_key(k(Codigo::Char('N')));
    assert_eq!(
        s.mensaje.as_deref(),
        Some("Debe registrar al menos una empresa antes de crear contratistas")
    );
    assert_eq!(s.modo, ModoContratistas::Normal);
}

#[test]
fn busqueda_incremental_emite_consulta_real_tras_el_debounce() {
    let mut s = ContratistasState::default();
    cargar(&mut s);
    s.handle_key(k(Codigo::Char('/')));
    assert!(matches!(s.handle_key(k(Codigo::Char('j'))), AccionContratistas::Ninguna));
    let accion = s.tick(reloj_ms() + DURACION_DEBOUNCE_MS + 1);
    assert!(matches!(accion, AccionContratistas::Buscar{texto:Some(t),..} if t=="j"));
    assert_eq!(s.registros.len(), 1);
}

#[test]
fn flecha_izquierda_mueve_el_cursor_en_el_campo_nombre_sin_borrar() {
    let mut s = ContratistasState::default();
    cargar(&mut s);
    s.handle_key(k(Codigo::Char('N')));
    s.handle_key(k(Codigo::Down));
    escribir(&mut s, "Jose Perez");
    for _ in 0.." Perez".chars().count() {
        s.handle_key(k(Codigo::Left));
    }
    s.handle_key(k(Codigo::Backspace));
    s.handle_key(k(Codigo::Char('é')));
    assert_eq!(texto(&formulario(&s).nombre), "José Perez");
}

#[test]
fn fecha_praind_permite_mover_el_cursor_y_corregir_un_digito() {
    let mut s = ContratistasState::default();
    cargar(&mut s);
    s.handle_key(k(Codigo::Enter));
    for _ in 0..3 {
        s.handle_key(k(Codigo::Tab));
    }
    let f = formulario(&s);
    assert_eq!(CampoFormulario::en(f.campo), CampoFormulario::FechaPraind);
    assert_eq!(texto(&f.fecha_praind), "31/12/2026");

    for _ in 0..10 {
        s.handle_key(k(Codigo::Left));
    }
    s.handle_key(k(Codigo::Delete));
    s.handle_key(k(Codigo::Char('2')));

    assert_eq!(texto(&formulario(&s).fecha_praind), "21/12/2026");
    let AccionContratistas::Actualizar { datos, .. } = s.handle_key(k(Codigo::Enter)) else {
        panic!("debía emitir la actualización")
    };
    assert_eq!(datos.fecha_vencimiento_praind, Some(dia(2026, 12, 21)));
}

#[test]
fn busqueda_admite_clave_valor_de_empresa_tipo_y_deja_texto_libre() {
    let mut s = ContratistasState::default();
    cargar(&mut s);
    s.handle_key(k(Codigo::Char('/')));
    escribir(&mut s, "empresa:Real tipo:praind Ana");
    let _ = s.handle_key(k(Codigo::Enter));
    let AccionContratistas::Buscar { texto, empresa_id, tipos, .. } = s.buscar(None) else {
        panic!("debía consultar")
    };
    assert_eq!(empresa_id, Some(Igualdad::Incluye(5)));
    assert_eq!(tipos, Some(vec![TipoIngreso::Praind]));
    assert_eq!(texto.as_deref(), Some("Ana"));
}

#[test]
fn busqueda_admite_praind_ruta_y_acceso() {
    let mut s = ContratistasState::default();
    s.set_hoy(dia(2026, 8, 17));
    s.filtro = "praind:vencido ruta:si acceso:no".into();
    let AccionContratistas::Buscar { praind, personal_ruta, tiene_acceso, texto, .. } =
        s.buscar(None)
    else {
        panic!("debía consultar")
    };
    assert_eq!(praind, Some(FiltroPraind::Vencido { hoy: dia(2026, 8, 17) }));
    assert_eq!(personal_ruta, Some(true));
    assert_eq!(tiene_acceso, Some(false));
    assert_eq!(texto, None);
}

#[test]
fn negar_ruta_y_acceso_invierte_el_booleano() {
    let s = ContratistasState { filtro: "-ruta:si -acceso:no".into(), ..Default::default() };
    let AccionContratistas::Buscar { personal_ruta, tiene_acceso, texto, .. } = s.buscar(None)
    else {
        panic!("debía consultar")
    };
    assert_eq!(personal_ruta, Some(false));
    assert_eq!(tiene_acceso, Some(true));
    assert_eq!(texto, None);
}

#[test]
fn empresa_con_clave_valor_ignora_tildes_en_ambos_lados() {
    let mut s = ContratistasState::default();
    s.completar_empresas(Ok(vec![Empresa {
        id: 9,
        nombre: "Álvarez Ingeniería".into(),
        activo: true,
    }]));
    s.filtro = "empresa:alvarez".into();
    let AccionContratistas::Buscar { empresa_id, .. } = s.buscar(None) else {
        panic!("debía consultar")
    };
    assert_eq!(empresa_id, Some(Igualdad::Incluye(9)));
}

#[test]
fn negar_empresa_y_praind() {
    let mut s = ContratistasState::default();
    s.completar_empresas(Ok(vec![Empresa {
        id: 9,
        nombre: "Álvarez Ingeniería".into(),
        activo: true,
    }]));
    s.set_hoy(dia(2026, 8, 17));
    s.filtro = "-empresa:alvarez -praind:vencido".into();
    let AccionContratistas::Buscar { empresa_id, praind, praind_negado, texto, .. } =
        s.buscar(None)
    else {
        panic!("debía consultar")
    };
    assert_eq!(empresa_id, Some(Igualdad::Excluye(9)));
    assert_eq!(praind, Some(FiltroPraind::Vencido { hoy: dia(2026, 8, 17) }));
    assert!(praind_negado);
    assert_eq!(texto, None);
}

#[test]
fn clave_no_reconocida_o_lista_de_praind_cae_a_texto_libre() {
    let s = ContratistasState {
        filtro: "praind:vence,vencido tipo:invalido".into(),
        ..Default::default()
    };
    assert!(s.resumen_consulta().contains("sin interpretar"));
    let AccionContratistas::Buscar { texto, praind, tipos, .. } = s.buscar(None) else {
        panic!("debía consultar")
    };
    assert_eq!(praind, None);
    assert_eq!(tipos, None);
    assert_eq!(texto.as_deref(), Some("praind:vence,vencido tipo:invalido"));
}

#[test]
fn enter_edita_directamente_con_ids_y_datos_reales() {
    let mut s = ContratistasState::default();
    cargar(&mut s);
    s.handle_key(k(Codigo::Enter));
    let f = formulario(&s);
    assert!(matches!(f.modo, ModoFormulario::Editar { id: 7 }));
    assert_eq!(f.campo, 1);
    assert_eq!(texto(&f.cedula), "001-2");
    assert_eq!(f.empresa, 0);
    assert_eq!(f.tipo, TipoIngreso::Praind);
}

#[test]
fn panel_refleja_la_seleccion_resaltada_sin_pasos_extra() {
    let mut s = ContratistasState::default();
    cargar(&mut s);
    assert_eq!(s.seleccionado().map(|c| c.id), Some(7));
}

#[test]
fn operador_no_puede_enfocar_ni_modificar_cedula() {
    let mut s = ContratistasState::default();
    cargar(&mut s);
    s.handle_key_con_rol(k(Codigo::Enter), RolUsuario::Operador);
    s.handle_key(k(Codigo::Up));
    let f = formulario(&s);
    assert!(!f.cedula_editable);
    assert_eq!(f.campo, 6);
    assert_ne!(f.campo, 0, "no debe poder enfocar Cédula en modo Editar");

    s.handle_key(k(Codigo::Down));
    s.handle_key(k(Codigo::Char('9')));
    let f = formulario(&s);
    assert_eq!(f.campo, 1);
    assert_eq!(texto(&f.cedula), "001-2");
    assert_eq!(texto(&f.nombre), "José Hernández9");
}

#[test]
fn administrador_y_root_pueden_editar_cedula() {
    for rol in [RolUsuario::Administrador, RolUsuario::Root] {
        let mut s = ContratistasState::default();
        cargar(&mut s);
        s.handle_key_con_rol(k(Codigo::Enter), rol);

        let f = formulario(&s);
        assert!(f.cedula_editable);
        assert_eq!(CampoFormulario::en(f.campo), CampoFormulario::Cedula);

        s.handle_key_con_rol(k(Codigo::Backspace), rol);
        s.handle_key_con_rol(k(Codigo::Char('9')), rol);
        let AccionContratistas::Actualizar { id, datos, .. } =
            s.handle_key_con_rol(k(Codigo::Enter), rol)
        else {
            panic!("debía emitir la actualización para {rol:?}")
        };
        assert_eq!(id, 7);
        assert_eq!(datos.cedula, "001-9");
    }
}

#[test]
fn tab_en_el_ultimo_campo_da_la_vuelta_al_primero_y_viceversa() {
    let mut s = ContratistasState::default();
    cargar(&mut s);
    s.handle_key(k(Codigo::Char('N')));
    assert_eq!(formulario(&s).campo, 0, "Crear empieza en Cédula");

    for _ in 0..7 {
        s.handle_key(k(Codigo::Tab));
    }
    assert_eq!(formulario(&s).campo, 0);

    s.handle_key(k(Codigo::BackTab));
    assert_eq!(formulario(&s).campo, 6);
}

#[test]
fn formulario_valida_y_emite_creacion_tipificada() {
    let mut s = ContratistasState::default();
    s.completar_empresas(Ok(vec![empresa()]));
    s.handle_key(k(Codigo::Char('N')));
    escribir(&mut s, "001");
    s.handle_key(k(Codigo::Tab));
    escribir(&mut s, "Ana");
    for _ in 0..3 {
        s.handle_key(k(Codigo::Tab));
    }
    escribir(&mut s, "31122026");
    s.handle_key(k(Codigo::Tab));
    let a = s.handle_key(k(Codigo::Enter));
    assert!(matches!(
        a,
        AccionContratistas::Crear {
            datos: DatosContratista {
                empresa_id: 5,
                tipo_ingreso: TipoIngreso::Praind,
                fecha_vencimiento_praind: Some(_),
                ..
            },
            ..
        }
    ));
}

#[test]
fn espacio_abre_el_desplegable_y_alterna_los_campos_booleanos() {
    let mut s = ContratistasState::default();
    cargar(&mut s);
    s.handle_key(k(Codigo::Enter));

    s.handle_key(k(Codigo::Tab));
    s.handle_key(k(Codigo::Char(' ')));
    assert!(formulario(&s).desplegable.is_some());
    s.handle_key(k(Codigo::Esc));

    for _ in 0..20 {
        if CampoFormulario::en(formulario(&s).campo) == CampoFormulario::Ruta {
            break;
        }
        s.handle_key(k(Codigo::Tab));
    }
    let f = formulario(&s);
    assert_eq!(CampoFormulario::en(f.campo), CampoFormulario::Ruta);
    let ruta_inicial = f.personal_ruta;

    s.handle_key(k(Codigo::Char(' ')));
    assert_eq!(formulario(&s).personal_ruta, !ruta_inicial);
}

#[test]
fn praind_dinamico_usa_regla_de_dominio_y_none_si_no_requerido() {
    let mut f = FormularioContratista::nuevo();
    f.tipo = TipoIngreso::PorCorreo;
    assert!(!f.requiere_praind());
    f.personal_ruta = true;
    assert!(f.requiere_praind());
    f.personal_ruta = false;
    f.fecha_praind = TextInput::new("31/12/2026").with_max_chars(10);
    let Err(d) = construir(&f, Some(5)) else { panic!() };
    assert_eq!(d, "La cédula es obligatoria");
    f.cedula = TextInput::new("1");
    f.nombre = TextInput::new("A");
    assert_eq!(construir(&f, Some(5)).unwrap().fecha_vencimiento_praind, None);
}

#[test]
fn cancelar_no_muta_y_callback_recarga() {
    let mut s = ContratistasState::default();
    cargar(&mut s);
    s.handle_key(k(Codigo::Enter));
    escribir(&mut s, "x");
    s.handle_key(k(Codigo::Esc));
    assert_eq!(s.registros[0].nombre, "José Hernández");
    assert!(matches!(
        s.completar_guardado(Ok(None), Some(7), "José"),
        AccionContratistas::Buscar { seleccionar_id: Some(7), .. }
    ));
}

#[test]
fn columnas_limites_fecha_y_escape_raiz_se_conservan() {
    let mut s = ContratistasState::default();
    cargar(&mut s);
    s.set_hoy(dia(2026, 8, 12));
    s.handle_key(k(Codigo::Up));
    assert_eq!(s.seleccion, Some(0));
    s.handle_key(k(Codigo::Char('C')));
    s.handle_key(k(Codigo::Esc));
    assert_eq!(s.modo, ModoContratistas::Normal);
    assert!(matches!(s.handle_key(k(Codigo::Esc)), AccionContratistas::Volver));
}

#[test]
fn exito_sobrevive_recarga_y_navegacion() {
    let mut s = ContratistasState::default();
    let recarga = s.completar_guardado(Ok(Some(7)), None, "José");
    assert!(matches!(recarga, AccionContratistas::Buscar { .. }));
    cargar(&mut s);
    s.handle_key(k(Codigo::Down));

    assert_eq!(s.mensaje.as_deref(), Some("✓ Contratista creado — José"));
}

// Propias.

#[test]
fn pagina_cuenta_paginas_completas_e_incompletas() {
    let mut s = ContratistasState::default();
    assert_eq!(s.pagina(), (0, 0));
    s.completar_busqueda(Ok(PaginaContratistas { items: vec![resumen()], total: 120 }), None);
    assert_eq!(s.pagina(), (1, 2));
    assert_eq!(s.total(), 120);
    s.handle_key(k(Codigo::PageDown));
    assert_eq!(s.pagina(), (2, 2));
    s.completar_busqueda(Ok(PaginaContratistas { items: vec![resumen()], total: 200 }), None);
    assert_eq!(s.pagina(), (2, 2));
}

#[test]
fn resumen_describe_cada_filtro_y_el_texto_libre() {
    let mut s = ContratistasState::default();
    assert_eq!(s.resumen_consulta(), "Ejemplo: empresa:Brisas tipo:praind acceso:si");
    s.completar_empresas(Ok(vec![empresa()]));
    s.filtro = "-empresa:real tipo:praind,swat -praind:sin ruta:no acceso:si Ana foo:bar".into();
    assert_eq!(
        s.resumen_consulta(),
        "empresa≠Empresa Real · tipo=PRAIND,SWAT · praind≠sin fecha · ruta=no · acceso=sí · \
         texto=\"Ana\" · ⚠ sin interpretar: foo:bar"
    );
}

#[test]
fn error_al_guardar_queda_en_el_formulario() {
    let mut s = ContratistasState::default();
    cargar(&mut s);
    s.handle_key(k(Codigo::Char('n')));
    let a = s.completar_guardado(Err("cédula repetida".into()), None, "Ana");
    assert!(matches!(a, AccionContratistas::Ninguna));
    assert_eq!(formulario(&s).error.as_deref(), Some("cédula repetida"));
}

#[test]
fn formulario_sin_datos_muestra_el_error_y_no_guarda() {
    let mut s = ContratistasState::default();
    cargar(&mut s);
    s.handle_key(k(Codigo::Char('n')));
    assert!(matches!(s.handle_key(k(Codigo::Enter)), AccionContratistas::Ninguna));
    assert_eq!(formulario(&s).error.as_deref(), Some("La cédula es obligatoria"));
    escribir(&mut s, "1");
    assert_eq!(formulario(&s).error, None);
}

#[test]
fn fecha_praind_agrega_las_barras_y_rechaza_letras() {
    let mut s = ContratistasState::default();
    cargar(&mut s);
    s.handle_key(k(Codigo::Char('n')));
    for _ in 0..4 {
        s.handle_key(k(Codigo::Tab));
    }
    assert_eq!(CampoFormulario::en(formulario(&s).campo), CampoFormulario::FechaPraind);
    escribir(&mut s, "01a0220271");
    assert_eq!(texto(&formulario(&s).fecha_praind), "01/02/2027");
}

#[test]
fn desplegable_de_tipo_elige_con_enter_y_no_se_sale() {
    let mut s = ContratistasState::default();
    cargar(&mut s);
    s.handle_key(k(Codigo::Char('n')));
    for _ in 0..3 {
        s.handle_key(k(Codigo::Tab));
    }
    s.handle_key(k(Codigo::Char(' ')));
    for _ in 0..6 {
        s.handle_key(k(Codigo::Down));
    }
    s.handle_key(k(Codigo::Enter));
    let f = formulario(&s);
    assert_eq!(f.tipo, TipoIngreso::Swat);
    assert!(f.desplegable.is_none());
    assert!(!f.requiere_praind());
}

#[test]
fn columnas_preferencia_ida_y_vuelta() {
    let mut s = ContratistasState::default();
    assert_eq!(s.columnas_preferencia(), "cedula,nombre,empresa,tipo,praind,ruta,acceso");
    s.aplicar_columnas_preferencia("nombre,acceso");
    assert_eq!(s.columnas_preferencia(), "nombre,acceso");
    s.aplicar_columnas_preferencia("desconocida");
    assert_eq!(s.columnas_preferencia(), "nombre,acceso");
}

#[test]
fn contratistas_conserva_al_menos_una_columna() {
    let mut s = ContratistasState::default();
    s.aplicar_columnas_preferencia("cedula");
    s.handle_key(k(Codigo::F(4)));
    s.handle_key(k(Codigo::Char(' ')));
    assert_eq!(s.mensaje.as_deref(), Some("Debe conservar al menos una columna"));
    assert_eq!(s.columnas_preferencia(), "cedula");
}

#[test]
fn ayuda_alterna_sin_cambiar_el_modo() {
    let mut s = ContratistasState::default();
    s.handle_key(k(Codigo::F(1)));
    assert!(s.ayuda_expandida);
    assert_eq!(s.modo, ModoContratistas::Normal);
}

#[test]
fn sin_praind_la_fecha_no_recibe_el_foco_y_tab_va_y_vuelve() {
    let mut s = ContratistasState::default();
    cargar(&mut s);
    s.handle_key(k(Codigo::Char('n')));
    for _ in 0..3 {
        s.handle_key(k(Codigo::Tab));
    }
    s.handle_key(k(Codigo::Char(' ')));
    s.handle_key(k(Codigo::Down));
    s.handle_key(k(Codigo::Down));
    s.handle_key(k(Codigo::Enter));
    assert_eq!(formulario(&s).tipo, TipoIngreso::PorCorreo);
    for _ in 0..10 {
        s.handle_key(k(Codigo::Tab));
        assert_ne!(CampoFormulario::en(formulario(&s).campo), CampoFormulario::FechaPraind);
    }
    let antes = formulario(&s).campo;
    s.handle_key(k(Codigo::Tab));
    s.handle_key(k(Codigo::BackTab));
    assert_eq!(formulario(&s).campo, antes);
}

#[test]
fn busqueda_sin_claves_queda_entera_como_texto_libre() {
    let s = ContratistasState { filtro: "Ana  Pérez".into(), ..Default::default() };
    let AccionContratistas::Buscar {
        texto, empresa_id, tipos, praind, personal_ruta, tiene_acceso, ..
    } = s.buscar(None)
    else {
        panic!("debía consultar")
    };
    assert_eq!(texto.as_deref(), Some("Ana Pérez"));
    assert_eq!((empresa_id, tipos, praind, personal_ruta, tiene_acceso), (None, None, None, None, None));
    assert_eq!(s.resumen_consulta(), "texto=\"Ana Pérez\"");
}

#[test]
fn la_busqueda_de_contratistas_espera_desde_la_ultima_tecla() {
    let mut s = ContratistasState::default();
    cargar(&mut s);
    s.handle_key_en(k(Codigo::Char('/')), RolUsuario::Operador, 7);
    s.handle_key_en(k(Codigo::Char('j')), RolUsuario::Operador, 7);
    assert!(matches!(s.tick(6 + DURACION_DEBOUNCE_MS), AccionContratistas::Ninguna));
    let accion = s.tick(7 + DURACION_DEBOUNCE_MS);
    assert!(matches!(accion, AccionContratistas::Buscar{texto:Some(t),..} if t=="j"));
}

#[test]
fn el_formulario_muestra_lo_fijo_de_cada_campo() {
    let f = FormularioContratista::nuevo();
    let fila = fila_formulario(&f, &[], CampoFormulario::Empresa);
    assert_eq!((fila.etiqueta, fila.valor.as_str(), fila.escribible), ("EMPRESA", "Sin empresas", false));
    let fila = fila_formulario(&f, &[empresa()], CampoFormulario::Empresa);
    assert_eq!(fila.valor, empresa().nombre);
    let fila = fila_formulario(&f, &[], CampoFormulario::Cedula);
    assert!(fila.escribible);
    let fila = fila_formulario(&f, &[], CampoFormulario::Acceso);
    assert_eq!(fila.valor, "SÍ");
    let mut g = FormularioContratista::nuevo();
    g.tipo = TipoIngreso::Swat;
    let fila = fila_formulario(&g, &[], CampoFormulario::FechaPraind);
    assert_eq!((fila.valor.as_str(), fila.escribible), ("No requerida", false));
}
