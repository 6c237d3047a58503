use brisas_tui::mocks::{contratistas, ingresos_activos, movimientos_historial, TipoIngresoMock};
use std::collections::HashSet;

#[test]
fn genera_ochenta_ingresos_con_gafetes_unicos_y_operadores_variados() {
    let ingresos = ingresos_activos();
    assert_eq!(ingresos.len(), 80);
    let gafetes: Vec<_> = ingresos.iter().filter_map(|ingreso| ingreso.gafete).collect();
    let gafetes_unicos: HashSet<_> = gafetes.iter().copied().collect();
    assert_eq!(gafetes.len(), gafetes_unicos.len());
    let operadores: HashSet<_> =
        ingresos.iter().map(|ingreso| ingreso.usuario_ingreso.as_str()).collect();
    assert_eq!(operadores.len(), 8);
}

#[test]
fn genera_cuarenta_con_variedad_determinista() {
    let datos = contratistas();
    assert_eq!(datos.len(), 40);
    assert!(datos.iter().any(|c| c.personal_ruta));
    assert!(datos.iter().any(|c| !c.tiene_acceso));
    assert!(TipoIngresoMock::todos()
        .iter()
        .all(|tipo| datos.iter().any(|c| c.tipo_ingreso == *tipo)));
}

#[test]
fn genera_ciento_ochenta_movimientos_deterministas_con_activos() {
    let movimientos = movimientos_historial();
    assert_eq!(movimientos.len(), 180);
    assert!(movimientos.iter().any(|movimiento| movimiento.salida.is_none()));
    assert!(movimientos.iter().any(|movimiento| movimiento.salida.is_some()));
    assert!(movimientos
        .iter()
        .filter(|movimiento| movimiento.salida.is_none())
        .all(|movimiento| movimiento.usuario_salida.is_none()));
}

// Propias.

#[test]
fn los_datos_de_demostracion_tienen_el_formato_esperado() {
    let ingresos = ingresos_activos();
    assert_eq!(ingresos[0].cedula, "155824395105");
    assert_eq!(ingresos[20].cedula, "1558243951051");
    assert_eq!(ingresos[20].gafete, Some(55));
    assert_eq!(ingresos[23].advertencia, None);
    assert_eq!(ingresos[43].advertencia.as_deref(), Some("PRAIND próximo a vencer"));
    assert_eq!(ingresos[21].usuario_ingreso, "Miguel Vargas");
    let c = contratistas();
    assert_eq!(c[1].cedula, "155833528801");
    assert_eq!(c[1].nombre, "María Mora 2");
    assert_eq!(c[2].fecha_praind, None);
    assert_eq!(c[6].fecha_praind.as_deref(), Some("12/08/2026"));
    assert!(TipoIngresoMock::InHouse.requiere_praind(false));
    assert_eq!(TipoIngresoMock::PorCorreo.texto(), "POR CORREO");
    let m = movimientos_historial();
    assert_eq!(m[0].entrada, "06:00");
    assert_eq!(m[13].entrada, "09:31");
    assert_eq!(m[13].salida.as_deref(), Some("17:31"));
    assert_eq!(m[13].fecha, 739_830);
    assert_eq!(m[13].cedula, "2045607891");
}

#[test]
fn contratistas_con_nombre_empresa_y_fecha_fijos() {
    let c = contratistas();
    assert_eq!(c, contratistas());
    assert_eq!(c[0].nombre, "Juan Pérez 1");
    assert_eq!(c[12].nombre, "Carlos Rojas 13");
    assert_eq!(c[5].empresa, "Transportes del Valle");
    assert_eq!(c[0].fecha_praind.as_deref(), Some("01/08/2026"));
}
