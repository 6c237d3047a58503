use brisas_tui::modelos::{EstadoGafete, MedioIngreso, MotivoResolucionGafete, TipoIncidenteGafete};
use brisas_tui::mensajes::{
    mensaje_contratista, mensaje_empresa, mensaje_ingreso, mensaje_salida, mensaje_usuario,
    ContratistaServiceError, DatabaseError, EmpresaServiceError, MotivoDenegacion,
    RegistroIngresoServiceError, UsuarioServiceError,
};

#[test]
fn los_errores_tecnicos_no_exponen_detalles_en_la_tui() {
    let empresa = EmpresaServiceError::Database(DatabaseError::FechaCorrupta("detalle interno".into()));
    let usuario = UsuarioServiceError::Database(DatabaseError::FechaCorrupta("detalle interno".into()));
    assert_eq!(mensaje_empresa(empresa), "No se pudo guardar la empresa");
    assert_eq!(mensaje_usuario(usuario), "No se pudo guardar el usuario");
}

#[test]
fn los_errores_semanticos_conservan_mensajes_accionables() {
    assert_eq!(
        mensaje_contratista(ContratistaServiceError::CedulaDuplicada),
        "Ya existe un contratista con esa cédula"
    );
    assert_eq!(
        mensaje_salida(RegistroIngresoServiceError::RelojRetrocedido),
        "Revise la fecha y hora del equipo antes de continuar"
    );
}

#[test]
fn las_denegaciones_de_ingreso_distinguen_el_motivo() {
    assert_eq!(
        mensaje_ingreso(RegistroIngresoServiceError::AccesoDenegado(MotivoDenegacion::SinAcceso)),
        "No tiene acceso autorizado"
    );
    assert_eq!(
        mensaje_ingreso(RegistroIngresoServiceError::AccesoDenegado(
            MotivoDenegacion::PraindNoRegistrado,
        )),
        "PRAIND sin fecha registrada"
    );
}

// Propias.

#[test]
fn salida_e_ingreso_caen_a_un_mensaje_generico() {
    let db = || RegistroIngresoServiceError::Database(DatabaseError::Consulta("SELECT ...".into()));
    assert_eq!(mensaje_salida(db()), "No se pudo registrar la salida");
    assert_eq!(mensaje_ingreso(db()), "No se pudo registrar el ingreso");
    assert_eq!(mensaje_salida(RegistroIngresoServiceError::GafeteOcupado), "No se pudo registrar la salida");
    assert_eq!(mensaje_ingreso(RegistroIngresoServiceError::GafeteOcupado), "El gafete ya está en uso");
    assert_eq!(
        mensaje_contratista(ContratistaServiceError::Database(DatabaseError::Consulta("x".into()))),
        "No se pudo guardar el contratista"
    );
}

#[test]
fn textos_de_enumeraciones_para_mostrar() {
    assert_eq!(MedioIngreso::Vehiculo.texto(), "Vehículo");
    assert_eq!(EstadoGafete::DeBaja.texto(), "DE BAJA");
    assert_eq!(TipoIncidenteGafete::Perdido.texto(), "Marcado perdido");
    assert_eq!(MotivoResolucionGafete::texto_opcional(Some(MotivoResolucionGafete::Aparecido)), "apareció");
    assert_eq!(MotivoResolucionGafete::texto_opcional(None), "—");
}
