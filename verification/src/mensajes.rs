//! Mensajes que la TUI muestra ante cada error de los servicios: los
//! errores de negocio conservan un mensaje accionable y los técnicos
//! nunca muestran su detalle.
use crate::texto::{caracteres, texto_de};
use vstd::prelude::*;

verus! {

/// Falla técnica de la base de datos (el texto es detalle interno).
#[derive(Clone, Debug, PartialEq, Eq)]
pub enum DatabaseError {
    FechaCorrupta(String),
    Consulta(String),
}

#[derive(Clone, Debug, PartialEq, Eq)]
pub enum EmpresaServiceError {
    NombreDuplicado,
    NombreEmpresaVacio,
    EmpresaNoEncontrada,
    OperacionNoAutorizada,
    Database(DatabaseError),
}

#[derive(Clone, Debug, PartialEq, Eq)]
pub enum ContratistaServiceError {
    ContratistaNoEncontrado,
    EmpresaNoEncontrada,
    CedulaVacia,
    NombreVacio,
    PraindRequerido,
    CedulaDuplicada,
    OperacionNoAutorizada,
    Database(DatabaseError),
}

#[derive(Clone, Debug, PartialEq, Eq)]
pub enum UsuarioServiceError {
    UsuarioNoEncontrado,
    CedulaVacia,
    NombreVacio,
    PasswordDemasiadoCorto,
    CedulaDuplicada,
    UltimoRootActivo,
    OperacionNoAutorizada,
    PasswordActualIncorrecta,
    Database(DatabaseError),
}

/// Por qué se niega un ingreso.
#[derive(Clone, Copy, Debug, PartialEq, Eq, Structural)]
pub enum MotivoDenegacion {
    SinAcceso,
    PraindVencido,
    PraindNoRegistrado,
}

#[derive(Clone, Debug, PartialEq, Eq)]
pub enum RegistroIngresoServiceError {
    ContratistaNoEncontrado,
    IngresoActivo,
    GafeteRequerido,
    GafeteOcupado,
    AccesoDenegado(MotivoDenegacion),
    RegistroNoActivo,
    SalidaAnteriorAIngreso,
    RelojRetrocedido,
    Database(DatabaseError),
}

fn lit(s: &str) -> (r: String)
    ensures
        r@ == s@,
{
    texto_de(caracteres(s).as_slice())
}

pub open spec fn texto_empresa(e: EmpresaServiceError) -> Seq<char> {
    match e {
        EmpresaServiceError::NombreDuplicado => "Ya existe una empresa con ese nombre"@,
        EmpresaServiceError::NombreEmpresaVacio => "El nombre es obligatorio"@,
        EmpresaServiceError::EmpresaNoEncontrada => "La empresa ya no existe"@,
        EmpresaServiceError::OperacionNoAutorizada => "Su sesión no está autorizada para esta operación"@,
        EmpresaServiceError::Database(_) => "No se pudo guardar la empresa"@,
    }
}

pub fn mensaje_empresa(e: EmpresaServiceError) -> (r: String)
    ensures
        r@ == texto_empresa(e),
{
    match e {
        EmpresaServiceError::NombreDuplicado => lit("Ya existe una empresa con ese nombre"),
        EmpresaServiceError::NombreEmpresaVacio => lit("El nombre es obligatorio"),
        EmpresaServiceError::EmpresaNoEncontrada => lit("La empresa ya no existe"),
        EmpresaServiceError::OperacionNoAutorizada => lit(
            "Su sesión no está autorizada para esta operación",
        ),
        EmpresaServiceError::Database(_) => lit("No se pudo guardar la empresa"),
    }
}

pub open spec fn texto_contratista(e: ContratistaServiceError) -> Seq<char> {
    match e {
        ContratistaServiceError::ContratistaNoEncontrado => "El contratista ya no existe"@,
        ContratistaServiceError::EmpresaNoEncontrada => "La empresa seleccionada ya no existe"@,
        ContratistaServiceError::CedulaVacia => "La cédula es obligatoria"@,
        ContratistaServiceError::NombreVacio => "El nombre es obligatorio"@,
        ContratistaServiceError::PraindRequerido => "Fecha PRAIND requerida"@,
        ContratistaServiceError::CedulaDuplicada => "Ya existe un contratista con esa cédula"@,
        ContratistaServiceError::OperacionNoAutorizada => "Su sesión no está autorizada para esta operación"@,
        ContratistaServiceError::Database(_) => "No se pudo guardar el contratista"@,
    }
}

pub fn mensaje_contratista(e: ContratistaServiceError) -> (r: String)
    ensures
        r@ == texto_contratista(e),
{
    match e {
        ContratistaServiceError::ContratistaNoEncontrado => lit("El contratista ya no existe"),
        ContratistaServiceError::EmpresaNoEncontrada => lit("La empresa seleccionada ya no existe"),
        ContratistaServiceError::CedulaVacia => lit("La cédula es obligatoria"),
        ContratistaServiceError::NombreVacio => lit("El nombre es obligatorio"),
        ContratistaServiceError::PraindRequerido => lit("Fecha PRAIND requerida"),
        ContratistaServiceError::CedulaDuplicada => lit("Ya existe un contratista con esa cédula"),
        ContratistaServiceError::OperacionNoAutorizada => lit(
            "Su sesión no está autorizada para esta operación",
        ),
        ContratistaServiceError::Database(_) => lit("No se pudo guardar el contratista"),
    }
}

pub open spec fn texto_usuario(e: UsuarioServiceError) -> Seq<char> {
    match e {
        UsuarioServiceError::UsuarioNoEncontrado => "El usuario ya no existe"@,
        UsuarioServiceError::CedulaVacia => "La cédula es obligatoria"@,
        UsuarioServiceError::NombreVacio => "El nombre es obligatorio"@,
        UsuarioServiceError::PasswordDemasiadoCorto => "La contraseña debe tener al menos 8 caracteres"@,
        UsuarioServiceError::CedulaDuplicada => "Ya existe un usuario con esa cédula"@,
        UsuarioServiceError::UltimoRootActivo => "Debe existir al menos un usuario ROOT activo"@,
        UsuarioServiceError::OperacionNoAutorizada => "Su sesión no está autorizada para gestionar ese usuario"@,
        UsuarioServiceError::PasswordActualIncorrecta => "La contraseña actual es incorrecta"@,
        UsuarioServiceError::Database(_) => "No se pudo guardar el usuario"@,
    }
}

pub fn mensaje_usuario(e: UsuarioServiceError) -> (r: String)
    ensures
        r@ == texto_usuario(e),
{
    match e {
        UsuarioServiceError::UsuarioNoEncontrado => lit("El usuario ya no existe"),
        UsuarioServiceError::CedulaVacia => lit("La cédula es obligatoria"),
        UsuarioServiceError::NombreVacio => lit("El nombre es obligatorio"),
        UsuarioServiceError::PasswordDemasiadoCorto => lit(
            "La contraseña debe tener al menos 8 caracteres",
        ),
        UsuarioServiceError::CedulaDuplicada => lit("Ya existe un usuario con esa cédula"),
        UsuarioServiceError::UltimoRootActivo => lit("Debe existir al menos un usuario ROOT activo"),
        UsuarioServiceError::OperacionNoAutorizada => lit(
            "Su sesión no está autorizada para gestionar ese usuario",
        ),
        UsuarioServiceError::PasswordActualIncorrecta => lit("La contraseña actual es incorrecta"),
        UsuarioServiceError::Database(_) => lit("No se pudo guardar el usuario"),
    }
}

pub open spec fn texto_salida(e: RegistroIngresoServiceError) -> Seq<char> {
    match e {
        RegistroIngresoServiceError::RegistroNoActivo => "El ingreso ya no está activo"@,
        RegistroIngresoServiceError::SalidaAnteriorAIngreso => "La salida no puede ser anterior al ingreso"@,
        RegistroIngresoServiceError::RelojRetrocedido => "Revise la fecha y hora del equipo antes de continuar"@,
        _ => "No se pudo registrar la salida"@,
    }
}

pub fn mensaje_salida(e: RegistroIngresoServiceError) -> (r: String)
    ensures
        r@ == texto_salida(e),
{
    match e {
        RegistroIngresoServiceError::RegistroNoActivo => lit("El ingreso ya no está activo"),
        RegistroIngresoServiceError::SalidaAnteriorAIngreso => lit(
            "La salida no puede ser anterior al ingreso",
        ),
        RegistroIngresoServiceError::RelojRetrocedido => lit(
            "Revise la fecha y hora del equipo antes de continuar",
        ),
        _ => lit("No se pudo registrar la salida"),
    }
}

pub open spec fn texto_ingreso(e: RegistroIngresoServiceError) -> Seq<char> {
    match e {
        RegistroIngresoServiceError::ContratistaNoEncontrado => "El contratista ya no existe"@,
        RegistroIngresoServiceError::IngresoActivo => "El contratista ya tiene un ingreso activo"@,
        RegistroIngresoServiceError::GafeteRequerido => "El gafete es requerido"@,
        RegistroIngresoServiceError::GafeteOcupado => "El gafete ya está en uso"@,
        RegistroIngresoServiceError::AccesoDenegado(MotivoDenegacion::SinAcceso) => "No tiene acceso autorizado"@,
        RegistroIngresoServiceError::AccesoDenegado(MotivoDenegacion::PraindVencido) => "PRAIND vencido"@,
        RegistroIngresoServiceError::AccesoDenegado(MotivoDenegacion::PraindNoRegistrado) => "PRAIND sin fecha registrada"@,
        RegistroIngresoServiceError::RelojRetrocedido => "Revise la fecha y hora del equipo antes de continuar"@,
        _ => "No se pudo registrar el ingreso"@,
    }
}

pub fn mensaje_ingreso(e: RegistroIngresoServiceError) -> (r: String)
    ensures
        r@ == texto_ingreso(e),
{
    match e {
        RegistroIngresoServiceError::ContratistaNoEncontrado => lit("El contratista ya no existe"),
        RegistroIngresoServiceError::IngresoActivo => lit("El contratista ya tiene un ingreso activo"),
        RegistroIngresoServiceError::GafeteRequerido => lit("El gafete es requerido"),
        RegistroIngresoServiceError::GafeteOcupado => lit("El gafete ya está en uso"),
        RegistroIngresoServiceError::AccesoDenegado(MotivoDenegacion::SinAcceso) => lit(
            "No tiene acceso autorizado",
        ),
        RegistroIngresoServiceError::AccesoDenegado(MotivoDenegacion::PraindVencido) => lit(
            "PRAIND vencido",
        ),
        RegistroIngresoServiceError::AccesoDenegado(MotivoDenegacion::PraindNoRegistrado) => lit(
            "PRAIND sin fecha registrada",
        ),
        RegistroIngresoServiceError::RelojRetrocedido => lit(
            "Revise la fecha y hora del equipo antes de continuar",
        ),
        _ => lit("No se pudo registrar el ingreso"),
    }
}

/// Ningún error técnico muestra su detalle: el mensaje de una falla de la
/// base es el mismo sea cual sea el detalle.
pub proof fn ley_detalle_tecnico_oculto(a: DatabaseError, b: DatabaseError)
    ensures
        texto_empresa(EmpresaServiceError::Database(a)) == texto_empresa(
            EmpresaServiceError::Database(b),
        ),
        texto_contratista(ContratistaServiceError::Database(a)) == texto_contratista(
            ContratistaServiceError::Database(b),
        ),
        texto_usuario(UsuarioServiceError::Database(a)) == texto_usuario(
            UsuarioServiceError::Database(b),
        ),
        texto_salida(RegistroIngresoServiceError::Database(a)) == texto_salida(
            RegistroIngresoServiceError::Database(b),
        ),
        texto_ingreso(RegistroIngresoServiceError::Database(a)) == texto_ingreso(
            RegistroIngresoServiceError::Database(b),
        ),
{
}

} // verus!
