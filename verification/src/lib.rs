//! Lógica de las pantallas de la TUI de control de ingresos: estados de cada
//! pantalla, sus transiciones ante cada tecla y el lenguaje de búsqueda
//! `clave:valor`, con sus contratos verificados.
pub mod texto;
pub mod ui;
pub mod modelos;
pub mod consulta;
pub mod activos;
pub mod fechas;
pub mod historial;
pub mod configuracion_inicial;
pub mod cambio_password;
pub mod configuracion;
pub mod empresas;
pub mod gafetes;
pub mod login;
pub mod menu_principal;
pub mod auditoria;
pub mod elegir_interfaz;
pub mod mensajes;
pub mod mocks;
pub mod activos_simulado;
pub mod login_simulado;
pub mod navegacion;
pub mod contratistas;
