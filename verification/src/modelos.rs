//! Los datos que las pantallas reciben de la aplicación y los filtros que le
//! piden: sólo lo que la lógica de las pantallas lee.
use crate::texto::{a_minusculas, es_literal, minusculas};
use vstd::prelude::*;

verus! {

/// Condición de igualdad de un filtro: el valor debe coincidir o debe ser
/// distinto.
#[derive(Clone, Copy, Debug, PartialEq, Eq, Structural)]
pub enum Igualdad<T> {
    Incluye(T),
    Excluye(T),
}

impl<T: Copy> Igualdad<T> {
    pub fn valor(&self) -> (r: T)
        ensures
            r == match *self {
                Igualdad::Incluye(v) => v,
                Igualdad::Excluye(v) => v,
            },
    {
        match *self {
            Igualdad::Incluye(v) => v,
            Igualdad::Excluye(v) => v,
        }
    }

    pub fn negado(&self) -> (r: bool)
        ensures
            r == (*self is Excluye),
    {
        match *self {
            Igualdad::Incluye(_) => false,
            Igualdad::Excluye(_) => true,
        }
    }
}

/// Con qué trámite entra un contratista.
#[derive(Clone, Copy, Debug, PartialEq, Eq, Structural)]
pub enum TipoIngreso {
    Praind,
    InHouse,
    PorCorreo,
    Swat,
}

/// Los cuatro tipos, en el orden en que se presentan.
pub open spec fn todos_los_tipos() -> Seq<TipoIngreso> {
    seq![TipoIngreso::Praind, TipoIngreso::InHouse, TipoIngreso::PorCorreo, TipoIngreso::Swat]
}

/// Palabras (ya en minúsculas) con que se nombra cada tipo en una búsqueda.
pub open spec fn tipo_de_palabra(p: Seq<char>) -> Option<TipoIngreso> {
    if p == "praind"@ {
        Some(TipoIngreso::Praind)
    } else if p == "in_house"@ || p == "inhouse"@ || p == "in-house"@ {
        Some(TipoIngreso::InHouse)
    } else if p == "por_correo"@ || p == "porcorreo"@ || p == "por-correo"@ || p == "correo"@ {
        Some(TipoIngreso::PorCorreo)
    } else if p == "swat"@ {
        Some(TipoIngreso::Swat)
    } else {
        None
    }
}

impl TipoIngreso {
    pub fn todos() -> (r: Vec<TipoIngreso>)
        ensures
            r@ == todos_los_tipos(),
    {
        let mut r: Vec<TipoIngreso> = Vec::new();
        r.push(TipoIngreso::Praind);
        r.push(TipoIngreso::InHouse);
        r.push(TipoIngreso::PorCorreo);
        r.push(TipoIngreso::Swat);
        assert(r@ =~= todos_los_tipos());
        r
    }

    /// Interpreta el valor de `tipo:` en una búsqueda, sin distinguir
    /// mayúsculas.
    pub fn from_str_filtro(v: &[char]) -> (r: Option<TipoIngreso>)
        ensures
            r == tipo_de_palabra(minusculas(v@)),
    {
        let p = a_minusculas(v);
        let p = p.as_slice();
        if es_literal(p, "praind") {
            Some(TipoIngreso::Praind)
        } else if es_literal(p, "in_house") || es_literal(p, "inhouse") || es_literal(p, "in-house") {
            Some(TipoIngreso::InHouse)
        } else if es_literal(p, "por_correo") || es_literal(p, "porcorreo") || es_literal(
            p,
            "por-correo",
        ) || es_literal(p, "correo") {
            Some(TipoIngreso::PorCorreo)
        } else if es_literal(p, "swat") {
            Some(TipoIngreso::Swat)
        } else {
            None
        }
    }

    /// Nombre con que la base de datos guarda el tipo.
    pub fn as_str_sql(self) -> (r: &'static str)
        ensures
            r@ == match self {
                TipoIngreso::Praind => "PRAIND"@,
                TipoIngreso::InHouse => "IN_HOUSE"@,
                TipoIngreso::PorCorreo => "POR_CORREO"@,
                TipoIngreso::Swat => "SWAT"@,
            },
    {
        match self {
            TipoIngreso::Praind => "PRAIND",
            TipoIngreso::InHouse => "IN_HOUSE",
            TipoIngreso::PorCorreo => "POR_CORREO",
            TipoIngreso::Swat => "SWAT",
        }
    }

    /// Nombre con que la pantalla muestra el tipo.
    pub fn texto(self) -> (r: &'static str)
        ensures
            r@ == texto_tipo(self),
    {
        match self {
            TipoIngreso::Praind => "PRAIND",
            TipoIngreso::InHouse => "IN HOUSE",
            TipoIngreso::PorCorreo => "POR CORREO",
            TipoIngreso::Swat => "SWAT",
        }
    }
}

pub open spec fn texto_tipo(t: TipoIngreso) -> Seq<char> {
    match t {
        TipoIngreso::Praind => "PRAIND"@,
        TipoIngreso::InHouse => "IN HOUSE"@,
        TipoIngreso::PorCorreo => "POR CORREO"@,
        TipoIngreso::Swat => "SWAT"@,
    }
}

/// Cómo llegó el contratista.
#[derive(Clone, Copy, Debug, PartialEq, Eq, Structural)]
pub enum MedioIngreso {
    Caminando,
    Vehiculo,
}

impl MedioIngreso {
    /// Cómo se muestra el medio en tablas y detalles.
    pub fn texto(self) -> (r: &'static str)
        ensures
            r@ == (match self {
                MedioIngreso::Caminando => "Caminando"@,
                MedioIngreso::Vehiculo => "Vehículo"@,
            }),
    {
        match self {
            MedioIngreso::Caminando => "Caminando",
            MedioIngreso::Vehiculo => "Vehículo",
        }
    }
}

/// Qué movimientos del historial se piden.
#[derive(Clone, Copy, Debug, PartialEq, Eq, Structural)]
pub enum EstadoMovimiento {
    Todos,
    Activos,
    Cerrados,
}

/// Estado de un gafete del catálogo.
#[derive(Clone, Copy, Debug, PartialEq, Eq, Structural)]
pub enum EstadoGafete {
    Disponible,
    Perdido,
    DeBaja,
}

pub open spec fn estado_gafete_de_palabra(p: Seq<char>) -> Option<EstadoGafete> {
    if p == "disponible"@ {
        Some(EstadoGafete::Disponible)
    } else if p == "perdido"@ {
        Some(EstadoGafete::Perdido)
    } else if p == "de_baja"@ || p == "baja"@ {
        Some(EstadoGafete::DeBaja)
    } else {
        None
    }
}

impl EstadoGafete {
    /// Interpreta el valor de `estado:` en la búsqueda de gafetes, sin
    /// distinguir mayúsculas.
    pub fn from_str_filtro(v: &[char]) -> (r: Option<EstadoGafete>)
        ensures
            r == estado_gafete_de_palabra(minusculas(v@)),
    {
        let p = a_minusculas(v);
        let p = p.as_slice();
        if es_literal(p, "disponible") {
            Some(EstadoGafete::Disponible)
        } else if es_literal(p, "perdido") {
            Some(EstadoGafete::Perdido)
        } else if es_literal(p, "de_baja") || es_literal(p, "baja") {
            Some(EstadoGafete::DeBaja)
        } else {
            None
        }
    }
}

impl EstadoGafete {
    /// Cómo se muestra el estado en la tabla de gafetes.
    pub fn texto(self) -> (r: &'static str)
        ensures
            r@ == (match self {
                EstadoGafete::Disponible => "DISPONIBLE"@,
                EstadoGafete::Perdido => "PERDIDO"@,
                EstadoGafete::DeBaja => "DE BAJA"@,
            }),
    {
        match self {
            EstadoGafete::Disponible => "DISPONIBLE",
            EstadoGafete::Perdido => "PERDIDO",
            EstadoGafete::DeBaja => "DE BAJA",
        }
    }
}

/// Por qué se da por resuelta la deuda de un gafete perdido.
#[derive(Clone, Copy, Debug, PartialEq, Eq, Structural)]
pub enum MotivoResolucionGafete {
    Pagado,
    Aparecido,
}

pub open spec fn texto_motivo(m: MotivoResolucionGafete) -> Seq<char> {
    match m {
        MotivoResolucionGafete::Pagado => "pagado"@,
        MotivoResolucionGafete::Aparecido => "apareció"@,
    }
}

impl MotivoResolucionGafete {
    /// Cómo se muestra el motivo en el historial de un gafete.
    pub fn texto(self) -> (r: &'static str)
        ensures
            r@ == texto_motivo(self),
    {
        match self {
            MotivoResolucionGafete::Pagado => "pagado",
            MotivoResolucionGafete::Aparecido => "apareció",
        }
    }

    /// El motivo, o `—` si no hay.
    pub fn texto_opcional(m: Option<MotivoResolucionGafete>) -> (r: &'static str)
        ensures
            r@ == (match m {
                Some(m) => texto_motivo(m),
                None => "—"@,
            }),
    {
        match m {
            Some(m) => m.texto(),
            None => "—",
        }
    }
}

/// Rol de la sesión.
#[derive(Clone, Copy, Debug, PartialEq, Eq, Structural)]
pub enum RolUsuario {
    Root,
    Administrador,
    Operador,
}

/// Sesión abierta: quién entró y con qué rol.
#[derive(Clone, Debug, PartialEq, Eq)]
pub struct UsuarioSesion {
    pub id: i64,
    pub cedula: String,
    pub nombre: String,
    pub rol: RolUsuario,
}

/// Empresa tal como la lista la aplicación.
#[derive(Clone, Debug, PartialEq, Eq)]
pub struct Empresa {
    pub id: i64,
    pub nombre: String,
    pub activo: bool,
}

/// Fila de la pantalla Empresas.
#[derive(Clone, Debug, PartialEq, Eq)]
pub struct EmpresaResumen {
    pub id: i64,
    pub nombre: String,
    pub contratistas: i64,
    pub activo: bool,
}

/// Gafete del catálogo.
#[derive(Clone, Debug, PartialEq, Eq)]
pub struct GafeteResumen {
    pub id: i64,
    pub numero: i64,
    pub estado: EstadoGafete,
    pub contratista_deudor_id: Option<i64>,
    pub contratista_deudor_nombre: Option<String>,
    /// Cuándo se marcó perdido (segundos desde 1970, UTC).
    pub fecha_marcado_perdido: Option<i64>,
}

/// Contratista encontrado al buscar a quién cargar un gafete perdido.
#[derive(Clone, Debug, PartialEq, Eq)]
pub struct ContratistaResumen {
    pub id: i64,
    pub empresa_id: i64,
    pub cedula: String,
    pub nombre: String,
    pub empresa_nombre: String,
    pub tipo_ingreso: TipoIngreso,
    /// Día de vencimiento del PRAIND (`num_days_from_ce`), si tiene.
    pub fecha_vencimiento_praind: Option<i32>,
    pub es_personal_ruta: bool,
    pub tiene_acceso: bool,
    pub tiene_ingreso_activo: bool,
}

/// Un evento del historial de un gafete.
#[derive(Clone, Debug, PartialEq, Eq)]
pub struct IncidenteGafete {
    pub id: i64,
    pub tipo: TipoIncidenteGafete,
    /// Segundos desde 1970 (UTC).
    pub fecha_hora: i64,
    pub usuario_nombre: String,
    pub contratista_nombre: Option<String>,
    pub motivo_resolucion: Option<MotivoResolucionGafete>,
    pub gafete_numero: i64,
}

/// Qué le pasó a un gafete.
#[derive(Clone, Copy, Debug, PartialEq, Eq, Structural)]
pub enum TipoIncidenteGafete {
    Perdido,
    Resuelto,
}

impl TipoIncidenteGafete {
    /// Cómo se muestra el incidente en el historial de un gafete.
    pub fn texto(self) -> (r: &'static str)
        ensures
            r@ == (match self {
                TipoIncidenteGafete::Perdido => "Marcado perdido"@,
                TipoIncidenteGafete::Resuelto => "Resuelto"@,
            }),
    {
        match self {
            TipoIncidenteGafete::Perdido => "Marcado perdido",
            TipoIncidenteGafete::Resuelto => "Resuelto",
        }
    }
}

/// Filtro del catálogo de gafetes.
#[derive(Clone, Copy, Debug, PartialEq, Eq, Structural, Default)]
pub struct FiltroGafetes {
    pub numero: Option<i64>,
    pub estado: Option<Igualdad<EstadoGafete>>,
}

/// Persona que está dentro (ingreso sin salida).
#[derive(Clone, Debug, PartialEq, Eq)]
pub struct IngresoActivoResumen {
    pub registro_id: i64,
    pub contratista_id: i64,
    pub cedula: String,
    pub contratista_nombre: String,
    pub empresa_nombre: String,
    pub tipo_ingreso: TipoIngreso,
    pub medio_ingreso: MedioIngreso,
    /// Segundos desde 1970 (UTC).
    pub fecha_hora_ingreso: i64,
    pub gafete_numero: Option<i64>,
    pub usuario_ingreso_nombre: String,
}

/// Página de ingresos activos y el total real que coincide.
#[derive(Clone, Debug, PartialEq, Eq)]
pub struct ListaIngresosActivosResumen {
    pub items: Vec<IngresoActivoResumen>,
    pub total: usize,
}

/// Un movimiento (ingreso y, si ya salió, salida) del historial.
#[derive(Clone, Debug, PartialEq, Eq)]
pub struct MovimientoIngresoResumen {
    pub registro_id: i64,
    pub contratista_id: i64,
    pub cedula: String,
    pub contratista_nombre: String,
    pub empresa_nombre: String,
    pub tipo_ingreso: TipoIngreso,
    pub medio_ingreso: MedioIngreso,
    /// Segundos desde 1970 (UTC).
    pub fecha_hora_ingreso: i64,
    pub fecha_hora_salida: Option<i64>,
    pub gafete_numero: Option<i64>,
    pub usuario_ingreso_nombre: String,
    pub usuario_salida_nombre: Option<String>,
}

/// Página del historial, con el total real y el corte que fija la
/// "fotografía" sobre la que se pagina.
#[derive(Clone, Debug, PartialEq, Eq)]
pub struct PaginaHistorial {
    pub items: Vec<MovimientoIngresoResumen>,
    pub total: usize,
    pub corte_id: i64,
}

/// Una página de contratistas y el total real de coincidencias.
#[derive(Clone, Debug, PartialEq, Eq)]
pub struct PaginaContratistas {
    pub items: Vec<ContratistaResumen>,
    pub total: usize,
}

/// Tipo de respaldo de la base.
#[derive(Clone, Copy, Debug, PartialEq, Eq, Structural)]
pub enum TipoRespaldo {
    Manual,
    Automatico,
    PreMigracion,
    PreRestauracion,
    PorFlag,
}

/// Resultado de validar un respaldo.
#[derive(Clone, Debug, PartialEq, Eq)]
pub enum ResultadoValidacion {
    Valido { version_esquema: i64 },
    Invalido(String),
    EsquemaIncompatible { version_encontrada: i64 },
}

/// Un respaldo en disco.
#[derive(Clone, Debug, PartialEq, Eq)]
pub struct RespaldoResumen {
    pub ruta: String,
    /// Segundos desde 1970 (UTC).
    pub creado_en: i64,
    pub tipo: TipoRespaldo,
    pub tamano_bytes: u64,
}

/// Un cambio registrado en un campo crítico de un contratista.
#[derive(Clone, Debug, PartialEq, Eq)]
pub struct CambioAuditado {
    pub id: i64,
    /// Segundos desde 1970 (UTC).
    pub fecha_hora: i64,
    pub usuario_id: i64,
    pub usuario_nombre: String,
    pub entidad: EntidadAuditada,
    pub entidad_id: i64,
    pub entidad_nombre: String,
    pub campo: String,
    pub valor_anterior: Option<String>,
    pub valor_nuevo: Option<String>,
}

/// Qué clase de registro cambió.
#[derive(Clone, Copy, Debug, PartialEq, Eq, Structural)]
pub enum EntidadAuditada {
    Contratista,
    Usuario,
}

/// Página de la auditoría y el total real.
#[derive(Clone, Debug, PartialEq, Eq)]
pub struct PaginaAuditoria {
    pub items: Vec<CambioAuditado>,
    pub total: usize,
}

/// Filas por página de la auditoría.
pub const LIMITE_AUDITORIA_PREDETERMINADO: usize = 50;

} // verus!
