//! Auditoría: cambios registrados en campos críticos de contratistas,
//! paginados.
use crate::fechas::{dia_iso_leido, escribir_dia, fecha_escrita, leer_fecha_iso};
use crate::modelos::{CambioAuditado, LIMITE_AUDITORIA_PREDETERMINADO, PaginaAuditoria};
use crate::texto::{caracteres, es_literal, texto_de, unir};
use crate::ui::{Codigo, Tecla, comando_estandar, es_ayuda, movida, mover_seleccion};
use vstd::prelude::*;

verus! {

#[derive(Clone, Copy, Debug, PartialEq, Eq, Structural)]
pub enum AccionAuditoria {
    Ninguna,
    Volver,
    Cargar { offset: usize },
}

#[derive(Debug)]
pub struct AuditoriaState {
    pub items: Vec<CambioAuditado>,
    pub total: usize,
    pub offset: usize,
    pub seleccion: Option<usize>,
    pub error: Option<String>,
    pub ayuda_expandida: bool,
}

impl AuditoriaState {
    pub open spec fn bien_formado(&self) -> bool {
        self.seleccion matches Some(i) ==> i < self.items.len()
    }

    /// Hay una página siguiente: lo mostrado no llega al total.
    pub open spec fn hay_siguiente(&self) -> bool {
        self.offset + self.items@.len() < self.total
    }

    /// Recién abierta: vacía, en la primera página.
    pub open spec fn inicial(&self) -> bool {
        &&& self.items@.len() == 0
        &&& self.total == 0
        &&& self.offset == 0
        &&& self.seleccion is None
        &&& self.error is None
        &&& !self.ayuda_expandida
    }
}

impl Default for AuditoriaState {
    fn default() -> (s: AuditoriaState)
        ensures
            s.inicial(),
    {
        AuditoriaState {
            items: Vec::new(),
            total: 0,
            offset: 0,
            seleccion: None,
            error: None,
            ayuda_expandida: false,
        }
    }
}

impl AuditoriaState {
    /// Vuelve al inicio y pide la primera página.
    pub fn reiniciar(&mut self) -> (a: AccionAuditoria)
        ensures
            final(self).inicial(),
            a == (AccionAuditoria::Cargar { offset: 0 }),
    {
        *self = AuditoriaState::default();
        AccionAuditoria::Cargar { offset: 0 }
    }

    /// Recibe una página: la muestra con la primera fila seleccionada; un
    /// error vacía la tabla y queda como error.
    pub fn completar(&mut self, resultado: Result<PaginaAuditoria, String>)
        ensures
            final(self).bien_formado(),
            match resultado {
                Ok(p) => {
                    &&& final(self).items@ == p.items@
                    &&& final(self).total == p.total
                    &&& final(self).seleccion == (if p.items@.len() > 0 {
                        Some(0usize)
                    } else {
                        None
                    })
                    &&& final(self).error is None
                },
                Err(e) => {
                    &&& final(self).items@.len() == 0
                    &&& final(self).total == 0
                    &&& final(self).seleccion is None
                    &&& final(self).error == Some(e)
                },
            },
            final(self).offset == old(self).offset,
    {
        match resultado {
            Ok(p) => {
                self.items = p.items;
                self.total = p.total;
                self.seleccion = if self.items.len() > 0 {
                    Some(0)
                } else {
                    None
                };
                self.error = None;
            },
            Err(e) => {
                self.items = Vec::new();
                self.total = 0;
                self.seleccion = None;
                self.error = Some(e);
            },
        }
    }

    /// F1 alterna la ayuda; Esc vuelve; flechas mueven; AvPág y RePág piden
    /// la página siguiente o la anterior si la hay.
    pub fn handle_key(&mut self, k: Tecla) -> (a: AccionAuditoria)
        requires
            old(self).bien_formado(),
            k.codigo == Codigo::PageDown && old(self).hay_siguiente() ==> old(self).offset
                + LIMITE_AUDITORIA_PREDETERMINADO <= usize::MAX,
        ensures
            final(self).bien_formado(),
            final(self).items == old(self).items,
            final(self).total == old(self).total,
            final(self).error == old(self).error,
            es_ayuda(k) ==> a == AccionAuditoria::Ninguna && final(self).ayuda_expandida
                == !old(self).ayuda_expandida && final(self).offset == old(self).offset
                && final(self).seleccion == old(self).seleccion,
            !es_ayuda(k) ==> {
                &&& final(self).ayuda_expandida == old(self).ayuda_expandida
                &&& final(self).seleccion == (if k.codigo == Codigo::Up {
                    movida(old(self).seleccion, -1, old(self).items@.len())
                } else if k.codigo == Codigo::Down {
                    movida(old(self).seleccion, 1, old(self).items@.len())
                } else {
                    old(self).seleccion
                })
                &&& if k.codigo == Codigo::Esc {
                    a == AccionAuditoria::Volver && final(self).offset == old(self).offset
                } else if k.codigo == Codigo::PageDown && old(self).hay_siguiente() {
                    &&& final(self).offset == old(self).offset + LIMITE_AUDITORIA_PREDETERMINADO
                    &&& a == (AccionAuditoria::Cargar { offset: final(self).offset })
                } else if k.codigo == Codigo::PageUp && old(self).offset > 0 {
                    &&& final(self).offset == (if old(self).offset
                        >= LIMITE_AUDITORIA_PREDETERMINADO {
                        old(self).offset - LIMITE_AUDITORIA_PREDETERMINADO
                    } else {
                        0
                    })
                    &&& a == (AccionAuditoria::Cargar { offset: final(self).offset })
                } else {
                    a == AccionAuditoria::Ninguna && final(self).offset == old(self).offset
                }
            },
    {
        if comando_estandar(k).is_some() {
            self.ayuda_expandida = !self.ayuda_expandida;
            return AccionAuditoria::Ninguna;
        }
        match k.codigo {
            Codigo::Esc => AccionAuditoria::Volver,
            Codigo::Up => {
                self.seleccion = mover_seleccion(self.seleccion, -1, self.items.len());
                AccionAuditoria::Ninguna
            },
            Codigo::Down => {
                self.seleccion = mover_seleccion(self.seleccion, 1, self.items.len());
                AccionAuditoria::Ninguna
            },
            Codigo::PageDown => {
                if self.offset < self.total && self.items.len() < self.total - self.offset {
                    self.offset = self.offset + LIMITE_AUDITORIA_PREDETERMINADO;
                    AccionAuditoria::Cargar { offset: self.offset }
                } else {
                    AccionAuditoria::Ninguna
                }
            },
            Codigo::PageUp => {
                if self.offset > 0 {
                    self.offset = if self.offset >= LIMITE_AUDITORIA_PREDETERMINADO {
                        self.offset - LIMITE_AUDITORIA_PREDETERMINADO
                    } else {
                        0
                    };
                    AccionAuditoria::Cargar { offset: self.offset }
                } else {
                    AccionAuditoria::Ninguna
                }
            },
            _ => AccionAuditoria::Ninguna,
        }
    }
}

/// Nombre legible de un campo auditado.
pub open spec fn etiqueta_campo(campo: Seq<char>) -> Seq<char> {
    if campo == "tipo_ingreso"@ {
        "Tipo de ingreso"@
    } else if campo == "fecha_vencimiento_praind"@ {
        "Vencimiento PRAIND"@
    } else if campo == "tiene_acceso"@ {
        "Acceso"@
    } else if campo == "cedula"@ {
        "Cédula"@
    } else {
        campo
    }
}

/// Descripción de un cambio: `Campo: antes → después`; un cambio de
/// contraseña no muestra valores.
pub open spec fn descripcion(campo: Seq<char>, anterior: Option<Seq<char>>, nuevo: Option<Seq<char>>) -> Seq<char> {
    if campo == "password"@ {
        "Contraseña actualizada"@
    } else {
        etiqueta_campo(campo) + ": "@ + valor_mostrado(campo, anterior) + " → "@ + valor_mostrado(
            campo,
            nuevo,
        )
    }
}

/// Cómo se muestra un valor guardado de un campo: tipos con espacio, la
/// fecha PRAIND como `DD/MM/YYYY` (tal cual si no se puede leer), el
/// acceso con mayúscula inicial y la falta de valor como `Sin fecha` o
/// `—`.
pub open spec fn valor_mostrado(campo: Seq<char>, valor: Option<Seq<char>>) -> Seq<char> {
    match valor {
        None => if campo == "fecha_vencimiento_praind"@ {
            "Sin fecha"@
        } else {
            "—"@
        },
        Some(v) => if campo == "tipo_ingreso"@ && v == "IN_HOUSE"@ {
            "IN HOUSE"@
        } else if campo == "tipo_ingreso"@ && v == "POR_CORREO"@ {
            "POR CORREO"@
        } else if campo == "fecha_vencimiento_praind"@ {
            match dia_iso_leido(v) {
                Some(d) => fecha_escrita(d),
                None => v,
            }
        } else if campo == "tiene_acceso"@ && v == "HABILITADO"@ {
            "Habilitado"@
        } else if campo == "tiene_acceso"@ && v == "DESHABILITADO"@ {
            "Deshabilitado"@
        } else {
            v
        },
    }
}

pub open spec fn vista_opcional(v: Option<String>) -> Option<Seq<char>> {
    match v {
        Some(s) => Some(s@),
        None => None,
    }
}

fn lit(s: &str) -> (r: Vec<char>)
    ensures
        r@ == s@,
{
    caracteres(s)
}

/// Cómo se muestra un valor guardado de `campo` (ver `valor_mostrado`).
pub fn valor_presentable(campo: &str, valor: Option<&str>) -> (r: String)
    ensures
        r@ == valor_mostrado(
            campo@,
            match valor {
                Some(v) => Some(v@),
                None => None,
            },
        ),
{
    let c = caracteres(campo);
    let c = c.as_slice();
    let v = match valor {
        None => {
            return if es_literal(c, "fecha_vencimiento_praind") {
                texto_de(lit("Sin fecha").as_slice())
            } else {
                texto_de(lit("—").as_slice())
            };
        },
        Some(v) => v,
    };
    let vc = caracteres(v);
    let vs = vc.as_slice();
    if es_literal(c, "tipo_ingreso") && es_literal(vs, "IN_HOUSE") {
        texto_de(lit("IN HOUSE").as_slice())
    } else if es_literal(c, "tipo_ingreso") && es_literal(vs, "POR_CORREO") {
        texto_de(lit("POR CORREO").as_slice())
    } else if es_literal(c, "fecha_vencimiento_praind") {
        match leer_fecha_iso(v) {
            Some(d) => escribir_dia(d),
            None => texto_de(vs),
        }
    } else if es_literal(c, "tiene_acceso") && es_literal(vs, "HABILITADO") {
        texto_de(lit("Habilitado").as_slice())
    } else if es_literal(c, "tiene_acceso") && es_literal(vs, "DESHABILITADO") {
        texto_de(lit("Deshabilitado").as_slice())
    } else {
        texto_de(vs)
    }
}

/// Descripción de un cambio (ver `descripcion`).
pub fn descripcion_cambio(item: &CambioAuditado) -> (r: String)
    ensures
        r@ == descripcion(
            item.campo@,
            vista_opcional(item.valor_anterior),
            vista_opcional(item.valor_nuevo),
        ),
{
    let c = caracteres(item.campo.as_str());
    if es_literal(c.as_slice(), "password") {
        return texto_de(lit("Contraseña actualizada").as_slice());
    }
    let etiqueta = if es_literal(c.as_slice(), "tipo_ingreso") {
        lit("Tipo de ingreso")
    } else if es_literal(c.as_slice(), "fecha_vencimiento_praind") {
        lit("Vencimiento PRAIND")
    } else if es_literal(c.as_slice(), "tiene_acceso") {
        lit("Acceso")
    } else if es_literal(c.as_slice(), "cedula") {
        lit("Cédula")
    } else {
        c
    };
    let anterior = match &item.valor_anterior {
        Some(v) => valor_presentable(item.campo.as_str(), Some(v.as_str())),
        None => valor_presentable(item.campo.as_str(), None),
    };
    let nuevo = match &item.valor_nuevo {
        Some(v) => valor_presentable(item.campo.as_str(), Some(v.as_str())),
        None => valor_presentable(item.campo.as_str(), None),
    };
    let a = unir(etiqueta.as_slice(), lit(": ").as_slice());
    let b = unir(a.as_slice(), caracteres(anterior.as_str()).as_slice());
    let d = unir(b.as_slice(), lit(" → ").as_slice());
    let e = unir(d.as_slice(), caracteres(nuevo.as_str()).as_slice());
    texto_de(e.as_slice())
}

} // verus!
