//! Cambio de la contraseña propia: contraseña actual, nueva y su
//! confirmación.
use crate::texto::{caracteres, enmascarar, iguales, mascara, texto_de};
use crate::ui::{Codigo, Tecla, TextInput, comando_estandar, editar, es_ayuda};
use vstd::prelude::*;

verus! {

#[derive(Clone, Copy, Debug, PartialEq, Eq, Structural)]
pub enum Campo {
    Actual,
    Nueva,
    Confirmacion,
}

#[derive(Clone, Debug, PartialEq, Eq)]
pub enum AccionCambioPassword {
    Ninguna,
    Volver,
    Cambiar { password_actual: String, nueva_password: String },
}

#[derive(Debug)]
pub struct CambioPasswordState {
    pub actual: TextInput,
    pub nueva: TextInput,
    pub confirmacion: TextInput,
    pub campo: Campo,
    pub guardando: bool,
    /// Resultado del último intento: `Ok` con el aviso de éxito o `Err`
    /// con el motivo.
    pub mensaje: Option<Result<String, String>>,
    pub ayuda_expandida: bool,
}

/// Mínimo de caracteres de la contraseña nueva.
pub const LONGITUD_MINIMA: usize = 8;

/// Los tres campos vacíos y sin máximo.
pub open spec fn vacios(s: CambioPasswordState) -> bool {
    &&& s.actual@.valor.len() == 0 && s.actual@.cursor == 0 && s.actual@.maximo is None
    &&& s.nueva@.valor.len() == 0 && s.nueva@.cursor == 0 && s.nueva@.maximo is None
    &&& s.confirmacion@.valor.len() == 0 && s.confirmacion@.cursor == 0
        && s.confirmacion@.maximo is None
}

/// Recién abierta: vacía, en la contraseña actual, sin mensaje.
pub open spec fn inicial(s: CambioPasswordState) -> bool {
    &&& vacios(s)
    &&& s.campo == Campo::Actual
    &&& !s.guardando
    &&& s.mensaje is None
    &&& !s.ayuda_expandida
}

/// Los tres secretos quedaron vacíos.
pub open spec fn secretos_vacios(s: CambioPasswordState) -> bool {
    &&& s.actual@.valor.len() == 0
    &&& s.nueva@.valor.len() == 0
    &&& s.confirmacion@.valor.len() == 0
}

pub open spec fn siguiente(c: Campo) -> Campo {
    match c {
        Campo::Actual => Campo::Nueva,
        Campo::Nueva => Campo::Confirmacion,
        Campo::Confirmacion => Campo::Actual,
    }
}

pub open spec fn anterior(c: Campo) -> Campo {
    match c {
        Campo::Actual => Campo::Confirmacion,
        Campo::Nueva => Campo::Actual,
        Campo::Confirmacion => Campo::Nueva,
    }
}

/// Por qué no se envía (el campo a corregir y el mensaje), o `None`.
pub open spec fn rechazo(actual: Seq<char>, nueva: Seq<char>, confirmacion: Seq<char>) -> Option<
    (Campo, Seq<char>),
> {
    if actual.len() == 0 {
        Some((Campo::Actual, "Ingrese su contraseña actual"@))
    } else if nueva.len() < LONGITUD_MINIMA {
        Some((Campo::Nueva, "La contraseña nueva debe tener al menos 8 caracteres"@))
    } else if nueva != confirmacion {
        Some((Campo::Confirmacion, "Las contraseñas nuevas no coinciden"@))
    } else {
        None
    }
}

/// Los textos de los tres campos no cambian.
pub open spec fn mismos_textos(viejo: CambioPasswordState, nuevo: CambioPasswordState) -> bool {
    &&& nuevo.actual@ == viejo.actual@
    &&& nuevo.nueva@ == viejo.nueva@
    &&& nuevo.confirmacion@ == viejo.confirmacion@
}

/// El cambio sólo se pide con la contraseña actual escrita y con una
/// contraseña nueva de al menos ocho caracteres que la confirmación repite
/// carácter por carácter; si la confirmación difiere en algo, se rechaza.
pub proof fn ley_cambio_solo_con_confirmacion_igual(
    viejo: CambioPasswordState,
    nuevo: CambioPasswordState,
    a: AccionCambioPassword,
)
    requires
        envio(viejo, nuevo, a),
    ensures
        a is Cambiar ==> {
            &&& viejo.actual@.valor.len() > 0
            &&& viejo.nueva@.valor.len() >= 8
            &&& viejo.nueva@.valor == viejo.confirmacion@.valor
        },
        viejo.nueva@.valor != viejo.confirmacion@.valor ==> a == AccionCambioPassword::Ninguna
            && nuevo.mensaje is Some,
{
}

/// Lo que deja enviar el formulario desde `viejo`.
pub open spec fn envio(
    viejo: CambioPasswordState,
    nuevo: CambioPasswordState,
    a: AccionCambioPassword,
) -> bool {
    &&& mismos_textos(viejo, nuevo)
    &&& match rechazo(viejo.actual@.valor, viejo.nueva@.valor, viejo.confirmacion@.valor) {
        Some((campo, m)) => {
            &&& a == AccionCambioPassword::Ninguna
            &&& nuevo.campo == campo
            &&& (nuevo.mensaje matches Some(Err(e)) && e@ == m)
            &&& nuevo.guardando == viejo.guardando
        },
        None => {
            &&& (a matches AccionCambioPassword::Cambiar { password_actual, nueva_password }
                && password_actual@ == viejo.actual@.valor && nueva_password@
                == viejo.nueva@.valor)
            &&& nuevo.guardando
            &&& nuevo.mensaje is None
            &&& nuevo.campo == viejo.campo
        },
    }
}

/// Lo que hace una tecla mientras no se está guardando.
pub open spec fn tecla_cambio(
    viejo: CambioPasswordState,
    nuevo: CambioPasswordState,
    k: Tecla,
    a: AccionCambioPassword,
) -> bool {
    if k.codigo == Codigo::Esc {
        &&& a == AccionCambioPassword::Volver
        &&& secretos_vacios(nuevo)
        &&& nuevo.campo == viejo.campo
        &&& nuevo.mensaje == viejo.mensaje
        &&& nuevo.guardando == viejo.guardando
    } else if k.codigo == Codigo::Tab || k.codigo == Codigo::Down || k.codigo == Codigo::BackTab
        || k.codigo == Codigo::Up || (k.codigo == Codigo::Enter && viejo.campo
        != Campo::Confirmacion) {
        &&& a == AccionCambioPassword::Ninguna
        &&& nuevo.campo == (if k.codigo == Codigo::BackTab || k.codigo == Codigo::Up {
            anterior(viejo.campo)
        } else {
            siguiente(viejo.campo)
        })
        &&& mismos_textos(viejo, nuevo)
        &&& nuevo.mensaje == viejo.mensaje
        &&& nuevo.guardando == viejo.guardando
    } else if k.codigo == Codigo::Enter {
        envio(viejo, nuevo, a)
    } else {
        &&& a == AccionCambioPassword::Ninguna
        &&& nuevo.mensaje is None
        &&& nuevo.campo == viejo.campo
        &&& nuevo.guardando == viejo.guardando
        &&& nuevo.actual@ == (if viejo.campo == Campo::Actual {
            editar(viejo.actual@, k)
        } else {
            viejo.actual@
        })
        &&& nuevo.nueva@ == (if viejo.campo == Campo::Nueva {
            editar(viejo.nueva@, k)
        } else {
            viejo.nueva@
        })
        &&& nuevo.confirmacion@ == (if viejo.campo == Campo::Confirmacion {
            editar(viejo.confirmacion@, k)
        } else {
            viejo.confirmacion@
        })
    }
}

impl Default for CambioPasswordState {
    fn default() -> (s: CambioPasswordState)
        ensures
            inicial(s),
    {
        CambioPasswordState {
            actual: TextInput::vacio(),
            nueva: TextInput::vacio(),
            confirmacion: TextInput::vacio(),
            campo: Campo::Actual,
            guardando: false,
            mensaje: None,
            ayuda_expandida: false,
        }
    }
}

impl CambioPasswordState {
    /// Vuelve al estado recién abierto.
    pub fn reiniciar(&mut self)
        ensures
            inicial(*final(self)),
    {
        *self = CambioPasswordState::default();
    }

    /// Aplica una tecla: F1 alterna la ayuda; mientras se guarda no hace
    /// nada más; Esc borra los secretos y vuelve.
    pub fn handle_key(&mut self, k: Tecla) -> (a: AccionCambioPassword)
        ensures
            es_ayuda(k) ==> {
                &&& a == AccionCambioPassword::Ninguna
                &&& final(self).ayuda_expandida == !old(self).ayuda_expandida
                &&& mismos_textos(*old(self), *final(self))
                &&& final(self).campo == old(self).campo
                &&& final(self).mensaje == old(self).mensaje
                &&& final(self).guardando == old(self).guardando
            },
            !es_ayuda(k) ==> final(self).ayuda_expandida == old(self).ayuda_expandida,
            !es_ayuda(k) && old(self).guardando ==> {
                &&& a == AccionCambioPassword::Ninguna
                &&& mismos_textos(*old(self), *final(self))
                &&& final(self).campo == old(self).campo
                &&& final(self).mensaje == old(self).mensaje
                &&& final(self).guardando
            },
            !es_ayuda(k) && !old(self).guardando ==> tecla_cambio(*old(self), *final(self), k, a),
    {
        if comando_estandar(k).is_some() {
            self.ayuda_expandida = !self.ayuda_expandida;
            return AccionCambioPassword::Ninguna;
        }
        if self.guardando {
            return AccionCambioPassword::Ninguna;
        }
        match k.codigo {
            Codigo::Esc => {
                self.limpiar_secretos();
                AccionCambioPassword::Volver
            },
            Codigo::Tab | Codigo::Down => {
                self.siguiente();
                AccionCambioPassword::Ninguna
            },
            Codigo::BackTab | Codigo::Up => {
                self.anterior();
                AccionCambioPassword::Ninguna
            },
            Codigo::Enter => {
                if self.campo != Campo::Confirmacion {
                    self.siguiente();
                    AccionCambioPassword::Ninguna
                } else {
                    self.enviar()
                }
            },
            _ => {
                self.mensaje = None;
                match self.campo {
                    Campo::Actual => {
                        self.actual.handle_key(k);
                    },
                    Campo::Nueva => {
                        self.nueva.handle_key(k);
                    },
                    Campo::Confirmacion => {
                        self.confirmacion.handle_key(k);
                    },
                }
                AccionCambioPassword::Ninguna
            },
        }
    }

    /// Recibe el resultado del cambio: deja de guardar, borra los tres
    /// secretos, vuelve a la contraseña actual y muestra el resultado.
    pub fn completar(&mut self, resultado: Result<(), String>)
        ensures
            !final(self).guardando,
            secretos_vacios(*final(self)),
            final(self).campo == Campo::Actual,
            match resultado {
                Ok(()) => final(self).mensaje matches Some(Ok(m)) && m@
                    == "Contraseña actualizada"@,
                Err(e) => final(self).mensaje == Some(Err::<String, String>(e)),
            },
            final(self).ayuda_expandida == old(self).ayuda_expandida,
    {
        self.guardando = false;
        self.limpiar_secretos();
        self.campo = Campo::Actual;
        self.mensaje = Some(
            match resultado {
                Ok(()) => Ok(texto_de(caracteres("Contraseña actualizada").as_slice())),
                Err(e) => Err(e),
            },
        );
    }

    /// Un `•` por carácter del campo.
    pub fn mascara(&self, campo: Campo) -> (r: String)
        ensures
            r@ == mascara(
                match campo {
                    Campo::Actual => self.actual@.valor.len(),
                    Campo::Nueva => self.nueva@.valor.len(),
                    Campo::Confirmacion => self.confirmacion@.valor.len(),
                },
            ),
    {
        let n = match campo {
            Campo::Actual => self.actual.value().len(),
            Campo::Nueva => self.nueva.value().len(),
            Campo::Confirmacion => self.confirmacion.value().len(),
        };
        enmascarar(n)
    }

    fn enviar(&mut self) -> (a: AccionCambioPassword)
        ensures
            envio(*old(self), *final(self), a),
            a is Cambiar ==> old(self).nueva@.valor == old(self).confirmacion@.valor,
            final(self).ayuda_expandida == old(self).ayuda_expandida,
    {
        if self.actual.value().len() == 0 {
            self.mensaje = Some(Err(texto_de(caracteres("Ingrese su contraseña actual").as_slice())));
            self.campo = Campo::Actual;
            return AccionCambioPassword::Ninguna;
        }
        if self.nueva.value().len() < LONGITUD_MINIMA {
            self.mensaje = Some(
                Err(
                    texto_de(
                        caracteres("La contraseña nueva debe tener al menos 8 caracteres").as_slice(),
                    ),
                ),
            );
            self.campo = Campo::Nueva;
            return AccionCambioPassword::Ninguna;
        }
        if !iguales(self.nueva.value(), self.confirmacion.value()) {
            self.mensaje = Some(
                Err(texto_de(caracteres("Las contraseñas nuevas no coinciden").as_slice())),
            );
            self.campo = Campo::Confirmacion;
            return AccionCambioPassword::Ninguna;
        }
        self.guardando = true;
        self.mensaje = None;
        AccionCambioPassword::Cambiar {
            password_actual: self.actual.texto(),
            nueva_password: self.nueva.texto(),
        }
    }

    fn siguiente(&mut self)
        ensures
            final(self).campo == siguiente(old(self).campo),
            mismos_textos(*old(self), *final(self)),
            final(self).mensaje == old(self).mensaje,
            final(self).guardando == old(self).guardando,
            final(self).ayuda_expandida == old(self).ayuda_expandida,
    {
        self.campo = match self.campo {
            Campo::Actual => Campo::Nueva,
            Campo::Nueva => Campo::Confirmacion,
            Campo::Confirmacion => Campo::Actual,
        };
    }

    fn anterior(&mut self)
        ensures
            final(self).campo == anterior(old(self).campo),
            mismos_textos(*old(self), *final(self)),
            final(self).mensaje == old(self).mensaje,
            final(self).guardando == old(self).guardando,
            final(self).ayuda_expandida == old(self).ayuda_expandida,
    {
        self.campo = match self.campo {
            Campo::Actual => Campo::Confirmacion,
            Campo::Nueva => Campo::Actual,
            Campo::Confirmacion => Campo::Nueva,
        };
    }

    fn limpiar_secretos(&mut self)
        ensures
            secretos_vacios(*final(self)),
            final(self).campo == old(self).campo,
            final(self).mensaje == old(self).mensaje,
            final(self).guardando == old(self).guardando,
            final(self).ayuda_expandida == old(self).ayuda_expandida,
    {
        self.actual.clear();
        self.nueva.clear();
        self.confirmacion.clear();
    }
}

} // verus!
