//! Inicio de sesión: cédula y contraseña, validación en curso y resultado.
use crate::texto::{enmascarar, es_vacio_recortado, mascara, recorte, texto_de, caracteres};
use crate::ui::{Codigo, Tecla, TextInput, editar, reloj_ms};
use vstd::prelude::*;

verus! {

/// Tiempo mínimo (ms) que se muestra la validación antes de entregar las
/// credenciales.
pub const DURACION_VALIDACION_MS: u64 = 800;

/// Duración (ms) de cada cuadro del indicador de espera.
pub const DURACION_FRAME_MS: u64 = 90;

/// Medio ciclo del parpadeo del cursor, en ms.
pub const DURACION_PARPADEO_MS: u64 = 500;

#[derive(Clone, Copy, Debug, PartialEq, Eq, Structural)]
pub enum CampoLogin {
    Cedula,
    Password,
}

#[derive(Clone, Debug, PartialEq, Eq)]
pub enum EstadoLogin {
    Normal,
    /// Validando desde el instante `iniciado` (ms).
    Validando { iniciado: u64 },
    Error(String),
    Exito,
}

#[derive(Clone, Debug, PartialEq, Eq)]
pub enum AccionLogin {
    Ninguna,
    Salir,
    Autenticar { cedula: String, password: String },
}

#[derive(Debug)]
pub struct LoginState {
    pub cedula: TextInput,
    pub password: TextInput,
    pub campo_activo: CampoLogin,
    pub estado: EstadoLogin,
    pub spinner_frame: usize,
    /// Cuándo (ms) se reinició el parpadeo del cursor.
    pub cursor_iniciado: u64,
    pub cursor_visible: bool,
}

/// Cuadros del indicador de espera.
pub open spec fn cuadros() -> Seq<char> {
    seq!['⠋', '⠙', '⠹', '⠸', '⠼', '⠴', '⠦', '⠧', '⠇', '⠏']
}

/// Un error o un éxito se borran al volver a escribir.
pub open spec fn sin_transitorio(e: EstadoLogin) -> EstadoLogin {
    match e {
        EstadoLogin::Error(_) | EstadoLogin::Exito => EstadoLogin::Normal,
        _ => e,
    }
}

/// Lo que hace una tecla mientras no se valida (salvo Esc, que siempre
/// sale).
pub open spec fn tecla_login(viejo: LoginState, nuevo: LoginState, k: Tecla, a: AccionLogin) -> bool {
    if k.codigo == Codigo::Tab || k.codigo == Codigo::Down || k.codigo == Codigo::BackTab
        || k.codigo == Codigo::Up {
        &&& a == AccionLogin::Ninguna
        &&& nuevo.campo_activo == (match viejo.campo_activo {
            CampoLogin::Cedula => CampoLogin::Password,
            CampoLogin::Password => CampoLogin::Cedula,
        })
        &&& nuevo.cedula@ == viejo.cedula@ && nuevo.password@ == viejo.password@
        &&& nuevo.estado == viejo.estado
        &&& nuevo.cursor_visible
    } else if k.codigo == Codigo::Enter {
        enter_login(viejo, nuevo, a)
    } else if k.codigo == Codigo::Backspace || (k.codigo is Char && !k.control && !k.alt) {
        &&& a == AccionLogin::Ninguna
        &&& nuevo.campo_activo == viejo.campo_activo
        &&& nuevo.estado == sin_transitorio(viejo.estado)
        &&& nuevo.cursor_visible
        &&& nuevo.cedula@ == (if viejo.campo_activo == CampoLogin::Cedula {
            editar(viejo.cedula@, k)
        } else {
            viejo.cedula@
        })
        &&& nuevo.password@ == (if viejo.campo_activo == CampoLogin::Password {
            editar(viejo.password@, k)
        } else {
            viejo.password@
        })
    } else {
        &&& a == AccionLogin::Ninguna
        &&& nuevo.campo_activo == viejo.campo_activo
        &&& nuevo.cedula@ == viejo.cedula@ && nuevo.password@ == viejo.password@
        &&& nuevo.estado == viejo.estado
        &&& nuevo.cursor_visible == viejo.cursor_visible
    }
}

/// Enter: de la cédula pasa a la contraseña; desde la contraseña pide
/// autenticar si ambos campos tienen algo.
pub open spec fn enter_login(viejo: LoginState, nuevo: LoginState, a: AccionLogin) -> bool {
    &&& nuevo.cedula@ == viejo.cedula@ && nuevo.password@ == viejo.password@
    &&& nuevo.campo_activo == CampoLogin::Password
    &&& if viejo.campo_activo == CampoLogin::Cedula {
        a == AccionLogin::Ninguna && nuevo.estado == viejo.estado
    } else if recorte(viejo.cedula@.valor).len() == 0 || viejo.password@.valor.len() == 0 {
        &&& a == AccionLogin::Ninguna
        &&& (nuevo.estado matches EstadoLogin::Error(m) && m@ == "Complete cédula y contraseña"@)
    } else {
        &&& nuevo.estado is Validando
        &&& nuevo.spinner_frame == 0
        &&& (a matches AccionLogin::Autenticar { cedula, password } && cedula@
            == viejo.cedula@.valor && password@ == viejo.password@.valor)
    }
}

/// Sólo se piden credenciales a verificar con una cédula que no es sólo
/// espacios y una contraseña no vacía, y son las escritas; si falta
/// cualquiera de las dos, no se pide nada y se avisa.
pub proof fn ley_autenticar_solo_con_datos(viejo: LoginState, nuevo: LoginState, a: AccionLogin)
    requires
        enter_login(viejo, nuevo, a),
    ensures
        a matches AccionLogin::Autenticar { cedula, password } ==> {
            &&& recorte(viejo.cedula@.valor).len() > 0
            &&& viejo.password@.valor.len() > 0
            &&& cedula@ == viejo.cedula@.valor
            &&& password@ == viejo.password@.valor
        },
        recorte(viejo.cedula@.valor).len() == 0 || viejo.password@.valor.len() == 0 ==> a
            == AccionLogin::Ninguna,
{
}

impl Default for LoginState {
    fn default() -> (s: LoginState)
        ensures
            s.cedula@.valor.len() == 0 && s.cedula@.cursor == 0 && s.cedula@.maximo is None,
            s.password@.valor.len() == 0 && s.password@.cursor == 0 && s.password@.maximo is None,
            s.campo_activo == CampoLogin::Cedula,
            s.estado == EstadoLogin::Normal,
            s.spinner_frame == 0,
            s.cursor_visible,
    {
        LoginState {
            cedula: TextInput::vacio(),
            password: TextInput::vacio(),
            campo_activo: CampoLogin::Cedula,
            estado: EstadoLogin::Normal,
            spinner_frame: 0,
            cursor_iniciado: reloj_ms(),
            cursor_visible: true,
        }
    }
}

impl LoginState {
    /// Vuelve al formulario vacío.
    pub fn reiniciar(&mut self)
        ensures
            final(self).cedula@.valor.len() == 0,
            final(self).password@.valor.len() == 0,
            final(self).campo_activo == CampoLogin::Cedula,
            final(self).estado == EstadoLogin::Normal,
    {
        *self = LoginState::default();
    }

    /// Muestra un error sin que el operador haya intentado nada (por
    /// ejemplo, el motivo de un cierre de sesión).
    pub fn preset_error(&mut self, mensaje: String)
        ensures
            final(self).estado == EstadoLogin::Error(mensaje),
            final(self).cedula@ == old(self).cedula@,
            final(self).password@ == old(self).password@,
            final(self).campo_activo == old(self).campo_activo,
    {
        self.estado = EstadoLogin::Error(mensaje);
    }

    /// Esc borra la contraseña y sale (también mientras se valida); si se
    /// está validando no hace nada más; si no, navegar, escribir, borrar o
    /// pedir la autenticación.
    pub fn handle_key(&mut self, k: Tecla) -> (a: AccionLogin)
        ensures
            k.codigo == Codigo::Esc ==> {
                &&& a == AccionLogin::Salir
                &&& final(self).password@.valor.len() == 0
                &&& final(self).cedula@ == old(self).cedula@
                &&& final(self).estado == old(self).estado
            },
            k.codigo != Codigo::Esc && old(self).estado is Validando ==> {
                &&& a == AccionLogin::Ninguna
                &&& final(self).cedula@ == old(self).cedula@
                &&& final(self).password@ == old(self).password@
                &&& final(self).estado == old(self).estado
                &&& final(self).campo_activo == old(self).campo_activo
            },
            k.codigo != Codigo::Esc && !(old(self).estado is Validando) ==> tecla_login(
                *old(self),
                *final(self),
                k,
                a,
            ),
    {
        if k.codigo == Codigo::Esc {
            self.password.clear();
            return AccionLogin::Salir;
        }
        if let EstadoLogin::Validando { .. } = self.estado {
            return AccionLogin::Ninguna;
        }
        match k.codigo {
            Codigo::Tab | Codigo::Down | Codigo::BackTab | Codigo::Up => {
                self.campo_activo = match self.campo_activo {
                    CampoLogin::Cedula => CampoLogin::Password,
                    CampoLogin::Password => CampoLogin::Cedula,
                };
                self.reiniciar_cursor();
                AccionLogin::Ninguna
            },
            Codigo::Enter => self.enter(reloj_ms()),
            Codigo::Backspace => {
                self.editar(k);
                AccionLogin::Ninguna
            },
            Codigo::Char(_) => {
                if !k.control && !k.alt {
                    self.editar(k);
                }
                AccionLogin::Ninguna
            },
            _ => AccionLogin::Ninguna,
        }
    }

    fn enter(&mut self, ahora: u64) -> (a: AccionLogin)
        requires
            !(old(self).estado is Validando),
        ensures
            enter_login(*old(self), *final(self), a),
            a is Autenticar ==> recorte(old(self).cedula@.valor).len() > 0
                && old(self).password@.valor.len() > 0,
    {
        if self.campo_activo == CampoLogin::Cedula {
            self.campo_activo = CampoLogin::Password;
            return AccionLogin::Ninguna;
        }
        if es_vacio_recortado(self.cedula.value()) || self.password.is_empty() {
            self.estado = EstadoLogin::Error(texto_de(caracteres("Complete cédula y contraseña").as_slice()));
            return AccionLogin::Ninguna;
        }
        self.estado = EstadoLogin::Validando { iniciado: ahora };
        self.spinner_frame = 0;
        AccionLogin::Autenticar { cedula: self.cedula.texto(), password: self.password.texto() }
    }

    fn editar(&mut self, k: Tecla)
        ensures
            final(self).campo_activo == old(self).campo_activo,
            final(self).estado == sin_transitorio(old(self).estado),
            final(self).cursor_visible,
            final(self).cedula@ == (if old(self).campo_activo == CampoLogin::Cedula {
                editar(old(self).cedula@, k)
            } else {
                old(self).cedula@
            }),
            final(self).password@ == (if old(self).campo_activo == CampoLogin::Password {
                editar(old(self).password@, k)
            } else {
                old(self).password@
            }),
    {
        match self.estado {
            EstadoLogin::Error(_) | EstadoLogin::Exito => {
                self.estado = EstadoLogin::Normal;
            },
            _ => {},
        }
        self.reiniciar_cursor();
        match self.campo_activo {
            CampoLogin::Cedula => {
                self.cedula.handle_key(k);
            },
            CampoLogin::Password => {
                self.password.handle_key(k);
            },
        }
    }

    /// Parpadeo del cursor y, mientras se valida, el cuadro del indicador
    /// (`ahora` en ms).
    pub fn tick(&mut self, ahora: u64)
        ensures
            final(self).cursor_visible == ((if ahora >= old(self).cursor_iniciado {
                ahora - old(self).cursor_iniciado
            } else {
                0
            }) / (DURACION_PARPADEO_MS as int) % 2 == 0),
            final(self).spinner_frame == (match old(self).estado {
                EstadoLogin::Validando { iniciado } => ((if ahora >= iniciado {
                    ahora - iniciado
                } else {
                    0
                }) / (DURACION_FRAME_MS as int)) as usize,
                _ => old(self).spinner_frame,
            }),
            final(self).estado == old(self).estado,
            final(self).cedula@ == old(self).cedula@,
            final(self).password@ == old(self).password@,
            final(self).campo_activo == old(self).campo_activo,
            final(self).cursor_iniciado == old(self).cursor_iniciado,
    {
        let t = if ahora >= self.cursor_iniciado {
            ahora - self.cursor_iniciado
        } else {
            0
        };
        self.cursor_visible = (t / DURACION_PARPADEO_MS) % 2 == 0;
        if let EstadoLogin::Validando { iniciado } = self.estado {
            let v = if ahora >= iniciado {
                ahora - iniciado
            } else {
                0
            };
            self.spinner_frame = (v / DURACION_FRAME_MS) as usize;
        }
    }

    /// Las credenciales, una vez que la validación se mostró el tiempo
    /// mínimo.
    pub fn credenciales_si_validacion_lista(&self, ahora: u64) -> (r: Option<(String, String)>)
        ensures
            match self.estado {
                EstadoLogin::Validando { iniciado } => if ahora >= iniciado && ahora - iniciado
                    >= DURACION_VALIDACION_MS {
                    r matches Some((c, p)) && c@ == self.cedula@.valor && p@ == self.password@.valor
                } else {
                    r is None
                },
                _ => r is None,
            },
    {
        match self.estado {
            EstadoLogin::Validando { iniciado } => {
                if ahora >= iniciado && ahora - iniciado >= DURACION_VALIDACION_MS {
                    Some((self.cedula.texto(), self.password.texto()))
                } else {
                    None
                }
            },
            _ => None,
        }
    }

    /// Resultado de autenticar: la contraseña se borra siempre; un error
    /// queda como estado, si no, éxito.
    pub fn completar_validacion(&mut self, error: Option<String>)
        ensures
            final(self).password@.valor.len() == 0,
            final(self).cedula@ == old(self).cedula@,
            final(self).estado == (match error {
                Some(e) => EstadoLogin::Error(e),
                None => EstadoLogin::Exito,
            }),
            final(self).campo_activo == old(self).campo_activo,
    {
        self.password.clear();
        self.estado = match error {
            Some(e) => EstadoLogin::Error(e),
            None => EstadoLogin::Exito,
        };
    }

    /// Un `•` por carácter de la contraseña.
    pub fn password_enmascarado(&self) -> (r: String)
        ensures
            r@ == mascara(self.password@.valor.len()),
    {
        enmascarar(self.password.value().len())
    }

    pub fn campo_activo(&self) -> (r: CampoLogin)
        ensures
            r == self.campo_activo,
    {
        self.campo_activo
    }

    pub fn estado(&self) -> (r: &EstadoLogin)
        ensures
            *r == self.estado,
    {
        &self.estado
    }

    /// La autenticación salió bien.
    pub fn acceso_simulado_exitoso(&self) -> (r: bool)
        ensures
            r == (self.estado == EstadoLogin::Exito),
    {
        match self.estado {
            EstadoLogin::Exito => true,
            _ => false,
        }
    }

    /// El cuadro actual del indicador de espera.
    pub fn spinner(&self) -> (c: char)
        ensures
            c == cuadros()[(self.spinner_frame % 10) as int],
    {
        let tabla: [char; 10] = ['⠋', '⠙', '⠹', '⠸', '⠼', '⠴', '⠦', '⠧', '⠇', '⠏'];
        let c = tabla[self.spinner_frame % 10];
        assert(tabla@ =~= cuadros());
        c
    }

    fn reiniciar_cursor(&mut self)
        ensures
            final(self).cursor_visible,
            final(self).cedula == old(self).cedula,
            final(self).password == old(self).password,
            final(self).campo_activo == old(self).campo_activo,
            final(self).estado == old(self).estado,
            final(self).spinner_frame == old(self).spinner_frame,
    {
        self.cursor_iniciado = reloj_ms();
        self.cursor_visible = true;
    }
}

} // verus!
