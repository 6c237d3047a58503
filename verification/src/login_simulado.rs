//! Ingreso con validación simulada: dos campos, foco que alterna, error si
//! faltan datos y una espera animada que termina en éxito.
use crate::texto::{caracteres, enmascarar, mascara, recortar, recorte, texto_de};
use crate::ui::{Codigo, Tecla, escribe, reloj_ms};
use vstd::prelude::*;

verus! {

/// Cuánto dura la validación simulada (ms).
pub const DURACION_VALIDACION_MS: u64 = 800;

/// Cuánto dura cada cuadro de la animación (ms).
pub const DURACION_FRAME_MS: u64 = 90;

/// Medio periodo del parpadeo del cursor (ms).
pub const DURACION_PARPADEO_MS: u64 = 500;

/// Campo con el foco.
#[derive(Clone, Copy, Debug, PartialEq, Eq, Structural)]
pub enum CampoLogin {
    Cedula,
    Password,
}

/// Estado del intento de ingreso.
#[derive(Clone, Debug, PartialEq, Eq)]
pub enum EstadoLogin {
    Normal,
    /// Validando desde el instante `iniciado` (ms).
    Validando { iniciado: u64 },
    Error(String),
    Exito,
}

/// Estado de la pantalla.
#[derive(Debug)]
pub struct LoginState {
    pub cedula: String,
    pub password: String,
    pub campo_activo: CampoLogin,
    pub estado: EstadoLogin,
    pub spinner_frame: u64,
    /// Desde cuándo (ms) cuenta el parpadeo del cursor.
    pub cursor_iniciado: u64,
    pub cursor_visible: bool,
}

pub open spec fn otro_campo(c: CampoLogin) -> CampoLogin {
    match c {
        CampoLogin::Cedula => CampoLogin::Password,
        CampoLogin::Password => CampoLogin::Cedula,
    }
}

/// El estado tras escribir o borrar: un error o un éxito previos se
/// descartan.
pub open spec fn sin_transitorio(e: EstadoLogin) -> EstadoLogin {
    match e {
        EstadoLogin::Error(_) | EstadoLogin::Exito => EstadoLogin::Normal,
        _ => e,
    }
}

pub open spec fn sin_ultimo(s: Seq<char>) -> Seq<char> {
    if s.len() > 0 {
        s.drop_last()
    } else {
        s
    }
}

/// Enter con el foco en la contraseña: valida que haya cédula y
/// contraseña y empieza la validación en `ahora`.
pub open spec fn entrar(viejo: LoginState, nuevo: LoginState, ahora: u64) -> bool {
    if viejo.campo_activo == CampoLogin::Cedula {
        nuevo == (LoginState { campo_activo: CampoLogin::Password, ..viejo })
    } else if recorte(viejo.cedula@).len() == 0 || viejo.password@.len() == 0 {
        &&& nuevo == (LoginState { estado: nuevo.estado, ..viejo })
        &&& nuevo.estado matches EstadoLogin::Error(m) && m@ == "Complete cédula y contraseña"@
    } else {
        nuevo == (LoginState {
            estado: EstadoLogin::Validando { iniciado: ahora },
            spinner_frame: 0,
            ..viejo
        })
    }
}

/// Lo que hace una tecla. Mientras se valida, nada; las teclas que
/// cambian el foco o el texto reinician el parpadeo (desde un instante del
/// reloj).
pub open spec fn tecla_login(viejo: LoginState, nuevo: LoginState, k: Tecla) -> bool {
    let reinicia = LoginState {
        cursor_iniciado: nuevo.cursor_iniciado,
        cursor_visible: true,
        ..viejo
    };
    if viejo.estado is Validando {
        nuevo == viejo
    } else if k.codigo == Codigo::Tab || k.codigo == Codigo::Down || k.codigo == Codigo::BackTab
        || k.codigo == Codigo::Up {
        nuevo == (LoginState { campo_activo: otro_campo(viejo.campo_activo), ..reinicia })
    } else if k.codigo == Codigo::Enter {
        exists|ahora: u64| #[trigger] entrar(viejo, nuevo, ahora)
    } else if k.codigo == Codigo::Backspace || escribe(k) {
        let cambia = |s: Seq<char>|
            match k.codigo {
                Codigo::Char(c) => s.push(c),
                _ => sin_ultimo(s),
            };
        &&& nuevo.campo_activo == viejo.campo_activo
        &&& nuevo.estado == sin_transitorio(viejo.estado)
        &&& nuevo.spinner_frame == viejo.spinner_frame
        &&& nuevo.cursor_visible
        &&& nuevo.cedula@ == (if viejo.campo_activo == CampoLogin::Cedula {
            cambia(viejo.cedula@)
        } else {
            viejo.cedula@
        })
        &&& nuevo.password@ == (if viejo.campo_activo == CampoLogin::Password {
            cambia(viejo.password@)
        } else {
            viejo.password@
        })
    } else {
        nuevo == viejo
    }
}

/// Lo que hace el paso del tiempo hasta `ahora`: el cursor se ve en los
/// periodos pares y la validación avanza la animación y termina en éxito
/// pasado su tiempo.
pub open spec fn paso_del_tiempo(viejo: LoginState, nuevo: LoginState, ahora: u64) -> bool {
    let desde_cursor = if ahora >= viejo.cursor_iniciado {
        ahora - viejo.cursor_iniciado
    } else {
        0
    };
    let visible = (desde_cursor / (DURACION_PARPADEO_MS as int)) % 2 == 0;
    match viejo.estado {
        EstadoLogin::Validando { iniciado } => {
            let t = if ahora >= iniciado {
                ahora - iniciado
            } else {
                0
            };
            nuevo == (LoginState {
                cursor_visible: visible,
                spinner_frame: (t / (DURACION_FRAME_MS as int)) as u64,
                estado: if t >= DURACION_VALIDACION_MS {
                    EstadoLogin::Exito
                } else {
                    viejo.estado
                },
                ..viejo
            })
        },
        _ => nuevo == (LoginState { cursor_visible: visible, ..viejo }),
    }
}

/// Cuadros de la animación de espera.
pub open spec fn cuadros() -> Seq<char> {
    seq!['⠋', '⠙', '⠹', '⠸', '⠼', '⠴', '⠦', '⠧', '⠇', '⠏']
}

impl Default for LoginState {
    fn default() -> (s: LoginState)
        ensures
            s.cedula@.len() == 0,
            s.password@.len() == 0,
            s.campo_activo == CampoLogin::Cedula,
            s.estado == EstadoLogin::Normal,
            s.spinner_frame == 0,
            s.cursor_visible,
    {
        LoginState {
            cedula: String::new(),
            password: String::new(),
            campo_activo: CampoLogin::Cedula,
            estado: EstadoLogin::Normal,
            spinner_frame: 0,
            cursor_iniciado: reloj_ms(),
            cursor_visible: true,
        }
    }
}

impl LoginState {
    /// Aplica una tecla (ver `tecla_login`).
    pub fn handle_key(&mut self, k: Tecla)
        ensures
            tecla_login(*old(self), *final(self), k),
    {
        match self.estado {
            EstadoLogin::Validando { .. } => {
                return;
            },
            _ => {},
        }
        match k.codigo {
            Codigo::Tab | Codigo::Down => self.siguiente_campo(),
            Codigo::BackTab | Codigo::Up => self.campo_anterior(),
            Codigo::Enter => {
                let ahora = reloj_ms();
                self.enter(ahora);
                assert(entrar(*old(self), *self, ahora));
            },
            Codigo::Backspace => self.borrar(),
            Codigo::Char(c) => {
                if !k.control && !k.alt {
                    self.escribir(c);
                }
            },
            _ => {},
        }
    }

    /// Avanza el parpadeo y la validación hasta `ahora` (ms).
    pub fn tick(&mut self, ahora: u64)
        ensures
            paso_del_tiempo(*old(self), *final(self), ahora),
    {
        let desde = if ahora >= self.cursor_iniciado {
            ahora - self.cursor_iniciado
        } else {
            0
        };
        self.cursor_visible = (desde / DURACION_PARPADEO_MS) % 2 == 0;
        let iniciado = match self.estado {
            EstadoLogin::Validando { iniciado } => iniciado,
            _ => {
                return;
            },
        };
        let t = if ahora >= iniciado {
            ahora - iniciado
        } else {
            0
        };
        self.spinner_frame = t / DURACION_FRAME_MS;
        if t >= DURACION_VALIDACION_MS {
            self.estado = EstadoLogin::Exito;
        }
    }

    /// La contraseña como puntos, uno por carácter.
    pub fn password_enmascarado(&self) -> (r: String)
        ensures
            r@ == mascara(self.password@.len()),
    {
        enmascarar(caracteres(self.password.as_str()).len())
    }

    pub fn campo_activo(&self) -> (r: CampoLogin)
        ensures
            r == self.campo_activo,
    {
        self.campo_activo
    }

    pub fn estado(&self) -> (r: &EstadoLogin)
        ensures
            r == self.estado,
    {
        &self.estado
    }

    /// La validación simulada terminó bien.
    pub fn acceso_simulado_exitoso(&self) -> (r: bool)
        ensures
            r == (self.estado is Exito),
    {
        match self.estado {
            EstadoLogin::Exito => true,
            _ => false,
        }
    }

    /// Cuadro actual de la animación de espera.
    pub fn spinner(&self) -> (c: char)
        ensures
            c == cuadros()[(self.spinner_frame % 10) as int],
    {
        let c = ['⠋', '⠙', '⠹', '⠸', '⠼', '⠴', '⠦', '⠧', '⠇', '⠏'];
        assert(c@ =~= cuadros());
        c[(self.spinner_frame % 10) as usize]
    }

    /// Pone el foco en la contraseña y pulsa Enter en el instante `ahora`.
    pub fn iniciar_validacion_en(&mut self, ahora: u64)
        ensures
            entrar(LoginState { campo_activo: CampoLogin::Password, ..*old(self) }, *final(self), ahora),
    {
        self.campo_activo = CampoLogin::Password;
        self.enter(ahora);
    }

    fn siguiente_campo(&mut self)
        ensures
            *final(self) == (LoginState {
                campo_activo: otro_campo(old(self).campo_activo),
                cursor_iniciado: final(self).cursor_iniciado,
                cursor_visible: true,
                ..*old(self)
            }),
    {
        self.campo_activo = match self.campo_activo {
            CampoLogin::Cedula => CampoLogin::Password,
            CampoLogin::Password => CampoLogin::Cedula,
        };
        self.reiniciar_cursor();
    }

    fn campo_anterior(&mut self)
        ensures
            *final(self) == (LoginState {
                campo_activo: otro_campo(old(self).campo_activo),
                cursor_iniciado: final(self).cursor_iniciado,
                cursor_visible: true,
                ..*old(self)
            }),
    {
        self.siguiente_campo();
    }

    fn enter(&mut self, ahora: u64)
        ensures
            entrar(*old(self), *final(self), ahora),
    {
        if self.campo_activo == CampoLogin::Cedula {
            self.campo_activo = CampoLogin::Password;
            return;
        }
        let cedula = recortar(caracteres(self.cedula.as_str()).as_slice());
        if cedula.len() == 0 || caracteres(self.password.as_str()).len() == 0 {
            self.estado = EstadoLogin::Error(
                texto_de(caracteres("Complete cédula y contraseña").as_slice()),
            );
            return;
        }
        self.estado = EstadoLogin::Validando { iniciado: ahora };
        self.spinner_frame = 0;
    }

    fn escribir(&mut self, c: char)
        ensures
            final(self).campo_activo == old(self).campo_activo,
            final(self).estado == sin_transitorio(old(self).estado),
            final(self).spinner_frame == old(self).spinner_frame,
            final(self).cursor_visible,
            final(self).cedula@ == (if old(self).campo_activo == CampoLogin::Cedula {
                old(self).cedula@.push(c)
            } else {
                old(self).cedula@
            }),
            final(self).password@ == (if old(self).campo_activo == CampoLogin::Password {
                old(self).password@.push(c)
            } else {
                old(self).password@
            }),
    {
        self.limpiar_estado_transitorio();
        self.reiniciar_cursor();
        match self.campo_activo {
            CampoLogin::Cedula => {
                let mut v = caracteres(self.cedula.as_str());
                v.push(c);
                self.cedula = texto_de(v.as_slice());
            },
            CampoLogin::Password => {
                let mut v = caracteres(self.password.as_str());
                v.push(c);
                self.password = texto_de(v.as_slice());
            },
        }
    }

    fn borrar(&mut self)
        ensures
            final(self).campo_activo == old(self).campo_activo,
            final(self).estado == sin_transitorio(old(self).estado),
            final(self).spinner_frame == old(self).spinner_frame,
            final(self).cursor_visible,
            final(self).cedula@ == (if old(self).campo_activo == CampoLogin::Cedula {
                sin_ultimo(old(self).cedula@)
            } else {
                old(self).cedula@
            }),
            final(self).password@ == (if old(self).campo_activo == CampoLogin::Password {
                sin_ultimo(old(self).password@)
            } else {
                old(self).password@
            }),
    {
        self.limpiar_estado_transitorio();
        self.reiniciar_cursor();
        match self.campo_activo {
            CampoLogin::Cedula => {
                let mut v = caracteres(self.cedula.as_str());
                if v.len() > 0 {
                    v.pop();
                }
                self.cedula = texto_de(v.as_slice());
            },
            CampoLogin::Password => {
                let mut v = caracteres(self.password.as_str());
                if v.len() > 0 {
                    v.pop();
                }
                self.password = texto_de(v.as_slice());
            },
        }
    }

    fn limpiar_estado_transitorio(&mut self)
        ensures
            *final(self) == (LoginState { estado: sin_transitorio(old(self).estado), ..*old(self) }),
    {
        match self.estado {
            EstadoLogin::Error(_) | EstadoLogin::Exito => {
                self.estado = EstadoLogin::Normal;
            },
            _ => {},
        }
    }

    fn reiniciar_cursor(&mut self)
        ensures
            *final(self) == (LoginState {
                cursor_iniciado: final(self).cursor_iniciado,
                cursor_visible: true,
                ..*old(self)
            }),
    {
        self.cursor_iniciado = reloj_ms();
        self.cursor_visible = true;
    }
}

} // verus!
