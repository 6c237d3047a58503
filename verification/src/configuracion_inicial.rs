//! Primer arranque: el formulario que crea la cuenta ROOT inicial.
use crate::texto::{
    caracteres, decimal, enmascarar, escribir_decimal, iguales, mascara, recortar, recorte, texto_de,
    unir,
};
use crate::ui::{Codigo, Tecla, TextInput, VistaCampo, comando_estandar, editar, es_ayuda, reloj_ms};
use vstd::prelude::*;

verus! {

/// Medio ciclo del parpadeo del cursor, en ms.
pub const DURACION_PARPADEO_MS: u64 = 500;

pub const LONGITUD_MINIMA_PASSWORD: usize = 8;

pub const LONGITUD_MAXIMA_CEDULA: usize = 30;

pub const LONGITUD_MAXIMA_NOMBRE: usize = 60;

pub const LONGITUD_MAXIMA_PASSWORD: usize = 128;

#[derive(Clone, Copy, Debug, PartialEq, Eq, Structural)]
pub enum CampoConfiguracion {
    Cedula,
    Nombre,
    Password,
    ConfirmarPassword,
}

#[derive(Clone, Debug, PartialEq, Eq)]
pub enum EstadoConfiguracion {
    Editando,
    Creando,
    Error(String),
}

/// Lo que se pide crear: cédula y nombre recortados, y la contraseña tal
/// cual.
pub struct SolicitudRoot {
    pub cedula: String,
    pub nombre: String,
    pub password: String,
}

impl SolicitudRoot {
    /// Representación para depurar: la contraseña no aparece.
    pub fn depuracion(&self) -> (r: String)
        ensures
            r@ == "SolicitudRoot { cedula: "@ + self.cedula@ + ", nombre: "@ + self.nombre@
                + ", password: [OCULTA] }"@,
    {
        let v = caracteres("SolicitudRoot { cedula: ");
        let mut v = crate::texto::unir(v.as_slice(), caracteres(self.cedula.as_str()).as_slice());
        v = crate::texto::unir(v.as_slice(), caracteres(", nombre: ").as_slice());
        v = crate::texto::unir(v.as_slice(), caracteres(self.nombre.as_str()).as_slice());
        v = crate::texto::unir(v.as_slice(), caracteres(", password: [OCULTA] }").as_slice());
        texto_de(v.as_slice())
    }
}

#[derive(Clone, Copy, Debug, PartialEq, Eq, Structural)]
pub enum AccionConfiguracion {
    Ninguna,
    Salir,
}

/// Nombre de un campo, como en el código.
pub open spec fn texto_de_campo(c: CampoConfiguracion) -> Seq<char> {
    match c {
        CampoConfiguracion::Cedula => "Cedula"@,
        CampoConfiguracion::Nombre => "Nombre"@,
        CampoConfiguracion::Password => "Password"@,
        CampoConfiguracion::ConfirmarPassword => "ConfirmarPassword"@,
    }
}

fn nombre_de_campo(c: CampoConfiguracion) -> (r: &'static str)
    ensures
        r@ == texto_de_campo(c),
{
    match c {
        CampoConfiguracion::Cedula => "Cedula",
        CampoConfiguracion::Nombre => "Nombre",
        CampoConfiguracion::Password => "Password",
        CampoConfiguracion::ConfirmarPassword => "ConfirmarPassword",
    }
}

pub open spec fn texto_de_bool(b: bool) -> Seq<char> {
    if b {
        "true"@
    } else {
        "false"@
    }
}

fn nombre_de_bool(b: bool) -> (r: &'static str)
    ensures
        r@ == texto_de_bool(b),
{
    if b {
        "true"
    } else {
        "false"
    }
}

/// El estado para depurar, con el mensaje de error si lo hay.
pub open spec fn texto_de_estado(e: EstadoConfiguracion) -> Seq<char> {
    match e {
        EstadoConfiguracion::Editando => "Editando"@,
        EstadoConfiguracion::Creando => "Creando"@,
        EstadoConfiguracion::Error(m) => "Error("@ + m@ + ")"@,
    }
}

fn escribir_estado(e: &EstadoConfiguracion) -> (r: Vec<char>)
    ensures
        r@ == texto_de_estado(*e),
{
    match e {
        EstadoConfiguracion::Editando => caracteres("Editando"),
        EstadoConfiguracion::Creando => caracteres("Creando"),
        EstadoConfiguracion::Error(m) => {
            let v = unir(caracteres("Error(").as_slice(), caracteres(m.as_str()).as_slice());
            unir(v.as_slice(), caracteres(")").as_slice())
        },
    }
}

/// La solicitud pendiente para depurar, con la contraseña oculta.
pub open spec fn texto_de_solicitud(s: Option<SolicitudRoot>) -> Seq<char> {
    match s {
        None => "None"@,
        Some(r) => "Some(SolicitudRoot { cedula: "@ + r.cedula@ + ", nombre: "@ + r.nombre@
            + ", password: [OCULTA] })"@,
    }
}

fn escribir_solicitud(s: &Option<SolicitudRoot>) -> (r: Vec<char>)
    ensures
        r@ == texto_de_solicitud(*s),
{
    match s {
        None => caracteres("None"),
        Some(r) => {
            let v = unir(
                caracteres("Some(SolicitudRoot { cedula: ").as_slice(),
                caracteres(r.cedula.as_str()).as_slice(),
            );
            let v = unir(v.as_slice(), caracteres(", nombre: ").as_slice());
            let v = unir(v.as_slice(), caracteres(r.nombre.as_str()).as_slice());
            unir(v.as_slice(), caracteres(", password: [OCULTA] })").as_slice())
        },
    }
}

/// Estado del formulario de la cuenta ROOT inicial.
pub struct ConfiguracionInicialState {
    pub cedula: TextInput,
    pub nombre: TextInput,
    pub password: TextInput,
    pub confirmar_password: TextInput,
    pub campo_activo: CampoConfiguracion,
    pub estado: EstadoConfiguracion,
    pub solicitud: Option<SolicitudRoot>,
    /// Cuándo (ms) se reinició el parpadeo del cursor.
    pub cursor_iniciado: u64,
    pub cursor_visible: bool,
    pub ayuda_expandida: bool,
}

/// El campo que sigue (en ciclo).
pub open spec fn siguiente(c: CampoConfiguracion) -> CampoConfiguracion {
    match c {
        CampoConfiguracion::Cedula => CampoConfiguracion::Nombre,
        CampoConfiguracion::Nombre => CampoConfiguracion::Password,
        CampoConfiguracion::Password => CampoConfiguracion::ConfirmarPassword,
        CampoConfiguracion::ConfirmarPassword => CampoConfiguracion::Cedula,
    }
}

/// El campo anterior (en ciclo).
pub open spec fn anterior(c: CampoConfiguracion) -> CampoConfiguracion {
    match c {
        CampoConfiguracion::Cedula => CampoConfiguracion::ConfirmarPassword,
        CampoConfiguracion::Nombre => CampoConfiguracion::Cedula,
        CampoConfiguracion::Password => CampoConfiguracion::Nombre,
        CampoConfiguracion::ConfirmarPassword => CampoConfiguracion::Password,
    }
}

/// Por qué no se puede crear la cuenta (el campo a corregir y el mensaje),
/// o `None` si el formulario es válido. Se revisa en este orden.
pub open spec fn rechazo(
    cedula: Seq<char>,
    nombre: Seq<char>,
    password: Seq<char>,
    confirmacion: Seq<char>,
) -> Option<(CampoConfiguracion, Seq<char>)> {
    if recorte(cedula).len() == 0 {
        Some((CampoConfiguracion::Cedula, "La cédula es obligatoria"@))
    } else if recorte(nombre).len() == 0 {
        Some((CampoConfiguracion::Nombre, "El nombre es obligatorio"@))
    } else if password.len() == 0 {
        Some((CampoConfiguracion::Password, "La contraseña es obligatoria"@))
    } else if confirmacion.len() == 0 {
        Some((CampoConfiguracion::ConfirmarPassword, "Debe confirmar la contraseña"@))
    } else if password.len() < LONGITUD_MINIMA_PASSWORD {
        Some((CampoConfiguracion::Password, "La contraseña debe tener al menos 8 caracteres"@))
    } else if password != confirmacion {
        Some((CampoConfiguracion::ConfirmarPassword, "Las contraseñas no coinciden"@))
    } else {
        None
    }
}

/// Los cuatro campos como texto.
pub open spec fn valores(s: ConfiguracionInicialState) -> (Seq<char>, Seq<char>, Seq<char>, Seq<char>) {
    (s.cedula@.valor, s.nombre@.valor, s.password@.valor, s.confirmar_password@.valor)
}

/// El resultado de intentar crear la cuenta desde `viejo`.
pub open spec fn intento(viejo: ConfiguracionInicialState, nuevo: ConfiguracionInicialState) -> bool {
    let (c, n, p, q) = valores(viejo);
    &&& valores(nuevo) == valores(viejo)
    &&& match rechazo(c, n, p, q) {
        Some((campo, m)) => {
            &&& nuevo.campo_activo == campo
            &&& (nuevo.estado matches EstadoConfiguracion::Error(e) && e@ == m)
            &&& nuevo.cursor_visible
            &&& nuevo.solicitud == viejo.solicitud
        },
        None => {
            &&& nuevo.campo_activo == viejo.campo_activo
            &&& nuevo.estado == EstadoConfiguracion::Creando
            &&& (nuevo.solicitud matches Some(sol) && sol.cedula@ == recorte(c) && sol.nombre@
                == recorte(n) && sol.password@ == p)
            &&& nuevo.cursor_visible == viejo.cursor_visible
            &&& nuevo.cursor_iniciado == viejo.cursor_iniciado
        },
    }
}

/// La tecla edita el campo activo (y quita un error anterior).
pub open spec fn edicion(
    viejo: ConfiguracionInicialState,
    nuevo: ConfiguracionInicialState,
    k: Tecla,
) -> bool {
    &&& nuevo.campo_activo == viejo.campo_activo
    &&& nuevo.solicitud == viejo.solicitud
    &&& nuevo.cursor_visible
    &&& nuevo.estado == (if viejo.estado is Error {
        EstadoConfiguracion::Editando
    } else {
        viejo.estado
    })
    &&& nuevo.cedula@ == (if viejo.campo_activo == CampoConfiguracion::Cedula {
        editar(viejo.cedula@, k)
    } else {
        viejo.cedula@
    })
    &&& nuevo.nombre@ == (if viejo.campo_activo == CampoConfiguracion::Nombre {
        editar(viejo.nombre@, k)
    } else {
        viejo.nombre@
    })
    &&& nuevo.password@ == (if viejo.campo_activo == CampoConfiguracion::Password {
        editar(viejo.password@, k)
    } else {
        viejo.password@
    })
    &&& nuevo.confirmar_password@ == (if viejo.campo_activo
        == CampoConfiguracion::ConfirmarPassword {
        editar(viejo.confirmar_password@, k)
    } else {
        viejo.confirmar_password@
    })
}

/// Sólo cambia el campo activo (y el cursor vuelve a verse).
pub open spec fn cambio_de_campo(
    viejo: ConfiguracionInicialState,
    nuevo: ConfiguracionInicialState,
    campo: CampoConfiguracion,
) -> bool {
    &&& nuevo.campo_activo == campo
    &&& valores(nuevo) == valores(viejo)
    &&& nuevo.estado == viejo.estado
    &&& nuevo.solicitud == viejo.solicitud
    &&& nuevo.cursor_visible
}

/// Nada cambia.
pub open spec fn igual(viejo: ConfiguracionInicialState, nuevo: ConfiguracionInicialState) -> bool {
    &&& nuevo.campo_activo == viejo.campo_activo
    &&& nuevo.cedula@ == viejo.cedula@
    &&& nuevo.nombre@ == viejo.nombre@
    &&& nuevo.password@ == viejo.password@
    &&& nuevo.confirmar_password@ == viejo.confirmar_password@
    &&& nuevo.estado == viejo.estado
    &&& nuevo.solicitud == viejo.solicitud
    &&& nuevo.cursor_visible == viejo.cursor_visible
    &&& nuevo.cursor_iniciado == viejo.cursor_iniciado
}

/// Una tecla que edita el texto del campo.
pub open spec fn tecla_de_edicion(k: Tecla) -> bool {
    ||| k.codigo == Codigo::Backspace
    ||| k.codigo == Codigo::Delete
    ||| k.codigo == Codigo::Left
    ||| k.codigo == Codigo::Right
    ||| k.codigo == Codigo::Home
    ||| k.codigo == Codigo::End
    ||| (k.codigo is Char && !k.control && !k.alt)
}

/// Shift+G guarda desde cualquier campo.
pub open spec fn es_guardar(k: Tecla) -> bool {
    (k.codigo == Codigo::Char('g') || k.codigo == Codigo::Char('G')) && k.shift
}

/// Lo que hace una tecla mientras se edita el formulario.
pub open spec fn tecla_formulario(
    viejo: ConfiguracionInicialState,
    nuevo: ConfiguracionInicialState,
    k: Tecla,
    a: AccionConfiguracion,
) -> bool {
    if k.codigo == Codigo::Esc {
        a == AccionConfiguracion::Salir && igual(viejo, nuevo)
    } else {
        &&& a == AccionConfiguracion::Ninguna
        &&& if k.codigo == Codigo::Tab || k.codigo == Codigo::Down {
            cambio_de_campo(viejo, nuevo, siguiente(viejo.campo_activo))
        } else if k.codigo == Codigo::BackTab || k.codigo == Codigo::Up {
            cambio_de_campo(viejo, nuevo, anterior(viejo.campo_activo))
        } else if k.codigo == Codigo::Enter && viejo.campo_activo
            != CampoConfiguracion::ConfirmarPassword {
            cambio_de_campo(viejo, nuevo, siguiente(viejo.campo_activo))
        } else if k.codigo == Codigo::Enter || es_guardar(k) {
            intento(viejo, nuevo)
        } else if tecla_de_edicion(k) {
            edicion(viejo, nuevo, k)
        } else {
            igual(viejo, nuevo)
        }
    }
}

impl Default for ConfiguracionInicialState {
    /// Campos vacíos (con sus máximos), la cédula activa, editando.
    fn default() -> (s: ConfiguracionInicialState)
        ensures
            s.cedula@ == (VistaCampo {
                valor: Seq::empty(),
                cursor: 0,
                maximo: Some(LONGITUD_MAXIMA_CEDULA),
            }),
            s.nombre@ == (VistaCampo {
                valor: Seq::empty(),
                cursor: 0,
                maximo: Some(LONGITUD_MAXIMA_NOMBRE),
            }),
            s.password@ == (VistaCampo {
                valor: Seq::empty(),
                cursor: 0,
                maximo: Some(LONGITUD_MAXIMA_PASSWORD),
            }),
            s.confirmar_password@ == (VistaCampo {
                valor: Seq::empty(),
                cursor: 0,
                maximo: Some(LONGITUD_MAXIMA_PASSWORD),
            }),
            s.campo_activo == CampoConfiguracion::Cedula,
            s.estado == EstadoConfiguracion::Editando,
            s.solicitud is None,
            s.cursor_visible,
            !s.ayuda_expandida,
    {
        ConfiguracionInicialState {
            cedula: TextInput::vacio().with_max_chars(LONGITUD_MAXIMA_CEDULA),
            nombre: TextInput::vacio().with_max_chars(LONGITUD_MAXIMA_NOMBRE),
            password: TextInput::vacio().with_max_chars(LONGITUD_MAXIMA_PASSWORD),
            confirmar_password: TextInput::vacio().with_max_chars(LONGITUD_MAXIMA_PASSWORD),
            campo_activo: CampoConfiguracion::Cedula,
            estado: EstadoConfiguracion::Editando,
            solicitud: None,
            cursor_iniciado: reloj_ms(),
            cursor_visible: true,
            ayuda_expandida: false,
        }
    }
}

impl ConfiguracionInicialState {
    /// Aplica una tecla: F1 alterna la ayuda; mientras se crea la cuenta no
    /// se hace nada más; si no, navegar, editar, guardar o salir.
    pub fn handle_key(&mut self, k: Tecla) -> (a: AccionConfiguracion)
        ensures
            es_ayuda(k) ==> {
                &&& a == AccionConfiguracion::Ninguna
                &&& final(self).ayuda_expandida == !old(self).ayuda_expandida
                &&& igual(*old(self), *final(self))
            },
            !es_ayuda(k) ==> final(self).ayuda_expandida == old(self).ayuda_expandida,
            !es_ayuda(k) && old(self).estado == EstadoConfiguracion::Creando ==> {
                &&& a == AccionConfiguracion::Ninguna
                &&& igual(*old(self), *final(self))
            },
            !es_ayuda(k) && old(self).estado != EstadoConfiguracion::Creando ==> tecla_formulario(
                *old(self),
                *final(self),
                k,
                a,
            ),
    {
        if comando_estandar(k).is_some() {
            self.ayuda_expandida = !self.ayuda_expandida;
            return AccionConfiguracion::Ninguna;
        }
        if let EstadoConfiguracion::Creando = self.estado {
            return AccionConfiguracion::Ninguna;
        }
        match k.codigo {
            Codigo::Esc => {
                return AccionConfiguracion::Salir;
            },
            Codigo::Tab | Codigo::Down => self.siguiente_campo(),
            Codigo::BackTab | Codigo::Up => self.campo_anterior(),
            Codigo::Enter => {
                if self.campo_activo != CampoConfiguracion::ConfirmarPassword {
                    self.siguiente_campo();
                } else {
                    self.intentar_crear();
                }
            },
            Codigo::Char(c) => {
                if (c == 'g' || c == 'G') && k.shift {
                    self.intentar_crear();
                } else if !k.control && !k.alt {
                    self.editar(k);
                }
            },
            Codigo::Backspace | Codigo::Delete | Codigo::Left | Codigo::Right | Codigo::Home
            | Codigo::End => self.editar(k),
            _ => {},
        }
        AccionConfiguracion::Ninguna
    }

    /// El cursor se ve en los medios ciclos pares desde que se reinició
    /// (`ahora` en ms).
    pub fn tick(&mut self, ahora: u64)
        ensures
            final(self).cursor_visible == ((if ahora >= old(self).cursor_iniciado {
                ahora - old(self).cursor_iniciado
            } else {
                0
            }) / (DURACION_PARPADEO_MS as int) % 2 == 0),
            igual_salvo_cursor(*old(self), *final(self)),
            final(self).cursor_iniciado == old(self).cursor_iniciado,
    {
        let transcurrido = if ahora >= self.cursor_iniciado {
            ahora - self.cursor_iniciado
        } else {
            0
        };
        let ciclos = transcurrido / DURACION_PARPADEO_MS;
        self.cursor_visible = ciclos % 2 == 0;
    }

    /// Entrega la solicitud pendiente (una sola vez).
    pub fn tomar_solicitud(&mut self) -> (r: Option<SolicitudRoot>)
        ensures
            r == old(self).solicitud,
            final(self).solicitud is None,
            final(self).estado == old(self).estado,
            final(self).password@ == old(self).password@,
    {
        self.solicitud.take()
    }

    /// La creación falló: el mensaje queda como error y se puede corregir.
    pub fn completar_con_error(&mut self, mensaje: String)
        ensures
            final(self).estado == EstadoConfiguracion::Error(mensaje),
            final(self).solicitud == old(self).solicitud,
            final(self).campo_activo == old(self).campo_activo,
            valores(*final(self)) == valores(*old(self)),
    {
        self.estado = EstadoConfiguracion::Error(mensaje);
    }

    /// Borra las dos contraseñas y la solicitud pendiente.
    pub fn limpiar_secretos(&mut self)
        ensures
            final(self).password@.valor.len() == 0,
            final(self).confirmar_password@.valor.len() == 0,
            final(self).solicitud is None,
            final(self).cedula@ == old(self).cedula@,
            final(self).nombre@ == old(self).nombre@,
            final(self).estado == old(self).estado,
            final(self).campo_activo == old(self).campo_activo,
    {
        self.password.clear();
        self.confirmar_password.clear();
        self.solicitud = None;
    }

    pub fn campo_activo(&self) -> (r: CampoConfiguracion)
        ensures
            r == self.campo_activo,
    {
        self.campo_activo
    }

    pub fn estado(&self) -> (r: &EstadoConfiguracion)
        ensures
            *r == self.estado,
    {
        &self.estado
    }

    /// Un `•` por carácter de la contraseña.
    pub fn password_enmascarado(&self) -> (r: String)
        ensures
            r@ == mascara(self.password@.valor.len()),
    {
        enmascarar(self.password.value().len())
    }

    /// Un `•` por carácter de la confirmación.
    pub fn confirmacion_enmascarada(&self) -> (r: String)
        ensures
            r@ == mascara(self.confirmar_password@.valor.len()),
    {
        enmascarar(self.confirmar_password.value().len())
    }

    /// Representación para depurar: todos los campos, con las contraseñas
    /// (también la de la solicitud) ocultas.
    pub fn depuracion(&self) -> (r: String)
        ensures
            r@ == "ConfiguracionInicialState { cedula: "@ + self.cedula@.valor + ", nombre: "@
                + self.nombre@.valor + ", password: [OCULTA], confirmar_password: [OCULTA], campo_activo: "@
                + texto_de_campo(self.campo_activo) + ", estado: "@ + texto_de_estado(self.estado)
                + ", solicitud: "@ + texto_de_solicitud(self.solicitud) + ", cursor_iniciado: "@
                + decimal(self.cursor_iniciado as nat) + ", cursor_visible: "@ + texto_de_bool(
                self.cursor_visible,
            ) + ", ayuda_expandida: "@ + texto_de_bool(self.ayuda_expandida) + " }"@,
    {
        let v = caracteres("ConfiguracionInicialState { cedula: ");
        let mut v = unir(v.as_slice(), self.cedula.value());
        v = unir(v.as_slice(), caracteres(", nombre: ").as_slice());
        v = unir(v.as_slice(), self.nombre.value());
        v = unir(
            v.as_slice(),
            caracteres(", password: [OCULTA], confirmar_password: [OCULTA], campo_activo: ").as_slice(),
        );
        v = unir(v.as_slice(), caracteres(nombre_de_campo(self.campo_activo)).as_slice());
        v = unir(v.as_slice(), caracteres(", estado: ").as_slice());
        v = unir(v.as_slice(), escribir_estado(&self.estado).as_slice());
        v = unir(v.as_slice(), caracteres(", solicitud: ").as_slice());
        v = unir(v.as_slice(), escribir_solicitud(&self.solicitud).as_slice());
        v = unir(v.as_slice(), caracteres(", cursor_iniciado: ").as_slice());
        v = unir(v.as_slice(), escribir_decimal(self.cursor_iniciado).as_slice());
        v = unir(v.as_slice(), caracteres(", cursor_visible: ").as_slice());
        v = unir(v.as_slice(), caracteres(nombre_de_bool(self.cursor_visible)).as_slice());
        v = unir(v.as_slice(), caracteres(", ayuda_expandida: ").as_slice());
        v = unir(v.as_slice(), caracteres(nombre_de_bool(self.ayuda_expandida)).as_slice());
        v = unir(v.as_slice(), caracteres(" }").as_slice());
        texto_de(v.as_slice())
    }

    fn siguiente_campo(&mut self)
        ensures
            cambio_de_campo(*old(self), *final(self), siguiente(old(self).campo_activo)),
            final(self).ayuda_expandida == old(self).ayuda_expandida,
    {
        self.campo_activo = match self.campo_activo {
            CampoConfiguracion::Cedula => CampoConfiguracion::Nombre,
            CampoConfiguracion::Nombre => CampoConfiguracion::Password,
            CampoConfiguracion::Password => CampoConfiguracion::ConfirmarPassword,
            CampoConfiguracion::ConfirmarPassword => CampoConfiguracion::Cedula,
        };
        self.reiniciar_cursor();
    }

    fn campo_anterior(&mut self)
        ensures
            cambio_de_campo(*old(self), *final(self), anterior(old(self).campo_activo)),
            final(self).ayuda_expandida == old(self).ayuda_expandida,
    {
        self.campo_activo = match self.campo_activo {
            CampoConfiguracion::Cedula => CampoConfiguracion::ConfirmarPassword,
            CampoConfiguracion::Nombre => CampoConfiguracion::Cedula,
            CampoConfiguracion::Password => CampoConfiguracion::Nombre,
            CampoConfiguracion::ConfirmarPassword => CampoConfiguracion::Password,
        };
        self.reiniciar_cursor();
    }

    fn editar(&mut self, k: Tecla)
        ensures
            edicion(*old(self), *final(self), k),
            final(self).ayuda_expandida == old(self).ayuda_expandida,
    {
        if let EstadoConfiguracion::Error(_) = self.estado {
            self.estado = EstadoConfiguracion::Editando;
        }
        match self.campo_activo {
            CampoConfiguracion::Cedula => {
                self.cedula.handle_key(k);
            },
            CampoConfiguracion::Nombre => {
                self.nombre.handle_key(k);
            },
            CampoConfiguracion::Password => {
                self.password.handle_key(k);
            },
            CampoConfiguracion::ConfirmarPassword => {
                self.confirmar_password.handle_key(k);
            },
        }
        self.reiniciar_cursor();
    }

    fn intentar_crear(&mut self)
        ensures
            intento(*old(self), *final(self)),
            final(self).ayuda_expandida == old(self).ayuda_expandida,
    {
        let cedula = recortar(self.cedula.value());
        let nombre = recortar(self.nombre.value());
        let p = self.password.value();
        let q = self.confirmar_password.value();
        let error = if cedula.len() == 0 {
            Some((CampoConfiguracion::Cedula, "La cédula es obligatoria"))
        } else if nombre.len() == 0 {
            Some((CampoConfiguracion::Nombre, "El nombre es obligatorio"))
        } else if p.len() == 0 {
            Some((CampoConfiguracion::Password, "La contraseña es obligatoria"))
        } else if q.len() == 0 {
            Some((CampoConfiguracion::ConfirmarPassword, "Debe confirmar la contraseña"))
        } else if p.len() < LONGITUD_MINIMA_PASSWORD {
            Some((CampoConfiguracion::Password, "La contraseña debe tener al menos 8 caracteres"))
        } else if !iguales(p, q) {
            Some((CampoConfiguracion::ConfirmarPassword, "Las contraseñas no coinciden"))
        } else {
            None
        };
        match error {
            Some((campo, m)) => {
                self.campo_activo = campo;
                self.estado = EstadoConfiguracion::Error(texto_de(caracteres(m).as_slice()));
                self.reiniciar_cursor();
            },
            None => {
                let password = self.password.texto();
                self.solicitud = Some(
                    SolicitudRoot {
                        cedula: texto_de(cedula.as_slice()),
                        nombre: texto_de(nombre.as_slice()),
                        password,
                    },
                );
                self.estado = EstadoConfiguracion::Creando;
            },
        }
    }

    fn reiniciar_cursor(&mut self)
        ensures
            final(self).cursor_visible,
            igual_salvo_cursor(*old(self), *final(self)),
    {
        self.cursor_iniciado = reloj_ms();
        self.cursor_visible = true;
    }
}

/// Todo igual salvo el parpadeo del cursor.
pub open spec fn igual_salvo_cursor(
    viejo: ConfiguracionInicialState,
    nuevo: ConfiguracionInicialState,
) -> bool {
    &&& nuevo.campo_activo == viejo.campo_activo
    &&& nuevo.cedula == viejo.cedula
    &&& nuevo.nombre == viejo.nombre
    &&& nuevo.password == viejo.password
    &&& nuevo.confirmar_password == viejo.confirmar_password
    &&& nuevo.estado == viejo.estado
    &&& nuevo.solicitud == viejo.solicitud
    &&& nuevo.ayuda_expandida == viejo.ayuda_expandida
}

} // verus!
