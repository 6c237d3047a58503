//! Elección, tras iniciar sesión, entre la TUI clásica y el modo CLI.
use crate::ui::{Codigo, Tecla};
use vstd::prelude::*;

verus! {

#[derive(Clone, Copy, Debug, PartialEq, Eq, Structural)]
pub enum OpcionInterfaz {
    Tui,
    Cli,
}

#[derive(Clone, Copy, Debug, PartialEq, Eq, Structural)]
pub struct ElegirInterfazState {
    pub seleccion: OpcionInterfaz,
}

#[derive(Clone, Copy, Debug, PartialEq, Eq, Structural)]
pub enum AccionElegirInterfaz {
    Ninguna,
    Tui,
    Cli,
}

/// La otra opción.
pub open spec fn alternada(o: OpcionInterfaz) -> OpcionInterfaz {
    match o {
        OpcionInterfaz::Tui => OpcionInterfaz::Cli,
        OpcionInterfaz::Cli => OpcionInterfaz::Tui,
    }
}

impl OpcionInterfaz {
    pub fn alternar(self) -> (r: OpcionInterfaz)
        ensures
            r == alternada(self),
    {
        match self {
            OpcionInterfaz::Tui => OpcionInterfaz::Cli,
            OpcionInterfaz::Cli => OpcionInterfaz::Tui,
        }
    }
}

impl Default for ElegirInterfazState {
    fn default() -> (s: ElegirInterfazState)
        ensures
            s.seleccion == OpcionInterfaz::Tui,
    {
        ElegirInterfazState { seleccion: OpcionInterfaz::Tui }
    }
}

impl ElegirInterfazState {
    /// Vuelve a la TUI clásica como opción marcada.
    pub fn reiniciar(&mut self)
        ensures
            final(self).seleccion == OpcionInterfaz::Tui,
    {
        *self = ElegirInterfazState::default();
    }

    /// Flechas alternan; `1`/`2` eligen directo; Enter elige la marcada.
    pub fn handle_key(&mut self, k: Tecla) -> (a: AccionElegirInterfaz)
        ensures
            final(self).seleccion == (if k.codigo == Codigo::Up || k.codigo == Codigo::Down {
                alternada(old(self).seleccion)
            } else {
                old(self).seleccion
            }),
            a == (if k.codigo == Codigo::Char('1') {
                AccionElegirInterfaz::Tui
            } else if k.codigo == Codigo::Char('2') {
                AccionElegirInterfaz::Cli
            } else if k.codigo == Codigo::Enter {
                match old(self).seleccion {
                    OpcionInterfaz::Tui => AccionElegirInterfaz::Tui,
                    OpcionInterfaz::Cli => AccionElegirInterfaz::Cli,
                }
            } else {
                AccionElegirInterfaz::Ninguna
            }),
    {
        match k.codigo {
            Codigo::Up | Codigo::Down => {
                self.seleccion = self.seleccion.alternar();
                AccionElegirInterfaz::Ninguna
            },
            Codigo::Char('1') => AccionElegirInterfaz::Tui,
            Codigo::Char('2') => AccionElegirInterfaz::Cli,
            Codigo::Enter => match self.seleccion {
                OpcionInterfaz::Tui => AccionElegirInterfaz::Tui,
                OpcionInterfaz::Cli => AccionElegirInterfaz::Cli,
            },
            _ => AccionElegirInterfaz::Ninguna,
        }
    }

    /// El texto de cada opción, con `▸` delante de la marcada.
    pub fn etiqueta(&self, o: OpcionInterfaz) -> (r: String)
        ensures
            r@ == (if self.seleccion == o {
                "▸ "@
            } else {
                "  "@
            }) + (match o {
                OpcionInterfaz::Tui => "TUI clásica"@,
                OpcionInterfaz::Cli => "Modo CLI"@,
            }),
    {
        let prefijo = if self.seleccion == o {
            "▸ "
        } else {
            "  "
        };
        let nombre = match o {
            OpcionInterfaz::Tui => "TUI clásica",
            OpcionInterfaz::Cli => "Modo CLI",
        };
        let v = crate::texto::unir(
            crate::texto::caracteres(prefijo).as_slice(),
            crate::texto::caracteres(nombre).as_slice(),
        );
        crate::texto::texto_de(v.as_slice())
    }
}

} // verus!
