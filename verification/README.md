# brisas_tui

Lógica verificada de la interfaz de terminal del control de ingresos de
contratistas: el estado de cada pantalla, lo que cada tecla hace en cada
modo, el lenguaje de búsqueda `clave:valor` y la navegación entre pantallas.
Cada función pública lleva su contrato (`requires`/`ensures`) y Verus lo
prueba; las leyes que relacionan varias funciones son funciones `proof`
públicas con nombre `ley_*`.

- `src/`: la biblioteca verificada, un módulo por pantalla (`activos`,
  `historial`, `contratistas`, `empresas`, `gafetes`, `configuracion`,
  `login`, `menu_principal`, …), más las piezas comunes (`ui`, `texto`,
  `consulta`, `fechas`, `modelos`, `navegacion`).
- `tests/`: pruebas de cada pantalla sobre valores concretos.
- `app/`: lo que no cabe en la biblioteca: traducir teclas de crossterm,
  proponer la ruta de exportación leyendo el entorno y el disco, y escribir
  tamaños con decimales.

Las decisiones de la aplicación que rodean a las pantallas (reconocer los
comandos globales, salir, cerrar sesión, cambiar de tema, recorrer
pestañas, abrir la salida rápida, qué sigue a la respuesta de cada
pantalla y revisar el respaldo automático) están en `navegacion`; quien
corre el bucle de la terminal hace lo que ellas deciden.

Las pantallas con búsqueda diferida tienen `handle_key_en(tecla, ahora)`,
que recibe el instante de la tecla: así el bucle puede darles el reloj que
use para `tick` y la espera queda probada (`ley_busqueda_diferida`).
`handle_key` toma el instante del reloj del sistema.

Las fechas se leen y escriben con chrono detrás de funciones de confianza
(`#[verifier::external_body]`) cuyo contrato nombra lo que chrono devuelve.
