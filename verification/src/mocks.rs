//! Datos de demostración deterministas: ingresos activos, contratistas y
//! movimientos del historial.
use crate::texto::{caracteres, decimal, decimal_dos, escribir_decimal, escribir_decimal_dos, texto_de, unir};
use vstd::prelude::*;

verus! {

#[derive(Clone, Debug, PartialEq, Eq)]
pub struct IngresoActivoMock {
    pub id: u64,
    pub cedula: String,
    pub nombre: String,
    pub empresa: String,
    pub tipo: String,
    pub hora_ingreso: String,
    pub gafete: Option<u32>,
    pub medio: String,
    pub usuario_ingreso: String,
    pub advertencia: Option<String>,
}

/// Gafete de cada una de las veinte personas de la primera ronda.
pub open spec fn gafetes_base() -> Seq<Option<u32>> {
    seq![
        Some(5u32), None, Some(8u32), Some(12u32), Some(17u32), None, None, Some(21u32),
        Some(25u32), Some(29u32), None, Some(31u32), Some(34u32), Some(37u32), None, None,
        Some(41u32), Some(44u32), Some(47u32), None,
    ]
}

/// Los operadores que registran los ingresos de demostración.
pub open spec fn operadores() -> Seq<Seq<char>> {
    seq![
        "Quintana"@, "Ana Solís"@, "Miguel Vargas"@, "Laura Chaves"@, "Diego Mora"@,
        "Sofía Jiménez"@, "Carlos Brenes"@, "Daniela Rojas"@,
    ]
}

/// Gafete del ingreso `i`: el de la persona, corrido 50 por ronda.
pub open spec fn gafete_de(i: int) -> Option<u32> {
    match gafetes_base()[i % 20] {
        Some(g) => Some((g + 50 * (i / 20)) as u32),
        None => None,
    }
}

/// El ingreso `i` tiene su número, su gafete y su operador.
pub open spec fn ingreso_en(m: IngresoActivoMock, i: int) -> bool {
    &&& m.id == i + 1
    &&& m.gafete == gafete_de(i)
    &&& m.usuario_ingreso@ == operadores()[(i % 20 + i / 20) % 8]
}

/// Ochenta ingresos: las mismas veinte personas en cuatro rondas, con
/// gafetes corridos 50 por ronda (ninguno se repite) y operadores rotando.
pub fn ingresos_activos() -> (r: Vec<IngresoActivoMock>)
    ensures
        r@.len() == 80,
        forall|i: int| 0 <= i < 80 ==> ingreso_en(#[trigger] r@[i], i),
        forall|i: int, j: int|
            0 <= i < j < 80 && (#[trigger] r@[i]).gafete is Some ==> r@[i].gafete != (#[trigger] r@[j]).gafete,
{
    let cedulas: [&str; 20] = [
        "155824395105", "204560789", "310220488", "118822334", "209944551", "301177882",
        "107770665", "208880774", "309990443", "111223344", "222334455", "333445566",
        "444556677", "555667788", "666778899", "777889900", "888990011", "999001122",
        "101112233", "121314151",
    ];
    let nombres: [&str; 20] = [
        "Juan Pérez", "María Mora", "Carlos Rojas", "José Jiménez", "Andrea Vargas",
        "Roberto Sánchez", "Luis Fernando Rodríguez", "Daniela Castro", "Marco Antonio Hernández",
        "Sofía Ramírez", "Diego López", "Fernanda Gómez", "Alejandro Méndez", "Natalia Solano",
        "Esteban Quesada", "Ricardo Araya", "Gabriela Chaves", "Mauricio Brenes",
        "Laura Villalobos", "Andrés Salazar",
    ];
    let empresas: [&str; 20] = [
        "Constructora Alfa", "Brisas", "Servicios CR", "Ingeniería del Pacífico",
        "Mantenimiento Industrial Vega", "Brisas", "Transportes del Valle",
        "Soluciones Técnicas CR", "Servicios Electromecánicos Nacionales", "Proveedores Central",
        "Brisas", "Construcciones del Este", "Seguridad Industrial del Caribe",
        "Distribuidora Nacional", "Brisas", "Logística Costarricense",
        "Automatización y Control Industrial", "Proyectos Integrales", "Suministros Técnicos",
        "Brisas",
    ];
    let tipos: [&str; 20] = [
        "PRAIND", "IN HOUSE", "POR CORREO", "PRAIND", "PRAIND", "SWAT", "PRAIND / RUTA", "PRAIND",
        "PRAIND", "POR CORREO", "IN HOUSE", "PRAIND", "PRAIND", "POR CORREO", "SWAT",
        "PRAIND / RUTA", "PRAIND", "PRAIND", "POR CORREO", "IN HOUSE",
    ];
    let horas: [&str; 20] = [
        "06:42", "06:55", "07:03", "07:15", "07:28", "07:36", "07:41", "07:52", "08:01", "08:07",
        "08:16", "08:24", "08:31", "08:47", "09:02", "09:18", "09:27", "09:39", "09:51", "10:04",
    ];
    let gafetes: [Option<u32>; 20] = [
        Some(5), None, Some(8), Some(12), Some(17), None, None, Some(21), Some(25), Some(29), None,
        Some(31), Some(34), Some(37), None, None, Some(41), Some(44), Some(47), None,
    ];
    let medios: [&str; 20] = [
        "Caminando", "Vehículo", "Caminando", "Vehículo", "Caminando", "Vehículo", "Vehículo",
        "Caminando", "Vehículo", "Caminando", "Caminando", "Vehículo", "Caminando", "Vehículo",
        "Caminando", "Vehículo", "Caminando", "Vehículo", "Caminando", "Vehículo",
    ];
    let ops: [&str; 8] = [
        "Quintana", "Ana Solís", "Miguel Vargas", "Laura Chaves", "Diego Mora", "Sofía Jiménez",
        "Carlos Brenes", "Daniela Rojas",
    ];
    assert(gafetes@ =~= gafetes_base());
    proof {
        reveal_strlit("Quintana");
        reveal_strlit("Ana Solís");
        reveal_strlit("Miguel Vargas");
        reveal_strlit("Laura Chaves");
        reveal_strlit("Diego Mora");
        reveal_strlit("Sofía Jiménez");
        reveal_strlit("Carlos Brenes");
        reveal_strlit("Daniela Rojas");
    }
    assert(ops@.map_values(|s: &str| s@) =~= operadores());
    let mut r: Vec<IngresoActivoMock> = Vec::new();
    let mut n: usize = 0;
    while n < 80
        invariant
            n <= 80,
            r@.len() == n,
            gafetes@ == gafetes_base(),
            ops@.map_values(|s: &str| s@) == operadores(),
            forall|i: int| 0 <= i < n ==> ingreso_en(#[trigger] r@[i], i),
        decreases 80 - n,
    {
        let ronda = n / 20;
        let indice = n % 20;
        let cedula = if ronda == 0 {
            texto_de(caracteres(cedulas[indice]).as_slice())
        } else {
            texto_de(
                unir(
                    caracteres(cedulas[indice]).as_slice(),
                    escribir_decimal(ronda as u64).as_slice(),
                ).as_slice(),
            )
        };
        let gafete = match gafetes[indice] {
            Some(g) => Some(g + 50 * (ronda as u32)),
            None => None,
        };
        let advertencia = if (indice == 3 || indice == 8 || indice == 16) && (ronda == 0 || ronda
            == 2) {
            Some(texto_de(caracteres("PRAIND próximo a vencer").as_slice()))
        } else {
            None
        };
        let op = ops[(indice + ronda) % 8];
        proof {
            assert(ops@.map_values(|s: &str| s@)[((indice + ronda) % 8) as int] == op@);
        }
        r.push(
            IngresoActivoMock {
                id: n as u64 + 1,
                cedula,
                nombre: texto_de(caracteres(nombres[indice]).as_slice()),
                empresa: texto_de(caracteres(empresas[indice]).as_slice()),
                tipo: texto_de(caracteres(tipos[indice]).as_slice()),
                hora_ingreso: texto_de(caracteres(horas[indice]).as_slice()),
                gafete,
                medio: texto_de(caracteres(medios[indice]).as_slice()),
                usuario_ingreso: texto_de(caracteres(op).as_slice()),
                advertencia,
            },
        );
        assert(ingreso_en(r@[n as int], n as int));
        n += 1;
    }
    proof {
        assert forall|i: int, j: int|
            0 <= i < j < 80 && (#[trigger] r@[i]).gafete is Some implies r@[i].gafete != (
            #[trigger] r@[j]).gafete by {
            assert(ingreso_en(r@[i], i) && ingreso_en(r@[j], j));
            lema_gafetes_distintos(i, j);
        }
    }
    r
}

/// Dos ingresos distintos nunca comparten gafete.
pub proof fn lema_gafetes_distintos(i: int, j: int)
    requires
        0 <= i < j < 80,
        gafete_de(i) is Some,
    ensures
        gafete_de(i) != gafete_de(j),
{
    let (a, b) = (i % 20, j % 20);
    let (ri, rj) = (i / 20, j / 20);
    assert(0 <= a < 20 && 0 <= b < 20 && 0 <= ri < 4 && 0 <= rj < 4);
    assert(i == ri * 20 + a && j == rj * 20 + b);
    if let Some(gb) = gafetes_base()[b] {
        let ga = gafetes_base()[a]->0;
        assert(1 <= ga <= 47 && 1 <= gb <= 47) by {
            assert(gafetes_base()[a] == gafetes_base()[a]);
        }
        if ri == rj {
            assert(a != b);
            assert(ga != gb);
        } else {
            assert(ga + 50 * ri != gb + 50 * rj);
        }
    }
}

/// Tipo de ingreso de los contratistas de demostración.
#[derive(Clone, Copy, Debug, PartialEq, Eq, Structural)]
pub enum TipoIngresoMock {
    Praind,
    InHouse,
    PorCorreo,
    Swat,
}

pub open spec fn tipos_mock() -> Seq<TipoIngresoMock> {
    seq![TipoIngresoMock::Praind, TipoIngresoMock::InHouse, TipoIngresoMock::PorCorreo, TipoIngresoMock::Swat]
}

/// PRAIND lo exigen el personal de ruta y los tipos PRAIND e IN HOUSE.
pub open spec fn exige_praind(t: TipoIngresoMock, personal_ruta: bool) -> bool {
    personal_ruta || t == TipoIngresoMock::Praind || t == TipoIngresoMock::InHouse
}

impl TipoIngresoMock {
    pub fn todos() -> (r: [TipoIngresoMock; 4])
        ensures
            r@ == tipos_mock(),
    {
        let r = [TipoIngresoMock::Praind, TipoIngresoMock::InHouse, TipoIngresoMock::PorCorreo, TipoIngresoMock::Swat];
        assert(r@ =~= tipos_mock());
        r
    }

    pub fn texto(self) -> (r: &'static str)
        ensures
            r@ == (match self {
                TipoIngresoMock::Praind => "PRAIND"@,
                TipoIngresoMock::InHouse => "IN HOUSE"@,
                TipoIngresoMock::PorCorreo => "POR CORREO"@,
                TipoIngresoMock::Swat => "SWAT"@,
            }),
    {
        match self {
            TipoIngresoMock::Praind => "PRAIND",
            TipoIngresoMock::InHouse => "IN HOUSE",
            TipoIngresoMock::PorCorreo => "POR CORREO",
            TipoIngresoMock::Swat => "SWAT",
        }
    }

    pub fn requiere_praind(self, personal_ruta: bool) -> (r: bool)
        ensures
            r == exige_praind(self, personal_ruta),
    {
        personal_ruta || match self {
            TipoIngresoMock::Praind | TipoIngresoMock::InHouse => true,
            _ => false,
        }
    }
}

#[derive(Clone, Debug, PartialEq, Eq)]
pub struct ContratistaMock {
    pub id: u64,
    pub cedula: String,
    pub nombre: String,
    pub empresa: String,
    pub tipo_ingreso: TipoIngresoMock,
    pub fecha_praind: Option<String>,
    pub personal_ruta: bool,
    pub tiene_acceso: bool,
}

/// Los nombres de pila que rotan entre los contratistas.
pub open spec fn nombres_contratistas() -> Seq<Seq<char>> {
    seq![
        "Juan Pérez"@, "María Mora"@, "Carlos Rojas"@, "Ana Vargas"@, "José Jiménez"@,
        "Andrea Solano"@, "Roberto Sánchez"@, "Daniela Castro"@, "Luis Rodríguez"@,
        "Sofía Ramírez"@,
    ]
}

/// Las empresas que rotan entre los contratistas.
pub open spec fn empresas_contratistas() -> Seq<Seq<char>> {
    seq![
        "Brisas"@, "Constructora Alfa"@, "Servicios CR"@, "Ingeniería del Pacífico"@,
        "Mantenimiento Industrial Vega"@, "Transportes del Valle"@, "Soluciones Técnicas CR"@,
        "Logística Costarricense"@,
    ]
}

/// Las fechas PRAIND que rotan entre los contratistas.
pub open spec fn fechas_praind() -> Seq<Seq<char>> {
    seq!["01/08/2026"@, "12/08/2026"@, "20/08/2026"@, "15/09/2026"@, "31/12/2026"@]
}

/// El contratista `i`: número, nombre, empresa, tipo, ruta, acceso, fecha
/// PRAIND donde se exige, y cédula.
pub open spec fn contratista_en(c: ContratistaMock, i: int) -> bool {
    &&& c.id == i + 1
    &&& c.nombre@ == nombres_contratistas()[i % 10] + " "@ + decimal((i + 1) as nat)
    &&& c.empresa@ == empresas_contratistas()[i % 8]
    &&& (c.fecha_praind matches Some(f) ==> f@ == fechas_praind()[i % 5])
    &&& c.tipo_ingreso == tipos_mock()[i % 4]
    &&& c.personal_ruta == (i % 9 == 6)
    &&& c.tiene_acceso == (i % 7 != 3)
    &&& (c.fecha_praind is Some <==> exige_praind(c.tipo_ingreso, c.personal_ruta))
    &&& c.cedula@ == decimal((1_558_243_951 + i * 91_337) as nat) + decimal_dos(i)
}

/// Cuarenta contratistas: los tipos rotan, uno de cada nueve es personal de
/// ruta, uno de cada siete no tiene acceso, y la fecha PRAIND está sólo
/// donde se exige.
pub fn contratistas() -> (r: Vec<ContratistaMock>)
    ensures
        r@.len() == 40,
        forall|i: int| 0 <= i < 40 ==> contratista_en(#[trigger] r@[i], i),
        exists|i: int| 0 <= i < 40 && (#[trigger] r@[i]).personal_ruta,
        exists|i: int| 0 <= i < 40 && !(#[trigger] r@[i]).tiene_acceso,
        forall|k: int|
            0 <= k < 4 ==> exists|i: int|
                0 <= i < 40 && (#[trigger] r@[i]).tipo_ingreso == #[trigger] tipos_mock()[k],
{
    let nombres: [&str; 10] = [
        "Juan Pérez", "María Mora", "Carlos Rojas", "Ana Vargas", "José Jiménez", "Andrea Solano",
        "Roberto Sánchez", "Daniela Castro", "Luis Rodríguez", "Sofía Ramírez",
    ];
    let fechas: [&str; 5] = ["01/08/2026", "12/08/2026", "20/08/2026", "15/09/2026", "31/12/2026"];
    let empresas: [&str; 8] = [
        "Brisas", "Constructora Alfa", "Servicios CR", "Ingeniería del Pacífico",
        "Mantenimiento Industrial Vega", "Transportes del Valle", "Soluciones Técnicas CR",
        "Logística Costarricense",
    ];
    let todos = TipoIngresoMock::todos();
    assert(nombres@.map_values(|s: &str| s@) =~= nombres_contratistas());
    assert(empresas@.map_values(|s: &str| s@) =~= empresas_contratistas());
    assert(fechas@.map_values(|s: &str| s@) =~= fechas_praind());
    let mut r: Vec<ContratistaMock> = Vec::new();
    let mut indice: usize = 0;
    while indice < 40
        invariant
            indice <= 40,
            r@.len() == indice,
            todos@ == tipos_mock(),
            nombres@.map_values(|s: &str| s@) == nombres_contratistas(),
            empresas@.map_values(|s: &str| s@) == empresas_contratistas(),
            fechas@.map_values(|s: &str| s@) == fechas_praind(),
            forall|i: int| 0 <= i < indice ==> contratista_en(#[trigger] r@[i], i),
        decreases 40 - indice,
    {
        let tipo = todos[indice % 4];
        let personal_ruta = indice % 9 == 6;
        let requiere = tipo.requiere_praind(personal_ruta);
        assert((indice as u64) * 91_337 < 4_000_000) by (nonlinear_arith)
            requires
                indice < 40,
        ;
        let base: u64 = 1_558_243_951 + (indice as u64) * 91_337;
        let cedula = texto_de(
            unir(escribir_decimal(base).as_slice(), escribir_decimal_dos(indice as i64).as_slice()).as_slice(),
        );
        let nombre = texto_de(
            unir(
                unir(caracteres(nombres[indice % 10]).as_slice(), caracteres(" ").as_slice()).as_slice(),
                escribir_decimal((indice + 1) as u64).as_slice(),
            ).as_slice(),
        );
        proof {
            assert(nombres@.map_values(|s: &str| s@)[(indice % 10) as int] == nombres@[(indice % 10) as int]@);
            assert(empresas@.map_values(|s: &str| s@)[(indice % 8) as int] == empresas@[(indice % 8) as int]@);
            assert(fechas@.map_values(|s: &str| s@)[(indice % 5) as int] == fechas@[(indice % 5) as int]@);
        }
        r.push(
            ContratistaMock {
                id: indice as u64 + 1,
                cedula,
                nombre,
                empresa: texto_de(caracteres(empresas[indice % 8]).as_slice()),
                tipo_ingreso: tipo,
                fecha_praind: if requiere {
                    Some(texto_de(caracteres(fechas[indice % 5]).as_slice()))
                } else {
                    None
                },
                personal_ruta,
                tiene_acceso: indice % 7 != 3,
            },
        );
        assert(contratista_en(r@[indice as int], indice as int));
        indice += 1;
    }
    proof {
        assert(contratista_en(r@[6], 6) && r@[6].personal_ruta);
        assert(contratista_en(r@[3], 3) && !r@[3].tiene_acceso);
        assert forall|k: int| 0 <= k < 4 implies exists|i: int|
            0 <= i < 40 && (#[trigger] r@[i]).tipo_ingreso == #[trigger] tipos_mock()[k] by {
            assert(contratista_en(r@[k], k));
            assert(k % 4 == k);
        }
    }
    r
}

#[derive(Clone, Debug, PartialEq, Eq)]
pub struct MovimientoHistorialMock {
    pub id: u64,
    /// Día (`num_days_from_ce`).
    pub fecha: i32,
    pub cedula: String,
    pub nombre: String,
    pub empresa: String,
    pub tipo: String,
    pub entrada: String,
    pub salida: Option<String>,
    pub gafete: Option<u32>,
    pub medio: String,
    pub usuario_ingreso: String,
    pub usuario_salida: Option<String>,
}

/// Día del 1 de agosto de 2026 (`num_days_from_ce`).
pub const DIA_INICIO_HISTORIAL: i32 = 739_829;

/// Uno de cada once movimientos sigue activo (sin salida).
pub open spec fn activo(i: int) -> bool {
    i % 11 == 0
}

/// El movimiento `i`: número, día, salida sólo si no está activo, y hora
/// de entrada.
pub open spec fn movimiento_en(m: MovimientoHistorialMock, i: int) -> bool {
    &&& m.id == i + 1
    &&& m.fecha == DIA_INICIO_HISTORIAL + i / 12
    &&& (m.salida is None <==> activo(i))
    &&& (m.usuario_salida is None <==> activo(i))
    &&& m.entrada@ == decimal_dos(6 + i % 5) + ":"@ + decimal_dos((i * 7) % 60)
}

/// Ciento ochenta movimientos, doce por día desde el 1 de agosto de 2026;
/// los activos no tienen salida ni quién la registró.
pub fn movimientos_historial() -> (r: Vec<MovimientoHistorialMock>)
    ensures
        r@.len() == 180,
        forall|i: int| 0 <= i < 180 ==> movimiento_en(#[trigger] r@[i], i),
{
    let cedulas: [&str; 12] = [
        "155824395105", "204560789", "310220488", "118822334", "209944551", "301177882",
        "107770665", "208880774", "309990443", "111223344", "222334455", "333445566",
    ];
    let nombres: [&str; 12] = [
        "Juan Pérez", "María Mora", "Carlos Rojas", "José Jiménez", "Andrea Vargas",
        "Roberto Sánchez", "Luis Fernando Rodríguez", "Daniela Castro", "Marco Antonio Hernández",
        "Sofía Ramírez", "Diego López", "Fernanda Gómez",
    ];
    let empresas: [&str; 12] = [
        "Constructora Alfa", "Brisas", "Servicios CR", "Ingeniería del Pacífico",
        "Mantenimiento Industrial Vega", "Brisas", "Transportes del Valle",
        "Soluciones Técnicas CR", "Servicios Electromecánicos Nacionales", "Proveedores Central",
        "Brisas", "Construcciones del Este",
    ];
    let tipos: [&str; 6] = ["PRAIND", "IN HOUSE", "POR CORREO", "PRAIND", "SWAT", "PRAIND / RUTA"];
    let gafete_tipo: [bool; 6] = [true, false, true, true, false, false];
    let ops: [&str; 5] = ["Quintana", "Ana Solís", "Miguel Vargas", "Laura Chaves", "Diego Mora"];
    let mut r: Vec<MovimientoHistorialMock> = Vec::new();
    let mut indice: usize = 0;
    while indice < 180
        invariant
            indice <= 180,
            r@.len() == indice,
            forall|i: int| 0 <= i < indice ==> movimiento_en(#[trigger] r@[i], i),
        decreases 180 - indice,
    {
        let p = indice % 12;
        let hora: i64 = 6 + (indice % 5) as i64;
        let minuto: i64 = ((indice * 7) % 60) as i64;
        let es_activo = indice % 11 == 0;
        let entrada = texto_de(
            unir(
                unir(escribir_decimal_dos(hora).as_slice(), caracteres(":").as_slice()).as_slice(),
                escribir_decimal_dos(minuto).as_slice(),
            ).as_slice(),
        );
        let salida = if es_activo {
            None
        } else {
            Some(
                texto_de(
                    unir(
                        unir(escribir_decimal_dos(hora + 8).as_slice(), caracteres(":").as_slice()).as_slice(),
                        escribir_decimal_dos(minuto).as_slice(),
                    ).as_slice(),
                ),
            )
        };
        let usuario_salida = if es_activo {
            None
        } else {
            Some(texto_de(caracteres(ops[(indice + 2) % 5]).as_slice()))
        };
        r.push(
            MovimientoHistorialMock {
                id: indice as u64 + 1,
                fecha: DIA_INICIO_HISTORIAL + (indice / 12) as i32,
                cedula: texto_de(
                    unir(caracteres(cedulas[p]).as_slice(), escribir_decimal((indice / 12) as u64).as_slice()).as_slice(),
                ),
                nombre: texto_de(caracteres(nombres[p]).as_slice()),
                empresa: texto_de(caracteres(empresas[p]).as_slice()),
                tipo: texto_de(caracteres(tipos[indice % 6]).as_slice()),
                entrada,
                salida,
                gafete: if gafete_tipo[indice % 6] {
                    Some((indice % 97 + 1) as u32)
                } else {
                    None
                },
                medio: texto_de(
                    caracteres(
                        if indice % 2 == 0 {
                            "Caminando"
                        } else {
                            "Vehículo"
                        },
                    ).as_slice(),
                ),
                usuario_ingreso: texto_de(caracteres(ops[indice % 5]).as_slice()),
                usuario_salida,
            },
        );
        assert(movimiento_en(r@[indice as int], indice as int));
        indice += 1;
    }
    r
}

} // verus!
