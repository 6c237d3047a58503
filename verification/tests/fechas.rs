use brisas_tui::fechas::{dia_en_costa_rica, nombre_exportacion};

#[test]
fn el_dia_en_costa_rica_cambia_a_las_seis_utc() {
    assert_eq!(dia_en_costa_rica(0), 719_162);
    assert_eq!(dia_en_costa_rica(21_599), 719_162);
    assert_eq!(dia_en_costa_rica(21_600), 719_163);
    assert_eq!(dia_en_costa_rica(1_785_563_999), 739_828);
    assert_eq!(dia_en_costa_rica(1_785_564_000), 739_829);
    assert_eq!(dia_en_costa_rica(u64::MAX), 100_000_000);
}

#[test]
fn el_nombre_de_exportacion_lleva_fecha_y_hora_de_costa_rica() {
    assert_eq!(nombre_exportacion(1_785_564_000), "historial_2026-08-01_0000.xlsx");
    assert_eq!(nombre_exportacion(1_785_567_780), "historial_2026-08-01_0103.xlsx");
}
