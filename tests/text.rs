use cube_gen::{decimal_text, export_name, label_text, tube_diameters, CubeSpec, Infill};

fn cube(tube_diameter: u64, resolution: u64) -> CubeSpec {
    CubeSpec {
        side: 20000,
        tube_diameter,
        segments: 32,
        label_face: 2,
        infill: Infill { resolution, period: 1000, iso_value: 0 },
    }
}

#[test]
fn decimal_text_values() {
    assert_eq!(decimal_text(0), "0");
    assert_eq!(decimal_text(7), "7");
    assert_eq!(decimal_text(1234567890), "1234567890");
    assert_eq!(decimal_text(u64::MAX), "18446744073709551615");
}

#[test]
fn label_text_right_aligned() {
    assert_eq!(label_text(4000), "4000");
    assert_eq!(label_text(500), "500");
    assert_eq!(label_text(50), " 50");
    assert_eq!(label_text(4), "  4");
    assert_eq!(label_text(0), "  0");
}

#[test]
fn export_name_single_block() {
    assert_eq!(export_name(&cube(4000, 0), 0, 1), "cube.len_side-20.000_tube_diameter-4.000_segments-32");
    assert_eq!(export_name(&cube(0, 0), 0, 1), "cube.len_side-20.000");
}

#[test]
fn export_name_in_a_run_with_infill() {
    assert_eq!(
        export_name(&cube(1500, 10), 1, 3),
        "cube-1.len_side-20.000_tube_diameter-1.500_segments-32_resolution-10-period-1.000-iso_value-0.000"
    );
}

#[test]
fn three_instances_named_and_labelled() {
    let names: Vec<String> = tube_diameters(1000, 500, 3)
        .iter()
        .enumerate()
        .map(|(i, d)| export_name(&cube(*d, 0), i as u32, 3))
        .collect();
    assert_eq!(
        names,
        vec![
            "cube-0.len_side-20.000_tube_diameter-1.000_segments-32",
            "cube-1.len_side-20.000_tube_diameter-1.500_segments-32",
            "cube-2.len_side-20.000_tube_diameter-2.000_segments-32",
        ]
    );
    let labels: Vec<String> = tube_diameters(1000, 500, 3).iter().map(|d| label_text(*d)).collect();
    assert_eq!(labels, vec!["1000", "1500", "2000"]);
}

#[test]
fn export_name_small_lengths() {
    let spec = CubeSpec {
        side: 5,
        tube_diameter: 70,
        segments: 3,
        label_face: 0,
        infill: Infill { resolution: 1, period: 5, iso_value: 999 },
    };
    assert_eq!(
        export_name(&spec, 0, 1),
        "cube.len_side-0.005_tube_diameter-0.070_segments-3_resolution-1-period-0.005-iso_value-0.999"
    );
}
