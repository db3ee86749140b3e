use cube_gen::{
    advance, check, plan, tube_diameters, Action, ConfigError, CubeSpec, Infill, Stage, MAX_ISO_VALUE, MAX_PERIOD,
    MIN_SEGMENTS,
};

fn no_infill() -> Infill {
    Infill { resolution: 0, period: 1000, iso_value: 0 }
}

fn cube(tube_diameter: u64, segments: u32) -> CubeSpec {
    CubeSpec { side: 20000, tube_diameter, segments, label_face: 2, infill: no_infill() }
}

#[test]
fn plan_bored_labelled_block() {
    let actions = plan(&cube(4000, 32)).unwrap();
    assert_eq!(
        actions,
        vec![
            Action::Block { side: 20000 },
            Action::Label { face_index: 2 },
            Action::Bore { diameter: 4000, height: 20000, segments: 32 },
            Action::Export,
        ]
    );
}

#[test]
fn plan_without_tube_skips_boring() {
    let actions = plan(&cube(0, 50)).unwrap();
    assert_eq!(actions, vec![Action::Block { side: 20000 }, Action::Label { face_index: 2 }, Action::Export]);
}

#[test]
fn plan_with_infill() {
    let mut spec = cube(1000, 8);
    spec.infill = Infill { resolution: 64, period: 2000, iso_value: 1000 };
    let actions = plan(&spec).unwrap();
    assert_eq!(
        actions,
        vec![
            Action::Block { side: 20000 },
            Action::Label { face_index: 2 },
            Action::Bore { diameter: 1000, height: 20000, segments: 8 },
            Action::Fill { infill: Infill { resolution: 64, period: 2000, iso_value: 1000 } },
            Action::Export,
        ]
    );
}

#[test]
fn two_segments_rejected_three_accepted() {
    assert_eq!(MIN_SEGMENTS, 3);
    assert_eq!(plan(&cube(4000, 2)), Err(ConfigError::TooFewSegments));
    assert_eq!(check(&cube(4000, 2)), Err(ConfigError::TooFewSegments));
    assert!(plan(&cube(4000, 3)).is_ok());
    assert_eq!(check(&cube(4000, 3)), Ok(()));
    assert_eq!(plan(&cube(0, 0)), Err(ConfigError::TooFewSegments));
}

#[test]
fn infill_ranges_checked() {
    let mut spec = cube(0, 3);
    spec.infill = Infill { resolution: 0, period: MAX_PERIOD + 1, iso_value: 0 };
    assert_eq!(plan(&spec), Err(ConfigError::PeriodOutOfRange));
    spec.infill = Infill { resolution: 0, period: MAX_PERIOD, iso_value: MAX_ISO_VALUE + 1 };
    assert_eq!(plan(&spec), Err(ConfigError::IsoValueOutOfRange));
    spec.infill = Infill { resolution: 0, period: MAX_PERIOD, iso_value: MAX_ISO_VALUE };
    assert!(plan(&spec).is_ok());
}

#[test]
fn label_comes_before_bore_and_does_not_depend_on_it() {
    let bored = plan(&cube(4000, 32)).unwrap();
    let plain = plan(&cube(0, 32)).unwrap();
    assert_eq!(bored[..2], plain[..2]);
    let label_at = bored.iter().position(|a| matches!(a, Action::Label { .. })).unwrap();
    let bore_at = bored.iter().position(|a| matches!(a, Action::Bore { .. })).unwrap();
    assert!(label_at < bore_at);
}

#[test]
fn stages_advance_in_order() {
    let spec = cube(4000, 32);
    let (s, a) = advance(Stage::Blank, &spec);
    assert_eq!((s, a), (Stage::Labeled, vec![Action::Block { side: 20000 }, Action::Label { face_index: 2 }]));
    let (s, a) = advance(s, &spec);
    assert_eq!((s, a), (Stage::Bored, vec![Action::Bore { diameter: 4000, height: 20000, segments: 32 }]));
    let (s, a) = advance(s, &spec);
    assert_eq!((s, a), (Stage::Infilled, vec![]));
    let (s, a) = advance(s, &spec);
    assert_eq!((s, a), (Stage::Done, vec![Action::Export]));
    let (s, a) = advance(s, &spec);
    assert_eq!((s, a), (Stage::Done, vec![]));
}

#[test]
fn three_instances_step_the_diameter() {
    assert_eq!(tube_diameters(1000, 500, 3), vec![1000, 1500, 2000]);
}

#[test]
fn tube_diameters_edges() {
    assert_eq!(tube_diameters(1000, 500, 0), Vec::<u64>::new());
    assert_eq!(tube_diameters(0, 0, 2), vec![0, 0]);
    assert_eq!(
        tube_diameters(u32::MAX, u32::MAX, 2),
        vec![u32::MAX as u64, 2 * u32::MAX as u64]
    );
}
