use piquant_gui::{
    check_path, check_ready_to_execute, set_valid_path_colors, set_validity, ColorHint, Tasks,
    SLOT_COUNT,
};

const MISSING: &str = "/nonexistent-piquant-dir/spectrum.msa";

fn texts(values: [&str; 9]) -> Vec<String> {
    values.iter().map(|s| s.to_string()).collect()
}

#[test]
fn check_path_existing_and_missing() {
    assert!(check_path(String::from("/")));
    assert!(!check_path(String::from(MISSING)));
    assert!(!check_path(String::new()));
}

#[test]
fn set_validity_follows_existence() {
    let text = texts(["a", "", "c", "d", "e", "", "", "FE_K 1", ""]);
    let exists = vec![true, false, false, true, false, false, true, false, false];
    let mut colors = vec![ColorHint::Success; SLOT_COUNT];
    colors[0] = ColorHint::Neutral;
    let mut valid = vec![false; SLOT_COUNT];
    set_validity(&text, &exists, &mut colors, &mut valid);
    assert_eq!(valid, vec![true, false, false, true, false, true, true, false, false]);
    assert_eq!(
        colors,
        vec![
            ColorHint::Success,
            ColorHint::Neutral,
            ColorHint::Neutral,
            ColorHint::Success,
            ColorHint::Neutral,
            ColorHint::Success,
            ColorHint::Success,
            ColorHint::Neutral,
            ColorHint::Neutral,
        ]
    );
}

#[test]
fn empty_optional_slot_keeps_its_hint() {
    let text = texts(["", "", "", "", "", "", "", "", ""]);
    let exists = vec![false; SLOT_COUNT];
    let mut colors = vec![ColorHint::Neutral; SLOT_COUNT];
    colors[5] = ColorHint::Success;
    let mut valid = vec![true; SLOT_COUNT];
    set_validity(&text, &exists, &mut colors, &mut valid);
    assert_eq!(valid, vec![false, false, false, false, false, true, true, false, false]);
    assert_eq!(colors[5], ColorHint::Success);
    assert_eq!(colors[6], ColorHint::Neutral);
}

#[test]
fn nonempty_optional_slot_needs_existing_path() {
    let text = texts(["", "", "", "", "", MISSING, "/", "", ""]);
    let mut colors = vec![ColorHint::Neutral; SLOT_COUNT];
    let mut valid = vec![true; SLOT_COUNT];
    set_valid_path_colors(text, &mut colors, &mut valid);
    assert!(!valid[5]);
    assert!(valid[6]);
    assert_eq!(colors[5], ColorHint::Neutral);
    assert_eq!(colors[6], ColorHint::Success);
}

#[test]
fn set_valid_path_colors_checks_filesystem() {
    let text = texts(["/", "", MISSING, "/", "", "", "", "FE_K 1", "-v"]);
    let mut colors = vec![ColorHint::Neutral; SLOT_COUNT];
    let mut valid = vec![false; SLOT_COUNT];
    set_valid_path_colors(text, &mut colors, &mut valid);
    assert_eq!(valid, vec![true, false, false, true, false, true, true, false, false]);
    assert_eq!(colors[0], ColorHint::Success);
    assert_eq!(colors[2], ColorHint::Neutral);
}

#[test]
fn ready_iff_required_slots_valid() {
    let mut valid = vec![false; SLOT_COUNT];
    assert!(!check_ready_to_execute(&valid, &Tasks::Calibrate));
    for i in [0, 1, 2, 5] {
        valid[i] = true;
    }
    assert!(check_ready_to_execute(&valid, &Tasks::Calibrate));
    valid[1] = false;
    assert!(!check_ready_to_execute(&valid, &Tasks::Calibrate));
    assert!(check_ready_to_execute(
        &vec![false, false, false, true, false, true, false, false, false],
        &Tasks::EnergyCalibration
    ));
}

#[test]
fn no_task_is_never_ready() {
    assert!(!check_ready_to_execute(&vec![true; SLOT_COUNT], &Tasks::NoTask));
    assert!(!check_ready_to_execute(&vec![false; SLOT_COUNT], &Tasks::NoTask));
}

#[test]
fn plot_spectrum_missing_spectrum_is_not_ready() {
    let text = texts(["/", "/", "/", MISSING, "/", "", "", "FE_K 1", ""]);
    let mut colors = vec![ColorHint::Neutral; SLOT_COUNT];
    let mut valid = vec![false; SLOT_COUNT];
    set_valid_path_colors(text, &mut colors, &mut valid);
    assert!(!valid[3]);
    assert!(!check_ready_to_execute(&valid, &Tasks::PlotSpectrum));
}

#[test]
fn energy_calibration_with_empty_plot_file() {
    let text = texts(["", "", "", "/", "", "", "", "FE_K 1", ""]);
    let mut colors = vec![ColorHint::Neutral; SLOT_COUNT];
    let mut valid = vec![false; SLOT_COUNT];
    set_valid_path_colors(text, &mut colors, &mut valid);
    assert!(valid[5]);
    assert!(check_ready_to_execute(&valid, &Tasks::EnergyCalibration));

    let text = texts(["", "", "", MISSING, "", "", "", "FE_K 1", ""]);
    set_valid_path_colors(text, &mut colors, &mut valid);
    assert!(valid[5]);
    assert!(!check_ready_to_execute(&valid, &Tasks::EnergyCalibration));
}

#[test]
fn empty_required_slot_is_invalid_and_neutral() {
    let text = texts(["", "", "", "", "", "", "", "", ""]);
    let mut colors = vec![ColorHint::Success; SLOT_COUNT];
    let mut valid = vec![true; SLOT_COUNT];
    set_valid_path_colors(text, &mut colors, &mut valid);
    assert_eq!(valid, vec![false, false, false, false, false, true, true, false, false]);
    assert_eq!(colors[0], ColorHint::Neutral);
    assert_eq!(colors[7], ColorHint::Neutral);
    assert_eq!(colors[5], ColorHint::Success);
}
