use piquant_gui::{update_args, FormState, ColorHint, Tasks, SLOT_COUNT};

const MISSING: &str = "/nonexistent-piquant-dir/spectrum.msa";

fn texts(values: [&str; 9]) -> Vec<String> {
    values.iter().map(|s| s.to_string()).collect()
}

#[test]
fn update_args_appends_slot_values_in_order() {
    let mut task = Tasks::Quantify;
    let mut args: Vec<String> = vec![String::from("qua")];
    let text = texts(["cfg", "cal", "std", "spec", "map", "", "log", "FE_K 1", "x"]);
    update_args(&mut task, &mut args, text);
    assert_eq!(args, vec!["qua", "cfg", "cal", "spec", "log", "FE_K 1"]);
    assert_eq!(task, Tasks::Quantify);
}

#[test]
fn update_args_no_task_appends_nothing() {
    let mut task = Tasks::NoTask;
    let mut args: Vec<String> = Vec::new();
    update_args(&mut task, &mut args, texts(["a", "b", "c", "d", "e", "f", "g", "h", "i"]));
    assert!(args.is_empty());
}

#[test]
fn new_form_is_idle() {
    let form = FormState::new();
    assert_eq!(form.task_sel, Tasks::NoTask);
    assert_eq!(form.text_vec, vec![String::new(); SLOT_COUNT]);
    assert_eq!(form.enable_vec, vec![false; SLOT_COUNT]);
    assert_eq!(form.color_vec, vec![ColorHint::Neutral; SLOT_COUNT]);
    assert_eq!(form.valid_vec, vec![false; SLOT_COUNT]);
    assert!(form.args.is_empty());
    assert!(!form.ready);
}

#[test]
fn calibrate_scenario() {
    let mut form = FormState::new();
    form.task_sel = Tasks::Calibrate;
    form.text_vec = texts(["/", "/", "/", "", "", "", "", "FE_K 1", ""]);
    form.refresh();
    assert!(form.ready);
    assert_eq!(form.args, vec!["cal", "/", "/", "/", "FE_K 1"]);
    assert_eq!(form.enable_vec, vec![true, true, true, false, false, false, false, true, false]);
}

#[test]
fn plot_spectrum_scenario() {
    let mut form = FormState::new();
    form.task_sel = Tasks::PlotSpectrum;
    form.text_vec = texts(["/", "/", "/", MISSING, "/", "", "", "FE_K 1", ""]);
    form.refresh();
    assert!(!form.valid_vec[3]);
    assert!(!form.ready);
    assert_eq!(form.args, vec!["plo", MISSING, ""]);
}

#[test]
fn energy_calibration_scenario() {
    let mut form = FormState::new();
    form.task_sel = Tasks::EnergyCalibration;
    form.text_vec = texts(["", "", "", "/", "", "", "", "FE_K 1", ""]);
    form.refresh();
    assert!(form.valid_vec[5]);
    assert!(form.ready);
    assert_eq!(form.args, vec!["ene", "/", "FE_K 1"]);
}

#[test]
fn no_task_scenario() {
    let mut form = FormState::new();
    form.text_vec = texts(["/", "/", "/", "/", "/", "/", "/", "FE_K 1", "-v"]);
    form.enable_vec = vec![true; SLOT_COUNT];
    form.args = vec![String::from("stale")];
    form.refresh();
    assert_eq!(form.enable_vec, vec![false; SLOT_COUNT]);
    assert!(form.args.is_empty());
    assert!(!form.ready);
}

#[test]
fn map_scenario_passes_standards_file() {
    let mut form = FormState::new();
    form.task_sel = Tasks::Mapping;
    form.text_vec = texts(["c", "k", "s", "p", "m", "", "", "FE_K 1", ""]);
    form.refresh();
    assert_eq!(form.args, vec!["map", "c", "k", "s", "p", "m", "FE_K 1"]);
    assert!(!form.ready);
    assert_eq!(form.color_vec[0], ColorHint::Neutral);
}
