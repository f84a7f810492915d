use vstd::prelude::*;

verus! {

/// The analysis modes the form can drive, plus the "nothing selected" state.
#[derive(Debug, Clone, Copy, PartialEq, Eq, Structural)]
pub enum Tasks {
    EnergyCalibration,
    PlotSpectrum,
    CalculatePrimarySpectrum,
    CalculateFullSpectrum,
    CompareMeasuredCalculated,
    OpticResponse,
    Calibrate,
    Evaluate,
    FitOneStandardWithPlot,
    Quantify,
    BulkSumAndMaxValue,
    Mapping,
    NoTask,
}

/// Slots whose controls a task unlocks for editing.
pub open spec fn enabled_slots(t: Tasks) -> Seq<usize> {
    match t {
        Tasks::EnergyCalibration => seq![3, 7],
        Tasks::PlotSpectrum => seq![3],
        Tasks::CalculatePrimarySpectrum => seq![0],
        Tasks::CalculateFullSpectrum => seq![0, 2],
        Tasks::CompareMeasuredCalculated => seq![0, 2, 3],
        Tasks::OpticResponse => seq![0, 2, 3, 7],
        Tasks::Calibrate => seq![0, 1, 2, 7],
        Tasks::Evaluate => seq![0, 1, 2, 4, 7],
        Tasks::FitOneStandardWithPlot => seq![0, 2, 7],
        Tasks::Quantify => seq![0, 1, 3, 7],
        Tasks::BulkSumAndMaxValue => seq![0, 1, 3, 7],
        Tasks::Mapping => seq![0, 1, 3, 4, 7],
        Tasks::NoTask => seq![],
    }
}

/// Slots that must hold a valid value before a task may run.
pub open spec fn ready_slots(t: Tasks) -> Seq<usize> {
    match t {
        Tasks::EnergyCalibration => seq![3, 5],
        Tasks::PlotSpectrum => seq![3, 6],
        Tasks::CalculatePrimarySpectrum => seq![0, 6],
        Tasks::CalculateFullSpectrum => seq![0, 2, 6],
        Tasks::CompareMeasuredCalculated => seq![0, 2, 3, 6],
        Tasks::OpticResponse => seq![0, 2, 3, 5, 6],
        Tasks::Calibrate => seq![0, 1, 2, 5],
        Tasks::Evaluate => seq![0, 1, 2, 4, 5],
        Tasks::FitOneStandardWithPlot => seq![0, 2, 5, 6],
        Tasks::Quantify => seq![0, 1, 3, 5, 6],
        Tasks::BulkSumAndMaxValue => seq![0, 1, 3, 5, 6],
        Tasks::Mapping => seq![0, 1, 2, 3, 4, 5],
        Tasks::NoTask => seq![],
    }
}

/// Slots whose values follow the command token on the command line, in order.
pub open spec fn arg_slots(t: Tasks) -> Seq<usize> {
    match t {
        Tasks::EnergyCalibration => seq![3, 7],
        Tasks::PlotSpectrum => seq![3, 6],
        Tasks::CalculatePrimarySpectrum => seq![0, 6],
        Tasks::CalculateFullSpectrum => seq![0, 2, 6],
        Tasks::CompareMeasuredCalculated => seq![0, 2, 3, 6],
        Tasks::OpticResponse => seq![0, 2, 3, 6, 7],
        Tasks::Calibrate => seq![0, 1, 2, 7],
        Tasks::Evaluate => seq![0, 1, 2, 4, 7],
        Tasks::FitOneStandardWithPlot => seq![0, 2, 6, 7],
        Tasks::Quantify => seq![0, 1, 3, 6, 7],
        Tasks::BulkSumAndMaxValue => seq![0, 1, 3, 6, 7],
        Tasks::Mapping => seq![0, 1, 2, 3, 4, 7],
        Tasks::NoTask => seq![],
    }
}

/// The command token that names a task to the analysis executable.
pub open spec fn command_token(t: Tasks) -> Seq<char> {
    match t {
        Tasks::EnergyCalibration => "ene"@,
        Tasks::PlotSpectrum => "plo"@,
        Tasks::CalculatePrimarySpectrum => "pri"@,
        Tasks::CalculateFullSpectrum => "calc"@,
        Tasks::CompareMeasuredCalculated => "com"@,
        Tasks::OpticResponse => "opt"@,
        Tasks::Calibrate => "cal"@,
        Tasks::Evaluate => "eva"@,
        Tasks::FitOneStandardWithPlot => "fits"@,
        Tasks::Quantify => "qua"@,
        Tasks::BulkSumAndMaxValue => "sum"@,
        Tasks::Mapping => "map"@,
        Tasks::NoTask => Seq::empty(),
    }
}

/// The slots a task may unlock: every one of them is a path slot or the
/// element-controls slot.
pub open spec fn is_gated_slot(i: usize) -> bool {
    i == 0 || i == 1 || i == 2 || i == 3 || i == 4 || i == 7
}

/// Returns the slots that `t` unlocks for editing.
pub fn enabled_indices(t: &Tasks) -> (r: Vec<usize>)
    ensures
        r@ == enabled_slots(*t),
{
    match t {
        Tasks::EnergyCalibration => vec![3, 7],
        Tasks::PlotSpectrum => vec![3],
        Tasks::CalculatePrimarySpectrum => vec![0],
        Tasks::CalculateFullSpectrum => vec![0, 2],
        Tasks::CompareMeasuredCalculated => vec![0, 2, 3],
        Tasks::OpticResponse => vec![0, 2, 3, 7],
        Tasks::Calibrate => vec![0, 1, 2, 7],
        Tasks::Evaluate => vec![0, 1, 2, 4, 7],
        Tasks::FitOneStandardWithPlot => vec![0, 2, 7],
        Tasks::Quantify => vec![0, 1, 3, 7],
        Tasks::BulkSumAndMaxValue => vec![0, 1, 3, 7],
        Tasks::Mapping => vec![0, 1, 3, 4, 7],
        Tasks::NoTask => Vec::new(),
    }
}

/// Returns the slots that must be valid before `t` may run.
pub fn ready_indices(t: &Tasks) -> (r: Vec<usize>)
    ensures
        r@ == ready_slots(*t),
{
    match t {
        Tasks::EnergyCalibration => vec![3, 5],
        Tasks::PlotSpectrum => vec![3, 6],
        Tasks::CalculatePrimarySpectrum => vec![0, 6],
        Tasks::CalculateFullSpectrum => vec![0, 2, 6],
        Tasks::CompareMeasuredCalculated => vec![0, 2, 3, 6],
        Tasks::OpticResponse => vec![0, 2, 3, 5, 6],
        Tasks::Calibrate => vec![0, 1, 2, 5],
        Tasks::Evaluate => vec![0, 1, 2, 4, 5],
        Tasks::FitOneStandardWithPlot => vec![0, 2, 5, 6],
        Tasks::Quantify => vec![0, 1, 3, 5, 6],
        Tasks::BulkSumAndMaxValue => vec![0, 1, 3, 5, 6],
        Tasks::Mapping => vec![0, 1, 2, 3, 4, 5],
        Tasks::NoTask => Vec::new(),
    }
}

/// Returns the slots whose values follow the command token, in order.
pub fn arg_indices(t: &Tasks) -> (r: Vec<usize>)
    ensures
        r@ == arg_slots(*t),
{
    match t {
        Tasks::EnergyCalibration => vec![3, 7],
        Tasks::PlotSpectrum => vec![3, 6],
        Tasks::CalculatePrimarySpectrum => vec![0, 6],
        Tasks::CalculateFullSpectrum => vec![0, 2, 6],
        Tasks::CompareMeasuredCalculated => vec![0, 2, 3, 6],
        Tasks::OpticResponse => vec![0, 2, 3, 6, 7],
        Tasks::Calibrate => vec![0, 1, 2, 7],
        Tasks::Evaluate => vec![0, 1, 2, 4, 7],
        Tasks::FitOneStandardWithPlot => vec![0, 2, 6, 7],
        Tasks::Quantify => vec![0, 1, 3, 6, 7],
        Tasks::BulkSumAndMaxValue => vec![0, 1, 3, 6, 7],
        Tasks::Mapping => vec![0, 1, 2, 3, 4, 7],
        Tasks::NoTask => Vec::new(),
    }
}

/// Returns the command token of `t`; `NoTask` has none and gets an empty string.
pub fn command_string(t: &Tasks) -> (r: String)
    ensures
        r@ == command_token(*t),
{
    match t {
        Tasks::EnergyCalibration => String::from_str("ene"),
        Tasks::PlotSpectrum => String::from_str("plo"),
        Tasks::CalculatePrimarySpectrum => String::from_str("pri"),
        Tasks::CalculateFullSpectrum => String::from_str("calc"),
        Tasks::CompareMeasuredCalculated => String::from_str("com"),
        Tasks::OpticResponse => String::from_str("opt"),
        Tasks::Calibrate => String::from_str("cal"),
        Tasks::Evaluate => String::from_str("eva"),
        Tasks::FitOneStandardWithPlot => String::from_str("fits"),
        Tasks::Quantify => String::from_str("qua"),
        Tasks::BulkSumAndMaxValue => String::from_str("sum"),
        Tasks::Mapping => String::from_str("map"),
        Tasks::NoTask => String::new(),
    }
}

/// Every task unlocks only path slots and the element-controls slot, each at
/// most once, and `NoTask` unlocks nothing. The set depends on the task alone.
pub proof fn lemma_enabled_slots_gated(t: Tasks)
    ensures
        forall|j: int| 0 <= j < enabled_slots(t).len() ==> is_gated_slot(#[trigger] enabled_slots(t)[j]),
        enabled_slots(t).no_duplicates(),
        t == Tasks::NoTask ==> enabled_slots(t).len() == 0,
{
}

/// Every slot a task passes on is one of the form's slots.
pub proof fn lemma_arg_slots_in_range(t: Tasks)
    ensures
        forall|j: int| 0 <= j < arg_slots(t).len() ==> #[trigger] arg_slots(t)[j] < crate::SLOT_COUNT,
{
}

} // verus!
