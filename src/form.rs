use vstd::prelude::*;

use crate::args::{build_args, update_args};
use crate::fields::{arg_views, handle_task_selection, select_task_flags};
use crate::task::Tasks;
use crate::validation::{
    check_ready_to_execute, is_optional_slot, is_ready, set_valid_path_colors, ColorHint,
};
use crate::SLOT_COUNT;

verus! {

/// The state of the form: the selected task, one value per slot, and what the
/// last update cycle derived from them.
pub struct FormState {
    pub task_sel: Tasks,
    /// Slot values: 0 configuration file, 1 calibration file, 2 standards
    /// file, 3 spectrum file, 4 map file, 5 plot file, 6 log file, 7 element
    /// controls, 8 extra command-line arguments.
    pub text_vec: Vec<String>,
    /// Per slot, whether the selected task unlocks it for editing.
    pub enable_vec: Vec<bool>,
    /// Per slot, the display hint of its value.
    pub color_vec: Vec<ColorHint>,
    /// Per slot, whether its value is acceptable.
    pub valid_vec: Vec<bool>,
    /// The argument list for the analysis executable.
    pub args: Vec<String>,
    /// Whether the selected task may run.
    pub ready: bool,
}

impl FormState {
    /// Every per-slot vector has one entry per slot.
    pub open spec fn wf(&self) -> bool {
        &&& self.text_vec@.len() == SLOT_COUNT
        &&& self.enable_vec@.len() == SLOT_COUNT
        &&& self.color_vec@.len() == SLOT_COUNT
        &&& self.valid_vec@.len() == SLOT_COUNT
    }

    /// A form with no task selected, every slot empty, disabled, invalid and
    /// neutral, and no arguments.
    pub fn new() -> (r: FormState)
        ensures
            r.wf(),
            r.task_sel == Tasks::NoTask,
            forall|i: int| 0 <= i < SLOT_COUNT ==> (#[trigger] r.text_vec@[i])@.len() == 0,
            forall|i: int| 0 <= i < SLOT_COUNT ==> !#[trigger] r.enable_vec@[i],
            forall|i: int| 0 <= i < SLOT_COUNT ==> #[trigger] r.color_vec@[i] == ColorHint::Neutral,
            forall|i: int| 0 <= i < SLOT_COUNT ==> !#[trigger] r.valid_vec@[i],
            r.args@.len() == 0,
            !r.ready,
    {
        let mut text_vec: Vec<String> = Vec::new();
        let mut enable_vec: Vec<bool> = Vec::new();
        let mut color_vec: Vec<ColorHint> = Vec::new();
        let mut valid_vec: Vec<bool> = Vec::new();
        for i in 0..SLOT_COUNT
            invariant
                text_vec@.len() == i,
                enable_vec@.len() == i,
                color_vec@.len() == i,
                valid_vec@.len() == i,
                forall|k: int| 0 <= k < i ==> (#[trigger] text_vec@[k])@.len() == 0,
                forall|k: int| 0 <= k < i ==> !#[trigger] enable_vec@[k],
                forall|k: int| 0 <= k < i ==> #[trigger] color_vec@[k] == ColorHint::Neutral,
                forall|k: int| 0 <= k < i ==> !#[trigger] valid_vec@[k],
        {
            text_vec.push(String::new());
            enable_vec.push(false);
            color_vec.push(ColorHint::Neutral);
            valid_vec.push(false);
        }
        FormState {
            task_sel: Tasks::NoTask,
            text_vec,
            enable_vec,
            color_vec,
            valid_vec,
            args: Vec::new(),
            ready: false,
        }
    }

    /// Runs one update cycle: enables the selected task's slots, checks every
    /// slot's path on the filesystem, rebuilds the argument list from the
    /// current values, and decides whether the task may run. The task and the
    /// values are left as they were.
    pub fn refresh(&mut self)
        requires
            old(self).wf(),
        ensures
            final(self).wf(),
            final(self).task_sel == old(self).task_sel,
            final(self).text_vec == old(self).text_vec,
            final(self).enable_vec@ == select_task_flags(old(self).task_sel, old(self).enable_vec@),
            forall|i: int|
                0 <= i < SLOT_COUNT && is_optional_slot(i) && (old(self).text_vec@[i])@.len() == 0
                    ==> #[trigger] final(self).valid_vec@[i] && final(self).color_vec@[i] == old(
                    self,
                ).color_vec@[i],
            forall|i: int|
                0 <= i < SLOT_COUNT && !is_optional_slot(i) && (old(self).text_vec@[i])@.len() == 0
                    ==> !#[trigger] final(self).valid_vec@[i] && final(self).color_vec@[i]
                    == ColorHint::Neutral,
            forall|i: int|
                0 <= i < SLOT_COUNT && !(is_optional_slot(i) && (old(self).text_vec@[i])@.len()
                    == 0) ==> #[trigger] final(self).color_vec@[i] == (if final(self).valid_vec@[i] {
                    ColorHint::Success
                } else {
                    ColorHint::Neutral
                }),
            arg_views(final(self).args@) == build_args(
                old(self).task_sel,
                arg_views(old(self).text_vec@),
            ),
            final(self).ready == is_ready(old(self).task_sel, final(self).valid_vec@),
    {
        handle_task_selection(&mut self.task_sel, &mut self.enable_vec, &mut self.args);
        set_valid_path_colors(self.text_vec.clone(), &mut self.color_vec, &mut self.valid_vec);
        update_args(&mut self.task_sel, &mut self.args, self.text_vec.clone());
        self.ready = check_ready_to_execute(&self.valid_vec, &self.task_sel);
    }
}

} // verus!
