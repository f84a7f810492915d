//! Task selection, field enablement, path validation and argument assembly for
//! a form that drives the PIQUANT analysis executable.

use vstd::prelude::*;

pub mod args;
pub mod fields;
pub mod form;
pub mod task;
pub mod validation;

pub use args::update_args;
pub use fields::{handle_task_selection, set_all_disabled, set_enabled};
pub use form::FormState;
pub use task::Tasks;
pub use validation::{
    check_path, check_ready_to_execute, set_valid_path_colors, set_validity, ColorHint,
};

verus! {

/// Number of field slots in the form.
pub const SLOT_COUNT: usize = 9;

} // verus!
