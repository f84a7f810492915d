use vstd::prelude::*;

use crate::task::{ready_indices, ready_slots, Tasks};

verus! {

/// Display hint of a path field, derived from its validity.
#[derive(Debug, Clone, Copy, PartialEq, Eq, Structural)]
pub enum ColorHint {
    /// The toolkit's default field background.
    Neutral,
    /// The value names an existing path.
    Success,
}

/// Whether slot `i` holds an optional path (plot file or log file), which may
/// be left empty.
pub open spec fn is_optional_slot(i: int) -> bool {
    i == 5 || i == 6
}

/// Validity of slot `i` holding `value`, where `exists` tells whether the
/// value names an existing path.
pub open spec fn slot_valid(i: int, value: Seq<char>, exists: bool) -> bool {
    (is_optional_slot(i) && value.len() == 0) || exists
}

/// Display hint of slot `i` after a check; an empty optional slot keeps `prev`.
pub open spec fn slot_color(i: int, value: Seq<char>, exists: bool, prev: ColorHint) -> ColorHint {
    if is_optional_slot(i) && value.len() == 0 {
        prev
    } else if exists {
        ColorHint::Success
    } else {
        ColorHint::Neutral
    }
}

/// Whether every slot in `slots` is marked valid in `valid`.
pub open spec fn all_valid(valid: Seq<bool>, slots: Seq<usize>) -> bool {
    forall|k: int| 0 <= k < slots.len() ==> valid[#[trigger] slots[k] as int]
}

/// Whether task `t` may run with the validity flags `valid`.
pub open spec fn is_ready(t: Tasks, valid: Seq<bool>) -> bool {
    t != Tasks::NoTask && all_valid(valid, ready_slots(t))
}

/// Relies on `std::path::Path::exists`: true when `path` names an existing
/// file or directory, false when it does not or cannot be looked up. The
/// answer depends on the filesystem at the time of the call.
#[verifier::external_body]
pub fn check_path(path: String) -> (r: bool) {
    std::path::Path::new(&path).exists()
}

/// Marks each slot valid or invalid and sets its display hint, given for each
/// slot whether its value names an existing path. An empty optional slot is
/// valid and keeps its hint; any other slot is valid exactly when its path
/// exists, with a success hint if so and a neutral one if not.
pub fn set_validity(
    text_vec: &Vec<String>,
    exists: &Vec<bool>,
    color_vec: &mut Vec<ColorHint>,
    valid_vec: &mut Vec<bool>,
)
    requires
        exists@.len() == text_vec@.len(),
        text_vec@.len() <= old(color_vec)@.len(),
        text_vec@.len() <= old(valid_vec)@.len(),
    ensures
        final(color_vec)@.len() == old(color_vec)@.len(),
        final(valid_vec)@.len() == old(valid_vec)@.len(),
        forall|i: int|
            0 <= i < text_vec@.len() ==> #[trigger] final(valid_vec)@[i] == slot_valid(
                i,
                text_vec@[i]@,
                exists@[i],
            ),
        forall|i: int|
            0 <= i < text_vec@.len() ==> #[trigger] final(color_vec)@[i] == slot_color(
                i,
                text_vec@[i]@,
                exists@[i],
                old(color_vec)@[i],
            ),
        forall|i: int|
            text_vec@.len() <= i < final(valid_vec)@.len() ==> #[trigger] final(valid_vec)@[i]
                == old(valid_vec)@[i],
        forall|i: int|
            text_vec@.len() <= i < final(color_vec)@.len() ==> #[trigger] final(color_vec)@[i]
                == old(color_vec)@[i],
{
    let n = text_vec.len();
    for index in 0..n
        invariant
            n == text_vec@.len(),
            exists@.len() == n,
            color_vec@.len() == old(color_vec)@.len(),
            valid_vec@.len() == old(valid_vec)@.len(),
            n <= color_vec@.len(),
            n <= valid_vec@.len(),
            forall|i: int|
                0 <= i < index ==> #[trigger] valid_vec@[i] == slot_valid(
                    i,
                    text_vec@[i]@,
                    exists@[i],
                ),
            forall|i: int|
                0 <= i < index ==> #[trigger] color_vec@[i] == slot_color(
                    i,
                    text_vec@[i]@,
                    exists@[i],
                    old(color_vec)@[i],
                ),
            forall|i: int|
                index <= i < valid_vec@.len() ==> #[trigger] valid_vec@[i] == old(valid_vec)@[i],
            forall|i: int|
                index <= i < color_vec@.len() ==> #[trigger] color_vec@[i] == old(color_vec)@[i],
    {
        if (index == 5 || index == 6) && text_vec[index].as_str().is_empty() {
            valid_vec.set(index, true);
        } else if exists[index] {
            color_vec.set(index, ColorHint::Success);
            valid_vec.set(index, true);
        } else {
            color_vec.set(index, ColorHint::Neutral);
            valid_vec.set(index, false);
        }
    }
}

/// Checks each slot's path on the filesystem and records the outcome as
/// `set_validity` does. An empty value names no path and is not looked up.
/// Whatever the filesystem answers, an empty optional slot ends valid with its
/// hint kept, an empty required slot ends invalid with a neutral hint, and
/// every other slot's hint is the success hint exactly when the slot ends
/// valid.
pub fn set_valid_path_colors(
    text_vec: Vec<String>,
    color_vec: &mut Vec<ColorHint>,
    valid_vec: &mut Vec<bool>,
)
    requires
        text_vec@.len() <= old(color_vec)@.len(),
        text_vec@.len() <= old(valid_vec)@.len(),
    ensures
        final(color_vec)@.len() == old(color_vec)@.len(),
        final(valid_vec)@.len() == old(valid_vec)@.len(),
        forall|i: int|
            0 <= i < text_vec@.len() && is_optional_slot(i) && text_vec@[i]@.len() == 0
                ==> #[trigger] final(valid_vec)@[i] && final(color_vec)@[i] == old(color_vec)@[i],
        forall|i: int|
            0 <= i < text_vec@.len() && !is_optional_slot(i) && text_vec@[i]@.len() == 0
                ==> !#[trigger] final(valid_vec)@[i] && final(color_vec)@[i] == ColorHint::Neutral,
        forall|i: int|
            0 <= i < text_vec@.len() && !(is_optional_slot(i) && text_vec@[i]@.len() == 0)
                ==> #[trigger] final(color_vec)@[i] == (if final(valid_vec)@[i] {
                ColorHint::Success
            } else {
                ColorHint::Neutral
            }),
        forall|i: int|
            text_vec@.len() <= i < final(valid_vec)@.len() ==> #[trigger] final(valid_vec)@[i]
                == old(valid_vec)@[i],
        forall|i: int|
            text_vec@.len() <= i < final(color_vec)@.len() ==> #[trigger] final(color_vec)@[i]
                == old(color_vec)@[i],
{
    let n = text_vec.len();
    let mut exists: Vec<bool> = Vec::new();
    for index in 0..n
        invariant
            n == text_vec@.len(),
            exists@.len() == index,
            forall|k: int| 0 <= k < index && text_vec@[k]@.len() == 0 ==> !#[trigger] exists@[k],
    {
        if text_vec[index].as_str().is_empty() {
            exists.push(false);
        } else {
            exists.push(check_path(text_vec[index].clone()));
        }
    }
    set_validity(&text_vec, &exists, color_vec, valid_vec);
}

/// Whether every slot at `indices` is marked valid.
fn check_valid(valid_vec: &Vec<bool>, indices: Vec<usize>) -> (r: bool)
    requires
        forall|k: int| 0 <= k < indices@.len() ==> #[trigger] indices@[k] < valid_vec@.len(),
    ensures
        r == all_valid(valid_vec@, indices@),
{
    let mut all: bool = true;
    let n = indices.len();
    for j in 0..n
        invariant
            n == indices@.len(),
            forall|k: int| 0 <= k < indices@.len() ==> #[trigger] indices@[k] < valid_vec@.len(),
            all == forall|k: int| 0 <= k < j ==> valid_vec@[#[trigger] indices@[k] as int],
    {
        if !valid_vec[indices[j]] {
            all = false;
        }
    }
    all
}

/// Whether the selected task may run: a task is selected and every slot it
/// needs is marked valid.
pub fn check_ready_to_execute(valid_vec: &Vec<bool>, sel_task: &Tasks) -> (r: bool)
    requires
        crate::SLOT_COUNT <= valid_vec@.len(),
    ensures
        r == is_ready(*sel_task, valid_vec@),
{
    if *sel_task == Tasks::NoTask {
        return false;
    }
    check_valid(valid_vec, ready_indices(sel_task))
}

} // verus!
