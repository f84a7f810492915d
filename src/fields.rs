use vstd::prelude::*;

use crate::task::{command_string, command_token, enabled_indices, enabled_slots, Tasks};

verus! {

/// Whether slot `i` appears in the slot list `s`.
pub open spec fn lists_slot(s: Seq<usize>, i: int) -> bool {
    exists|k: int| 0 <= k < s.len() && #[trigger] s[k] as int == i
}

/// The enable flags `flags` become when task `t` is selected: one flag per
/// slot, set exactly when `t` unlocks that slot.
pub open spec fn select_task_flags(t: Tasks, flags: Seq<bool>) -> Seq<bool> {
    Seq::new(flags.len(), |i: int| lists_slot(enabled_slots(t), i))
}

/// What an argument list holds, as character sequences.
pub open spec fn arg_views(v: Seq<String>) -> Seq<Seq<char>> {
    v.map_values(|s: String| s@)
}

/// The argument list right after a task selection: the command token alone,
/// or nothing when no task is selected.
pub open spec fn head_args(t: Tasks) -> Seq<Seq<char>> {
    if t == Tasks::NoTask {
        Seq::empty()
    } else {
        seq![command_token(t)]
    }
}

/// Clears every flag of `bool_vec`.
pub fn set_all_disabled(bool_vec: &mut Vec<bool>)
    ensures
        final(bool_vec)@.len() == old(bool_vec)@.len(),
        forall|i: int| 0 <= i < final(bool_vec)@.len() ==> !#[trigger] final(bool_vec)@[i],
{
    let n = bool_vec.len();
    for i in 0..n
        invariant
            n == bool_vec@.len(),
            forall|k: int| 0 <= k < i ==> !#[trigger] bool_vec@[k],
    {
        bool_vec.set(i, false);
    }
}

/// Sets the flag at each of `indices`, leaving the others as they were.
pub fn set_enabled(bool_vec: &mut Vec<bool>, indices: Vec<usize>)
    requires
        forall|j: int| 0 <= j < indices@.len() ==> #[trigger] indices@[j] < old(bool_vec)@.len(),
    ensures
        final(bool_vec)@.len() == old(bool_vec)@.len(),
        forall|i: int|
            0 <= i < final(bool_vec)@.len() ==> #[trigger] final(bool_vec)@[i] == (old(bool_vec)@[i]
                || lists_slot(indices@, i)),
{
    let n = indices.len();
    for j in 0..n
        invariant
            n == indices@.len(),
            bool_vec@.len() == old(bool_vec)@.len(),
            forall|k: int| 0 <= k < indices@.len() ==> #[trigger] indices@[k] < old(bool_vec)@.len(),
            forall|i: int|
                0 <= i < bool_vec@.len() ==> #[trigger] bool_vec@[i] == (old(bool_vec)@[i] || exists|k: int|
                    0 <= k < j && #[trigger] indices@[k] as int == i),
    {
        let index = indices[j];
        bool_vec.set(index, true);
        assert forall|i: int| 0 <= i < bool_vec@.len() implies #[trigger] bool_vec@[i] == (
        old(bool_vec)@[i] || exists|k: int| 0 <= k < j + 1 && #[trigger] indices@[k] as int == i) by {
            if i == index as int {
                assert(indices@[j as int] as int == i);
            }
        }
    }
}

/// Resets the enable flags and the argument list for a newly selected task:
/// exactly the task's slots are enabled, and the list holds the task's command
/// token alone (nothing when no task is selected).
pub fn handle_task_selection(sel_task: &mut Tasks, bool_vec: &mut Vec<bool>, args: &mut Vec<String>)
    requires
        crate::SLOT_COUNT <= old(bool_vec)@.len(),
    ensures
        *final(sel_task) == *old(sel_task),
        final(bool_vec)@ == select_task_flags(*old(sel_task), old(bool_vec)@),
        arg_views(final(args)@) == head_args(*old(sel_task)),
{
    set_all_disabled(bool_vec);
    args.clear();
    let indices = enabled_indices(sel_task);
    proof {
        crate::task::lemma_enabled_slots_gated(*sel_task);
    }
    set_enabled(bool_vec, indices);
    if *sel_task != Tasks::NoTask {
        args.push(command_string(sel_task));
    }
    assert(bool_vec@ =~= select_task_flags(*sel_task, old(bool_vec)@));
    assert(arg_views(args@) =~= head_args(*sel_task));
}

/// Selecting a task twice in a row leaves the flags as one selection left
/// them, and two flag vectors of one length end equal whatever they held
/// before the selection.
pub proof fn lemma_task_selection_idempotent(t: Tasks, flags: Seq<bool>, other: Seq<bool>)
    requires
        other.len() == flags.len(),
    ensures
        select_task_flags(t, select_task_flags(t, flags)) == select_task_flags(t, flags),
        select_task_flags(t, other) == select_task_flags(t, flags),
{
    assert(select_task_flags(t, select_task_flags(t, flags)) =~= select_task_flags(t, flags));
    assert(select_task_flags(t, other) =~= select_task_flags(t, flags));
}

} // verus!
