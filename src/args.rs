use vstd::prelude::*;

use crate::fields::{arg_views, head_args};
use crate::task::{arg_indices, arg_slots, command_token, Tasks};

verus! {

/// The values of the slots that task `t` passes on, in the task's order.
pub open spec fn slot_values(t: Tasks, values: Seq<Seq<char>>) -> Seq<Seq<char>> {
    arg_slots(t).map_values(|i: usize| values[i as int])
}

/// The full argument list for task `t` over the slot values `values`.
pub open spec fn build_args(t: Tasks, values: Seq<Seq<char>>) -> Seq<Seq<char>> {
    head_args(t) + slot_values(t, values)
}

/// Appends the values of the selected task's slots to `args`, in the task's
/// order, each one copied; empty values are appended too.
pub fn update_args(sel_task: &mut Tasks, args: &mut Vec<String>, text_vec: Vec<String>)
    requires
        crate::SLOT_COUNT <= text_vec@.len(),
    ensures
        *final(sel_task) == *old(sel_task),
        arg_views(final(args)@) == arg_views(old(args)@) + slot_values(
            *old(sel_task),
            arg_views(text_vec@),
        ),
{
    let indices = arg_indices(sel_task);
    let ghost added = slot_values(*sel_task, arg_views(text_vec@));
    let n = indices.len();
    for j in 0..n
        invariant
            n == indices@.len(),
            indices@ == arg_slots(*sel_task),
            crate::SLOT_COUNT <= text_vec@.len(),
            added == slot_values(*sel_task, arg_views(text_vec@)),
            arg_views(args@) == arg_views(old(args)@) + added.subrange(0, j as int),
    {
        let index = indices[j];
        proof {
            crate::task::lemma_arg_slots_in_range(*sel_task);
        }
        let ghost prev = args@;
        args.push(text_vec[index].clone());
        assert(arg_views(args@) =~= arg_views(prev).push(text_vec@[index as int]@));
        assert(arg_views(args@) =~= arg_views(old(args)@) + added.subrange(0, j + 1));
    }
    assert(added.subrange(0, n as int) =~= added);
}

/// The argument list is empty when no task is selected; otherwise it starts
/// with the task's command token, followed in order by the values of the
/// task's argument slots.
pub proof fn lemma_build_args_shape(t: Tasks, values: Seq<Seq<char>>)
    requires
        crate::SLOT_COUNT <= values.len(),
    ensures
        t == Tasks::NoTask ==> build_args(t, values).len() == 0,
        t != Tasks::NoTask ==> {
            &&& build_args(t, values).len() == arg_slots(t).len() + 1
            &&& build_args(t, values)[0] == command_token(t)
            &&& forall|k: int|
                0 <= k < arg_slots(t).len() ==> #[trigger] build_args(t, values)[k + 1]
                    == values[arg_slots(t)[k] as int]
        },
{
}

} // verus!
