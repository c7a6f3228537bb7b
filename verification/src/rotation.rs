//! The rotation rule for an output file that exists already.
//!
//! With overwrite the old file is removed. Without, it is kept under a new
//! name: the stem of its name, an underscore, the smallest number from 1 on
//! that is not in use, and `.csv`. Looking for names and renaming are the
//! caller's part; the rule says after each answer what comes next.

use crate::text::{decimal_string, decimal_text};
use vstd::prelude::*;
use vstd::string::StringExecFns;

verus! {

/// Ending of the name under which an old file is kept.
pub const ROTATED_SUFFIX: &'static str = ".csv";

/// What the caller does next for an output file.
#[derive(Clone, Debug, PartialEq, Eq)]
pub enum RotationStep {
    /// Nothing: the target is free.
    Proceed,
    /// Remove the old file.
    Remove,
    /// Ask whether a file named `name` exists, and come back with the
    /// answer for `counter`.
    Probe { name: String, counter: u64 },
    /// Rename the old file to `name`.
    Rename { name: String },
}

/// The mathematical value of a [`RotationStep`].
pub enum RotationStepView {
    Proceed,
    Remove,
    Probe { name: Seq<char>, counter: u64 },
    Rename { name: Seq<char> },
}

impl View for RotationStep {
    type V = RotationStepView;

    open spec fn view(&self) -> RotationStepView {
        match self {
            RotationStep::Proceed => RotationStepView::Proceed,
            RotationStep::Remove => RotationStepView::Remove,
            RotationStep::Probe { name, counter } => RotationStepView::Probe {
                name: name@,
                counter: *counter,
            },
            RotationStep::Rename { name } => RotationStepView::Rename { name: name@ },
        }
    }
}

/// The name under which the file with the stem `stem` is kept as number `n`.
pub open spec fn rotated_name(stem: Seq<char>, n: nat) -> Seq<char> {
    stem + seq!['_'] + decimal_text(n) + ROTATED_SUFFIX@
}

/// The first step for an output file: nothing where the target is free;
/// removal under overwrite; else the question for number 1.
pub open spec fn first_step(exists: bool, overwrite: bool, stem: Seq<char>) -> RotationStepView {
    if !exists {
        RotationStepView::Proceed
    } else if overwrite {
        RotationStepView::Remove
    } else {
        RotationStepView::Probe { name: rotated_name(stem, 1), counter: 1 }
    }
}

/// The step after the answer for number `counter`: the question for the
/// next number where the name is in use, else the renaming.
pub open spec fn step_after_probe(stem: Seq<char>, counter: u64, in_use: bool) -> RotationStepView {
    if in_use {
        RotationStepView::Probe {
            name: rotated_name(stem, (counter + 1) as nat),
            counter: (counter + 1) as u64,
        }
    } else {
        RotationStepView::Rename { name: rotated_name(stem, counter as nat) }
    }
}

/// The name to which the old file is renamed when the search stands at
/// number `counter` and the numbers in `used` are those whose names are in
/// use: the steps are followed until one renames. `bound` limits the search.
pub open spec fn rename_target(stem: Seq<char>, used: Set<nat>, counter: nat, bound: nat) -> Option<
    Seq<char>,
>
    decreases bound + 1 - counter,
{
    if counter > bound || counter >= u64::MAX {
        None
    } else {
        match step_after_probe(stem, counter as u64, used.contains(counter)) {
            RotationStepView::Rename { name } => Some(name),
            RotationStepView::Probe { counter: next, .. } => rename_target(
                stem,
                used,
                next as nat,
                bound,
            ),
            _ => None,
        }
    }
}

/// The old file is kept under the smallest number that is free: where the
/// numbers from `counter` up to `n`, not including it, are in use and `n`
/// is free, the search from `counter` on ends with the renaming to number `n`.
pub proof fn lemma_rotation_takes_smallest_free(
    stem: Seq<char>,
    used: Set<nat>,
    counter: nat,
    n: nat,
)
    requires
        counter <= n < u64::MAX,
        !used.contains(n),
        forall|k: nat| counter <= k < n ==> used.contains(k),
    ensures
        rename_target(stem, used, counter, n) == Some(rotated_name(stem, n)),
    decreases n - counter,
{
    if counter < n {
        assert(used.contains(counter));
        lemma_rotation_takes_smallest_free(stem, used, counter + 1, n);
    }
}

/// Builds the name under which the old file is kept as number `n`.
pub fn rotated_file_name(stem: &str, n: u64) -> (out: String)
    ensures
        out@ == rotated_name(stem@, n as nat),
{
    let mut out = String::from_str(stem);
    out.push('_');
    let number = decimal_string(n);
    out.append(number.as_str());
    out.append(ROTATED_SUFFIX);
    out
}

/// Begins the handling of an output file whose name has the stem `stem`. A
/// target that does not exist needs nothing. One that exists is removed
/// under overwrite; else the search for a free name begins at number 1.
pub fn handle_output_path(exists: bool, overwrite: bool, stem: &str) -> (out: RotationStep)
    ensures
        out@ == first_step(exists, overwrite, stem@),
{
    if !exists {
        RotationStep::Proceed
    } else if overwrite {
        RotationStep::Remove
    } else {
        RotationStep::Probe { name: rotated_file_name(stem, 1), counter: 1 }
    }
}

/// Goes on with the search after the answer for number `counter`: a name
/// in use leads to the next number, a free one is taken.
pub fn after_probe(stem: &str, counter: u64, in_use: bool) -> (out: RotationStep)
    requires
        counter < u64::MAX,
    ensures
        out@ == step_after_probe(stem@, counter, in_use),
{
    if in_use {
        RotationStep::Probe { name: rotated_file_name(stem, counter + 1), counter: counter + 1 }
    } else {
        RotationStep::Rename { name: rotated_file_name(stem, counter) }
    }
}

} // verus!
