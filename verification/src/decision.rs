//! The decision: from a request, the state of the path and the state of the
//! input to a plan, or to the reason why there is none.
//!
//! The checks run in a fixed order, and the first that fails names the
//! error: contradictory flags, then the entry that already stands, then what
//! a directory cannot have (the executable mark, input).
//!
//! The state of the path and the state of the input are given to the
//! decision; it looks at nothing itself. `depends_on_existing` and
//! `depends_on_input` say which of the two the decision for a request
//! depends on, so that a caller need not look at what plays no role: the
//! path is not looked at where the flags contradict each other or
//! overwriting is allowed, and the input is looked at only for a directory
//! that passed the checks before it.

use vstd::prelude::*;
use crate::error::DecisionError;
use crate::extensions::{is_executable_extension, spec_is_executable_extension};
use crate::path::{path_extension, path_suffix, spec_path_extension, spec_path_suffix};
use crate::plan::{ActionPlan, PlanView};
use crate::target::{EntryKind, InputAvailability, Target, TargetSpec};

verus! {

/// Whether `path` looks like the path of a file: its final segment has an
/// extension, and the extension is not empty.
pub open spec fn spec_looks_like_file(path: Seq<u8>) -> bool {
    spec_path_extension(path) matches Some(ext) && ext.len() > 0
}

/// Whether what stands behind the last dot of the final segment of `path`
/// is in the table of executable extensions. A dot at the beginning of the
/// segment does not count as that dot, but it does not hide a later one:
/// `.profile.sh` ends in `sh` as `profile.sh` does.
pub open spec fn spec_has_executable_extension(path: Seq<u8>) -> bool {
    spec_path_suffix(path) matches Some(suffix) && spec_is_executable_extension(suffix)
}

/// The kind of entry that `target` asks for. Two flags that contradict each
/// other are an error, one flag decides, and without a flag the path does.
pub open spec fn spec_resolve_type(target: Target) -> Result<EntryKind, DecisionError> {
    if target.force_file && target.force_directory {
        Err(DecisionError::ConflictingTypeOverride)
    } else if target.force_file {
        Ok(EntryKind::File)
    } else if target.force_directory {
        Ok(EntryKind::Directory)
    } else if spec_looks_like_file(target.path) {
        Ok(EntryKind::File)
    } else {
        Ok(EntryKind::Directory)
    }
}

/// Whether an entry of `kind` may be created for `target`, given whether
/// one stands at the path already and whether input is waiting.
pub open spec fn spec_check_preconditions(
    target: Target,
    existing: bool,
    input: InputAvailability,
    kind: EntryKind,
) -> Result<(), DecisionError> {
    if existing && !target.overwrite {
        Err(DecisionError::EntryAlreadyExists)
    } else if kind == EntryKind::Directory && target.force_executable {
        Err(DecisionError::ExecutableOnDirectory)
    } else if kind == EntryKind::Directory && input == InputAvailability::Present {
        Err(DecisionError::UnexpectedInputForDirectory)
    } else {
        Ok(())
    }
}

/// Whether an entry of `kind` for `target` is to be marked executable: a
/// file is, if the flag asks for it or its name ends in a dot and a word of
/// the table; a directory never is.
pub open spec fn spec_decide_executable(target: Target, kind: EntryKind) -> bool {
    kind == EntryKind::File && (target.force_executable || spec_has_executable_extension(
        target.path,
    ))
}

/// The plan for `target`, or the first error in the order of the checks.
pub open spec fn spec_plan(target: Target, existing: bool, input: InputAvailability) -> Result<
    PlanView,
    DecisionError,
> {
    match spec_resolve_type(target) {
        Err(error) => Err(error),
        Ok(kind) => match spec_check_preconditions(target, existing, input, kind) {
            Err(error) => Err(error),
            Ok(_) => Ok(
                PlanView {
                    kind,
                    overwrite: target.overwrite,
                    executable: spec_decide_executable(target, kind),
                },
            ),
        },
    }
}

/// Whether the decision for `target` depends on whether an entry stands at
/// the path: it does unless the flags contradict each other or overwriting
/// is allowed.
pub open spec fn spec_depends_on_existing(target: Target) -> bool {
    target.is_consistent() && !target.overwrite
}

/// Whether the decision for `target` depends on whether input is waiting,
/// given whether an entry stands at the path: it does for a directory that
/// passes the checks that come before the input.
pub open spec fn spec_depends_on_input(target: Target, existing: bool) -> bool {
    &&& spec_resolve_type(target) == Ok::<EntryKind, DecisionError>(EntryKind::Directory)
    &&& spec_check_preconditions(
        target,
        existing,
        InputAvailability::Absent,
        EntryKind::Directory,
    ) is Ok
}

/// Whether the decision for `target` depends on whether an entry stands at
/// the path. Where it does not, either answer gives the same decision.
pub fn depends_on_existing(target: &TargetSpec) -> (r: bool)
    ensures
        r == spec_depends_on_existing(target@),
{
    target.is_consistent() && !target.overwrite
}

/// Whether the decision for `target` depends on whether input is waiting.
/// Where it does not, either answer gives the same decision, and the input
/// need not be touched before the steps are performed.
pub fn depends_on_input(target: &TargetSpec, existing: bool) -> (r: bool)
    ensures
        r == spec_depends_on_input(target@, existing),
{
    match resolve_type(target) {
        Ok(EntryKind::Directory) => {
            match check_preconditions(
                target,
                existing,
                InputAvailability::Absent,
                EntryKind::Directory,
            ) {
                Ok(_) => true,
                Err(_) => false,
            }
        },
        _ => false,
    }
}

/// Whether `path` looks like the path of a file.
pub fn looks_like_file(path: &[u8]) -> (r: bool)
    ensures
        r == spec_looks_like_file(path@),
{
    match path_extension(path) {
        Some(ext) => ext.len() > 0,
        None => false,
    }
}

/// Whether what stands behind the last dot of the final segment of `path`
/// is in the table of executable extensions.
pub fn has_executable_extension(path: &[u8]) -> (r: bool)
    ensures
        r == spec_has_executable_extension(path@),
{
    match path_suffix(path) {
        Some(suffix) => is_executable_extension(suffix),
        None => false,
    }
}

/// Resolves the kind of entry that `target` asks for. The flags are looked
/// at before the path.
pub fn resolve_type(target: &TargetSpec) -> (r: Result<EntryKind, DecisionError>)
    ensures
        r == spec_resolve_type(target@),
{
    if target.force_file && target.force_directory {
        Err(DecisionError::ConflictingTypeOverride)
    } else if target.force_file {
        Ok(EntryKind::File)
    } else if target.force_directory {
        Ok(EntryKind::Directory)
    } else if looks_like_file(target.path.as_slice()) {
        Ok(EntryKind::File)
    } else {
        Ok(EntryKind::Directory)
    }
}

/// Checks whether an entry of `kind` may be created. `existing` says whether
/// an entry stands at the path; it is sampled once, before anything is
/// created.
pub fn check_preconditions(
    target: &TargetSpec,
    existing: bool,
    input: InputAvailability,
    kind: EntryKind,
) -> (r: Result<(), DecisionError>)
    ensures
        r == spec_check_preconditions(target@, existing, input, kind),
{
    if existing && !target.overwrite {
        return Err(DecisionError::EntryAlreadyExists);
    }
    match kind {
        EntryKind::Directory => {
            if target.force_executable {
                Err(DecisionError::ExecutableOnDirectory)
            } else if input.is_present() {
                Err(DecisionError::UnexpectedInputForDirectory)
            } else {
                Ok(())
            }
        },
        EntryKind::File => Ok(()),
    }
}

/// Decides whether an entry of `kind` is to be marked executable. The
/// answer depends on the flag, the path and the table alone.
pub fn decide_executable(target: &TargetSpec, kind: EntryKind) -> (r: bool)
    ensures
        r == spec_decide_executable(target@, kind),
{
    match kind {
        EntryKind::File => target.force_executable || has_executable_extension(
            target.path.as_slice(),
        ),
        EntryKind::Directory => false,
    }
}

/// Makes the plan for `target`, or says why there is none.
pub fn plan(target: &TargetSpec, existing: bool, input: InputAvailability) -> (r: Result<
    ActionPlan,
    DecisionError,
>)
    ensures
        match r {
            Ok(made) => spec_plan(target@, existing, input) == Ok::<PlanView, DecisionError>(made@),
            Err(error) => spec_plan(target@, existing, input) == Err::<PlanView, DecisionError>(
                error,
            ),
        },
{
    let kind = match resolve_type(target) {
        Ok(kind) => kind,
        Err(error) => { return Err(error); },
    };
    match check_preconditions(target, existing, input, kind) {
        Ok(_) => {},
        Err(error) => { return Err(error); },
    }
    match kind {
        EntryKind::File => Ok(ActionPlan::file(target.overwrite, decide_executable(target, kind))),
        EntryKind::Directory => Ok(ActionPlan::directory(target.overwrite)),
    }
}

} // verus!
