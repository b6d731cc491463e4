//! What was decided: the kind of entry, and how it is to be created.

use vstd::prelude::*;
use crate::target::EntryKind;

verus! {

/// A plan as the contracts see it.
pub struct PlanView {
    pub kind: EntryKind,
    pub overwrite: bool,
    pub executable: bool,
}

impl PlanView {
    /// Only a file can be executable.
    pub open spec fn is_valid(self) -> bool {
        self.executable ==> self.kind == EntryKind::File
    }
}

/// The outcome of a decision that permits the creation. It cannot be changed
/// once it is made, and a plan for a directory is never executable.
#[derive(Clone, Copy, Debug, PartialEq, Eq, Structural)]
pub struct ActionPlan {
    kind: EntryKind,
    overwrite: bool,
    executable: bool,
}

impl View for ActionPlan {
    type V = PlanView;

    closed spec fn view(&self) -> PlanView {
        PlanView { kind: self.kind, overwrite: self.overwrite, executable: self.executable }
    }
}

impl ActionPlan {
    #[verifier::type_invariant]
    spec fn holds(self) -> bool {
        self.executable ==> self.kind == EntryKind::File
    }

    /// A plan to create a file.
    pub fn file(overwrite: bool, executable: bool) -> (r: ActionPlan)
        ensures
            r@ == (PlanView { kind: EntryKind::File, overwrite, executable }),
    {
        ActionPlan { kind: EntryKind::File, overwrite, executable }
    }

    /// A plan to create a directory.
    pub fn directory(overwrite: bool) -> (r: ActionPlan)
        ensures
            r@ == (PlanView { kind: EntryKind::Directory, overwrite, executable: false }),
    {
        ActionPlan { kind: EntryKind::Directory, overwrite, executable: false }
    }

    /// The kind of entry to create.
    pub fn kind(&self) -> (r: EntryKind)
        ensures
            r == self@.kind,
    {
        self.kind
    }

    /// Whether an entry that stands at the path may be replaced.
    pub fn overwrite(&self) -> (r: bool)
        ensures
            r == self@.overwrite,
    {
        self.overwrite
    }

    /// Whether the file is to be marked executable.
    pub fn executable(&self) -> (r: bool)
        ensures
            r == self@.executable,
            self@.is_valid(),
    {
        proof {
            use_type_invariant(self);
        }
        self.executable
    }
}

} // verus!
