//! What is asked for: the path, the flags, and what is known of the input.

use vstd::prelude::*;

verus! {

/// The two kinds of entry that can be created.
#[derive(Clone, Copy, Debug, PartialEq, Eq, Structural)]
pub enum EntryKind {
    File,
    Directory,
}

/// Whether bytes are waiting to be consumed as the content of the entry.
#[derive(Clone, Copy, Debug, PartialEq, Eq, Structural)]
pub enum InputAvailability {
    /// There is nothing to read: a terminal is attached, or the stream is at
    /// its end.
    Absent,
    /// At least one byte is waiting.
    Present,
}

impl InputAvailability {
    /// What a stream offers. With a terminal attached nothing is offered,
    /// whatever a read would deliver. Otherwise `first_read` is the number of
    /// bytes that a first read delivered, 0 at the end of the stream.
    pub open spec fn spec_of_stream(interactive: bool, first_read: usize) -> InputAvailability {
        if !interactive && first_read > 0 {
            InputAvailability::Present
        } else {
            InputAvailability::Absent
        }
    }

    /// What a stream offers. With a terminal attached nothing is offered,
    /// whatever a read would deliver. Otherwise `first_read` is the number of
    /// bytes that a first read delivered, 0 at the end of the stream.
    #[verifier::when_used_as_spec(spec_of_stream)]
    pub fn of_stream(interactive: bool, first_read: usize) -> (r: InputAvailability)
        ensures
            r == Self::spec_of_stream(interactive, first_read),
    {
        if !interactive && first_read > 0 {
            InputAvailability::Present
        } else {
            InputAvailability::Absent
        }
    }

    /// Whether at least one byte is waiting.
    pub open spec fn spec_is_present(self) -> bool {
        self == InputAvailability::Present
    }

    /// Whether at least one byte is waiting.
    #[verifier::when_used_as_spec(spec_is_present)]
    pub fn is_present(self) -> (r: bool)
        ensures
            r == self.spec_is_present(),
    {
        match self {
            InputAvailability::Present => true,
            InputAvailability::Absent => false,
        }
    }
}

/// A request to create one entry.
///
/// `force_file` and `force_directory` exclude each other. A value that sets
/// both can be built; it is refused when the kind of entry is resolved.
#[derive(Clone, Debug)]
pub struct TargetSpec {
    /// The path of the entry, already joined with the directory it is
    /// relative to.
    pub path: Vec<u8>,
    /// Create a file, whatever the path looks like.
    pub force_file: bool,
    /// Create a directory, whatever the path looks like.
    pub force_directory: bool,
    /// Mark the file executable, whatever its extension.
    pub force_executable: bool,
    /// An entry that already stands at the path may be replaced.
    pub overwrite: bool,
}

/// A request as the contracts see it.
pub struct Target {
    pub path: Seq<u8>,
    pub force_file: bool,
    pub force_directory: bool,
    pub force_executable: bool,
    pub overwrite: bool,
}

impl View for TargetSpec {
    type V = Target;

    open spec fn view(&self) -> Target {
        Target {
            path: self.path@,
            force_file: self.force_file,
            force_directory: self.force_directory,
            force_executable: self.force_executable,
            overwrite: self.overwrite,
        }
    }
}

impl Target {
    /// The flags do not contradict each other.
    pub open spec fn is_consistent(self) -> bool {
        !(self.force_file && self.force_directory)
    }
}

impl TargetSpec {
    /// A request for `path` with no flag set.
    pub fn new(path: Vec<u8>) -> (r: TargetSpec)
        ensures
            r@ == (Target {
                path: path@,
                force_file: false,
                force_directory: false,
                force_executable: false,
                overwrite: false,
            }),
    {
        TargetSpec {
            path,
            force_file: false,
            force_directory: false,
            force_executable: false,
            overwrite: false,
        }
    }

    /// Whether the flags do not contradict each other.
    pub fn is_consistent(&self) -> (r: bool)
        ensures
            r == self@.is_consistent(),
    {
        !(self.force_file && self.force_directory)
    }
}

} // verus!
