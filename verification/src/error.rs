//! The ways in which an invocation ends without having done what was asked.

use vstd::prelude::*;
use vstd::string::StringExecFns;

verus! {

/// What stands between a message and the path that it is about.
pub open spec fn spec_joint() -> Seq<char> {
    ": "@
}

/// A message with the path that it is about: `message: path`.
pub open spec fn spec_with_path(message: Seq<char>, path: Seq<char>) -> Seq<char> {
    message + spec_joint() + path
}

/// Puts the path that a message is about behind the message.
pub fn with_path(message: &str, path: &str) -> (r: String)
    ensures
        r@ == spec_with_path(message@, path@),
{
    let mut r = String::from_str(message);
    r.append(": ");
    r.append(path);
    r
}

/// The four kinds of failure.
#[derive(Clone, Copy, Debug, PartialEq, Eq, Structural)]
pub enum ErrorKind {
    /// The request contradicts itself.
    ConfigurationError,
    /// The request is well formed, but not allowed as things stand.
    PolicyRejection,
    /// The platform refused to create a directory or a file, or to write.
    FilesystemError,
    /// The file was written, but could not be marked executable.
    ExecutableMarkingFailed,
}

/// Why no plan was made. Nothing has been touched when one of these is
/// reported.
#[derive(Clone, Copy, Debug, PartialEq, Eq, Structural)]
pub enum DecisionError {
    /// Both a file and a directory were asked for.
    ConflictingTypeOverride,
    /// An entry stands at the path and may not be overwritten.
    EntryAlreadyExists,
    /// A directory was to be made executable.
    ExecutableOnDirectory,
    /// Input is waiting, and a directory cannot take it.
    UnexpectedInputForDirectory,
}

/// Why a plan could not be carried out to its end. Part of it may have been
/// carried out.
#[derive(Clone, Copy, Debug, PartialEq, Eq, Structural)]
pub enum ExecutionError {
    /// A directory or the file could not be created, or the input could not
    /// be written.
    FilesystemError,
    /// The file stands with its content, but is not marked executable.
    ExecutableMarkingFailed,
}

impl ErrorKind {
    /// Whether a failure of this kind is found before anything is created.
    pub open spec fn spec_leaves_filesystem_untouched(self) -> bool {
        self == ErrorKind::ConfigurationError || self == ErrorKind::PolicyRejection
    }

    /// Whether a failure of this kind is found before anything is created.
    /// After one of the other kinds, directories or the file may stand.
    #[verifier::when_used_as_spec(spec_leaves_filesystem_untouched)]
    pub fn leaves_filesystem_untouched(self) -> (r: bool)
        ensures
            r == self.spec_leaves_filesystem_untouched(),
    {
        match self {
            ErrorKind::ConfigurationError | ErrorKind::PolicyRejection => true,
            ErrorKind::FilesystemError | ErrorKind::ExecutableMarkingFailed => false,
        }
    }
}

impl DecisionError {
    /// The kind of this rejection: contradictory flags are a configuration
    /// error, everything else a rejection by policy.
    pub open spec fn spec_kind(self) -> ErrorKind {
        match self {
            DecisionError::ConflictingTypeOverride => ErrorKind::ConfigurationError,
            DecisionError::EntryAlreadyExists => ErrorKind::PolicyRejection,
            DecisionError::ExecutableOnDirectory => ErrorKind::PolicyRejection,
            DecisionError::UnexpectedInputForDirectory => ErrorKind::PolicyRejection,
        }
    }

    /// The kind of this rejection.
    #[verifier::when_used_as_spec(spec_kind)]
    pub fn kind(self) -> (r: ErrorKind)
        ensures
            r == self.spec_kind(),
    {
        match self {
            DecisionError::ConflictingTypeOverride => ErrorKind::ConfigurationError,
            DecisionError::EntryAlreadyExists => ErrorKind::PolicyRejection,
            DecisionError::ExecutableOnDirectory => ErrorKind::PolicyRejection,
            DecisionError::UnexpectedInputForDirectory => ErrorKind::PolicyRejection,
        }
    }

    /// What this rejection is, in words.
    pub open spec fn spec_message(self) -> Seq<char> {
        match self {
            DecisionError::ConflictingTypeOverride => "Cannot force both file and directory"@,
            DecisionError::EntryAlreadyExists => "Entry already exists"@,
            DecisionError::ExecutableOnDirectory => "Cannot make directory executable"@,
            DecisionError::UnexpectedInputForDirectory => "Cannot create directory with stdin data"@,
        }
    }

    /// What this rejection is, in words.
    pub fn message(self) -> (r: &'static str)
        ensures
            r@ == self.spec_message(),
    {
        match self {
            DecisionError::ConflictingTypeOverride => "Cannot force both file and directory",
            DecisionError::EntryAlreadyExists => "Entry already exists",
            DecisionError::ExecutableOnDirectory => "Cannot make directory executable",
            DecisionError::UnexpectedInputForDirectory => "Cannot create directory with stdin data",
        }
    }

    /// What to tell the user: what this rejection is, and the path that was
    /// asked for.
    pub fn describe(self, path: &str) -> (r: String)
        ensures
            r@ == spec_with_path(self.spec_message(), path@),
    {
        with_path(self.message(), path)
    }
}

impl ExecutionError {
    /// The kind of this failure.
    pub open spec fn spec_kind(self) -> ErrorKind {
        match self {
            ExecutionError::FilesystemError => ErrorKind::FilesystemError,
            ExecutionError::ExecutableMarkingFailed => ErrorKind::ExecutableMarkingFailed,
        }
    }

    /// The kind of this failure.
    #[verifier::when_used_as_spec(spec_kind)]
    pub fn kind(self) -> (r: ErrorKind)
        ensures
            r == self.spec_kind(),
    {
        match self {
            ExecutionError::FilesystemError => ErrorKind::FilesystemError,
            ExecutionError::ExecutableMarkingFailed => ErrorKind::ExecutableMarkingFailed,
        }
    }

    /// What this failure is, in words. Both messages say what may stand
    /// already.
    pub open spec fn spec_message(self) -> Seq<char> {
        match self {
            ExecutionError::FilesystemError =>
                "Filesystem operation failed; part of the entry may have been created"@,
            ExecutionError::ExecutableMarkingFailed =>
                "Unsuccessful in setting file executable; the file was created"@,
        }
    }

    /// What this failure is, in words.
    pub fn message(self) -> (r: &'static str)
        ensures
            r@ == self.spec_message(),
    {
        match self {
            ExecutionError::FilesystemError =>
                "Filesystem operation failed; part of the entry may have been created",
            ExecutionError::ExecutableMarkingFailed =>
                "Unsuccessful in setting file executable; the file was created",
        }
    }

    /// What to tell the user: what this failure is, and the path that was
    /// asked for.
    pub fn describe(self, path: &str) -> (r: String)
        ensures
            r@ == spec_with_path(self.spec_message(), path@),
    {
        with_path(self.message(), path)
    }
}

} // verus!
