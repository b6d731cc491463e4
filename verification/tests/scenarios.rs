//! Whole invocations, from the command line to what stands on the disk. The
//! disk is a map in memory: each step that an execution names is applied to
//! it.

use std::collections::BTreeMap;

use mk::decision::{depends_on_existing, depends_on_input, plan};
use mk::error::{DecisionError, ErrorKind, ExecutionError};
use mk::executor::{Execution, Phase, Step};
use mk::target::{InputAvailability, TargetSpec};

#[derive(Debug, Clone, PartialEq, Eq)]
enum Entry {
    Directory,
    File { content: Vec<u8>, executable: bool },
}

#[derive(Debug, PartialEq, Eq)]
enum Failure {
    Rejected(DecisionError),
    Failed(ExecutionError),
}

#[derive(Debug, Clone, PartialEq, Eq)]
struct Disk {
    root: Vec<u8>,
    entries: BTreeMap<Vec<u8>, Entry>,
}

impl Disk {
    fn new() -> Disk {
        let root = b"/work".to_vec();
        let mut entries = BTreeMap::new();
        entries.insert(root.clone(), Entry::Directory);
        Disk { root, entries }
    }

    fn join(&self, relative: &str) -> Vec<u8> {
        let mut path = self.root.clone();
        path.push(b'/');
        path.extend_from_slice(relative.as_bytes());
        path
    }

    fn is_dir(&self, relative: &str) -> bool {
        self.entries.get(&self.join(relative)) == Some(&Entry::Directory)
    }

    fn is_file(&self, relative: &str) -> bool {
        matches!(self.entries.get(&self.join(relative)), Some(Entry::File { .. }))
    }

    fn content(&self, relative: &str) -> Vec<u8> {
        match self.entries.get(&self.join(relative)) {
            Some(Entry::File { content, .. }) => content.clone(),
            other => panic!("not a file: {:?}", other),
        }
    }

    fn is_executable(&self, relative: &str) -> bool {
        match self.entries.get(&self.join(relative)) {
            Some(Entry::File { executable, .. }) => *executable,
            other => panic!("not a file: {:?}", other),
        }
    }

    fn create_dir_all(&mut self, path: &[u8]) -> bool {
        let mut end = 0;
        while end < path.len() {
            end += 1;
            while end < path.len() && path[end] != b'/' {
                end += 1;
            }
            match self.entries.get(&path[..end]) {
                Some(Entry::File { .. }) => return false,
                Some(Entry::Directory) => {}
                None => {
                    self.entries.insert(path[..end].to_vec(), Entry::Directory);
                }
            }
        }
        true
    }

    fn perform(&mut self, step: Step, path: &[u8], input: &[u8]) -> bool {
        match step {
            Step::CreateDirectory => self.create_dir_all(path),
            Step::CreateAncestors => {
                let cut = path.iter().rposition(|b| *b == b'/').unwrap_or(0);
                self.create_dir_all(&path[..cut])
            }
            Step::CreateFile => {
                if self.entries.get(path) == Some(&Entry::Directory) {
                    return false;
                }
                let empty = Entry::File { content: Vec::new(), executable: false };
                self.entries.insert(path.to_vec(), empty);
                true
            }
            Step::CopyInput => match self.entries.get_mut(path) {
                Some(Entry::File { content, .. }) => {
                    content.extend_from_slice(input);
                    true
                }
                _ => false,
            },
            Step::MarkExecutable => match self.entries.get_mut(path) {
                Some(Entry::File { executable, .. }) => {
                    *executable = true;
                    true
                }
                _ => false,
            },
        }
    }
}

fn parse(disk: &Disk, cmd: &str) -> TargetSpec {
    let mut target = TargetSpec::new(Vec::new());
    for word in cmd.split(" ").skip(1) {
        match word {
            "-f" | "--file" => target.force_file = true,
            "-d" | "--directory" => target.force_directory = true,
            "-o" | "--overwrite" => target.overwrite = true,
            "-x" | "--executable" => target.force_executable = true,
            relative => target.path = disk.join(relative),
        }
    }
    target
}

fn run_command_on(disk: &mut Disk, cmd: &str, stdin: &str) -> Result<(), Failure> {
    let target = parse(disk, cmd);
    let existing = depends_on_existing(&target) && disk.entries.contains_key(&target.path);
    let input = if depends_on_input(&target, existing) {
        InputAvailability::of_stream(false, stdin.len())
    } else {
        InputAvailability::Absent
    };
    let made = plan(&target, existing, input).map_err(Failure::Rejected)?;
    let mut execution = Execution::begin(made);
    while let Some(step) = execution.pending() {
        let succeeded = disk.perform(step, &target.path, stdin.as_bytes());
        execution.record(succeeded);
    }
    match execution.phase() {
        Phase::Done => Ok(()),
        Phase::Failed(error) => Err(Failure::Failed(error)),
        other => unreachable!("ended as {:?}", other),
    }
}

fn run_command_in(disk: &mut Disk, cmd: &str) -> Result<(), Failure> {
    run_command_on(disk, cmd, "")
}

fn run_command(cmd: &str) -> Result<Disk, Failure> {
    let mut disk = Disk::new();
    run_command_in(&mut disk, cmd)?;
    Ok(disk)
}

fn run_command_stdin(cmd: &str, stdin: &str) -> Result<Disk, Failure> {
    let mut disk = Disk::new();
    run_command_on(&mut disk, cmd, stdin)?;
    Ok(disk)
}

#[test]
fn creates_root_file() {
    let dir = run_command("mk foo.txt").unwrap();

    assert!(dir.is_file("foo.txt"));
}

#[test]
fn creates_root_dir() {
    let dir = run_command("mk foo").unwrap();

    assert!(dir.is_dir("foo"));
}

#[test]
fn creates_nested_file() {
    let dir = run_command("mk foo/bar/baz.txt").unwrap();

    assert!(dir.is_dir("foo"));
    assert!(dir.is_dir("foo/bar"));
    assert!(dir.is_file("foo/bar/baz.txt"));
}

#[test]
fn creates_nested_dir() {
    let dir = run_command("mk foo/bar/baz").unwrap();

    assert!(dir.is_dir("foo"));
    assert!(dir.is_dir("foo/bar"));
    assert!(dir.is_dir("foo/bar/baz"));
}

#[test]
fn creates_dot_dir() {
    let dir = run_command("mk .dir").unwrap();

    assert!(dir.is_dir(".dir"));
}

#[test]
fn creates_file_with_dash_f() {
    let dir = run_command("mk -f dir_like").unwrap();

    assert!(dir.is_file("dir_like"));
}

#[test]
fn creates_dir_with_dash_d() {
    let dir = run_command("mk -d file_like.txt").unwrap();

    assert!(dir.is_dir("file_like.txt"));
}

#[test]
fn errors_if_already_exists() {
    let mut dir = run_command("mk foo.txt").unwrap();

    assert!(run_command_in(&mut dir, "mk foo.txt").is_err());
}

#[test]
fn overwrites_existing_file() {
    let mut dir = run_command("mk foo.txt").unwrap();

    run_command_in(&mut dir, "mk -o foo.txt").unwrap();
}

#[test]
fn writes_stdin_to_created_file() {
    let dir = run_command_stdin("mk foo.txt", "some contents").unwrap();

    assert_eq!(String::from_utf8(dir.content("foo.txt")).unwrap(), "some contents");
}

#[test]
fn errors_with_stdin_for_dir() {
    assert!(run_command_stdin("mk foo", "some contents").is_err());
}

#[test]
fn marks_file_executable() {
    let dir = run_command("mk foo.sh").unwrap();

    assert!(dir.is_executable("foo.sh"));
}

#[test]
fn does_not_make_normal_file_executable() {
    let dir = run_command("mk foo.txt").unwrap();

    assert!(!dir.is_executable("foo.txt"));
}

#[test]
fn forces_executable() {
    let dir = run_command("mk -x foo.txt").unwrap();

    assert!(dir.is_executable("foo.txt"));
}

#[test]
fn nested_file_is_empty_and_not_executable() {
    let dir = run_command("mk foo/bar/baz.txt").unwrap();

    assert_eq!(dir.content("foo/bar/baz.txt"), Vec::<u8>::new());
    assert!(!dir.is_executable("foo/bar/baz.txt"));
    assert_eq!(dir.entries.len(), 4);
}

#[test]
fn forced_executable_file_without_input_is_empty() {
    let dir = run_command("mk -x plain.txt").unwrap();

    assert!(dir.is_file("plain.txt"));
    assert_eq!(dir.content("plain.txt"), Vec::<u8>::new());
    assert!(dir.is_executable("plain.txt"));
}

#[test]
fn script_is_executable_and_notes_are_not() {
    let mut dir = run_command("mk script.sh").unwrap();
    run_command_in(&mut dir, "mk notes.txt").unwrap();

    assert!(dir.is_executable("script.sh"));
    assert!(!dir.is_executable("notes.txt"));
}

#[test]
fn forced_hidden_script_is_executable() {
    let dir = run_command("mk -f .profile.sh").unwrap();

    assert!(dir.is_file(".profile.sh"));
    assert!(dir.is_executable(".profile.sh"));
}

#[test]
fn forced_hidden_notes_are_not_executable() {
    let dir = run_command("mk -f .profile.txt").unwrap();

    assert!(dir.is_file(".profile.txt"));
    assert!(!dir.is_executable(".profile.txt"));
}

#[test]
fn hidden_script_without_flag_is_a_directory() {
    let dir = run_command("mk .profile.sh").unwrap();

    assert!(dir.is_dir(".profile.sh"));
}

#[test]
fn upper_case_extension_is_not_executable() {
    let dir = run_command("mk script.SH").unwrap();

    assert!(dir.is_file("script.SH"));
    assert!(!dir.is_executable("script.SH"));
}

#[test]
fn forced_file_without_extension_is_executable_only_by_flag() {
    let mut dir = run_command("mk -f plain").unwrap();
    run_command_in(&mut dir, "mk -f -x marked").unwrap();

    assert!(!dir.is_executable("plain"));
    assert!(dir.is_executable("marked"));
}

#[test]
fn both_type_flags_are_a_configuration_error() {
    let before = Disk::new();
    let mut dir = before.clone();

    let ended = run_command_in(&mut dir, "mk --file --directory foo.txt");

    assert_eq!(ended, Err(Failure::Rejected(DecisionError::ConflictingTypeOverride)));
    assert_eq!(DecisionError::ConflictingTypeOverride.kind(), ErrorKind::ConfigurationError);
    assert_eq!(dir, before);
}

#[test]
fn existing_entry_is_left_unchanged() {
    let mut dir = run_command_stdin("mk foo.txt", "first").unwrap();
    let before = dir.clone();

    let ended = run_command_on(&mut dir, "mk foo.txt", "second");

    assert_eq!(ended, Err(Failure::Rejected(DecisionError::EntryAlreadyExists)));
    assert_eq!(DecisionError::EntryAlreadyExists.kind(), ErrorKind::PolicyRejection);
    assert_eq!(dir, before);
    assert_eq!(dir.content("foo.txt"), b"first".to_vec());
}

#[test]
fn overwrite_replaces_the_content() {
    let mut dir = run_command_stdin("mk foo.txt", "first").unwrap();

    run_command_on(&mut dir, "mk -o foo.txt", "second").unwrap();

    assert_eq!(dir.content("foo.txt"), b"second".to_vec());
}

#[test]
fn existing_directory_is_rejected_too() {
    let mut dir = run_command("mk foo/bar").unwrap();

    let ended = run_command_in(&mut dir, "mk foo");

    assert_eq!(ended, Err(Failure::Rejected(DecisionError::EntryAlreadyExists)));
}

#[test]
fn directory_with_input_creates_nothing() {
    let before = Disk::new();
    let mut dir = before.clone();

    let ended = run_command_on(&mut dir, "mk foo/bar", "x");

    assert_eq!(ended, Err(Failure::Rejected(DecisionError::UnexpectedInputForDirectory)));
    assert_eq!(DecisionError::UnexpectedInputForDirectory.kind(), ErrorKind::PolicyRejection);
    assert_eq!(dir, before);
}

#[test]
fn directory_with_empty_input_is_created() {
    let dir = run_command_stdin("mk foo", "").unwrap();

    assert!(dir.is_dir("foo"));
}

#[test]
fn executable_directory_is_rejected() {
    let before = Disk::new();
    let mut dir = before.clone();

    let ended = run_command_in(&mut dir, "mk -x foo");

    assert_eq!(ended, Err(Failure::Rejected(DecisionError::ExecutableOnDirectory)));
    assert_eq!(dir, before);
}

#[test]
fn input_is_copied_byte_for_byte() {
    let payload = "line one\nline two\r\n\ttabbed \u{e9}\u{0}end";

    let dir = run_command_stdin("mk data.bin", payload).unwrap();

    assert_eq!(dir.content("data.bin"), payload.as_bytes().to_vec());
}

#[test]
fn file_below_a_file_fails_on_the_filesystem() {
    let mut dir = run_command("mk foo.txt").unwrap();

    let ended = run_command_in(&mut dir, "mk foo.txt/bar.txt");

    assert_eq!(ended, Err(Failure::Failed(ExecutionError::FilesystemError)));
    assert_eq!(ExecutionError::FilesystemError.kind(), ErrorKind::FilesystemError);
}

#[test]
fn forced_file_over_a_directory_fails_on_the_filesystem() {
    let mut dir = run_command("mk foo").unwrap();

    let ended = run_command_in(&mut dir, "mk -f -o foo");

    assert_eq!(ended, Err(Failure::Failed(ExecutionError::FilesystemError)));
    assert!(dir.is_dir("foo"));
}
