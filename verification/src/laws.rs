//! What holds of every decision, whatever the request.

use vstd::prelude::*;
use crate::decision::{
    spec_depends_on_existing, spec_depends_on_input, spec_has_executable_extension,
    spec_looks_like_file, spec_plan, spec_resolve_type,
};
use crate::error::{DecisionError, ErrorKind};
use crate::extensions::{is_plain_word, lemma_table_is_plain, spec_is_executable_extension};
use crate::path::{
    is_dir_prefix, is_name, law_suffix_needs_inner_dot, lemma_extension_of_joined,
    lemma_final_segment_behind_prefix, lemma_final_segment_of_joined, lemma_suffix_of_joined,
    spec_final_segment, spec_path_extension, spec_path_suffix, DOT, SEPARATOR,
};
use crate::plan::PlanView;
use crate::target::{EntryKind, InputAvailability, Target};

verus! {

/// Without a flag the extension decides. A path whose final segment has an
/// extension that is not empty is resolved as a file. A path whose final
/// segment has no extension, or an empty one, and a path without a final
/// segment, is resolved as a directory.
pub proof fn law_extension_decides_kind(target: Target)
    requires
        !target.force_file,
        !target.force_directory,
    ensures
        spec_path_extension(target.path) matches Some(ext) && ext.len() > 0 ==> spec_resolve_type(
            target,
        ) == Ok::<EntryKind, DecisionError>(EntryKind::File),
        spec_path_extension(target.path) is None ==> spec_resolve_type(target) == Ok::<
            EntryKind,
            DecisionError,
        >(EntryKind::Directory),
        spec_path_extension(target.path) matches Some(ext) && ext.len() == 0 ==> spec_resolve_type(
            target,
        ) == Ok::<EntryKind, DecisionError>(EntryKind::Directory),
        spec_final_segment(target.path) is None ==> spec_resolve_type(target) == Ok::<
            EntryKind,
            DecisionError,
        >(EntryKind::Directory),
{
}

/// Without a flag, a path whose final segment begins with a dot is resolved
/// as a directory, whatever dots follow in the segment.
pub proof fn law_leading_dot_is_directory(target: Target)
    requires
        !target.force_file,
        !target.force_directory,
        spec_final_segment(target.path) matches Some(segment) && segment.len() > 0 && segment[0]
            == DOT,
    ensures
        spec_resolve_type(target) == Ok::<EntryKind, DecisionError>(EntryKind::Directory),
{
}

/// Without a flag, a path that ends in a stem, a dot and an extension is
/// resolved as a file, whatever directories stand before the stem: the stem
/// and the extension are not empty and hold no separator, the stem does not
/// begin with a dot, and the extension holds no dot.
pub proof fn law_stem_and_extension_is_file(
    target: Target,
    dir: Seq<u8>,
    stem: Seq<u8>,
    ext: Seq<u8>,
)
    requires
        !target.force_file,
        !target.force_directory,
        target.path == dir + (stem.push(DOT) + ext),
        is_dir_prefix(dir),
        stem.len() > 0 && stem[0] != DOT && !stem.contains(SEPARATOR),
        ext.len() > 0 && !ext.contains(DOT) && !ext.contains(SEPARATOR),
    ensures
        spec_path_extension(target.path) == Some(ext),
        spec_resolve_type(target) == Ok::<EntryKind, DecisionError>(EntryKind::File),
{
    let name = stem.push(DOT) + ext;
    assert(name[0] == stem[0]);
    assert(!name.contains(SEPARATOR)) by {
        if name.contains(SEPARATOR) {
            let i = choose|i: int| 0 <= i < name.len() && name[i] == SEPARATOR;
            if i < stem.len() {
                assert(stem[i] == SEPARATOR);
            } else if i > stem.len() {
                assert(ext[i - stem.len() - 1] == SEPARATOR);
            }
        }
    }
    lemma_final_segment_of_joined(dir, name);
    lemma_extension_of_joined(stem, ext);
}

/// Without a flag, a path that ends in a name without a dot is resolved as
/// a directory.
pub proof fn law_name_without_dot_is_directory(target: Target, dir: Seq<u8>, name: Seq<u8>)
    requires
        !target.force_file,
        !target.force_directory,
        target.path == dir + name,
        is_dir_prefix(dir),
        is_name(name),
        !name.contains(DOT),
    ensures
        spec_path_extension(target.path) is None,
        spec_resolve_type(target) == Ok::<EntryKind, DecisionError>(EntryKind::Directory),
{
    lemma_final_segment_of_joined(dir, name);
    law_suffix_needs_inner_dot(name);
}

/// Without a flag, a path that ends in a name that begins with a dot is
/// resolved as a directory, whatever follows the dot.
pub proof fn law_hidden_name_is_directory(target: Target, dir: Seq<u8>, name: Seq<u8>)
    requires
        !target.force_file,
        !target.force_directory,
        target.path == dir + name,
        is_dir_prefix(dir),
        is_name(name),
        name[0] == DOT,
    ensures
        spec_resolve_type(target) == Ok::<EntryKind, DecisionError>(EntryKind::Directory),
{
    lemma_final_segment_of_joined(dir, name);
}

/// A word of the table behind the last dot of a name makes the name that
/// of a file, unless the name begins with a dot. So without a flag, a path
/// whose final segment does not begin with a dot and ends in a dot and a
/// word of the table is resolved as a file, and the file is executable.
pub proof fn law_executable_extension_is_file(target: Target)
    requires
        spec_has_executable_extension(target.path),
        spec_final_segment(target.path) matches Some(segment) && segment.len() > 0 && segment[0]
            != DOT,
    ensures
        spec_looks_like_file(target.path),
        target.is_consistent() && !target.force_directory ==> spec_plan(
            target,
            false,
            InputAvailability::Absent,
        ) == Ok::<PlanView, DecisionError>(
            PlanView { kind: EntryKind::File, overwrite: target.overwrite, executable: true },
        ),
{
    lemma_table_is_plain();
}

/// Whether a file is executable goes by what stands behind the last dot of
/// its name, wherever that dot is not the first byte of the name. A name
/// that is a front, a dot and a word of the table has an executable
/// extension, whatever the front begins with and whatever directories stand
/// before it: the front is not empty and holds no separator. A file that is
/// asked for under such a name is executable, with or without the flag.
pub proof fn law_table_word_is_executable(
    target: Target,
    dir: Seq<u8>,
    front: Seq<u8>,
    word: Seq<u8>,
    existing: bool,
    input: InputAvailability,
)
    requires
        target.path == dir + (front.push(DOT) + word),
        is_dir_prefix(dir),
        front.len() > 0 && !front.contains(SEPARATOR),
        spec_is_executable_extension(word),
    ensures
        spec_path_suffix(target.path) == Some(word),
        spec_has_executable_extension(target.path),
        spec_plan(target, existing, input) matches Ok(made) ==> made.executable == (made.kind
            == EntryKind::File),
{
    lemma_table_is_plain();
    assert(is_plain_word(word));
    assert(!word.contains(DOT) && !word.contains(SEPARATOR)) by {
        if word.contains(DOT) {
            let i = choose|i: int| 0 <= i < word.len() && word[i] == DOT;
            assert(word[i] == DOT);
        }
        if word.contains(SEPARATOR) {
            let i = choose|i: int| 0 <= i < word.len() && word[i] == SEPARATOR;
            assert(word[i] == SEPARATOR);
        }
    }
    let name = front.push(DOT) + word;
    assert(!name.contains(SEPARATOR)) by {
        if name.contains(SEPARATOR) {
            let i = choose|i: int| 0 <= i < name.len() && name[i] == SEPARATOR;
            if i < front.len() {
                assert(front[i] == SEPARATOR);
            } else if i > front.len() {
                assert(word[i - front.len() - 1] == SEPARATOR);
            }
        }
    }
    assert(name.len() >= 3);
    lemma_final_segment_of_joined(dir, name);
    lemma_suffix_of_joined(front, word);
}

/// Without a dot behind its first byte a name has no executable extension:
/// a file under a name without a dot, or under a name whose only dot is its
/// first byte, is executable only where the flag asks for it.
pub proof fn law_no_inner_dot_is_not_executable(
    target: Target,
    dir: Seq<u8>,
    name: Seq<u8>,
    existing: bool,
    input: InputAvailability,
)
    requires
        target.path == dir + name,
        is_dir_prefix(dir),
        is_name(name),
        !name.drop_first().contains(DOT),
    ensures
        !spec_has_executable_extension(target.path),
        spec_plan(target, existing, input) matches Ok(made) ==> made.executable == (made.kind
            == EntryKind::File && target.force_executable),
{
    lemma_final_segment_of_joined(dir, name);
    law_suffix_needs_inner_dot(name);
    if name[0] != DOT && name.contains(DOT) {
        let i = choose|i: int| 0 <= i < name.len() && name[i] == DOT;
        assert(name.drop_first()[i - 1] == DOT);
    }
}

/// The directory that a path is taken from plays no role in the decision,
/// where the path has a final segment of its own: with the same flags, the
/// same state of the path and the same state of the input, the decision for
/// the path behind a directory prefix is the decision for the path alone.
pub proof fn law_prefix_plays_no_role(
    target: Target,
    dir: Seq<u8>,
    existing: bool,
    input: InputAvailability,
)
    requires
        is_dir_prefix(dir),
        spec_final_segment(target.path) is Some,
    ensures
        spec_plan(Target { path: dir + target.path, ..target }, existing, input) == spec_plan(
            target,
            existing,
            input,
        ),
{
    lemma_final_segment_behind_prefix(dir, target.path);
}

/// A single flag decides the kind of entry, whatever the path looks like.
pub proof fn law_single_flag_decides(target: Target)
    requires
        target.is_consistent(),
    ensures
        target.force_file ==> spec_resolve_type(target) == Ok::<EntryKind, DecisionError>(
            EntryKind::File,
        ),
        target.force_directory ==> spec_resolve_type(target) == Ok::<EntryKind, DecisionError>(
            EntryKind::Directory,
        ),
{
}

/// Both flags together are a configuration error, for any path, whether or
/// not an entry stands there and whether or not input is waiting. No other
/// request is one.
pub proof fn law_conflicting_flags_are_refused(
    target: Target,
    existing: bool,
    input: InputAvailability,
)
    ensures
        target.force_file && target.force_directory ==> {
            &&& spec_resolve_type(target) == Err::<EntryKind, DecisionError>(
                DecisionError::ConflictingTypeOverride,
            )
            &&& spec_plan(target, existing, input) == Err::<PlanView, DecisionError>(
                DecisionError::ConflictingTypeOverride,
            )
        },
        DecisionError::ConflictingTypeOverride.spec_kind() == ErrorKind::ConfigurationError,
        (spec_plan(target, existing, input) matches Err(error) && error.spec_kind()
            == ErrorKind::ConfigurationError) <==> !target.is_consistent(),
{
}

/// Where an entry stands at the path and overwriting is not allowed, a
/// request with consistent flags is rejected by policy, as an entry that
/// already exists, whatever the path and the input. No plan is made, and the
/// rejection is of a kind that is found before anything is created.
pub proof fn law_existing_entry_is_kept(target: Target, input: InputAvailability)
    requires
        target.is_consistent(),
        !target.overwrite,
    ensures
        spec_plan(target, true, input) == Err::<PlanView, DecisionError>(
            DecisionError::EntryAlreadyExists,
        ),
        DecisionError::EntryAlreadyExists.spec_kind() == ErrorKind::PolicyRejection,
        DecisionError::EntryAlreadyExists.spec_kind().spec_leaves_filesystem_untouched(),
{
}

/// Where overwriting is allowed, an entry that stands at the path changes
/// nothing: the decision is the one that is made where none stands.
pub proof fn law_overwrite_ignores_existing(target: Target, input: InputAvailability)
    requires
        target.overwrite,
    ensures
        spec_plan(target, true, input) == spec_plan(target, false, input),
{
}

/// Where overwriting is allowed and an entry stands at the path, a plan is
/// made that permits to replace it, unless the request is refused for
/// another reason: flags that contradict each other, or a directory that is
/// to be executable or for which input is waiting.
pub proof fn law_overwrite_replaces(target: Target, input: InputAvailability)
    requires
        target.overwrite,
        target.is_consistent(),
        spec_resolve_type(target) == Ok::<EntryKind, DecisionError>(EntryKind::Directory) ==> {
            &&& !target.force_executable
            &&& input == InputAvailability::Absent
        },
    ensures
        spec_plan(target, true, input) matches Ok(made) && made.overwrite && spec_resolve_type(
            target,
        ) == Ok::<EntryKind, DecisionError>(made.kind),
{
}

/// Whether an entry stands at the path plays a role in the decision
/// exactly where the flags are consistent and overwriting is not allowed.
/// Elsewhere the path need not be looked at.
pub proof fn law_existing_matters_where_said(target: Target, input: InputAvailability)
    ensures
        spec_depends_on_existing(target) <==> spec_plan(target, true, input) != spec_plan(
            target,
            false,
            input,
        ),
{
}

/// Whether input is waiting plays a role in the decision exactly for a
/// directory that passes the checks before it: the flags are consistent, no
/// entry stands in the way, and the directory is not to be executable.
/// Elsewhere the input need not be looked at.
pub proof fn law_input_matters_where_said(target: Target, existing: bool)
    ensures
        spec_depends_on_input(target, existing) <==> spec_plan(
            target,
            existing,
            InputAvailability::Present,
        ) != spec_plan(target, existing, InputAvailability::Absent),
        !spec_depends_on_existing(target) ==> spec_depends_on_input(target, existing)
            == spec_depends_on_input(target, false),
{
}

/// A directory takes no input. Where the request resolves to a directory and
/// input is waiting, it is rejected by policy, and no plan is made. The
/// reason is the input, unless one of the earlier checks fails first.
pub proof fn law_directory_rejects_input(target: Target, existing: bool)
    requires
        spec_resolve_type(target) == Ok::<EntryKind, DecisionError>(EntryKind::Directory),
    ensures
        spec_plan(target, existing, InputAvailability::Present) matches Err(error)
            && error.spec_kind() == ErrorKind::PolicyRejection
            && error.spec_kind().spec_leaves_filesystem_untouched(),
        !(existing && !target.overwrite) && !target.force_executable ==> spec_plan(
            target,
            existing,
            InputAvailability::Present,
        ) == Err::<PlanView, DecisionError>(DecisionError::UnexpectedInputForDirectory),
{
}

/// A file takes any input: whether input is waiting plays no role in the
/// decision for a file.
pub proof fn law_file_accepts_input(target: Target, existing: bool)
    requires
        spec_resolve_type(target) == Ok::<EntryKind, DecisionError>(EntryKind::File),
    ensures
        spec_plan(target, existing, InputAvailability::Present) == spec_plan(
            target,
            existing,
            InputAvailability::Absent,
        ),
{
}

/// A directory is never executable: where the request resolves to a
/// directory and asks for the mark, it is rejected by policy.
pub proof fn law_directory_rejects_executable(
    target: Target,
    existing: bool,
    input: InputAvailability,
)
    requires
        spec_resolve_type(target) == Ok::<EntryKind, DecisionError>(EntryKind::Directory),
        target.force_executable,
    ensures
        spec_plan(target, existing, input) matches Err(error) && error.spec_kind()
            == ErrorKind::PolicyRejection,
        !(existing && !target.overwrite) ==> spec_plan(target, existing, input) == Err::<
            PlanView,
            DecisionError,
        >(DecisionError::ExecutableOnDirectory),
{
}

/// The flag makes any file executable, whatever its name; without the flag
/// a file is executable exactly if what stands behind the last dot of its
/// name is in the table.
pub proof fn law_executable_flag_wins(target: Target, existing: bool, input: InputAvailability)
    requires
        spec_plan(target, existing, input) matches Ok(made) && made.kind == EntryKind::File,
    ensures
        target.force_executable ==> spec_plan(target, existing, input)->Ok_0.executable,
        !target.force_executable ==> spec_plan(target, existing, input)->Ok_0.executable
            == spec_has_executable_extension(target.path),
{
}

/// Every plan that is made is valid and comes from consistent flags. It is
/// for the kind of entry that the request resolves to, and carries the
/// permission to overwrite as it was given. It was made either where no
/// entry stood or with that permission, and a plan for a directory was made
/// where no input was waiting.
pub proof fn law_plans_are_valid(target: Target, existing: bool, input: InputAvailability)
    ensures
        spec_plan(target, existing, input) matches Ok(made) ==> {
            &&& made.is_valid()
            &&& made.overwrite == target.overwrite
            &&& !existing || made.overwrite
            &&& target.is_consistent()
            &&& spec_resolve_type(target) == Ok::<EntryKind, DecisionError>(made.kind)
            &&& made.kind == EntryKind::Directory ==> input == InputAvailability::Absent
        },
{
}

/// Every rejection is found before anything is created.
pub proof fn law_rejections_touch_nothing(error: DecisionError)
    ensures
        error.spec_kind().spec_leaves_filesystem_untouched(),
{
}

} // verus!
