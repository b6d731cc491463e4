//! Paths as byte strings: the final segment of a path, its suffix and its
//! extension.
//!
//! The suffix of a segment is what stands behind its last dot, unless that
//! dot is the first byte of the segment. The extension is the suffix of a
//! segment that does not begin with a dot: a segment that begins with one has
//! no extension, whatever follows, but it may have a suffix. Whether a file is
//! executable goes by the suffix; whether a path names a file goes by the
//! extension.

use vstd::prelude::*;

verus! {

/// The byte `/`, which delimits the segments of a path.
pub const SEPARATOR: u8 = 0x2f;

/// The byte `.`, which introduces an extension and spells the two special
/// segments `.` and `..`.
pub const DOT: u8 = 0x2e;

/// The segment `.`, which names the directory it stands in.
pub open spec fn current_dir() -> Seq<u8> {
    seq![DOT]
}

/// The segment `..`, which names the directory above.
pub open spec fn parent_dir() -> Seq<u8> {
    seq![DOT, DOT]
}

/// `k` is where the part of `bytes` behind its last `delimiter` begins: no
/// delimiter occurs from `k` on, and `k` is 0 or stands just behind one.
pub open spec fn is_tail_start(bytes: Seq<u8>, delimiter: u8, k: int) -> bool {
    &&& 0 <= k <= bytes.len()
    &&& k == 0 || bytes[k - 1] == delimiter
    &&& forall|i: int| k <= i < bytes.len() ==> bytes[i] != delimiter
}

/// The index just behind the last `delimiter` in `bytes`, 0 where there is
/// none.
pub open spec fn spec_tail_start(bytes: Seq<u8>, delimiter: u8) -> int
    decreases bytes.len(),
{
    if bytes.len() == 0 {
        0
    } else if bytes.last() == delimiter {
        bytes.len() as int
    } else {
        spec_tail_start(bytes.drop_last(), delimiter)
    }
}

/// The part of `bytes` behind its last `delimiter`; all of `bytes` where there
/// is none.
pub open spec fn tail(bytes: Seq<u8>, delimiter: u8) -> Seq<u8> {
    bytes.subrange(spec_tail_start(bytes, delimiter), bytes.len() as int)
}

/// `spec_tail_start` is the one index that `is_tail_start` describes.
pub proof fn lemma_tail_start(bytes: Seq<u8>, delimiter: u8)
    ensures
        is_tail_start(bytes, delimiter, spec_tail_start(bytes, delimiter)),
        forall|k: int|
            is_tail_start(bytes, delimiter, k) ==> k == spec_tail_start(bytes, delimiter),
    decreases bytes.len(),
{
    if bytes.len() > 0 && bytes.last() != delimiter {
        let shorter = bytes.drop_last();
        lemma_tail_start(shorter, delimiter);
        let found = spec_tail_start(shorter, delimiter);
        assert forall|i: int| found <= i < bytes.len() implies bytes[i] != delimiter by {
            if i < shorter.len() {
                assert(bytes[i] == shorter[i]);
            }
        }
        assert(found == 0 || bytes[found - 1] == shorter[found - 1]);
        assert forall|k: int| is_tail_start(bytes, delimiter, k) implies k == found by {
            assert(k < bytes.len());
            assert(is_tail_start(shorter, delimiter, k));
        }
    } else if bytes.len() > 0 {
        assert forall|k: int| is_tail_start(bytes, delimiter, k) implies k == bytes.len() by {
            if k < bytes.len() {
                assert(bytes[bytes.len() - 1] != delimiter);
            }
        }
    }
}

/// Finds the index just behind the last `delimiter` in `bytes`.
pub fn tail_start(bytes: &[u8], delimiter: u8) -> (k: usize)
    ensures
        k == spec_tail_start(bytes@, delimiter),
        is_tail_start(bytes@, delimiter, k as int),
{
    let mut k: usize = bytes.len();
    assert(bytes@.subrange(0, k as int) == bytes@);
    while k > 0 && bytes[k - 1] != delimiter
        invariant
            k <= bytes@.len(),
            spec_tail_start(bytes@, delimiter) == spec_tail_start(
                bytes@.subrange(0, k as int),
                delimiter,
            ),
        decreases k,
    {
        assert(bytes@.subrange(0, k as int).drop_last() == bytes@.subrange(0, k - 1));
        k = k - 1;
    }
    proof {
        lemma_tail_start(bytes@, delimiter);
    }
    k
}

/// The final segment of `path`: its last segment other than `.`, trailing
/// separators left aside. A path that ends in `..`, or that holds no segment
/// but `.`, has none.
pub open spec fn spec_final_segment(path: Seq<u8>) -> Option<Seq<u8>>
    decreases path.len(),
{
    let name = tail(path, SEPARATOR);
    if path.len() == 0 {
        None
    } else if path.last() == SEPARATOR || name == current_dir() {
        spec_final_segment(path.drop_last())
    } else if name == parent_dir() {
        None
    } else {
        Some(name)
    }
}

/// The suffix of a segment: what stands behind its last dot. A segment
/// without a dot has none, and neither has one whose only dot is its first
/// byte.
pub open spec fn spec_suffix(segment: Seq<u8>) -> Option<Seq<u8>> {
    if spec_tail_start(segment, DOT) >= 2 {
        Some(tail(segment, DOT))
    } else {
        None
    }
}

/// The extension of a segment: its suffix, unless the segment begins with a
/// dot. A segment that begins with a dot has no extension, whatever follows.
pub open spec fn spec_extension(segment: Seq<u8>) -> Option<Seq<u8>> {
    if segment.len() > 0 && segment[0] == DOT {
        None
    } else {
        spec_suffix(segment)
    }
}

/// The suffix of the final segment of `path`.
pub open spec fn spec_path_suffix(path: Seq<u8>) -> Option<Seq<u8>> {
    match spec_final_segment(path) {
        Some(segment) => spec_suffix(segment),
        None => None,
    }
}

/// The extension of the final segment of `path`.
pub open spec fn spec_path_extension(path: Seq<u8>) -> Option<Seq<u8>> {
    match spec_final_segment(path) {
        Some(segment) => spec_extension(segment),
        None => None,
    }
}

/// What can be the name of an entry: a segment that is not empty, holds no
/// separator, and is neither `.` nor `..`.
pub open spec fn is_name(segment: Seq<u8>) -> bool {
    &&& segment.len() > 0
    &&& !segment.contains(SEPARATOR)
    &&& segment != current_dir()
    &&& segment != parent_dir()
}

/// What can stand before a segment: nothing, or bytes that end in a
/// separator.
pub open spec fn is_dir_prefix(dir: Seq<u8>) -> bool {
    dir.len() == 0 || dir.last() == SEPARATOR
}

/// Behind a prefix that is empty or ends in `delimiter`, the tail of the
/// whole is a `rest` that holds no delimiter.
pub proof fn lemma_tail_of_joined(front: Seq<u8>, rest: Seq<u8>, delimiter: u8)
    requires
        front.len() == 0 || front.last() == delimiter,
        !rest.contains(delimiter),
    ensures
        spec_tail_start(front + rest, delimiter) == front.len(),
        tail(front + rest, delimiter) == rest,
{
    let whole = front + rest;
    assert forall|i: int| front.len() <= i < whole.len() implies whole[i] != delimiter by {
        assert(whole[i] == rest[i - front.len()]);
        assert(rest.contains(rest[i - front.len()]));
    }
    assert(front.len() > 0 ==> whole[front.len() - 1] == front.last());
    assert(is_tail_start(whole, delimiter, front.len() as int));
    lemma_tail_start(whole, delimiter);
    assert(whole.subrange(front.len() as int, whole.len() as int) == rest);
}

/// A final segment is a name.
pub proof fn law_final_segment_is_name(path: Seq<u8>)
    ensures
        spec_final_segment(path) matches Some(segment) ==> is_name(segment),
    decreases path.len(),
{
    if path.len() > 0 {
        lemma_tail_start(path, SEPARATOR);
        law_final_segment_is_name(path.drop_last());
    }
}

/// A name behind a directory prefix is the final segment of the two
/// together.
pub proof fn lemma_final_segment_of_joined(dir: Seq<u8>, name: Seq<u8>)
    requires
        is_dir_prefix(dir),
        is_name(name),
    ensures
        spec_final_segment(dir + name) == Some(name),
{
    lemma_tail_of_joined(dir, name, SEPARATOR);
    let path = dir + name;
    assert(path.last() == name.last());
    assert(name.contains(name.last()));
}

/// What stands before a path plays no role for its final segment, where the
/// path has one: the final segment of a relative path is the same from
/// whatever directory the path is taken.
pub proof fn lemma_final_segment_behind_prefix(dir: Seq<u8>, path: Seq<u8>)
    requires
        is_dir_prefix(dir),
        spec_final_segment(path) is Some,
    ensures
        spec_final_segment(dir + path) == spec_final_segment(path),
    decreases path.len(),
{
    let whole = dir + path;
    assert(whole.last() == path.last());
    assert(whole.drop_last() == dir + path.drop_last());
    lemma_tail_start(path, SEPARATOR);
    let start = spec_tail_start(path, SEPARATOR);
    assert(is_tail_start(whole, SEPARATOR, dir.len() + start)) by {
        if start == 0 && dir.len() > 0 {
            assert(whole[dir.len() - 1] == dir.last());
        } else if start > 0 {
            assert(whole[dir.len() + start - 1] == path[start - 1]);
        }
        assert forall|i: int| dir.len() + start <= i < whole.len() implies whole[i]
            != SEPARATOR by {
            assert(whole[i] == path[i - dir.len()]);
        }
    }
    lemma_tail_start(whole, SEPARATOR);
    assert(tail(whole, SEPARATOR) == tail(path, SEPARATOR));
    if path.last() == SEPARATOR || tail(path, SEPARATOR) == current_dir() {
        lemma_final_segment_behind_prefix(dir, path.drop_last());
    }
}

/// A separator at the end of a path does not change its final segment, and
/// neither does a segment `.` behind that.
pub proof fn law_final_segment_skips(path: Seq<u8>)
    ensures
        spec_final_segment(path.push(SEPARATOR)) == spec_final_segment(path),
        spec_final_segment(path.push(SEPARATOR).push(DOT)) == spec_final_segment(path),
{
    let slashed = path.push(SEPARATOR);
    assert(slashed.drop_last() == path);
    let dotted = slashed.push(DOT);
    assert(dotted.drop_last() == slashed);
    assert(dotted == slashed + current_dir());
    lemma_tail_of_joined(slashed, current_dir(), SEPARATOR);
}

/// A path that ends in a segment `..` has no final segment.
pub proof fn law_parent_dir_ends_the_path(dir: Seq<u8>)
    requires
        is_dir_prefix(dir),
    ensures
        spec_final_segment(dir + parent_dir()) is None,
{
    lemma_tail_of_joined(dir, parent_dir(), SEPARATOR);
    let path = dir + parent_dir();
    assert(path.last() == DOT);
}

/// A segment that has a suffix is a front, a dot and the suffix, in this
/// order. The front is not empty, and the suffix holds no dot.
pub proof fn law_suffix_splits(segment: Seq<u8>)
    ensures
        spec_suffix(segment) matches Some(suffix) ==> {
            let front = segment.subrange(0, segment.len() - suffix.len() - 1);
            &&& !suffix.contains(DOT)
            &&& front.len() > 0
            &&& segment == front.push(DOT) + suffix
        },
{
    if let Some(suffix) = spec_suffix(segment) {
        lemma_tail_start(segment, DOT);
        let start = spec_tail_start(segment, DOT);
        let front = segment.subrange(0, start - 1);
        assert(!suffix.contains(DOT)) by {
            if suffix.contains(DOT) {
                let j = choose|j: int| 0 <= j < suffix.len() && suffix[j] == DOT;
                assert(segment[start + j] == DOT);
            }
        }
        assert(segment =~= front.push(DOT) + suffix);
    }
}

/// A front, a dot and a word without a dot make a segment with that word as
/// its suffix, where the front is not empty.
pub proof fn lemma_suffix_of_joined(front: Seq<u8>, suffix: Seq<u8>)
    requires
        front.len() > 0,
        !suffix.contains(DOT),
    ensures
        spec_suffix(front.push(DOT) + suffix) == Some(suffix),
{
    lemma_tail_of_joined(front.push(DOT), suffix, DOT);
}

/// A segment without a dot has no suffix, and neither has one whose only
/// dot is its first byte.
pub proof fn law_suffix_needs_inner_dot(segment: Seq<u8>)
    ensures
        !segment.contains(DOT) ==> spec_suffix(segment) is None,
        segment.len() > 0 && segment[0] == DOT && !segment.drop_first().contains(DOT)
            ==> spec_suffix(segment) is None,
{
    lemma_tail_start(segment, DOT);
    let start = spec_tail_start(segment, DOT);
    if start >= 2 {
        assert(segment.contains(segment[start - 1]));
        if segment.len() > 0 && segment[0] == DOT {
            assert(segment.drop_first()[start - 2] == DOT);
        }
    }
}

/// The extension of a segment is its suffix where the segment does not
/// begin with a dot, and there is none where it does. A segment that has an
/// extension is a stem, a dot and the extension, in this order: the stem is
/// not empty and does not begin with a dot, and the extension holds no dot.
pub proof fn law_extension_splits(segment: Seq<u8>)
    ensures
        segment.len() > 0 && segment[0] == DOT ==> spec_extension(segment) is None,
        !(segment.len() > 0 && segment[0] == DOT) ==> spec_extension(segment) == spec_suffix(
            segment,
        ),
        spec_extension(segment) matches Some(ext) ==> {
            let stem = segment.subrange(0, segment.len() - ext.len() - 1);
            &&& !ext.contains(DOT)
            &&& stem.len() > 0
            &&& stem[0] != DOT
            &&& segment == stem.push(DOT) + ext
        },
{
    law_suffix_splits(segment);
}

/// A stem, a dot and an extension make a segment with that extension, where
/// the stem is not empty and does not begin with a dot, and the extension
/// holds no dot.
pub proof fn lemma_extension_of_joined(stem: Seq<u8>, ext: Seq<u8>)
    requires
        stem.len() > 0,
        stem[0] != DOT,
        !ext.contains(DOT),
    ensures
        spec_extension(stem.push(DOT) + ext) == Some(ext),
{
    lemma_suffix_of_joined(stem, ext);
    assert((stem.push(DOT) + ext)[0] == stem[0]);
}

/// A segment that begins with a dot has no extension, whatever follows.
pub proof fn law_hidden_has_no_extension(rest: Seq<u8>)
    ensures
        spec_extension(seq![DOT] + rest) is None,
{
    assert((seq![DOT] + rest)[0] == DOT);
}

/// Whether `bytes` spells `.`.
fn is_current_dir(bytes: &[u8]) -> (r: bool)
    ensures
        r == (bytes@ == current_dir()),
{
    let r = bytes.len() == 1 && bytes[0] == DOT;
    assert(r ==> bytes@ =~= current_dir());
    assert(bytes@ == current_dir() ==> bytes@[0] == DOT);
    r
}

/// Whether `bytes` spells `..`.
fn is_parent_dir(bytes: &[u8]) -> (r: bool)
    ensures
        r == (bytes@ == parent_dir()),
{
    let r = bytes.len() == 2 && bytes[0] == DOT && bytes[1] == DOT;
    assert(r ==> bytes@ =~= parent_dir());
    assert(bytes@ == parent_dir() ==> bytes@[0] == DOT && bytes@[1] == DOT);
    r
}

/// Finds the final segment of `path`.
pub fn final_segment(path: &[u8]) -> (r: Option<&[u8]>)
    ensures
        match r {
            Some(segment) => spec_final_segment(path@) == Some(segment@),
            None => spec_final_segment(path@) is None,
        },
{
    let mut end: usize = path.len();
    assert(path@.subrange(0, end as int) == path@);
    while end > 0
        invariant
            end <= path@.len(),
            spec_final_segment(path@) == spec_final_segment(path@.subrange(0, end as int)),
        decreases end,
    {
        let prefix = &path[0..end];
        let start = tail_start(prefix, SEPARATOR);
        let name = &prefix[start..end];
        assert(name@ == tail(prefix@, SEPARATOR));
        if start == end || is_current_dir(name) {
            assert(prefix@.drop_last() == path@.subrange(0, end - 1));
            end = end - 1;
        } else if is_parent_dir(name) {
            return None;
        } else {
            return Some(name);
        }
    }
    None
}

/// Finds the suffix of `segment`.
pub fn suffix(segment: &[u8]) -> (r: Option<&[u8]>)
    ensures
        match r {
            Some(found) => spec_suffix(segment@) == Some(found@),
            None => spec_suffix(segment@) is None,
        },
{
    let start = tail_start(segment, DOT);
    if start >= 2 {
        Some(&segment[start..segment.len()])
    } else {
        None
    }
}

/// Finds the extension of `segment`.
pub fn extension(segment: &[u8]) -> (r: Option<&[u8]>)
    ensures
        match r {
            Some(ext) => spec_extension(segment@) == Some(ext@),
            None => spec_extension(segment@) is None,
        },
{
    if segment.len() > 0 && segment[0] == DOT {
        None
    } else {
        suffix(segment)
    }
}

/// Finds the suffix of the final segment of `path`.
pub fn path_suffix(path: &[u8]) -> (r: Option<&[u8]>)
    ensures
        match r {
            Some(found) => spec_path_suffix(path@) == Some(found@),
            None => spec_path_suffix(path@) is None,
        },
{
    match final_segment(path) {
        Some(segment) => suffix(segment),
        None => None,
    }
}

/// Finds the extension of the final segment of `path`.
pub fn path_extension(path: &[u8]) -> (r: Option<&[u8]>)
    ensures
        match r {
            Some(ext) => spec_path_extension(path@) == Some(ext@),
            None => spec_path_extension(path@) is None,
        },
{
    match final_segment(path) {
        Some(segment) => extension(segment),
        None => None,
    }
}

} // verus!
