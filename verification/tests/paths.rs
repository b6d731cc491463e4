//! The final segment of a path, its extension, and the table of executable
//! extensions.

use mk::extensions::{extension_table, is_executable_extension, same_bytes};
use mk::path::{
    extension, final_segment, path_extension, path_suffix, suffix, tail_start, DOT, SEPARATOR,
};

#[test]
fn separator_and_dot_are_the_ascii_bytes() {
    assert_eq!(SEPARATOR, b'/');
    assert_eq!(DOT, b'.');
}

#[test]
fn tail_starts_behind_the_last_delimiter() {
    assert_eq!(tail_start(b"foo/bar/baz.txt", SEPARATOR), 8);
    assert_eq!(tail_start(b"foo/bar/baz.txt", DOT), 12);
    assert_eq!(tail_start(b"foo/", SEPARATOR), 4);
    assert_eq!(tail_start(b"/", SEPARATOR), 1);
}

#[test]
fn tail_is_the_whole_without_a_delimiter() {
    assert_eq!(tail_start(b"foo", SEPARATOR), 0);
    assert_eq!(tail_start(b"", SEPARATOR), 0);
    assert_eq!(tail_start(b"foo", DOT), 0);
}

#[test]
fn final_segment_is_the_last_name() {
    assert_eq!(final_segment(b"foo/bar/baz.txt"), Some(&b"baz.txt"[..]));
    assert_eq!(final_segment(b"/work/foo"), Some(&b"foo"[..]));
    assert_eq!(final_segment(b"foo"), Some(&b"foo"[..]));
    assert_eq!(final_segment(b"/work/.dir"), Some(&b".dir"[..]));
}

#[test]
fn final_segment_skips_trailing_separators() {
    assert_eq!(final_segment(b"foo/bar/"), Some(&b"bar"[..]));
    assert_eq!(final_segment(b"foo/bar///"), Some(&b"bar"[..]));
    assert_eq!(final_segment(b"foo.txt/"), Some(&b"foo.txt"[..]));
}

#[test]
fn final_segment_skips_current_dir_segments() {
    assert_eq!(final_segment(b"foo/."), Some(&b"foo"[..]));
    assert_eq!(final_segment(b"foo/./"), Some(&b"foo"[..]));
    assert_eq!(final_segment(b"foo/././/."), Some(&b"foo"[..]));
    assert_eq!(final_segment(b"./foo"), Some(&b"foo"[..]));
}

#[test]
fn paths_without_a_final_segment() {
    assert_eq!(final_segment(b""), None);
    assert_eq!(final_segment(b"/"), None);
    assert_eq!(final_segment(b"///"), None);
    assert_eq!(final_segment(b"."), None);
    assert_eq!(final_segment(b"./"), None);
    assert_eq!(final_segment(b"./."), None);
    assert_eq!(final_segment(b"/."), None);
}

#[test]
fn parent_dir_ends_the_search() {
    assert_eq!(final_segment(b".."), None);
    assert_eq!(final_segment(b"foo/.."), None);
    assert_eq!(final_segment(b"foo/../"), None);
    assert_eq!(final_segment(b"foo/../."), None);
    assert_eq!(final_segment(b"foo.txt/.."), None);
}

#[test]
fn dots_inside_a_name_do_not_make_it_special() {
    assert_eq!(final_segment(b"foo/..."), Some(&b"..."[..]));
    assert_eq!(final_segment(b"foo/..a"), Some(&b"..a"[..]));
    assert_eq!(final_segment(b"foo/a.."), Some(&b"a.."[..]));
    assert_eq!(final_segment(b"foo/.a"), Some(&b".a"[..]));
}

#[test]
fn extension_stands_behind_the_last_dot() {
    assert_eq!(extension(b"baz.txt"), Some(&b"txt"[..]));
    assert_eq!(extension(b"archive.tar.gz"), Some(&b"gz"[..]));
    assert_eq!(extension(b"a.b"), Some(&b"b"[..]));
    assert_eq!(extension(b"script.SH"), Some(&b"SH"[..]));
}

#[test]
fn extension_can_be_empty() {
    assert_eq!(extension(b"foo."), Some(&b""[..]));
    assert_eq!(extension(b"foo.."), Some(&b""[..]));
}

#[test]
fn names_without_a_dot_have_no_extension() {
    assert_eq!(extension(b"foo"), None);
    assert_eq!(extension(b"dir_like"), None);
    assert_eq!(extension(b""), None);
}

#[test]
fn names_that_begin_with_a_dot_have_no_extension() {
    assert_eq!(extension(b".dir"), None);
    assert_eq!(extension(b".config.d"), None);
    assert_eq!(extension(b".profile.sh"), None);
    assert_eq!(extension(b"."), None);
    assert_eq!(extension(b".."), None);
    assert_eq!(extension(b"..."), None);
}

#[test]
fn suffix_stands_behind_the_last_dot() {
    assert_eq!(suffix(b"baz.txt"), Some(&b"txt"[..]));
    assert_eq!(suffix(b"archive.tar.gz"), Some(&b"gz"[..]));
    assert_eq!(suffix(b"foo."), Some(&b""[..]));
    assert_eq!(suffix(b"script.SH"), Some(&b"SH"[..]));
}

#[test]
fn leading_dot_does_not_hide_a_later_suffix() {
    assert_eq!(suffix(b".profile.sh"), Some(&b"sh"[..]));
    assert_eq!(suffix(b".a.sh"), Some(&b"sh"[..]));
    assert_eq!(suffix(b"..sh"), Some(&b"sh"[..]));
    assert_eq!(suffix(b".config.d"), Some(&b"d"[..]));
    assert_eq!(suffix(b"..."), Some(&b""[..]));
}

#[test]
fn leading_dot_alone_makes_no_suffix() {
    assert_eq!(suffix(b".sh"), None);
    assert_eq!(suffix(b".dir"), None);
    assert_eq!(suffix(b"."), None);
    assert_eq!(suffix(b"foo"), None);
    assert_eq!(suffix(b""), None);
}

#[test]
fn extension_is_the_suffix_of_a_name_without_leading_dot() {
    for name in ["baz.txt", "a.b.c", "foo.", "foo", "x", "", "a..b"] {
        assert_eq!(extension(name.as_bytes()), suffix(name.as_bytes()), "{}", name);
    }
    for name in [".profile.sh", ".a", "..sh", "...", "."] {
        assert_eq!(extension(name.as_bytes()), None, "{}", name);
    }
}

#[test]
fn path_suffix_is_that_of_the_final_segment() {
    assert_eq!(path_suffix(b"foo/bar/baz.txt"), Some(&b"txt"[..]));
    assert_eq!(path_suffix(b"/r/.profile.sh"), Some(&b"sh"[..]));
    assert_eq!(path_suffix(b"/r/.profile.sh/"), Some(&b"sh"[..]));
    assert_eq!(path_suffix(b"/r/.profile"), None);
    assert_eq!(path_suffix(b"foo.d/bar"), None);
    assert_eq!(path_suffix(b"foo/bar.sh/.."), None);
    assert_eq!(path_suffix(b"foo/.."), None);
    assert_eq!(path_suffix(b""), None);
}

#[test]
fn path_extension_is_that_of_the_final_segment() {
    assert_eq!(path_extension(b"foo/bar/baz.txt"), Some(&b"txt"[..]));
    assert_eq!(path_extension(b"foo.d/bar"), None);
    assert_eq!(path_extension(b"foo.d/bar/"), None);
    assert_eq!(path_extension(b"foo/bar.txt/"), Some(&b"txt"[..]));
    assert_eq!(path_extension(b"foo/bar.txt/."), Some(&b"txt"[..]));
    assert_eq!(path_extension(b"foo/bar.txt/.."), None);
    assert_eq!(path_extension(b"foo/.hidden.txt"), None);
    assert_eq!(path_extension(b""), None);
}

#[test]
fn table_holds_the_known_extensions_in_order() {
    let table = extension_table();

    assert_eq!(table.len(), 24);
    assert_eq!(
        table.to_vec(),
        vec![
            "exe", "bat", "cmd", "com", "ps1", "vbs", "msi", "scr", "sh", "bash", "zsh", "ksh",
            "run", "bin", "cgi", "py", "pl", "rb", "php", "jar", "appimage", "apk", "wasm", "pyz",
        ]
    );
}

#[test]
fn every_table_entry_is_found() {
    for word in extension_table() {
        assert!(is_executable_extension(word.as_bytes()), "{}", word);
    }
}

#[test]
fn table_entries_are_plain_lower_case_words() {
    for word in extension_table() {
        assert!(!word.is_empty());
        assert!(word.bytes().all(|b| b.is_ascii_lowercase() || b.is_ascii_digit()), "{}", word);
    }
}

#[test]
fn lookup_is_exact() {
    assert!(is_executable_extension(b"sh"));
    assert!(is_executable_extension(b"appimage"));
    assert!(!is_executable_extension(b"SH"));
    assert!(!is_executable_extension(b"Sh"));
    assert!(!is_executable_extension(b"txt"));
    assert!(!is_executable_extension(b""));
    assert!(!is_executable_extension(b"s"));
    assert!(!is_executable_extension(b"shh"));
    assert!(!is_executable_extension(b".sh"));
    assert!(!is_executable_extension(b"sh "));
    assert!(!is_executable_extension(&[0x73, 0xff]));
}

#[test]
fn same_bytes_compares_length_and_content() {
    assert!(same_bytes(b"", b""));
    assert!(same_bytes(b"abc", b"abc"));
    assert!(!same_bytes(b"abc", b"abd"));
    assert!(!same_bytes(b"abc", b"ab"));
    assert!(!same_bytes(b"ab", b"abc"));
    assert!(!same_bytes(b"xbc", b"abc"));
}
