//! The extensions that mark a file as executable by themselves.

use vstd::prelude::*;
use vstd::string::StringSliceAdditionalSpecFns;
use vstd::utf8::{encode_utf8, is_ascii_chars, is_ascii_chars_encode_utf8};

verus! {

/// The table as it is written: lower-case words without a dot, first those
/// of Windows, then those of Unix-like systems, then those that occur on
/// several platforms.
pub open spec fn extension_words() -> Seq<&'static str> {
    seq![
        "exe", "bat", "cmd", "com", "ps1", "vbs", "msi", "scr",
        "sh", "bash", "zsh", "ksh", "run", "bin", "cgi", "py", "pl", "rb", "php",
        "jar", "appimage", "apk", "wasm", "pyz",
    ]
}

/// The bytes of the extensions in the table, in its order.
pub open spec fn executable_extensions() -> Seq<Seq<u8>> {
    extension_words().map_values(|word: &'static str| word.spec_bytes())
}

/// Whether `ext` is one of the extensions in the table, byte for byte.
pub open spec fn spec_is_executable_extension(ext: Seq<u8>) -> bool {
    executable_extensions().contains(ext)
}

/// A byte that the words of the table are made of: a lower-case letter or a
/// digit.
pub open spec fn is_plain_byte(byte: u8) -> bool {
    0x61 <= byte <= 0x7a || 0x30 <= byte <= 0x39
}

/// A word of such bytes that is not empty. It holds no dot, no separator
/// and no upper-case letter.
pub open spec fn is_plain_word(word: Seq<u8>) -> bool {
    &&& word.len() > 0
    &&& forall|i: int| 0 <= i < word.len() ==> is_plain_byte(#[trigger] word[i])
}

/// The bytes of a word of lower-case letters and digits are plain.
proof fn lemma_plain_chars(chars: Seq<char>)
    requires
        chars.len() > 0,
        forall|i: int|
            0 <= i < chars.len() ==> 'a' <= #[trigger] chars[i] <= 'z' || '0' <= chars[i] <= '9',
    ensures
        is_plain_word(encode_utf8(chars)),
{
    assert(is_ascii_chars(chars));
    is_ascii_chars_encode_utf8(chars);
    let bytes = encode_utf8(chars);
    assert forall|i: int| 0 <= i < bytes.len() implies is_plain_byte(#[trigger] bytes[i]) by {
        assert(bytes[i] == chars[i] as u8);
    }
}

/// Every extension in the table is a plain word: the table is in lower
/// case, and no entry is empty or holds a dot.
pub proof fn lemma_table_is_plain()
    ensures
        forall|ext: Seq<u8>| spec_is_executable_extension(ext) ==> is_plain_word(ext),
{
    reveal_strlit("exe");
    reveal_strlit("bat");
    reveal_strlit("cmd");
    reveal_strlit("com");
    reveal_strlit("ps1");
    reveal_strlit("vbs");
    reveal_strlit("msi");
    reveal_strlit("scr");
    reveal_strlit("sh");
    reveal_strlit("bash");
    reveal_strlit("zsh");
    reveal_strlit("ksh");
    reveal_strlit("run");
    reveal_strlit("bin");
    reveal_strlit("cgi");
    reveal_strlit("py");
    reveal_strlit("pl");
    reveal_strlit("rb");
    reveal_strlit("php");
    reveal_strlit("jar");
    reveal_strlit("appimage");
    reveal_strlit("apk");
    reveal_strlit("wasm");
    reveal_strlit("pyz");
    let words = extension_words();
    assert forall|k: int| 0 <= k < words.len() implies is_plain_word(
        #[trigger] executable_extensions()[k],
    ) by {
        lemma_plain_chars(words[k]@);
    }
}

/// The table of extensions.
pub fn extension_table() -> (table: [&'static str; 24])
    ensures
        table@ == extension_words(),
{
    let table = [
        "exe", "bat", "cmd", "com", "ps1", "vbs", "msi", "scr",
        "sh", "bash", "zsh", "ksh", "run", "bin", "cgi", "py", "pl", "rb", "php",
        "jar", "appimage", "apk", "wasm", "pyz",
    ];
    assert(table@ =~= extension_words());
    table
}

/// Whether two byte strings are equal.
pub fn same_bytes(left: &[u8], right: &[u8]) -> (r: bool)
    ensures
        r == (left@ == right@),
{
    if left.len() != right.len() {
        return false;
    }
    let mut i: usize = 0;
    while i < left.len()
        invariant
            left@.len() == right@.len(),
            i <= left@.len(),
            forall|j: int| 0 <= j < i ==> left@[j] == right@[j],
        decreases left@.len() - i,
    {
        if left[i] != right[i] {
            return false;
        }
        i = i + 1;
    }
    assert(left@ =~= right@);
    true
}

/// Looks `ext` up in the table. The match is exact: `SH` is not `sh`.
pub fn is_executable_extension(ext: &[u8]) -> (r: bool)
    ensures
        r == spec_is_executable_extension(ext@),
{
    let table = extension_table();
    let mut i: usize = 0;
    while i < table.len()
        invariant
            i <= table@.len(),
            table@ == extension_words(),
            forall|j: int| 0 <= j < i ==> executable_extensions()[j] != ext@,
        decreases table@.len() - i,
    {
        if same_bytes(ext, table[i].as_bytes()) {
            assert(executable_extensions()[i as int] == ext@);
            return true;
        }
        i = i + 1;
    }
    false
}

} // verus!
