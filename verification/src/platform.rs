//! Facts that the standard library computes and this crate relies on: character classes,
//! path components and lossy UTF-8 decoding.
use vstd::prelude::*;

verus! {

/// Whether `char::is_whitespace` holds of a character: the Unicode `White_Space` property,
/// which holds of exactly these code points: U+0009 to U+000D, U+0020, U+0085, U+00A0,
/// U+1680, U+2000 to U+200A, U+2028, U+2029, U+202F, U+205F and U+3000.
pub open spec fn unicode_white_space(c: char) -> bool {
    let u = c as u32;
    (0x9 <= u && u <= 0xd) || u == 0x20 || u == 0x85 || u == 0xa0 || u == 0x1680 || (0x2000 <= u
        && u <= 0x200a) || u == 0x2028 || u == 0x2029 || u == 0x202f || u == 0x205f || u == 0x3000
}

/// Whether a character beyond ASCII is alphabetic or numeric in Unicode.
pub uninterp spec fn non_ascii_alphanumeric(c: char) -> bool;

/// Whether `char::is_alphanumeric` holds of a character (alphabetic or numeric in Unicode):
/// among ASCII characters exactly the letters and digits.
pub open spec fn unicode_alphanumeric(c: char) -> bool {
    if (c as u32) < 128 {
        ('a' <= c && c <= 'z') || ('A' <= c && c <= 'Z') || ('0' <= c && c <= '9')
    } else {
        non_ascii_alphanumeric(c)
    }
}

/// The text that `String::from_utf8_lossy` makes of a byte sequence.
pub uninterp spec fn lossy_utf8(bytes: Seq<u8>) -> Seq<char>;

/// `char::is_whitespace`: whether the character has the `White_Space` property.
#[verifier::external_body]
pub(crate) fn is_whitespace(c: char) -> (res: bool)
    ensures
        res == unicode_white_space(c),
{
    c.is_whitespace()
}

/// `char::is_alphanumeric`: whether the character is alphabetic or numeric; for ASCII, a
/// letter or digit.
#[verifier::external_body]
pub(crate) fn is_alphanumeric(c: char) -> (res: bool)
    ensures
        res == unicode_alphanumeric(c),
        (c as u32) >= 128 ==> res == non_ascii_alphanumeric(c),
{
    c.is_alphanumeric()
}

/// `String::from_utf8_lossy`: the result is `lossy_utf8` of the bytes.
#[verifier::external_body]
pub(crate) fn utf8_lossy(bytes: &[u8]) -> (res: String)
    ensures
        res@ == lossy_utf8(bytes@),
{
    String::from_utf8_lossy(bytes).into_owned()
}

/// Index of the last `c` in `s`, or -1 when there is none.
pub open spec fn last_index_of(s: Seq<char>, c: char) -> int
    decreases s.len(),
{
    if s.len() == 0 {
        -1
    } else if s.last() == c {
        s.len() - 1
    } else {
        last_index_of(s.drop_last(), c)
    }
}

/// The text after the last `/` of a path (all of it when there is no `/`).
pub open spec fn last_segment(p: Seq<char>) -> Seq<char> {
    p.skip(last_index_of(p, '/') + 1)
}

/// The path up to and including its last `/` (nothing when there is no `/`).
pub open spec fn parent_text(p: Seq<char>) -> Seq<char> {
    p.take(last_index_of(p, '/') + 1)
}

/// A path that every platform splits the same way: it holds no `\` and no `:` and does not
/// begin with two `/` (which Windows reads as the prefix of a network share), so only `/`
/// separates components and no Windows prefix can occur.
pub open spec fn portable_path(p: Seq<char>) -> bool {
    &&& forall|i: int| 0 <= i < p.len() ==> #[trigger] p[i] != '\\' && p[i] != ':'
    &&& !(p.len() >= 2 && p[0] == '/' && p[1] == '/')
}

/// A normal component: not empty, not `.` and not `..`.
pub open spec fn normal_name(n: Seq<char>) -> bool {
    n.len() > 0 && n != seq!['.'] && n != seq!['.', '.']
}

/// A portable path whose last component is a normal name, which is then its file name.
pub open spec fn names_file(p: Seq<char>) -> bool {
    portable_path(p) && normal_name(last_segment(p))
}

/// The stem of a file name, as `Path::file_stem` documents it: the whole name when it has no
/// `.` other than a leading one, else the part before the last `.`.
pub open spec fn stem_of(n: Seq<char>) -> Seq<char> {
    if last_index_of(n, '.') <= 0 {
        n
    } else {
        n.take(last_index_of(n, '.'))
    }
}

/// The extension of a file name, as `Path::extension` documents it: none when the name has
/// no `.` other than a leading one, else the part after the last `.`.
pub open spec fn extension_of(n: Seq<char>) -> Option<Seq<char>> {
    if last_index_of(n, '.') <= 0 {
        None
    } else {
        Some(n.skip(last_index_of(n, '.') + 1))
    }
}

/// `s` ends with `t`.
pub open spec fn ends_with(s: Seq<char>, t: Seq<char>) -> bool {
    t.len() <= s.len() && s.subrange(s.len() - t.len(), s.len() as int) == t
}

/// The characters of an optional string.
pub open spec fn text_of(o: Option<String>) -> Option<Seq<char>> {
    match o {
        Some(s) => Some(s@),
        None => None,
    }
}

/// `Path::file_name` of a path given as text, converted back to text. On every platform an
/// empty path has no file name, and a file name is a normal component (not empty, not `.` or
/// `..`, without `/`). Which component is final depends on the platform's path syntax
/// (Windows also splits at `\` and knows drive and share prefixes), so it is stated only for
/// a portable path ending in a normal component: that component, as the documentation of
/// `file_name` ("the final component of the path") says.
#[verifier::external_body]
pub(crate) fn path_file_name(path: &str) -> (res: Option<String>)
    ensures
        names_file(path@) ==> text_of(res) == Some(last_segment(path@)),
        path@.len() == 0 ==> res is None,
        forall|n: Seq<char>| text_of(res) == Some(n) ==> normal_name(n) && !n.contains('/'),
{
    match std::path::Path::new(path).file_name() {
        Some(name) => name.to_str().map(str::to_string),
        None => None,
    }
}

/// `Path::extension` of a path given as text, converted back to text. Stated only for a
/// portable path ending in a normal component: the extension its documentation gives for
/// that file name.
#[verifier::external_body]
pub(crate) fn path_extension(path: &str) -> (res: Option<String>)
    ensures
        names_file(path@) ==> text_of(res) == extension_of(last_segment(path@)),
{
    match std::path::Path::new(path).extension() {
        Some(ext) => ext.to_str().map(str::to_string),
        None => None,
    }
}

/// `Path::file_stem` of a path given as text, converted back to text. Stated only for a
/// portable path ending in a normal component: the stem its documentation gives for that
/// file name.
#[verifier::external_body]
pub(crate) fn path_file_stem(path: &str) -> (res: Option<String>)
    ensures
        names_file(path@) ==> text_of(res) == Some(stem_of(last_segment(path@))),
{
    match std::path::Path::new(path).file_stem() {
        Some(stem) => stem.to_str().map(str::to_string),
        None => None,
    }
}

/// `Path::with_extension` of a path given as text, converted back to text. `set_extension`,
/// which it calls, panics on an extension that holds a path separator, so the extension is
/// required to hold none (no `/`, no `\`, no `:`). For a non-empty extension the path either
/// has no file name and stays as it is, or ends in `.` and the extension. For a portable path
/// ending in a normal component, it is the same path with the file name's extension set to
/// `extension` (added after the stem).
#[verifier::external_body]
pub(crate) fn path_with_extension(path: &str, extension: &str) -> (res: String)
    requires
        portable_path(extension@),
        !extension@.contains('/'),
    ensures
        names_file(path@) && extension@.len() > 0 ==> res@ == parent_text(path@) + stem_of(last_segment(path@)) + seq!['.'] + extension@,
        extension@.len() > 0 ==> res@ == path@ || ends_with(res@, seq!['.'] + extension@),
{
    std::path::Path::new(path).with_extension(extension).to_string_lossy().into_owned()
}

} // verus!
