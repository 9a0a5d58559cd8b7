//! Names shown for and given to shared items: cleaned upload names, download fallbacks and
//! titles of text snippets.
use vstd::prelude::*;

use crate::localization::{tr, localized};
use crate::platform::{
    is_alphanumeric, is_whitespace, last_index_of, last_segment, names_file, normal_name,
    path_file_name, text_of, unicode_alphanumeric, unicode_white_space,
};
use crate::text::{chars_of, string_of};

verus! {

/// Punctuation that names keep: `.`, `-`, `_`, space, `(` and `)`.
pub open spec fn name_punctuation(c: char) -> bool {
    c == '.' || c == '-' || c == '_' || c == ' ' || c == '(' || c == ')'
}

fn is_name_punctuation(c: char) -> (res: bool)
    ensures
        res == name_punctuation(c),
{
    c == '.' || c == '-' || c == '_' || c == ' ' || c == '(' || c == ')'
}

/// A character of a stored file name: kept when alphanumeric or name punctuation, else `_`.
pub open spec fn clean_char(c: char) -> char {
    if unicode_alphanumeric(c) || name_punctuation(c) {
        c
    } else {
        '_'
    }
}

/// A file name component made safe to store: every character cleaned, `file` when empty.
pub open spec fn cleaned_name(name: Seq<char>) -> Seq<char> {
    if name.len() == 0 {
        "file"@
    } else {
        name.map_values(|c: char| clean_char(c))
    }
}

/// A character is one that a cleaned name may hold: alphanumeric, ASCII alphanumeric (as in
/// the default name `file`), name punctuation or `_`.
pub open spec fn stored_name_char(c: char) -> bool {
    unicode_alphanumeric(c) || ascii_name_char(c) || c == '_'
}

/// Cleans the final component of an upload's name (`None` when the name has none).
pub fn clean_file_name(component: Option<&str>) -> (res: String)
    ensures
        res@ == cleaned_name(
            match component {
                Some(c) => c@,
                None => "file"@,
            },
        ),
{
    let name = match component {
        Some(c) => chars_of(c),
        None => chars_of("file"),
    };
    if name.len() == 0 {
        return string_of(chars_of("file").as_slice());
    }
    let mut out: Vec<char> = Vec::new();
    let mut i: usize = 0;
    while i < name.len()
        invariant
            i <= name.len(),
            out@ == name@.subrange(0, i as int).map_values(|c: char| clean_char(c)),
        decreases name.len() - i,
    {
        let c = name[i];
        let kept = if is_alphanumeric(c) || is_name_punctuation(c) {
            c
        } else {
            '_'
        };
        out.push(kept);
        i = i + 1;
        assert(name@.subrange(0, i as int).map_values(|c: char| clean_char(c)) =~= name@.subrange(
            0,
            i - 1,
        ).map_values(|c: char| clean_char(c)).push(clean_char(name@[i - 1])));
    }
    assert(name@.subrange(0, name.len() as int) =~= name@);
    string_of(out.as_slice())
}

/// The name an upload is stored under: the final component of the name the client sent,
/// with every character other than letters, digits and `.-_ ()` replaced by `_`; `file`
/// when nothing is left. Which part counts as the final component is decided by the
/// platform's path rules.
pub fn safe_name(value: &str) -> (res: String)
    ensures
        res@.len() > 0,
        forall|i: int| 0 <= i < res@.len() ==> stored_name_char(#[trigger] res@[i]),
        names_file(value@) ==> res@ == cleaned_name(last_segment(value@)),
        value@.len() == 0 ==> res@ == "file"@,
        res@ != seq!['.'] && res@ != seq!['.', '.'],
        !res@.contains('/'),
{
    let component = path_file_name(value);
    let res = match &component {
        Some(c) => clean_file_name(Some(c.as_str())),
        None => clean_file_name(None),
    };
    proof {
        reveal_strlit("file");
        let n = match component {
            Some(c) => c@,
            None => "file"@,
        };
        assert forall|i: int| 0 <= i < res@.len() implies stored_name_char(#[trigger] res@[i]) by {
            if n.len() > 0 {
                assert(res@[i] == clean_char(n[i]));
            } else {
                assert(res@ == "file"@);
            }
        }
        if component is Some {
            assert(text_of(component) == Some(n));
            assert(normal_name(n));
        }
        lemma_clean_keeps_dots(n);
        if res@.contains('/') {
            let k = choose|k: int| 0 <= k < res@.len() && res@[k] == '/';
            assert(stored_name_char(res@[k]));
        }
    }
    res
}

/// Cleaning a normal name never gives `.` or `..`: only a `.` cleans to a `.`.
proof fn lemma_clean_keeps_dots(n: Seq<char>)
    requires
        n.len() > 0,
        n != seq!['.'],
        n != seq!['.', '.'],
    ensures
        cleaned_name(n) != seq!['.'],
        cleaned_name(n) != seq!['.', '.'],
{
    let r = cleaned_name(n);
    assert(r == n.map_values(|c: char| clean_char(c)));
    if r == seq!['.'] {
        assert(r[0] == clean_char(n[0]));
        assert(n =~= seq!['.']);
    }
    if r == seq!['.', '.'] {
        assert(r[0] == clean_char(n[0]));
        assert(r[1] == clean_char(n[1]));
        assert(n =~= seq!['.', '.']);
    }
}

/// A character that the ASCII fallback name keeps: an ASCII letter or digit, or name
/// punctuation.
pub open spec fn ascii_name_char(c: char) -> bool {
    ('a' <= c && c <= 'z') || ('A' <= c && c <= 'Z') || ('0' <= c && c <= '9')
        || name_punctuation(c)
}

/// The ASCII fallback of a name: kept characters stay, all others become `_`;
/// `download` when what is left is only spaces (or nothing).
pub open spec fn ascii_fallback(name: Seq<char>) -> Seq<char> {
    let f = name.map_values(|c: char| if ascii_name_char(c) { c } else { '_' });
    if forall|i: int| 0 <= i < f.len() ==> f[i] == ' ' {
        "download"@
    } else {
        f
    }
}

/// The plain-ASCII file name for the `filename=` part of a download's disposition.
pub fn ascii_fallback_name(value: &str) -> (res: String)
    ensures
        res@ == ascii_fallback(value@),
{
    let name = chars_of(value);
    let ghost f = value@.map_values(|c: char| if ascii_name_char(c) { c } else { '_' });
    let mut out: Vec<char> = Vec::new();
    let mut blank = true;
    let mut i: usize = 0;
    while i < name.len()
        invariant
            i <= name.len(),
            name@ == value@,
            f == value@.map_values(|c: char| if ascii_name_char(c) { c } else { '_' }),
            out@ == f.subrange(0, i as int),
            blank == (forall|t: int| 0 <= t < i ==> f[t] == ' '),
        decreases name.len() - i,
    {
        let c = name[i];
        let keep = ('a' <= c && c <= 'z') || ('A' <= c && c <= 'Z') || ('0' <= c && c <= '9')
            || is_name_punctuation(c);
        let kept = if keep {
            c
        } else {
            '_'
        };
        assert(kept == f[i as int]);
        out.push(kept);
        if kept != ' ' {
            blank = false;
        }
        i = i + 1;
        assert(out@ =~= f.subrange(0, i as int));
    }
    assert(f.subrange(0, name.len() as int) =~= f);
    if blank {
        string_of(chars_of("download").as_slice())
    } else {
        string_of(out.as_slice())
    }
}

/// Words separated by white space, rejoined with single spaces: `started` says whether a
/// word was already written, `gap` whether white space came after it.
pub open spec fn collapse_from(s: Seq<char>, started: bool, gap: bool) -> Seq<char>
    decreases s.len(),
{
    if s.len() == 0 {
        Seq::<char>::empty()
    } else if unicode_white_space(s[0]) {
        collapse_from(s.drop_first(), started, true)
    } else if started && gap {
        seq![' ', s[0]] + collapse_from(s.drop_first(), true, false)
    } else {
        seq![s[0]] + collapse_from(s.drop_first(), true, false)
    }
}

/// The words of a text joined by single spaces.
pub open spec fn collapse_whitespace(s: Seq<char>) -> Seq<char> {
    collapse_from(s, false, false)
}

/// Maximum number of characters of a text snippet's title.
pub open spec fn title_limit() -> int {
    40
}

/// The title of a text snippet: the first 40 characters of its words joined by single
/// spaces, or the localized "text snippet" when it has no words.
pub open spec fn title_of(zh: bool, content: Seq<char>) -> Seq<char> {
    let compact = collapse_whitespace(content);
    if compact.len() == 0 {
        localized(zh, "text_snippet"@, Seq::empty())
    } else if compact.len() <= title_limit() {
        compact
    } else {
        compact.take(title_limit())
    }
}

/// The title that a shared text is listed under.
pub fn text_title(zh: bool, content: &str) -> (res: String)
    ensures
        res@ == title_of(zh, content@),
{
    let s = chars_of(content);
    let mut out: Vec<char> = Vec::new();
    let mut gap = false;
    let mut i: usize = 0;
    assert(s@.skip(0) =~= s@);
    while i < s.len()
        invariant
            i <= s.len(),
            out@ + collapse_from(s@.skip(i as int), out@.len() > 0, gap) == collapse_whitespace(
                s@,
            ),
        decreases s.len() - i,
    {
        let c = s[i];
        let ghost rest = s@.skip(i as int);
        let ghost out0 = out@;
        let ghost next = collapse_from(s@.skip(i + 1), true, false);
        assert(rest[0] == c);
        assert(rest.drop_first() =~= s@.skip(i + 1));
        if is_whitespace(c) {
            gap = true;
        } else {
            if out.len() > 0 && gap {
                out.push(' ');
                out.push(c);
                assert(out@ + next =~= out0 + (seq![' ', c] + next));
            } else {
                out.push(c);
                assert(out@ + next =~= out0 + (seq![c] + next));
            }
            gap = false;
        }
        i = i + 1;
    }
    assert(s@.skip(i as int) =~= Seq::<char>::empty());
    assert(out@ =~= collapse_whitespace(s@));
    if out.len() == 0 {
        let empty: [(&str, String); 0] = [];
        let res = tr(zh, "text_snippet", &empty);
        assert(empty@.map_values(|p: (&str, String)| (p.0@, p.1@)) =~= Seq::empty());
        res
    } else if out.len() <= 40 {
        string_of(out.as_slice())
    } else {
        let mut title: Vec<char> = Vec::new();
        let mut k: usize = 0;
        while k < 40
            invariant
                k <= 40 < out.len(),
                title@ == out@.take(k as int),
            decreases 40 - k,
        {
            title.push(out[k]);
            k = k + 1;
            assert(title@ =~= out@.take(k as int));
        }
        string_of(title.as_slice())
    }
}

proof fn lemma_no_slash_segment(s: Seq<char>)
    requires
        forall|i: int| 0 <= i < s.len() ==> s[i] != '/',
    ensures
        last_index_of(s, '/') == -1,
        last_segment(s) == s,
    decreases s.len(),
{
    if s.len() > 0 {
        lemma_no_slash_segment(s.drop_last());
    }
    assert(s.skip(0) =~= s);
}

/// Cleaning a plain name gives a plain name that cleaning keeps as it is: what an upload is
/// stored under is again a plain file name, and cleaning it once more changes nothing.
pub proof fn cleaned_names_are_kept(value: Seq<char>)
    requires
        names_file(value),
    ensures
        names_file(cleaned_name(last_segment(value))),
        cleaned_name(last_segment(cleaned_name(last_segment(value)))) == cleaned_name(last_segment(value)),
{
    let seg = last_segment(value);
    let r = cleaned_name(seg);
    assert(r == seg.map_values(|c: char| clean_char(c)));
    assert forall|i: int| 0 <= i < r.len() implies #[trigger] r[i] != '/' && r[i] != '\\' && r[i] != ':'
        && clean_char(r[i]) == r[i] by {
        assert(r[i] == clean_char(seg[i]));
    }
    lemma_no_slash_segment(r);
    assert(r.len() == seg.len());
    if r == seq!['.'] {
        assert(r[0] == clean_char(seg[0]));
        assert(seg =~= seq!['.']);
    }
    if r == seq!['.', '.'] {
        assert(r[0] == clean_char(seg[0]));
        assert(r[1] == clean_char(seg[1]));
        assert(seg =~= seq!['.', '.']);
    }
    assert(names_file(r));
    assert(cleaned_name(r) =~= r);
}

/// Every name an upload can be stored under is a plain file name that cleaning keeps as it
/// is: storing a stored name again gives the same name, whatever the first input was.
pub proof fn stored_names_are_kept(r: Seq<char>)
    requires
        r.len() > 0,
        forall|i: int| 0 <= i < r.len() ==> stored_name_char(#[trigger] r[i]),
        r != seq!['.'],
        r != seq!['.', '.'],
    ensures
        names_file(r),
        last_segment(r) == r,
        cleaned_name(last_segment(r)) == r,
{
    assert forall|i: int| 0 <= i < r.len() implies #[trigger] r[i] != '/' && r[i] != '\\' && r[i] != ':'
        && clean_char(r[i]) == r[i] by {
        assert(stored_name_char(r[i]));
    }
    lemma_no_slash_segment(r);
    assert(names_file(r));
    assert(cleaned_name(r) =~= r);
}

/// Cleaning an ASCII character keeps it exactly when it is a letter, a digit, `.`, `-`, `_`,
/// a space, `(` or `)`; every other ASCII character becomes `_`.
pub proof fn cleaning_keeps_exactly_the_name_characters(c: char)
    requires
        (c as u32) < 128,
    ensures
        (('a' <= c && c <= 'z') || ('A' <= c && c <= 'Z') || ('0' <= c && c <= '9') || c == '.'
            || c == '-' || c == '_' || c == ' ' || c == '(' || c == ')') ==> clean_char(c) == c,
        !(('a' <= c && c <= 'z') || ('A' <= c && c <= 'Z') || ('0' <= c && c <= '9') || c == '.'
            || c == '-' || c == '_' || c == ' ' || c == '(' || c == ')') ==> clean_char(c) == '_',
{
}

/// A plain file name made only of letters, digits, `.`, `-`, `_`, spaces, `(` and `)` is
/// stored under exactly that name (what `safe_name` gives for such a name).
pub proof fn plain_names_are_stored_unchanged(value: Seq<char>)
    requires
        names_file(value),
        forall|i: int| 0 <= i < last_segment(value).len() ==> {
            let c = #[trigger] last_segment(value)[i];
            unicode_alphanumeric(c) || c == '.' || c == '-' || c == '_' || c == ' ' || c == '('
                || c == ')'
        },
    ensures
        cleaned_name(last_segment(value)) == last_segment(value),
{
    let seg = last_segment(value);
    assert forall|i: int| 0 <= i < seg.len() implies clean_char(seg[i]) == seg[i] by {
        let c = seg[i];
        assert(unicode_alphanumeric(c) || c == '.' || c == '-' || c == '_' || c == ' ' || c == '(' || c == ')');
    }
    assert(cleaned_name(seg) =~= seg);
}

/// The ASCII fallback name is never empty and holds only ASCII letters, digits, `.-_ ()`.
pub proof fn ascii_fallback_is_plain_ascii(name: Seq<char>)
    ensures
        ascii_fallback(name).len() > 0,
        forall|i: int| 0 <= i < ascii_fallback(name).len() ==> ascii_name_char(#[trigger] ascii_fallback(name)[i]),
{
    reveal_strlit("download");
    let f = name.map_values(|c: char| if ascii_name_char(c) { c } else { '_' });
    if !(forall|i: int| 0 <= i < f.len() ==> f[i] == ' ') {
        assert(f.len() > 0);
        assert forall|i: int| 0 <= i < f.len() implies ascii_name_char(#[trigger] f[i]) by {}
    } else {
        let d = "download"@;
        assert(d.len() == 8);
        assert forall|i: int| 0 <= i < d.len() implies ascii_name_char(#[trigger] d[i]) by {}
    }
}

/// A title taken from the text itself has at most 40 characters and is not empty.
pub proof fn text_titles_are_short(zh: bool, content: Seq<char>)
    requires
        collapse_whitespace(content).len() > 0,
    ensures
        0 < title_of(zh, content).len() <= title_limit(),
{
}

} // verus!
