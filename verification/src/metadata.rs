//! Reading the item list back from its file, with a backup copy for when the file is
//! damaged.
use vstd::prelude::*;

use crate::items::Item;
use crate::platform::{
    ends_with, is_whitespace, last_segment, names_file, parent_text, path_with_extension, stem_of,
};
use crate::server::AppError;
use crate::network::opt_string_view;
use crate::services::{new_id, uuid_text};
use crate::text::{all_white, chars_of, push_all, string_of};

verus! {

/// What reading one metadata file gave: no file, a file that could not be read or parsed,
/// or the items it holds.
#[derive(Debug)]
pub enum ItemsFile {
    Missing,
    Unreadable(AppError),
    Loaded(Vec<Item>),
}

/// What the item list is after reading the metadata file and, when needed, its backup:
/// the items as read, the backup's items (which then replace the damaged or missing file),
/// or an error.
#[derive(Debug)]
pub enum Recovery {
    Use(Vec<Item>),
    Restore(Vec<Item>),
    Fail(AppError),
}

/// Decides the item list from the metadata file and its backup. A readable file wins (the
/// backup is not looked at); otherwise a readable backup is restored; with neither file the
/// list is empty; otherwise the error of the file is reported, or, when the file is simply
/// missing, the error of the backup.
pub fn recover_items(primary: ItemsFile, backup: ItemsFile) -> (res: Recovery)
    ensures
        match primary {
            ItemsFile::Loaded(v) => res == Recovery::Use(v),
            ItemsFile::Missing => match backup {
                ItemsFile::Loaded(b) => res == Recovery::Restore(b),
                ItemsFile::Missing => res matches Recovery::Use(v) && v@.len() == 0,
                ItemsFile::Unreadable(e) => res == Recovery::Fail(e),
            },
            ItemsFile::Unreadable(e) => match backup {
                ItemsFile::Loaded(b) => res == Recovery::Restore(b),
                _ => res == Recovery::Fail(e),
            },
        },
{
    match primary {
        ItemsFile::Loaded(v) => Recovery::Use(v),
        ItemsFile::Missing => match backup {
            ItemsFile::Loaded(b) => Recovery::Restore(b),
            ItemsFile::Missing => Recovery::Use(Vec::new()),
            ItemsFile::Unreadable(e) => Recovery::Fail(e),
        },
        ItemsFile::Unreadable(e) => match backup {
            ItemsFile::Loaded(b) => Recovery::Restore(b),
            _ => Recovery::Fail(e),
        },
    }
}

/// Whether a text is empty or only white space.
pub fn is_blank_text(text: &str) -> (res: bool)
    ensures
        res == all_white(text@),
{
    let cs = chars_of(text);
    let mut i: usize = 0;
    while i < cs.len()
        invariant
            i <= cs@.len(),
            cs@ == text@,
            forall|t: int| 0 <= t < i ==> crate::platform::unicode_white_space(#[trigger] cs@[t]),
        decreases cs.len() - i,
    {
        if !is_whitespace(cs[i]) {
            return false;
        }
        i = i + 1;
    }
    true
}

/// The check on a metadata file's text before it is parsed: an empty (or blank) file is an
/// error.
pub fn check_metadata_text(data: &str) -> (res: Result<(), AppError>)
    ensures
        res is Err <==> all_white(data@),
        res matches Err(e) ==> e.status == 500 && e.message@ == "metadata file is empty"@,
{
    if is_blank_text(data) {
        Err(AppError::internal(string_of(chars_of("metadata file is empty").as_slice())))
    } else {
        Ok(())
    }
}

/// Whether the current metadata file is kept as the backup before it is replaced: only when
/// it holds something and parses as an item list.
pub fn should_back_up(existing: &str, parses: bool) -> (res: bool)
    ensures
        res == (!all_white(existing@) && parses),
{
    !is_blank_text(existing) && parses
}

/// The hidden temporary file a file's new contents are written to before they replace it:
/// `.name.id.tmp`, with `items.json` when the target has no name.
pub open spec fn replacement_file_name(target_name: Option<Seq<char>>, id: Seq<char>) -> Seq<char> {
    seq!['.'] + match target_name {
        Some(n) => n,
        None => "items.json"@,
    } + seq!['.'] + id + ".tmp"@
}

/// The temporary file name for replacing a file whose final component is `target_name`.
pub fn replacement_temp_name(target_name: Option<String>, id: &str) -> (res: String)
    ensures
        res@ == replacement_file_name(opt_string_view(target_name), id@),
{
    let mut v: Vec<char> = Vec::new();
    v.push('.');
    match target_name {
        Some(n) => push_all(&mut v, &chars_of(n.as_str())),
        None => push_all(&mut v, &chars_of("items.json")),
    }
    v.push('.');
    push_all(&mut v, &chars_of(id));
    push_all(&mut v, &chars_of(".tmp"));
    string_of(v.as_slice())
}

/// A temporary file name for replacing a file, with a fresh random id.
pub fn new_replacement_temp_name(target_name: Option<String>) -> (res: String)
    ensures
        exists|id: Seq<char>| uuid_text(id) && res@ == replacement_file_name(opt_string_view(target_name), id),
{
    let ghost name = opt_string_view(target_name);
    let id = new_id();
    let res = replacement_temp_name(target_name, id.as_str());
    assert(res@ == replacement_file_name(name, id@));
    res
}

/// The backup of the metadata file: its path with the extension `json.bak` (for a plain
/// path, the stem of its file name followed by `.json.bak`, in the same directory).
pub fn metadata_backup_path(data_path: &str) -> (res: String)
    ensures
        names_file(data_path@) ==> res@ == parent_text(data_path@) + stem_of(last_segment(data_path@))
            + ".json.bak"@,
        res@ == data_path@ || ends_with(res@, ".json.bak"@),
{
    proof {
        reveal_strlit("json.bak");
        reveal_strlit(".json.bak");
        assert(seq!['.'] + "json.bak"@ =~= ".json.bak"@);
    }
    path_with_extension(data_path, "json.bak")
}

} // verus!
