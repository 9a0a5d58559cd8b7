//! Uploads: the names uploaded files are stored under and the cleanup of unfinished ones.
use vstd::prelude::*;

use crate::items::Item;
use crate::localization::{tr, localized};
use crate::naming::{cleaned_name, safe_name, stored_name_char};
use crate::platform::{
    extension_of, last_segment, names_file, path_extension, path_file_stem, stem_of,
};
use crate::server::AppError;
use crate::services::{new_id, now, uuid_text};
use crate::text::{chars_equal, chars_of, decimal, decimal_chars, lemma_decimal_injective, opt_str_view, push_all, string_of};

verus! {

/// An upload in progress: the temporary file it is written to and, once linked into place,
/// the final file. Whatever is still recorded is removed unless the upload was committed.
#[derive(Debug)]
pub struct PendingUpload {
    pub temp_path: String,
    pub final_path: Option<String>,
}

impl PendingUpload {
    /// An upload written to `temp_path`, not yet placed.
    pub fn new(temp_path: String) -> (res: Self)
        ensures
            res.temp_path == temp_path,
            res.final_path is None,
    {
        PendingUpload { temp_path, final_path: None }
    }

    /// The upload is recorded: nothing is left to remove.
    pub fn commit(&mut self)
        ensures
            final(self).temp_path@ == Seq::<char>::empty(),
            final(self).final_path is None,
    {
        self.temp_path = string_of(Vec::<char>::new().as_slice());
        self.final_path = None;
    }

    /// The files cleanup removes: the temporary file when its path is set, then the final
    /// file when there is one.
    pub open spec fn leftovers(&self) -> Seq<String> {
        (if self.temp_path@.len() > 0 {
            seq![self.temp_path]
        } else {
            Seq::empty()
        }) + match self.final_path {
            Some(p) => seq![p],
            None => Seq::empty(),
        }
    }

    /// The files cleanup removes.
    pub fn leftover_paths(&self) -> (res: Vec<String>)
        ensures
            res@ == self.leftovers(),
    {
        let mut out: Vec<String> = Vec::new();
        if chars_of(self.temp_path.as_str()).len() > 0 {
            out.push(self.temp_path.clone());
        }
        let ghost first = out@;
        match &self.final_path {
            Some(p) => {
                out.push(p.clone());
                assert(out@ =~= first + seq![*p]);
            },
            None => {
                assert(out@ =~= first + Seq::<String>::empty());
            },
        }
        out
    }
}

/// A committed upload leaves nothing to remove, while one that was not committed removes
/// its partial file and the file it was already linked to.
pub proof fn committed_uploads_keep_their_files(committed: PendingUpload, temp: String, linked: String)
    requires
        committed.temp_path@.len() == 0,
        committed.final_path is None,
        temp@.len() > 0,
    ensures
        committed.leftovers().len() == 0,
        (PendingUpload { temp_path: temp, final_path: Some(linked) }).leftovers() == seq![temp, linked],
{
    assert(committed.leftovers() =~= Seq::<String>::empty());
    assert((PendingUpload { temp_path: temp, final_path: Some(linked) }).leftovers() =~= seq![temp, linked]);
}

/// The name of the temporary file an upload is first written to, for a random id.
pub open spec fn upload_temp_file_name(id: Seq<char>) -> Seq<char> {
    ".fileshare-"@ + id + ".part"@
}

/// The temporary file name for an upload with the given id.
pub fn upload_temp_name(id: &str) -> (res: String)
    ensures
        res@ == upload_temp_file_name(id@),
{
    let mut v = chars_of(".fileshare-");
    push_all(&mut v, &chars_of(id));
    push_all(&mut v, &chars_of(".part"));
    string_of(v.as_slice())
}

/// A temporary file name for a new upload, with a fresh random id.
pub fn new_upload_temp_name() -> (res: String)
    ensures
        exists|id: Seq<char>| uuid_text(id) && res@ == upload_temp_file_name(id),
{
    let id = new_id();
    let res = upload_temp_name(id.as_str());
    assert(res@ == upload_temp_file_name(id@));
    res
}

/// What a field of an upload form is: the `source` field (read and ignored), a `file`
/// field (stored when it carries at least one byte), or any other field (ignored).
#[derive(Debug, Clone, Copy)]
pub enum UploadField {
    Source,
    File,
    Other,
}

/// The kind of a form field by its name; a field without a name is of no kind.
pub open spec fn field_kind(name: Option<Seq<char>>) -> UploadField {
    match name {
        Some(n) => if n == "source"@ {
            UploadField::Source
        } else if n == "file"@ {
            UploadField::File
        } else {
            UploadField::Other
        },
        None => UploadField::Other,
    }
}

/// The kind of an upload form field, by its name.
pub fn upload_field(name: Option<&str>) -> (res: UploadField)
    ensures
        res == field_kind(opt_str_view(name)),
{
    match name {
        Some(n) => {
            let cs = chars_of(n);
            if chars_equal(&cs, &chars_of("source")) {
                UploadField::Source
            } else if chars_equal(&cs, &chars_of("file")) {
                UploadField::File
            } else {
                UploadField::Other
            }
        },
        None => UploadField::Other,
    }
}

/// Whether a field that carried `size` bytes becomes a stored file: only a `file` field
/// with at least one byte does.
pub fn stores_upload(field: UploadField, size: u64) -> (res: bool)
    ensures
        res == (field is File && size > 0),
{
    match field {
        UploadField::File => size > 0,
        _ => false,
    }
}

/// The name an upload is stored under: its cleaned name, or `file` when the client sent none.
pub fn upload_file_name(raw: Option<&str>) -> (res: String)
    ensures
        raw is None ==> res@ == "file"@,
        res@.len() > 0,
        raw matches Some(n) ==> (names_file(n@) ==> res@ == cleaned_name(last_segment(n@))),
        raw matches Some(n) ==> (n@.len() == 0 ==> res@ == "file"@),
        res@ != seq!['.'] && res@ != seq!['.', '.'],
        !res@.contains('/'),
        forall|i: int| 0 <= i < res@.len() ==> stored_name_char(#[trigger] res@[i]),
{
    match raw {
        Some(n) => safe_name(n),
        None => {
            proof {
                reveal_strlit("file");
                let f = "file"@;
                assert(f.len() == 4);
                assert(f != seq!['.'] && f != seq!['.', '.']);
                assert forall|i: int| 0 <= i < f.len() implies stored_name_char(#[trigger] f[i]) && f[i] != '/' by {}
            }
            string_of(chars_of("file").as_slice())
        },
    }
}

/// The stem and the extension (with its dot) used to number colliding names, from the
/// stem and extension of the stored name: `file` without a stem, nothing without an
/// extension.
pub fn name_parts(stem: Option<String>, extension: Option<String>) -> (res: (String, String))
    ensures
        res.0@ == match stem {
            Some(s) => s@,
            None => "file"@,
        },
        res.1@ == match extension {
            Some(e) => seq!['.'] + e@,
            None => Seq::<char>::empty(),
        },
{
    let s = match stem {
        Some(s) => s,
        None => string_of(chars_of("file").as_slice()),
    };
    let e = match extension {
        Some(e) => {
            let mut v: Vec<char> = Vec::new();
            v.push('.');
            push_all(&mut v, &chars_of(e.as_str()));
            string_of(v.as_slice())
        },
        None => string_of(Vec::<char>::new().as_slice()),
    };
    (s, e)
}

/// The stem and extension of a stored name, as the platform's path rules split it: for a
/// plain file name, its stem and its extension with the dot (nothing without one). The
/// extension part is empty or begins with its dot.
pub fn stored_name_parts(filename: &str) -> (res: (String, String))
    ensures
        res.1@.len() == 0 || res.1@[0] == '.',
        names_file(filename@) ==> res.0@ == stem_of(last_segment(filename@)),
        names_file(filename@) ==> res.1@ == match extension_of(last_segment(filename@)) {
            Some(e) => seq!['.'] + e,
            None => Seq::<char>::empty(),
        },
{
    name_parts(path_file_stem(filename), path_extension(filename))
}

/// The numbered variant `stem (index)ext` tried when a name is taken.
pub open spec fn numbered(stem: Seq<char>, ext: Seq<char>, index: u64) -> Seq<char> {
    stem + " ("@ + decimal(index as nat) + seq![')'] + ext
}

/// The `index`-th alternative name for an upload whose name is taken.
pub fn numbered_name(stem: &str, ext: &str, index: u64) -> (res: String)
    ensures
        res@ == numbered(stem@, ext@, index),
{
    let mut v = chars_of(stem);
    push_all(&mut v, &chars_of(" ("));
    push_all(&mut v, &decimal_chars(index));
    v.push(')');
    push_all(&mut v, &chars_of(ext));
    string_of(v.as_slice())
}

/// The names tried for an upload after its own name is taken are all different: the `i`-th
/// and the `j`-th numbered name differ whenever `i` and `j` do.
pub proof fn numbered_names_differ(stem: Seq<char>, ext: Seq<char>, i: u64, j: u64)
    requires
        i != j,
    ensures
        numbered(stem, ext, i) != numbered(stem, ext, j),
{
    if numbered(stem, ext, i) == numbered(stem, ext, j) {
        let p = stem + " ("@;
        let a = numbered(stem, ext, i);
        let b = numbered(stem, ext, j);
        assert(a.len() == b.len());
        let di = decimal(i as nat);
        let dj = decimal(j as nat);
        assert(di.len() == dj.len());
        assert(a.subrange(p.len() as int, (p.len() + di.len()) as int) =~= di);
        assert(b.subrange(p.len() as int, (p.len() + dj.len()) as int) =~= dj);
        lemma_decimal_injective(i as nat, j as nat);
    }
}

/// The name tried at the `attempt`-th try to place an upload: its own name first, then the
/// numbered names `stem (1)ext`, `stem (2)ext`, ...
pub open spec fn candidate_name(filename: Seq<char>, stem: Seq<char>, ext: Seq<char>, attempt: u64) -> Seq<char> {
    if attempt == 0 {
        filename
    } else {
        numbered(stem, ext, attempt)
    }
}

/// The name to try at the `attempt`-th try.
pub fn candidate_file_name(filename: &str, stem: &str, ext: &str, attempt: u64) -> (res: String)
    ensures
        res@ == candidate_name(filename@, stem@, ext@, attempt),
{
    if attempt == 0 {
        string_of(chars_of(filename).as_slice())
    } else {
        numbered_name(stem, ext, attempt)
    }
}

/// How the last try to place an upload under a name went: linked or copied there, the name
/// was taken, or linking or copying failed otherwise.
#[derive(Debug, Clone, Copy)]
pub enum PlaceOutcome {
    Linked,
    LinkExists,
    LinkFailed,
    Copied,
    CopyExists,
    CopyFailed,
}

/// What to do next with an upload being placed: link it under the name of the given try,
/// copy it to that name, stop because it is placed, or give up with the last error.
#[derive(Debug, Clone, Copy)]
pub enum PlaceStep {
    Link(u64),
    Copy(u64),
    Placed,
    GiveUp,
}

/// The next step after a try: a taken name moves on to the next name (giving up only when the
/// count of tries is exhausted), a failed link is retried as a copy to the same name, a
/// failed copy gives up, and a link or copy that worked ends it.
pub open spec fn next_place_step(attempt: u64, outcome: PlaceOutcome) -> PlaceStep {
    match outcome {
        PlaceOutcome::Linked => PlaceStep::Placed,
        PlaceOutcome::Copied => PlaceStep::Placed,
        PlaceOutcome::LinkFailed => PlaceStep::Copy(attempt),
        PlaceOutcome::CopyFailed => PlaceStep::GiveUp,
        _ => if attempt < u64::MAX {
            PlaceStep::Link((attempt + 1) as u64)
        } else {
            PlaceStep::GiveUp
        },
    }
}

/// Decides the next step of placing an upload.
pub fn place_step(attempt: u64, outcome: PlaceOutcome) -> (res: PlaceStep)
    ensures
        res == next_place_step(attempt, outcome),
{
    match outcome {
        PlaceOutcome::Linked => PlaceStep::Placed,
        PlaceOutcome::Copied => PlaceStep::Placed,
        PlaceOutcome::LinkFailed => PlaceStep::Copy(attempt),
        PlaceOutcome::CopyFailed => PlaceStep::GiveUp,
        _ => if attempt < u64::MAX {
            PlaceStep::Link(attempt + 1)
        } else {
            PlaceStep::GiveUp
        },
    }
}

/// A taken name is never tried again: after a try finds its name taken, the next try uses a
/// later, different numbered name.
pub proof fn taken_names_are_not_retried(stem: Seq<char>, ext: Seq<char>, attempt: u64, outcome: PlaceOutcome)
    requires
        attempt >= 1,
        outcome is LinkExists || outcome is CopyExists,
        attempt < u64::MAX,
    ensures
        next_place_step(attempt, outcome) matches PlaceStep::Link(n) && n > attempt
            && numbered(stem, ext, n) != numbered(stem, ext, attempt),
{
    numbered_names_differ(stem, ext, (attempt + 1) as u64, attempt);
}

/// The title of a stored upload: the final component of where it was stored, else the
/// name it was meant to have.
pub fn stored_title(stored_component: Option<String>, filename: &str) -> (res: String)
    ensures
        res@ == match stored_component {
            Some(c) => c@,
            None => filename@,
        },
{
    match stored_component {
        Some(c) => c,
        None => string_of(chars_of(filename).as_slice()),
    }
}

/// The item for an uploaded file, from the client, with a fresh id and the current time.
pub fn uploaded_item(title: String, mime: Option<String>, size: u64, storage_path: String) -> (res:
    Item)
    ensures
        res.kind@ == "file"@,
        res.title == title,
        res.content is None,
        res.mime == mime,
        res.size == size,
        res.source@ == "client"@,
        res.storage_path == storage_path,
        uuid_text(res.id@),
{
    let id = new_id();
    let created_at = now();
    let updated_at = now();
    Item {
        id,
        kind: string_of(chars_of("file").as_slice()),
        title,
        content: None,
        mime,
        size,
        source: string_of(chars_of("client").as_slice()),
        storage_path,
        created_at,
        updated_at,
    }
}

/// The items an upload request stored; "select a file" (400) when it stored none.
pub fn require_uploads(zh: bool, items: Vec<Item>) -> (res: Result<Vec<Item>, AppError>)
    ensures
        items@.len() > 0 ==> res == Ok::<Vec<Item>, AppError>(items),
        items@.len() == 0 ==> (res matches Err(e) && e.status == 400 && e.content_range is None
            && e.message@ == localized(zh, "please_select_file"@, Seq::empty())),
{
    if items.len() > 0 {
        return Ok(items);
    }
    let none: [(&str, String); 0] = [];
    let message = tr(zh, "please_select_file", &none);
    assert(none@.map_values(|p: (&str, String)| (p.0@, p.1@)) =~= Seq::empty());
    Err(AppError::bad_request(message))
}

} // verus!
