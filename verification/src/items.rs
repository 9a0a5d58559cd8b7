//! The shared items: texts and files, the list that clients see, and the changes made to it.
use vstd::prelude::*;

use crate::localization::{tr, localized};
use crate::naming::{text_title, title_of};
use crate::platform::{
    extension_of, last_segment, names_file, normal_name, path_extension, path_file_name, text_of,
};
use crate::server::AppError;
use crate::network::opt_string_view;
use crate::services::{guessed_mime, mime_for_extension, new_id, now, uuid_text};
use crate::text::{chars_equal, chars_of, into_reversed, string_of, trim_chars, trim_ws};
use vstd::utf8::encode_utf8;

verus! {

/// A shared item as stored in the metadata file.
#[derive(Debug)]
pub struct Item {
    pub id: String,
    pub kind: String,
    pub title: String,
    pub content: Option<String>,
    pub mime: Option<String>,
    pub size: u64,
    pub source: String,
    pub storage_path: String,
    pub created_at: String,
    pub updated_at: String,
}

/// A shared item as clients see it: the stored fields without the storage path, and
/// whether the item can be downloaded now.
#[derive(Debug)]
pub struct PublicItem {
    pub id: String,
    pub kind: String,
    pub title: String,
    pub content: Option<String>,
    pub mime: Option<String>,
    pub size: u64,
    pub source: String,
    pub exists: bool,
    pub created_at: String,
    pub updated_at: String,
}

/// An optional string, copied.
pub fn copy_opt(o: &Option<String>) -> (res: Option<String>)
    ensures
        res == *o,
{
    match o {
        Some(s) => Some(s.clone()),
        None => None,
    }
}

impl Item {
    /// A copy of the item.
    pub fn duplicate(&self) -> (res: Item)
        ensures
            res == *self,
    {
        Item {
            id: self.id.clone(),
            kind: self.kind.clone(),
            title: self.title.clone(),
            content: copy_opt(&self.content),
            mime: copy_opt(&self.mime),
            size: self.size,
            source: self.source.clone(),
            storage_path: self.storage_path.clone(),
            created_at: self.created_at.clone(),
            updated_at: self.updated_at.clone(),
        }
    }

    /// The item is a text snippet (its kind is `text`).
    pub open spec fn is_text(&self) -> bool {
        self.kind@ == "text"@
    }
}

/// The public view of an item: the same fields, and `exists` for a text or a file that is
/// present.
pub open spec fn publishes(p: PublicItem, item: Item, file_exists: bool) -> bool {
    &&& p.id == item.id
    &&& p.kind == item.kind
    &&& p.title == item.title
    &&& p.content == item.content
    &&& p.mime == item.mime
    &&& p.size == item.size
    &&& p.source == item.source
    &&& p.exists == (item.is_text() || file_exists)
    &&& p.created_at == item.created_at
    &&& p.updated_at == item.updated_at
}

fn is_text_item(item: &Item) -> (res: bool)
    ensures
        res == item.is_text(),
{
    chars_equal(&chars_of(item.kind.as_str()), &chars_of("text"))
}

/// The public view of one item, given whether its stored file is present.
pub fn public_item(item: &Item, file_exists: bool) -> (res: PublicItem)
    ensures
        publishes(res, *item, file_exists),
{
    let exists = is_text_item(item) || file_exists;
    PublicItem {
        id: item.id.clone(),
        kind: item.kind.clone(),
        title: item.title.clone(),
        content: copy_opt(&item.content),
        mime: copy_opt(&item.mime),
        size: item.size,
        source: item.source.clone(),
        exists,
        created_at: item.created_at.clone(),
        updated_at: item.updated_at.clone(),
    }
}

/// The list clients see, in the same order; `file_exists[i]` says whether the stored file
/// of `items[i]` is present.
pub fn public_items(items: &Vec<Item>, file_exists: &Vec<bool>) -> (res: Vec<PublicItem>)
    requires
        file_exists@.len() == items@.len(),
    ensures
        res@.len() == items@.len(),
        forall|i: int| 0 <= i < items@.len() ==> publishes(#[trigger] res@[i], items@[i], file_exists@[i]),
{
    let mut out: Vec<PublicItem> = Vec::new();
    let mut i: usize = 0;
    while i < items.len()
        invariant
            i <= items@.len(),
            file_exists@.len() == items@.len(),
            out@.len() == i,
            forall|t: int| 0 <= t < i ==> publishes(#[trigger] out@[t], items@[t], file_exists@[t]),
        decreases items.len() - i,
    {
        out.push(public_item(&items[i], file_exists[i]));
        i = i + 1;
    }
    out
}

/// Adds new items in front of the existing ones: the list after an addition.
pub fn add_items(new_items: Vec<Item>, existing: Vec<Item>) -> (res: Vec<Item>)
    ensures
        res@ == new_items@ + existing@,
{
    let mut all = new_items;
    let mut rest = existing;
    all.append(&mut rest);
    all
}

/// Whether some item has the id.
pub open spec fn has_id(items: Seq<Item>, id: Seq<char>) -> bool {
    exists|i: int| 0 <= i < items.len() && items[i].id@ == id
}

/// The test "the item's id differs from `id`".
pub open spec fn id_differs(id: Seq<char>) -> spec_fn(Item) -> bool {
    |it: Item| it.id@ != id
}

/// The items whose id differs from `id`, in order.
pub open spec fn without_id(items: Seq<Item>, id: Seq<char>) -> Seq<Item> {
    items.filter(id_differs(id))
}

/// Index of the first item with the id.
pub open spec fn first_with_id(items: Seq<Item>, id: Seq<char>) -> int {
    choose|i: int| 0 <= i < items.len() && items[i].id@ == id && forall|t: int| 0 <= t < i ==> items[t].id@ != id
}

/// Index of the first item with the id, if any.
pub fn find_item(items: &Vec<Item>, id: &str) -> (res: Option<usize>)
    ensures
        match res {
            Some(i) => i < items@.len() && items@[i as int].id@ == id@ && forall|t: int| 0 <= t < i ==> items@[t].id@ != id@,
            None => !has_id(items@, id@),
        },
{
    let key = chars_of(id);
    let mut i: usize = 0;
    while i < items.len()
        invariant
            i <= items@.len(),
            key@ == id@,
            forall|t: int| 0 <= t < i ==> items@[t].id@ != id@,
        decreases items.len() - i,
    {
        if chars_equal(&chars_of(items[i].id.as_str()), &key) {
            return Some(i);
        }
        i = i + 1;
    }
    None
}

/// Removes every item with the id; "item missing" (404) when there is none.
pub fn remove_item(zh: bool, items: Vec<Item>, id: &str) -> (res: Result<Vec<Item>, AppError>)
    ensures
        res is Ok <==> has_id(items@, id@),
        res matches Ok(v) ==> v@ == without_id(items@, id@),
        res matches Err(e) ==> e.status == 404 && e.message@ == localized(zh, "item_missing"@, Seq::empty()) && e.content_range is None,
{
    let ghost input = items@;
    let ghost pred = id_differs(id@);
    let key = chars_of(id);
    let n = items.len();
    let mut rev = into_reversed(items);
    let mut out: Vec<Item> = Vec::new();
    let mut k: usize = 0;
    let mut removed = false;
    assert(input.take(0).filter(pred) =~= Seq::<Item>::empty()) by {
        reveal(Seq::filter);
    }
    while rev.len() > 0
        invariant
            k + rev@.len() == n,
            n == input.len(),
            key@ == id@,
            pred == id_differs(id@),
            forall|t: int| 0 <= t < rev@.len() ==> #[trigger] rev@[t] == input[n - 1 - t],
            out@ == input.take(k as int).filter(pred),
            removed == (exists|t: int| 0 <= t < k && (#[trigger] input[t]).id@ == id@),
        decreases rev.len(),
    {
        let it = rev.pop().unwrap();
        assert(it == input[k as int]);
        let ghost before = out@;
        proof {
            reveal(Seq::filter);
            assert(input.take(k + 1).drop_last() =~= input.take(k as int));
            assert(input.take(k + 1).last() == input[k as int]);
        }
        let same = chars_equal(&chars_of(it.id.as_str()), &key);
        if same {
            removed = true;
        } else {
            out.push(it);
            assert(out@ =~= before.push(input[k as int]));
        }
        k = k + 1;
    }
    assert(input.take(n as int) =~= input);
    assert(removed == has_id(input, id@));
    if !removed {
        let none: [(&str, String); 0] = [];
        let message = tr(zh, "item_missing", &none);
        assert(none@.map_values(|p: (&str, String)| (p.0@, p.1@)) =~= Seq::empty());
        return Err(AppError::not_found(message));
    }
    Ok(out)
}

fn message(zh: bool, key: &str) -> (res: String)
    ensures
        res@ == localized(zh, key@, Seq::empty()),
{
    let none: [(&str, String); 0] = [];
    let res = tr(zh, key, &none);
    assert(none@.map_values(|p: (&str, String)| (p.0@, p.1@)) =~= Seq::empty());
    res
}

/// The item a download asks for: the first with the id. "Item missing" (404) when there is
/// none, "text has no download" (400) when it is a text.
pub fn download_target(zh: bool, items: &Vec<Item>, id: &str) -> (res: Result<usize, AppError>)
    ensures
        match res {
            Ok(i) => i < items@.len() && items@[i as int].id@ == id@ && !items@[i as int].is_text()
                && forall|t: int| 0 <= t < i ==> items@[t].id@ != id@,
            Err(e) => e.content_range is None && if has_id(items@, id@) {
                e.status == 400 && e.message@ == localized(zh, "text_no_download"@, Seq::empty())
                    && items@[first_with_id(items@, id@)].is_text()
            } else {
                e.status == 404 && e.message@ == localized(zh, "item_missing"@, Seq::empty())
            },
        },
{
    match find_item(items, id) {
        None => Err(AppError::not_found(message(zh, "item_missing"))),
        Some(i) => {
            proof {
                let j = first_with_id(items@, id@);
                assert(0 <= i < items@.len() && items@[i as int].id@ == id@ && forall|t: int| 0 <= t < i ==> items@[t].id@ != id@);
                if j < i {
                    assert(items@[j].id@ != id@);
                }
                if j > i {
                    assert(items@[i as int].id@ != id@);
                }
            }
            if is_text_item(&items[i]) {
                Err(AppError::bad_request(message(zh, "text_no_download")))
            } else {
                Ok(i)
            }
        },
    }
}

/// The stored path of the file an item shares, for saving or revealing it: messages
/// "item missing" or "text has no download" as for a download.
pub fn storage_path_of(zh: bool, items: &Vec<Item>, id: &str) -> (res: Result<String, String>)
    ensures
        match res {
            Ok(p) => has_id(items@, id@) && !items@[first_with_id(items@, id@)].is_text()
                && p == items@[first_with_id(items@, id@)].storage_path,
            Err(m) => if has_id(items@, id@) {
                m@ == localized(zh, "text_no_download"@, Seq::empty())
                    && items@[first_with_id(items@, id@)].is_text()
            } else {
                m@ == localized(zh, "item_missing"@, Seq::empty())
            },
        },
{
    match download_target(zh, items, id) {
        Ok(i) => {
            proof {
                let j = first_with_id(items@, id@);
                if j < i {
                    assert(items@[j].id@ != id@);
                }
                if j > i {
                    assert(items@[i as int].id@ != id@);
                }
            }
            Ok(items[i].storage_path.clone())
        },
        Err(e) => Err(e.message),
    }
}

/// The name a saved copy of a shared file is offered under: the final component of its
/// stored path, or `download`.
pub fn download_filename(component: Option<String>) -> (res: String)
    ensures
        res@ == match component {
            Some(c) => c@,
            None => "download"@,
        },
{
    match component {
        Some(c) => c,
        None => string_of(chars_of("download").as_slice()),
    }
}

/// The name a saved copy of the file at `storage_path` is offered under: its file name (for
/// a plain path, the part after the last `/`), or `download` when it has none.
pub fn download_filename_of(storage_path: &str) -> (res: String)
    ensures
        names_file(storage_path@) ==> res@ == last_segment(storage_path@),
        res@.len() > 0 && !res@.contains('/'),
        storage_path@.len() == 0 ==> res@ == "download"@,
{
    let component = path_file_name(storage_path);
    proof {
        reveal_strlit("download");
        assert(!"download"@.contains('/')) by {
            assert forall|i: int| 0 <= i < "download"@.len() implies "download"@[i] != '/' by {}
        }
        if component is Some {
            assert(text_of(component) == Some(component->0@));
            assert(normal_name(component->0@) && !component->0@.contains('/'));
        }
    }
    download_filename(component)
}

/// The number of bytes of a text in UTF-8.
pub open spec fn utf8_len(s: Seq<char>) -> nat {
    encode_utf8(s).len()
}

/// `item` is the text item for `text` from `source`.
pub open spec fn is_text_item_of(item: Item, zh: bool, text: Seq<char>, source: Seq<char>) -> bool {
    &&& item.kind@ == "text"@
    &&& item.title@ == title_of(zh, text)
    &&& item.content matches Some(c) && c@ == text
    &&& item.mime is None
    &&& item.size == utf8_len(text)
    &&& item.source@ == source
    &&& item.storage_path@ == Seq::<char>::empty()
}

/// The error for an empty text.
pub open spec fn is_empty_text_error(e: AppError, zh: bool) -> bool {
    e.status == 400 && e.message@ == localized(zh, "empty_text"@, Seq::empty()) && e.content_range is None
}

/// The item for a shared text with the given id and times: the text without surrounding
/// white space, titled by its words; "text is empty" (400) when nothing is left.
pub fn text_item(
    zh: bool,
    content: &str,
    source: &str,
    id: String,
    created_at: String,
    updated_at: String,
) -> (res: Result<Item, AppError>)
    ensures
        res is Err <==> trim_ws(content@).len() == 0,
        res matches Err(e) ==> is_empty_text_error(e, zh),
        res matches Ok(item) ==> is_text_item_of(item, zh, trim_ws(content@), source@) && item.id == id
            && item.created_at == created_at && item.updated_at == updated_at,
{
    let trimmed = trim_chars(&chars_of(content));
    if trimmed.len() == 0 {
        return Err(AppError::bad_request(message(zh, "empty_text")));
    }
    let text = string_of(trimmed.as_slice());
    let title = text_title(zh, text.as_str());
    let size = text.as_str().as_bytes().len() as u64;
    let kind = string_of(chars_of("text").as_slice());
    let storage_path = string_of(Vec::<char>::new().as_slice());
    let src = string_of(chars_of(source).as_slice());
    assert(text@ == trim_ws(content@));
    assert(size == utf8_len(text@));
    assert(storage_path@ == Seq::<char>::empty());
    assert(kind@ == "text"@);
    Ok(Item {
        id,
        kind,
        title,
        content: Some(text),
        mime: None,
        size,
        source: src,
        storage_path,
        created_at,
        updated_at,
    })
}

/// A new text item from `source` (`client` or `admin`) with a fresh id and the current time.
pub fn new_text_item(zh: bool, content: &str, source: &str) -> (res: Result<Item, AppError>)
    ensures
        res is Err <==> trim_ws(content@).len() == 0,
        res matches Err(e) ==> is_empty_text_error(e, zh),
        res matches Ok(item) ==> is_text_item_of(item, zh, trim_ws(content@), source@) && uuid_text(item.id@),
{
    let trimmed = trim_chars(&chars_of(content));
    if trimmed.len() == 0 {
        return Err(AppError::bad_request(message(zh, "empty_text")));
    }
    let id = new_id();
    let created_at = now();
    let updated_at = now();
    text_item(zh, content, source, id, created_at, updated_at)
}

/// A file the administrator picked: its path and, when it could be read, whether it is a
/// regular file and its length.
#[derive(Debug)]
pub struct LocalFile {
    pub path: String,
    pub metadata: Option<(bool, u64)>,
}

/// The key of the message for the first picked file that cannot be shared, if any:
/// `selected_file_missing` when it cannot be read, `only_file` when it is not a file.
pub open spec fn first_local_file_problem(files: Seq<LocalFile>) -> Option<Seq<char>>
    decreases files.len(),
{
    if files.len() == 0 {
        None
    } else {
        match files[0].metadata {
            None => Some("selected_file_missing"@),
            Some((is_file, _)) => if !is_file {
                Some("only_file"@)
            } else {
                first_local_file_problem(files.drop_first())
            },
        }
    }
}

/// `item` shares the picked file `file` (readable, a regular file) as the administrator's.
pub open spec fn shares_local_file(item: Item, file: LocalFile) -> bool {
    &&& item.kind@ == "file"@
    &&& item.content is None
    &&& file.metadata matches Some((_, len)) && item.size == len
    &&& item.source@ == "admin"@
    &&& item.storage_path == file.path
}

/// For a plain path, the item is titled by the path's file name and typed by the MIME type
/// guessed from that name's extension (none without an extension).
pub open spec fn named_by_path(item: Item, path: Seq<char>) -> bool {
    names_file(path) ==> {
        &&& item.title@ == last_segment(path)
        &&& opt_string_view(item.mime) == match extension_of(last_segment(path)) {
            Some(e) => guessed_mime(e),
            None => None,
        }
    }
}

/// A shared file's title is not empty and holds no `/`.
pub open spec fn plain_title(item: Item) -> bool {
    item.title@.len() > 0 && !item.title@.contains('/')
}

/// The title of a shared file: the final component of its path, or `file`.
pub fn file_title(component: Option<String>) -> (res: String)
    ensures
        res@ == match component {
            Some(c) => c@,
            None => "file"@,
        },
{
    match component {
        Some(c) => c,
        None => string_of(chars_of("file").as_slice()),
    }
}

/// The MIME type guessed from a file's extension, if it has one.
pub fn mime_for_path_extension(extension: Option<String>) -> (res: Option<String>)
    ensures
        opt_string_view(res) == match extension {
            Some(e) => guessed_mime(e@),
            None => None,
        },
{
    match extension {
        Some(ext) => mime_for_extension(ext.as_str()),
        None => None,
    }
}

/// The items for files the administrator picked, each with a fresh id and the current time;
/// titled by the final component of the path, typed by its extension. Fails with "select a
/// file" when none was picked, else with the message for the first file that cannot be
/// shared.
pub fn local_file_items(zh: bool, files: &Vec<LocalFile>) -> (res: Result<Vec<Item>, AppError>)
    ensures
        files@.len() == 0 ==> (res matches Err(e) && e.status == 400 && e.message@ == localized(
            zh,
            "please_select_file"@,
            Seq::empty(),
        )),
        files@.len() > 0 ==> (res is Err <==> first_local_file_problem(files@) is Some),
        files@.len() > 0 ==> (res matches Err(e) ==> e.status == 400 && e.content_range is None
            && e.message@ == localized(zh, first_local_file_problem(files@)->0, Seq::empty())),
        res matches Ok(v) ==> v@.len() == files@.len() && forall|i: int| 0 <= i < files@.len() ==> shares_local_file(#[trigger] v@[i], files@[i]) && uuid_text(v@[i].id@) && named_by_path(v@[i], files@[i].path@) && plain_title(v@[i]),
{
    if files.len() == 0 {
        return Err(AppError::bad_request(message(zh, "please_select_file")));
    }
    let mut out: Vec<Item> = Vec::new();
    let mut i: usize = 0;
    assert(files@.skip(0) =~= files@);
    while i < files.len()
        invariant
            i <= files@.len(),
            out@.len() == i,
            forall|t: int| 0 <= t < i ==> shares_local_file(#[trigger] out@[t], files@[t]) && uuid_text(out@[t].id@) && named_by_path(out@[t], files@[t].path@) && plain_title(out@[t]),
            first_local_file_problem(files@) == first_local_file_problem(files@.skip(i as int)),
        decreases files.len() - i,
    {
        let file = &files[i];
        assert(files@.skip(i as int)[0] == files@[i as int]);
        assert(files@.skip(i as int).drop_first() =~= files@.skip(i + 1));
        let (is_file, len) = match file.metadata {
            None => {
                return Err(AppError::bad_request(message(zh, "selected_file_missing")));
            },
            Some(m) => m,
        };
        if !is_file {
            return Err(AppError::bad_request(message(zh, "only_file")));
        }
        let component = path_file_name(file.path.as_str());
        proof {
            reveal_strlit("file");
            assert(!"file"@.contains('/')) by {
                assert forall|i: int| 0 <= i < "file"@.len() implies "file"@[i] != '/' by {}
            }
            if component is Some {
                assert(text_of(component) == Some(component->0@));
                assert(normal_name(component->0@) && !component->0@.contains('/'));
            }
        }
        let title = file_title(component);
        let mime = mime_for_path_extension(path_extension(file.path.as_str()));
        let id = new_id();
        let created_at = now();
        let updated_at = now();
        out.push(Item {
            id,
            kind: string_of(chars_of("file").as_slice()),
            title,
            content: None,
            mime,
            size: len,
            source: string_of(chars_of("admin").as_slice()),
            storage_path: file.path.clone(),
            created_at,
            updated_at,
        });
        i = i + 1;
    }
    assert(files@.skip(i as int) =~= Seq::<LocalFile>::empty());
    Ok(out)
}

proof fn lemma_without_absent_id(items: Seq<Item>, id: Seq<char>)
    requires
        !has_id(items, id),
    ensures
        without_id(items, id) == items,
    decreases items.len(),
{
    reveal(Seq::filter);
    if items.len() > 0 {
        let rest = items.drop_last();
        assert(!has_id(rest, id)) by {
            if has_id(rest, id) {
                let k = choose|k: int| 0 <= k < rest.len() && rest[k].id@ == id;
                assert(items[k] == rest[k]);
            }
        }
        lemma_without_absent_id(rest, id);
        assert(items.last().id@ != id);
        assert(rest.push(items.last()) =~= items);
    }
}

/// Removing an item just added, whose id no other item has, gives back the list as it was.
pub proof fn removing_an_added_item_restores_the_list(item: Item, existing: Seq<Item>)
    requires
        !has_id(existing, item.id@),
    ensures
        has_id(seq![item] + existing, item.id@),
        without_id(seq![item] + existing, item.id@) == existing,
{
    let all = seq![item] + existing;
    assert(all[0] == item);
    let p = id_differs(item.id@);
    Seq::filter_distributes_over_add(seq![item], existing, p);
    reveal(Seq::filter);
    assert(seq![item].drop_last() =~= Seq::<Item>::empty());
    assert(Seq::<Item>::empty().filter(p) =~= Seq::<Item>::empty());
    assert(!p(item));
    assert(seq![item].last() == item);
    assert(seq![item].filter(p) =~= Seq::<Item>::empty());
    lemma_without_absent_id(existing, item.id@);
    assert(Seq::<Item>::empty() + existing =~= existing);
}

/// Removal takes away exactly the items with the id: none of them is left, and every item
/// with another id stays.
pub proof fn removal_keeps_other_items(items: Seq<Item>, id: Seq<char>)
    ensures
        forall|i: int| 0 <= i < without_id(items, id).len() ==> (#[trigger] without_id(items, id)[i]).id@ != id,
        forall|j: int| 0 <= j < items.len() && (#[trigger] items[j]).id@ != id ==> without_id(items, id).contains(items[j]),
{
    let p = id_differs(id);
    assert forall|i: int| 0 <= i < without_id(items, id).len() implies (#[trigger] without_id(items, id)[i]).id@ != id by {
        items.lemma_filter_pred(p, i);
    }
    assert forall|j: int| 0 <= j < items.len() && (#[trigger] items[j]).id@ != id implies without_id(items, id).contains(items[j]) by {
        items.lemma_filter_contains(p, j);
    }
}

} // verus!
