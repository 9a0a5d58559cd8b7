//! The answer to a download request: status, headers and the part of the file to send.
use vstd::prelude::*;
use vstd::utf8::encode_utf8;

use crate::items::Item;
use crate::naming::{ascii_fallback, ascii_fallback_name};
use crate::range::{parse_range_header, requested_range};
use crate::server::AppError;
use crate::services::{percent_encoded, url_encode};
use crate::text::{chars_of, decimal, decimal_chars, push_all, string_of};

verus! {

/// How a download is answered: the status (200 for the whole file, 206 for a range), the
/// headers, and which bytes of the file to send.
#[derive(Debug)]
pub struct DownloadPlan {
    pub status: u16,
    pub content_type: String,
    pub content_disposition: String,
    pub content_length: u64,
    pub content_range: Option<String>,
    pub start: u64,
    pub length: u64,
}

/// A character that a header value may hold: not a control character other than tab.
pub open spec fn header_char(c: char) -> bool {
    (c as u32 >= 32 && c as u32 != 127) || c == '\t'
}

/// The default content type.
pub open spec fn octet_stream() -> Seq<char> {
    "application/octet-stream"@
}

/// The content type sent for an item: its MIME type when it can stand in a header, else
/// `application/octet-stream`.
pub open spec fn content_type_for(mime: Option<Seq<char>>) -> Seq<char> {
    match mime {
        Some(m) => if forall|i: int| 0 <= i < m.len() ==> header_char(#[trigger] m[i]) {
            m
        } else {
            octet_stream()
        },
        None => octet_stream(),
    }
}

/// The disposition of a download: an attachment with the ASCII fallback name and the
/// percent-encoded UTF-8 title.
pub open spec fn disposition_for(title: Seq<char>) -> Seq<char> {
    "attachment; filename=\""@ + ascii_fallback(title) + "\"; filename*=UTF-8''"@
        + percent_encoded(encode_utf8(title))
}

/// The `Content-Range` value of a served range.
pub open spec fn served_range(start: u64, end: u64, size: u64) -> Seq<char> {
    "bytes "@ + decimal(start as nat) + seq!['-'] + decimal(end as nat) + seq!['/'] + decimal(
        size as nat,
    )
}

#[verifier::loop_isolation(false)]
fn content_type_of(mime: &Option<String>) -> (res: String)
    ensures
        res@ == content_type_for(
            match mime {
                Some(m) => Some(m@),
                None => None,
            },
        ),
{
    match mime {
        Some(m) => {
            let cs = chars_of(m.as_str());
            let mut i: usize = 0;
            while i < cs.len()
                invariant
                    i <= cs@.len(),
                    cs@ == m@,
                    forall|t: int| 0 <= t < i ==> header_char(#[trigger] cs@[t]),
                decreases cs.len() - i,
            {
                let c = cs[i];
                if !((c as u32 >= 32 && c as u32 != 127) || c == '\t') {
                    assert(!header_char(cs@[i as int]));
                    return string_of(chars_of("application/octet-stream").as_slice());
                }
                i = i + 1;
            }
            m.clone()
        },
        None => string_of(chars_of("application/octet-stream").as_slice()),
    }
}

fn disposition_of(title: &str) -> (res: String)
    ensures
        res@ == disposition_for(title@),
{
    let mut out = chars_of("attachment; filename=\"");
    push_all(&mut out, &chars_of(ascii_fallback_name(title).as_str()));
    push_all(&mut out, &chars_of("\"; filename*=UTF-8''"));
    push_all(&mut out, &chars_of(url_encode(title).as_str()));
    string_of(out.as_slice())
}

/// How to answer a download of `item`, whose file has `file_size` bytes, with the given
/// `Range` header: the whole file, or the requested range, or "range not satisfiable".
pub fn download_plan(zh: bool, item: &Item, file_size: u64, range_header: Option<&[u8]>) -> (res:
    Result<DownloadPlan, AppError>)
    ensures
        range_header is None ==> res is Ok,
        range_header matches Some(h) ==> (res is Ok <==> requested_range(h@, file_size) is Some),
        res matches Err(e) ==> e.is_range_error(zh, file_size),
        res matches Ok(plan) ==> {
            &&& plan.content_type@ == content_type_for(
                match item.mime {
                    Some(m) => Some(m@),
                    None => None,
                },
            )
            &&& plan.content_disposition@ == disposition_for(item.title@)
            &&& match range_header {
                Some(h) if requested_range(h@, file_size) is Some => {
                    let (start, end) = requested_range(h@, file_size)->0;
                    &&& plan.status == 206
                    &&& plan.start == start
                    &&& plan.length == end - start + 1
                    &&& plan.content_length == plan.length
                    &&& plan.content_range matches Some(r) && r@ == served_range(start, end, file_size)
                }
                _ => {
                    &&& plan.status == 200
                    &&& plan.start == 0
                    &&& plan.length == file_size
                    &&& plan.content_length == file_size
                    &&& plan.content_range is None
                }
            }
        },
{
    let range = parse_range_header(zh, range_header, file_size)?;
    let content_type = content_type_of(&item.mime);
    let content_disposition = disposition_of(item.title.as_str());
    match range {
        Some((start, end)) => {
            proof {
                crate::range::range_lies_inside_file(range_header->0@, file_size);
            }
            let length = end - start + 1;
            let mut r = chars_of("bytes ");
            push_all(&mut r, &decimal_chars(start));
            r.push('-');
            push_all(&mut r, &decimal_chars(end));
            r.push('/');
            push_all(&mut r, &decimal_chars(file_size));
            Ok(DownloadPlan {
                status: 206,
                content_type,
                content_disposition,
                content_length: length,
                content_range: Some(string_of(r.as_slice())),
                start,
                length,
            })
        },
        None => Ok(DownloadPlan {
            status: 200,
            content_type,
            content_disposition,
            content_length: file_size,
            content_range: None,
            start: 0,
            length: file_size,
        }),
    }
}

} // verus!
