//! Errors and share information of the HTTP server.
use vstd::prelude::*;

use qrcode::types::QrError;
use vstd::utf8::encode_utf8;

use crate::localization::{tr, localized, values_view};
use crate::network::{address_view, opt_string_view, LanAddress};
use crate::services::{qr_svg_image, render_qr_svg};
use crate::text::{chars_of, decimal, decimal_chars, decimal_string, push_all, string_of};

verus! {

/// An error answered to an HTTP client: its status code, its message and, for a range
/// that cannot be served, the `Content-Range` value that says the file's size.
#[derive(Debug)]
pub struct AppError {
    pub status: u16,
    pub message: String,
    pub content_range: Option<String>,
}

impl AppError {
    /// This error is the "range not satisfiable" answer for a file of `file_size` bytes.
    pub open spec fn is_range_error(&self, zh: bool, file_size: u64) -> bool {
        &&& self.status == 416
        &&& self.message@ == localized(
            zh,
            "range_invalid"@,
            seq![("file_size"@, decimal(file_size as nat))],
        )
        &&& self.content_range matches Some(c) && c@ == "bytes */"@ + decimal(file_size as nat)
    }

    /// A rejected request (400).
    pub fn bad_request(message: String) -> (res: Self)
        ensures
            res.status == 400,
            res.message == message,
            res.content_range is None,
    {
        AppError { status: 400, message, content_range: None }
    }

    /// A missing item or file (404).
    pub fn not_found(message: String) -> (res: Self)
        ensures
            res.status == 404,
            res.message == message,
            res.content_range is None,
    {
        AppError { status: 404, message, content_range: None }
    }

    /// A range of a file of `file_size` bytes that cannot be served (416).
    pub fn range_not_satisfiable(zh: bool, file_size: u64) -> (res: Self)
        ensures
            res.is_range_error(zh, file_size),
    {
        let size = decimal_string(file_size);
        let values = [("file_size", size)];
        let message = tr(zh, "range_invalid", &values);
        proof {
            reveal_strlit("file_size");
            assert(values@.map_values(|p: (&str, String)| (p.0@, p.1@)) =~= seq![("file_size"@, decimal(file_size as nat))]);
        }
        let mut header = chars_of("bytes */");
        push_all(&mut header, &decimal_chars(file_size));
        AppError { status: 416, message, content_range: Some(string_of(header.as_slice())) }
    }

    /// A failure of the server itself (500).
    pub fn internal(message: String) -> (res: Self)
        ensures
            res.status == 500,
            res.message == message,
            res.content_range is None,
    {
        AppError { status: 500, message, content_range: None }
    }
}

/// One address a share can be opened at, with its URL and the QR code of the URL.
#[derive(Debug)]
pub struct ShareAddress {
    pub name: Option<String>,
    pub ip: String,
    pub url: String,
    pub qr: String,
}

/// What a running share announces: its port, the primary address (the first one) and all
/// addresses.
#[derive(Debug)]
pub struct ServerInfo {
    pub port: u16,
    pub ip: String,
    pub url: String,
    pub qr: String,
    pub addresses: Vec<ShareAddress>,
}

/// A share address as (name, IP text, URL, QR document).
pub open spec fn share_address_view(a: ShareAddress) -> (Option<Seq<char>>, Seq<char>, Seq<char>, Seq<char>) {
    (opt_string_view(a.name), a.ip@, a.url@, a.qr@)
}

/// The URL of a share at an IP text and port.
pub open spec fn share_url(ip: Seq<char>, port: u16) -> Seq<char> {
    "http://"@ + ip + seq![':'] + decimal(port as nat)
}

/// The QR code document of a URL: 128 by 128 pixels at least, dark grey on white.
pub open spec fn url_qr(url: Seq<char>) -> Option<Seq<char>> {
    qr_svg_image(encode_utf8(url), 128, 128, "#303133"@, "#ffffff"@)
}

/// The addresses a share is announced on: the LAN addresses, or `Localhost` at 127.0.0.1 when
/// there are none.
pub open spec fn share_targets(lan: Seq<(Option<Seq<char>>, Seq<char>)>) -> Seq<(Option<Seq<char>>, Seq<char>)> {
    if lan.len() == 0 {
        seq![(Some("Localhost"@), "127.0.0.1"@)]
    } else {
        lan
    }
}

/// The QR code of a URL.
pub fn qr_svg(url: &str) -> (res: Result<String, QrError>)
    ensures
        res is Ok <==> url_qr(url@) is Some,
        res matches Ok(s) ==> Some(s@) == url_qr(url@),
{
    render_qr_svg(url.as_bytes(), 128, 128, "#303133", "#ffffff")
}

fn share_url_string(ip: &str, port: u16) -> (res: String)
    ensures
        res@ == share_url(ip@, port),
{
    let mut url = chars_of("http://");
    push_all(&mut url, &chars_of(ip));
    url.push(':');
    push_all(&mut url, &decimal_chars(port as u64));
    string_of(url.as_slice())
}

/// A share address at an IP with its URL and QR code.
fn share_address(name: Option<String>, ip: String, port: u16) -> (res: Result<ShareAddress, QrError>)
    ensures
        res is Ok <==> url_qr(share_url(ip@, port)) is Some,
        res matches Ok(a) ==> share_address_view(a) == (
            opt_string_view(name),
            ip@,
            share_url(ip@, port),
            url_qr(share_url(ip@, port))->0,
        ),
{
    let url = share_url_string(ip.as_str(), port);
    let qr = qr_svg(url.as_str())?;
    Ok(ShareAddress { name, ip, url, qr })
}

/// What a share on `port` announces for the given LAN addresses (`Localhost` when there
/// are none); the first address is the primary one. Fails when a URL does not fit into a
/// QR code.
pub fn server_info(port: u16, lan_addresses: &Vec<LanAddress>) -> (res: Result<ServerInfo, QrError>)
    ensures
        ({
            let targets = share_targets(lan_addresses@.map_values(|a: LanAddress| address_view(a)));
            &&& res is Ok <==> (forall|i: int| 0 <= i < targets.len() ==> url_qr(share_url(#[trigger] targets[i].1, port)) is Some)
            &&& res matches Ok(info) ==> {
                &&& info.port == port
                &&& info.addresses@.len() == targets.len()
                &&& forall|i: int| 0 <= i < targets.len() ==> #[trigger] share_address_view(info.addresses@[i]) == (
                    targets[i].0,
                    targets[i].1,
                    share_url(targets[i].1, port),
                    url_qr(share_url(targets[i].1, port))->0,
                )
                &&& info.ip@ == info.addresses@[0].ip@
                &&& info.url@ == info.addresses@[0].url@
                &&& info.qr@ == info.addresses@[0].qr@
            }
        }),
{
    let ghost lan = lan_addresses@.map_values(|a: LanAddress| address_view(a));
    let ghost targets = share_targets(lan);
    let mut addresses: Vec<ShareAddress> = Vec::new();
    if lan_addresses.len() == 0 {
        let name = string_of(chars_of("Localhost").as_slice());
        let ip = string_of(chars_of("127.0.0.1").as_slice());
        assert(targets[0] == (Some(name@), ip@));
        let a = match share_address(Some(name), ip, port) {
            Ok(a) => a,
            Err(e) => {
                assert(url_qr(share_url(targets[0].1, port)) is None);
                return Err(e);
            },
        };
        addresses.push(a);
    } else {
        let mut i: usize = 0;
        while i < lan_addresses.len()
            invariant
                i <= lan_addresses.len(),
                lan == lan_addresses@.map_values(|a: LanAddress| address_view(a)),
                targets == lan,
                addresses@.len() == i,
                forall|t: int| 0 <= t < i ==> url_qr(share_url(#[trigger] targets[t].1, port)) is Some,
                forall|t: int| 0 <= t < i ==> #[trigger] share_address_view(addresses@[t]) == (
                    targets[t].0,
                    targets[t].1,
                    share_url(targets[t].1, port),
                    url_qr(share_url(targets[t].1, port))->0,
                ),
            decreases lan_addresses.len() - i,
        {
            let entry = &lan_addresses[i];
            let name = match &entry.name {
                Some(n) => Some(n.clone()),
                None => None,
            };
            assert(opt_string_view(name) == targets[i as int].0);
            let ip = entry.ip.clone();
            assert(ip@ == targets[i as int].1);
            let a = match share_address(name, ip, port) {
                Ok(a) => a,
                Err(e) => {
                    assert(url_qr(share_url(targets[i as int].1, port)) is None);
                    return Err(e);
                },
            };
            addresses.push(a);
            i = i + 1;
        }
    }
    let ip = addresses[0].ip.clone();
    let url = addresses[0].url.clone();
    let qr = addresses[0].qr.clone();
    Ok(ServerInfo { port, ip, url, qr, addresses })
}

/// The address a started server remembers as its own: the first LAN address, or 127.0.0.1
/// when there is none.
pub fn primary_lan_ip(addresses: &Vec<LanAddress>) -> (res: String)
    ensures
        addresses@.len() > 0 ==> res@ == addresses@[0].ip@,
        addresses@.len() == 0 ==> res@ == "127.0.0.1"@,
{
    if addresses.len() > 0 {
        addresses[0].ip.clone()
    } else {
        proof {
            reveal_strlit("127.0.0.1");
        }
        string_of(chars_of("127.0.0.1").as_slice())
    }
}

/// The addresses that the share information lists: those found now, or else the address
/// the server picked when it started, unnamed.
pub fn share_addresses(addresses: Vec<LanAddress>, lan_ip: &str) -> (res: Vec<LanAddress>)
    ensures
        addresses@.len() > 0 ==> res@ == addresses@,
        addresses@.len() == 0 ==> res@.len() == 1 && res@[0].name is None && res@[0].ip@ == lan_ip@,
{
    if addresses.len() == 0 {
        let mut v: Vec<LanAddress> = Vec::new();
        v.push(LanAddress { name: None, ip: string_of(chars_of(lan_ip).as_slice()) });
        v
    } else {
        addresses
    }
}

/// The message shown when the server cannot listen on `port`: "port taken" when the
/// address is in use, else "port failed" with the system's error text.
pub fn bind_error_message(zh: bool, port: u16, addr_in_use: bool, error: &str) -> (res: String)
    ensures
        addr_in_use ==> res@ == localized(zh, "port_taken"@, seq![("port"@, decimal(port as nat))]),
        !addr_in_use ==> res@ == localized(
            zh,
            "port_failed"@,
            seq![("port"@, decimal(port as nat)), ("error"@, error@)],
        ),
{
    let port_text = decimal_string(port as u64);
    proof {
        reveal_strlit("port");
        reveal_strlit("error");
    }
    if addr_in_use {
        let values = [("port", port_text)];
        assert(values_view(values@) =~= seq![("port"@, decimal(port as nat))]);
        tr(zh, "port_taken", &values)
    } else {
        let values = [("port", port_text), ("error", string_of(chars_of(error).as_slice()))];
        assert(values_view(values@) =~= seq![("port"@, decimal(port as nat)), ("error"@, error@)]);
        tr(zh, "port_failed", &values)
    }
}

} // verus!
