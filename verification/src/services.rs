//! Calls into the outside crates this library builds on: QR code rendering, percent
//! encoding, MIME guessing, random identifiers and the clock.
use vstd::prelude::*;

use qrcode::types::QrError;
use vstd::utf8::encode_utf8;

verus! {

/// `qrcode::types::QrError`, the error of a QR code that cannot be made.
#[verifier::external_type_specification]
#[verifier::external_body]
pub struct ExQrError(QrError);

/// The SVG document that the `qrcode` crate renders for `data` with modules scaled up to at
/// least `min_width` by `min_height` pixels and the given dark and light colours, or `None`
/// when the data does not fit into a QR code.
pub uninterp spec fn qr_svg_image(
    data: Seq<u8>,
    min_width: u32,
    min_height: u32,
    dark: Seq<char>,
    light: Seq<char>,
) -> Option<Seq<char>>;

/// The first MIME type that `mime_guess` knows for a file extension, if any.
pub uninterp spec fn guessed_mime(extension: Seq<char>) -> Option<Seq<char>>;

/// `QrCode::new(data)` rendered through `render::<svg::Color>()` with `min_dimensions`,
/// `dark_color`, `light_color` and `build`: `Ok` exactly when the data fits, and then the
/// document `qr_svg_image` names for these arguments. The renderer computes pixel sizes in
/// `u32` from the minimum dimensions, so they are kept small enough not to overflow.
#[verifier::external_body]
pub(crate) fn render_qr_svg(data: &[u8], min_width: u32, min_height: u32, dark: &str, light: &str) -> (res:
    Result<String, QrError>)
    requires
        min_width <= 1_000_000,
        min_height <= 1_000_000,
    ensures
        res is Ok <==> qr_svg_image(data@, min_width, min_height, dark@, light@) is Some,
        res matches Ok(s) ==> Some(s@) == qr_svg_image(data@, min_width, min_height, dark@, light@),
{
    let code = qrcode::QrCode::new(data)?;
    Ok(
        code.render::<qrcode::render::svg::Color>().min_dimensions(min_width, min_height).dark_color(
            qrcode::render::svg::Color(dark),
        ).light_color(qrcode::render::svg::Color(light)).build(),
    )
}

/// `mime_guess::from_ext(extension).first_raw()`: the MIME type `guessed_mime` names, and
/// none for an empty extension.
#[verifier::external_body]
pub(crate) fn mime_for_extension(extension: &str) -> (res: Option<String>)
    ensures
        match res {
            Some(m) => guessed_mime(extension@) == Some(m@),
            None => guessed_mime(extension@) is None,
        },
        extension@.len() == 0 ==> res is None,
{
    mime_guess::from_ext(extension).first_raw().map(str::to_string)
}

/// A byte that percent encoding leaves as it is: an ASCII letter or digit, `-`, `.`, `_`
/// or `~`.
pub open spec fn url_safe_byte(b: u8) -> bool {
    (48 <= b && b <= 57) || (65 <= b && b <= 90) || (97 <= b && b <= 122) || b == 45 || b == 46
        || b == 95 || b == 126
}

/// The upper-case hexadecimal digit of a value below 16.
pub open spec fn hex_digit(d: u8) -> char {
    if d < 10 {
        ((48 + d) as u8) as char
    } else {
        ((55 + d) as u8) as char
    }
}

/// Percent encoding of bytes: safe bytes stay, every other byte becomes `%` and two
/// upper-case hexadecimal digits.
pub open spec fn percent_encoded(bytes: Seq<u8>) -> Seq<char>
    decreases bytes.len(),
{
    if bytes.len() == 0 {
        Seq::empty()
    } else {
        let b = bytes[0];
        let head = if url_safe_byte(b) {
            seq![b as char]
        } else {
            seq!['%', hex_digit(b / 16), hex_digit(b % 16)]
        };
        head + percent_encoded(bytes.drop_first())
    }
}

/// `urlencoding::encode`: percent-encodes every UTF-8 byte of the text except ASCII
/// letters, digits and `-_.~`.
#[verifier::external_body]
pub(crate) fn url_encode(text: &str) -> (res: String)
    ensures
        res@ == percent_encoded(encode_utf8(text@)),
{
    urlencoding::encode(text).into_owned()
}

/// A lower-case hexadecimal digit.
pub open spec fn lower_hex_char(c: char) -> bool {
    ('0' <= c && c <= '9') || ('a' <= c && c <= 'f')
}

/// The hyphenated form of a UUID: 36 characters, hyphens at positions 8, 13, 18 and 23,
/// lower-case hexadecimal digits elsewhere.
pub open spec fn uuid_text(s: Seq<char>) -> bool {
    &&& s.len() == 36
    &&& forall|i: int| 0 <= i < 36 ==> (if i == 8 || i == 13 || i == 18 || i == 23 {
        s[i] == '-'
    } else {
        lower_hex_char(#[trigger] s[i])
    })
}

/// `Uuid::new_v4().to_string()`: a random identifier in the hyphenated lower-case form that
/// `Uuid`'s `Display` writes. Which identifier comes out is left open (it is random), and so is
/// the panic of `new_v4` when the operating system's random source fails.
#[verifier::external_body]
pub(crate) fn new_id() -> (res: String)
    ensures
        uuid_text(res@),
{
    uuid::Uuid::new_v4().to_string()
}

/// `Utc::now().to_rfc3339()`: the current time as RFC 3339 text. The time depends on the
/// clock and the fraction of a second on how precise it is, so nothing is stated of the text.
#[verifier::external_body]
pub(crate) fn now() -> (res: String) {
    chrono::Utc::now().to_rfc3339()
}

} // verus!
