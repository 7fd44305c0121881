//! The calls that leave this crate. Nothing here is proved: each contract
//! says what the called function's source or documentation shows, and the
//! rest of the library is verified against it.

use crate::models::opt_pairs_view;
use vstd::prelude::*;

verus! {

/// `uuid::Uuid::new_v4`, rendered by the `Display` of `uuid::Uuid`: a
/// random version-4 identifier in its hyphenated form, which is always 36
/// characters long. Which identifier comes back is left open, so two calls
/// are not known to differ.
#[verifier::external_body]
pub(crate) fn new_uuid() -> (id: String)
    ensures
        id@.len() == 36,
{
    uuid::Uuid::new_v4().to_string()
}

/// A character that may stand in the value of an HTTP header: the tab, and
/// any character from the space on but the delete character.
pub open spec fn header_char_ok(c: char) -> bool {
    (c as u32 >= 32 && c as u32 != 127) || c as u32 == 9
}

/// A text that may stand as the value of an HTTP header.
pub open spec fn header_value_ok(s: Seq<char>) -> bool {
    forall|i: int| 0 <= i < s.len() ==> header_char_ok(#[trigger] s[i])
}

/// `reqwest::header::HeaderValue::from_str`, asked only whether it accepts
/// the text. It accepts a text when each of its bytes is at least 32 and
/// not 127, or is the tab. A character below 128 is one byte of its own
/// value, and the bytes of any other character are all above 127, so the
/// test on bytes is the test on characters stated here.
#[verifier::external_body]
pub(crate) fn is_header_value(text: &str) -> (ok: bool)
    ensures
        ok == header_value_ok(text@),
{
    reqwest::header::HeaderValue::from_str(text).is_ok()
}

/// The key and value pairs that the query of an absolute URL holds, in
/// order and decoded, as the `url` crate reads them; none where the text is
/// not an absolute URL.
pub uninterp spec fn url_query_pairs(url: Seq<char>) -> Option<Seq<(Seq<char>, Seq<char>)>>;

/// `url::Url::parse` and, on what it parsed, `url::Url::query_pairs`: the
/// pairs of the query, each key and value as an owned text. A text that
/// does not parse gives `None`. The result depends on the text alone.
#[verifier::external_body]
pub(crate) fn query_pairs_of(url: &str) -> (pairs: Option<Vec<(String, String)>>)
    ensures
        opt_pairs_view(pairs) == url_query_pairs(url@),
{
    match url::Url::parse(url) {
        Ok(parsed) => Some(
            parsed.query_pairs().map(|(k, v)| (k.into_owned(), v.into_owned())).collect(),
        ),
        Err(_) => None,
    }
}

/// The picture that the `qrcode` crate draws for a text: the side of the
/// square picture in pixels and its grey values, row by row; or, where the
/// text does not fit a QR code, the crate's description of why.
pub uninterp spec fn qr_picture(text: Seq<char>) -> Result<(u32, Seq<u8>), Seq<char>>;

/// The longest text, in bytes, that `qr_pixels` takes.
pub const QR_TEXT_LIMIT: usize = 131;

/// `qrcode::QrCode::new` on the bytes of the text and, on the code it
/// made, `QrCode::render` for `image::Luma<u8>` with `Renderer::build`,
/// handed out as the picture's width and raw buffer. The renderer draws
/// each module as a square of eight pixels with a margin of four modules,
/// so the picture is square, and `image` allots one byte to each pixel. An
/// error is handed out as its `Display` text. The result depends on the
/// text alone.
///
/// The limit on the text keeps the sums of `qrcode`'s mask scoring, which
/// are 16 bits wide, from running over, whatever the text holds.
///
/// A text within the limit comes to a code of at most 53 modules a side.
/// `encode_auto` first counts the bits of the segments for the sizes up to
/// that one, and settles for such a size where they are at most 1456.
/// Write the cost of a segment as 8 bits for each byte plus an excess.
/// The excess is 12 for bytes and at most 11, 10 and 9 for letters, digits
/// and kanji; a piece of one, two or three bytes has an excess of at least
/// 10, 5 and 0. The optimizer ends a segment only where that costs less
/// than merging it with the piece that follows, and then the excess of
/// the segment is at most three times the length of that piece:
/// - merged, the two are bytes, unless one holds digits and the other
///   letters. As bytes they have an excess of 12, so the two excesses add
///   up to at most 11: that leaves the segment at most 1 and 6 before a
///   piece of one and two bytes; before one of three bytes it leaves 11,
///   but only three digits have an excess below 2, and then the segment
///   is kanji, with at most 9; before a longer piece 12 is enough;
/// - digits before letters are ended only with an excess below zero, and
///   letters before digits only where the digits are seven or more.
/// With at most 12 for the last segment, a text of `n` bytes takes at most
/// `8 * n + 3 * (n - 1) + 12` bits, 1450 for 131 bytes.
///
/// For 53 modules a side the scores stay below 65,536. Runs of one
/// colour score at most 53 * 53 for each direction. Blocks score at most
/// 3 * 52 * 52. Two places where the finder pattern matches in one line
/// lie at least four apart, so a line has at most 12 of them and each
/// direction scores at most 40 * 12 * 53. The balance scores at most 100.
/// The sum is at most 64,710.
#[verifier::external_body]
pub(crate) fn qr_pixels(text: &str) -> (picture: Result<(u32, Vec<u8>), String>)
    requires
        vstd::utf8::encode_utf8(text@).len() <= QR_TEXT_LIMIT,
    ensures
        match picture {
            Ok((side, pixels)) => qr_picture(text@) == Ok::<(u32, Seq<u8>), Seq<char>>(
                (side, pixels@),
            ) && pixels@.len() == side * side,
            Err(why) => qr_picture(text@) == Err::<(u32, Seq<u8>), Seq<char>>(why@),
        },
{
    match qrcode::QrCode::new(text.as_bytes()) {
        Ok(code) => {
            let picture = code.render::<image::Luma<u8>>().build();
            Ok((picture.width(), picture.into_raw()))
        },
        Err(e) => Err(e.to_string()),
    }
}

/// The PNG file that the `image` crate writes for a grey picture of the
/// given width and height; or the crate's description of why it could
/// not.
pub uninterp spec fn png_file(width: u32, height: u32, pixels: Seq<u8>) -> Result<
    Seq<u8>,
    Seq<char>,
>;

/// `image::GrayImage::from_raw` and, on the picture it made,
/// `ImageBuffer::write_to` with `ImageFormat::Png` into a buffer in
/// memory. `from_raw` takes any buffer that holds at least one byte for
/// each pixel, which the `requires` asks for: it gives `None` for no call
/// that is allowed here, and the arm for `None` is there only because the
/// match has to be complete. An error is handed out as its `Display` text.
/// The result depends on the arguments alone.
#[verifier::external_body]
pub(crate) fn png_bytes(width: u32, height: u32, pixels: Vec<u8>) -> (file: Result<Vec<u8>, String>)
    requires
        pixels@.len() == width * height,
    ensures
        match file {
            Ok(bytes) => png_file(width, height, pixels@) == Ok::<Seq<u8>, Seq<char>>(bytes@),
            Err(why) => png_file(width, height, pixels@) == Err::<Seq<u8>, Seq<char>>(why@),
        },
{
    match image::GrayImage::from_raw(width, height, pixels) {
        Some(picture) => {
            let mut file: Vec<u8> = Vec::new();
            let mut cursor = std::io::Cursor::new(&mut file);
            match picture.write_to(&mut cursor, image::ImageFormat::Png) {
                Ok(()) => Ok(file),
                Err(e) => Err(e.to_string()),
            }
        },
        None => Err(String::new()),
    }
}

/// The base64 text of some bytes, in the standard alphabet and padded.
pub uninterp spec fn base64_text(bytes: Seq<u8>) -> Seq<char>;

/// `base64::Engine::encode` of `base64::engine::general_purpose::STANDARD`.
/// The result depends on the bytes alone.
#[verifier::external_body]
pub(crate) fn base64_encode(bytes: &Vec<u8>) -> (text: String)
    ensures
        text@ == base64_text(bytes@),
{
    base64::Engine::encode(&base64::engine::general_purpose::STANDARD, bytes)
}

} // verus!
