//! The login QR code: the address to encode becomes a picture, the picture
//! a PNG file, and the file a data URI that a page can show.
//!
//! Only an address of at most `QR_TEXT_LIMIT` bytes, 131, is drawn. A
//! longer one is refused with an error, though a QR code could hold it:
//! up to that length the drawing is known never to fail by a sum that
//! runs over.

use crate::error::{BiliApiError, BiliApiErrorView};
use crate::models::{QrCodeData, QrCodeDataView};
pub use crate::outside::QR_TEXT_LIMIT;
use crate::outside::{base64_encode, base64_text, png_bytes, png_file, qr_picture, qr_pixels};
use vstd::prelude::*;
use vstd::utf8::encode_utf8;

verus! {

/// The data URI of a PNG file whose base64 text is `encoded`.
pub open spec fn data_uri(encoded: Seq<char>) -> Seq<char> {
    "data:image/png;base64,"@ + encoded
}

/// Wraps the base64 text of a PNG file into a data URI.
pub fn png_data_uri(encoded: &str) -> (uri: String)
    ensures
        uri@ == data_uri(encoded@),
{
    let mut uri = String::from_str("data:image/png;base64,");
    uri.append(encoded);
    uri
}

/// The error for a text that could not be made into a QR code.
pub open spec fn code_failure(why: Seq<char>) -> BiliApiErrorView {
    BiliApiErrorView::Other("二维码生成失败: "@ + why)
}

/// The error for a picture that could not be written as a PNG file.
pub open spec fn picture_failure(why: Seq<char>) -> BiliApiErrorView {
    BiliApiErrorView::Other("图片编码失败: "@ + why)
}

/// What becomes of a drawn QR code once the PNG encoder has had it: the
/// data URI of the file, or the error that tells which step failed.
pub open spec fn uri_of(
    drawn: Result<(u32, Seq<u8>), Seq<char>>,
    file: Result<Seq<u8>, Seq<char>>,
) -> Result<Seq<char>, BiliApiErrorView> {
    match drawn {
        Err(why) => Err(code_failure(why)),
        Ok(_) => match file {
            Err(why) => Err(picture_failure(why)),
            Ok(bytes) => Ok(data_uri(base64_text(bytes))),
        },
    }
}

/// What is said of a text that is longer than a QR code is drawn for.
pub open spec fn too_long_text() -> Seq<char> {
    "data too long"@
}

/// Whether a text is longer, in bytes, than a QR code is drawn for.
pub open spec fn is_too_long(text: Seq<char>) -> bool {
    encode_utf8(text).len() > QR_TEXT_LIMIT
}

/// The data URI of the QR code for `text`; for a text of more than
/// `QR_TEXT_LIMIT` bytes, the error that says it is too long.
pub open spec fn qr_data_uri(text: Seq<char>) -> Result<Seq<char>, BiliApiErrorView> {
    if is_too_long(text) {
        Err(code_failure(too_long_text()))
    } else {
        match qr_picture(text) {
            Err(why) => Err(code_failure(why)),
            Ok((side, pixels)) => uri_of(qr_picture(text), png_file(side, side, pixels)),
        }
    }
}

/// The view of a data URI or the error in its place.
pub open spec fn uri_view(r: Result<String, BiliApiError>) -> Result<Seq<char>, BiliApiErrorView> {
    match r {
        Ok(uri) => Ok(uri@),
        Err(e) => Err(e@),
    }
}

/// The error for a text that could not be made into a QR code, for the
/// reason `why`.
pub fn code_error(why: &str) -> (e: BiliApiError)
    ensures
        e@ == code_failure(why@),
{
    let mut text = String::from_str("二维码生成失败: ");
    text.append(why);
    BiliApiError::Other(text)
}

/// The error for a picture that could not be written as a PNG file, for
/// the reason `why`.
pub fn picture_error(why: &str) -> (e: BiliApiError)
    ensures
        e@ == picture_failure(why@),
{
    let mut text = String::from_str("图片编码失败: ");
    text.append(why);
    BiliApiError::Other(text)
}

/// Draws the QR code for `text` and returns it as the data URI of a PNG
/// file. A text of more than `QR_TEXT_LIMIT` bytes, 131, is not drawn,
/// even where a QR code could hold it: it fails as a text does that fits
/// no QR code.
pub fn qr_image_uri(text: &str) -> (r: Result<String, BiliApiError>)
    ensures
        uri_view(r) == qr_data_uri(text@),
{
    let bytes = text.as_bytes();
    assert(bytes@ == encode_utf8(text@));
    if bytes.len() > QR_TEXT_LIMIT {
        return Err(code_error("data too long"));
    }
    match qr_pixels(text) {
        Err(why) => Err(code_error(why.as_str())),
        Ok((side, pixels)) => match png_bytes(side, side, pixels) {
            Err(why) => Err(picture_error(why.as_str())),
            Ok(file) => {
                let encoded = base64_encode(&file);
                Ok(png_data_uri(encoded.as_str()))
            },
        },
    }
}

/// The view of a login QR code or the error in its place.
pub open spec fn qr_view(r: Result<QrCodeData, BiliApiError>) -> Result<
    QrCodeDataView,
    BiliApiErrorView,
> {
    match r {
        Ok(data) => Ok(data@),
        Err(e) => Err(e@),
    }
}

/// The login QR code for the address `url` and the key `qrcode_key`, as
/// the platform handed them out: both as they are, with the picture of the
/// address as a data URI. An address of more than `QR_TEXT_LIMIT` bytes,
/// 131, is refused with the error of `qr_image_uri`.
pub fn qrcode_data(url: String, qrcode_key: String) -> (r: Result<QrCodeData, BiliApiError>)
    ensures
        qr_view(r) == match qr_data_uri(url@) {
            Ok(uri) => Ok::<QrCodeDataView, BiliApiErrorView>(
                QrCodeDataView { url: url@, qrcode_key: qrcode_key@, image_base64: uri },
            ),
            Err(e) => Err::<QrCodeDataView, BiliApiErrorView>(e),
        },
{
    match qr_image_uri(url.as_str()) {
        Ok(image_base64) => Ok(QrCodeData { url, qrcode_key, image_base64 }),
        Err(e) => Err(e),
    }
}

} // verus!
