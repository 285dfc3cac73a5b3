//! The portable form of an image: its pixels as a PNG file, and that file as
//! base64 text. The two stages are kept apart, so that either can change
//! without the other.

use vstd::prelude::*;
use crate::text::{after_first, is_first_at, text_after_first};

verus! {

/// A raster image as the system clipboard holds it: rows of pixels, four
/// bytes each, in the order red, green, blue, alpha.
#[derive(Debug, PartialEq, Eq)]
pub struct RawImage {
    pub width: u32,
    pub height: u32,
    pub rgba: Vec<u8>,
}

/// The mathematical value of a [`RawImage`].
pub struct RawImageView {
    pub width: u32,
    pub height: u32,
    pub rgba: Seq<u8>,
}

impl View for RawImage {
    type V = RawImageView;

    open spec fn view(&self) -> RawImageView {
        RawImageView { width: self.width, height: self.height, rgba: self.rgba@ }
    }
}

/// The PNG file that the `image` crate writes for an RGBA8 buffer of the
/// given size, or `None` where it refuses the buffer or fails to write.
pub uninterp spec fn png_encoded(width: u32, height: u32, rgba: Seq<u8>) -> Option<Seq<u8>>;

/// Size and RGBA8 pixels that the `image` crate reads from the bytes of an
/// image file, in the format that their first bytes tell, or `None` where
/// it cannot.
pub uninterp spec fn image_decoded(bytes: Seq<u8>) -> Option<(u32, u32, Seq<u8>)>;

/// The padded base64 text of bytes, in the standard alphabet.
pub uninterp spec fn base64_encoded(bytes: Seq<u8>) -> Seq<char>;

/// The bytes that a padded base64 text in the standard alphabet stands for,
/// or `None` where the text is no such encoding.
pub uninterp spec fn base64_decoded(text: Seq<char>) -> Option<Seq<u8>>;

/// The base64 text of `len` bytes has a length that surely fits `usize`.
pub open spec fn fits_base64(len: nat) -> bool {
    (len / 3) * 4 + 4 <= usize::MAX
}

/// `image::ImageBuffer::from_raw` on an RGBA8 buffer, followed by
/// `ImageBuffer::write_to` with `ImageFormat::Png` into memory. The contract
/// names the bytes written; it is `None` where `from_raw` finds the buffer
/// too small for the size, or where writing fails.
#[verifier::external_body]
fn png_bytes(width: u32, height: u32, rgba: &[u8]) -> (png: Option<Vec<u8>>)
    ensures
        match png {
            Some(bytes) => png_encoded(width, height, rgba@) == Some(bytes@),
            None => png_encoded(width, height, rgba@) is None,
        },
{
    let buffer = image::ImageBuffer::<image::Rgba<u8>, &[u8]>::from_raw(width, height, rgba)?;
    let mut bytes: Vec<u8> = Vec::new();
    buffer.write_to(&mut std::io::Cursor::new(&mut bytes), image::ImageFormat::Png).ok()?;
    Some(bytes)
}

/// `image::guess_format` on the bytes, `image::load_from_memory_with_format`
/// with the format it found, and the picture then spread to RGBA8 with
/// `DynamicImage::to_rgba8` and taken apart into size and bytes. The format
/// is told from the first bytes alone and the decoder is the crate's own
/// for it. The contract names the outcome; it is `None` where no format is
/// found or the bytes are not read as an image of it.
#[verifier::external_body]
fn image_pixels(bytes: &[u8]) -> (image: Option<RawImage>)
    ensures
        match image {
            Some(i) => image_decoded(bytes@) == Some((i.width, i.height, i.rgba@)),
            None => image_decoded(bytes@) is None,
        },
{
    let format = image::guess_format(bytes).ok()?;
    let pixels = image::load_from_memory_with_format(bytes, format).ok()?.to_rgba8();
    let (width, height) = pixels.dimensions();
    Some(RawImage { width, height, rgba: pixels.into_raw() })
}

/// `Engine::encode` of `base64::engine::general_purpose::STANDARD`. The
/// contract names the text and says that it holds no comma: its characters
/// are those of the standard alphabet, letters, digits, `+` and `/`, and
/// the padding `=`. The engine panics where the length of the text, four
/// characters for every three bytes begun, does not fit `usize`, which
/// `requires` leaves out.
#[verifier::external_body]
fn base64_text(bytes: &[u8]) -> (text: String)
    requires
        fits_base64(bytes@.len()),
    ensures
        text@ == base64_encoded(bytes@),
        !text@.contains(','),
{
    base64::Engine::encode(&base64::engine::general_purpose::STANDARD, bytes)
}

/// `Engine::decode` of `base64::engine::general_purpose::STANDARD`. The
/// contract names the bytes; it is `None` for each error of the engine.
#[verifier::external_body]
fn base64_bytes(text: &str) -> (bytes: Option<Vec<u8>>)
    ensures
        match bytes {
            Some(b) => base64_decoded(text@) == Some(b@),
            None => base64_decoded(text@) is None,
        },
{
    base64::Engine::decode(&base64::engine::general_purpose::STANDARD, text).ok()
}

/// The portable text of an image: the base64 text of its PNG file. `None`
/// where no PNG file can be written for it, or where the file is too long
/// for its base64 text to fit `usize`.
pub open spec fn portable(image: RawImageView) -> Option<Seq<char>> {
    match png_encoded(image.width, image.height, image.rgba) {
        Some(png) => if fits_base64(png.len()) {
            Some(base64_encoded(png))
        } else {
            None
        },
        None => None,
    }
}

/// The image that a portable text stands for. A data-URI prefix, which is
/// all up to the first comma, is passed over. `None` where what is left is
/// no base64 text, or its bytes are no image.
pub open spec fn restored(content: Seq<char>) -> Option<RawImageView> {
    match base64_decoded(after_first(content, ',')) {
        Some(bytes) => match image_decoded(bytes) {
            Some((width, height, rgba)) => Some(RawImageView { width, height, rgba }),
            None => None,
        },
        None => None,
    }
}

/// The value of an image that may be missing.
pub open spec fn image_view(image: Option<RawImage>) -> Option<RawImageView> {
    match image {
        Some(i) => Some(i@),
        None => None,
    }
}

/// The value of a text that may be missing.
pub open spec fn text_view(text: Option<String>) -> Option<Seq<char>> {
    match text {
        Some(t) => Some(t@),
        None => None,
    }
}

/// Whether the base64 text of `len` bytes has a length that fits `usize`.
pub fn base64_fits(len: usize) -> (fits: bool)
    ensures
        fits == fits_base64(len as nat),
{
    len / 3 <= (usize::MAX - 4) / 4
}

/// Encodes an image to its portable text. The text holds no comma, so
/// that [`decode_image`] reads all of it.
pub fn encode_image(image: &RawImage) -> (text: Option<String>)
    ensures
        text_view(text) == portable(image@),
        text matches Some(t) ==> after_first(t@, ',') == t@,
{
    match png_bytes(image.width, image.height, image.rgba.as_slice()) {
        Some(png) => {
            if base64_fits(png.len()) {
                let text = base64_text(png.as_slice());
                proof {
                    if exists|i: int| is_first_at(text@, ',', i) {
                        let i = choose|i: int| is_first_at(text@, ',', i);
                        assert(text@.contains(text@[i]));
                    }
                }
                Some(text)
            } else {
                None
            }
        },
        None => None,
    }
}

/// Decodes a portable text, with or without a data-URI prefix, to the image
/// it stands for.
pub fn decode_image(content: &str) -> (image: Option<RawImage>)
    ensures
        image_view(image) == restored(content@),
{
    let text = text_after_first(content, ',');
    match base64_bytes(text) {
        Some(bytes) => image_pixels(bytes.as_slice()),
        None => None,
    }
}

} // verus!
