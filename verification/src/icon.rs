//! Turning a captured bitmap into text: channel order, PNG, base64.
//!
//! The window system hands out bitmaps as 32-bit pixels in the order blue,
//! green, red, alpha. They leave this module as the base64 text of a PNG
//! image.

use vstd::prelude::*;

verus! {

/// The PNG file that the `image` crate writes for an 8-bit RGBA image of the
/// given width and height, or `None` where it writes none.
pub uninterp spec fn png_encoding(width: u32, height: u32, rgba: Seq<u8>) -> Option<Seq<u8>>;

/// The base64 alphabet of RFC 4648, section 4.
pub open spec fn base64_alphabet() -> Seq<char> {
    "ABCDEFGHIJKLMNOPQRSTUVWXYZabcdefghijklmnopqrstuvwxyz0123456789+/"@
}

/// The character for a six-bit value.
pub open spec fn base64_digit(v: int) -> char {
    base64_alphabet()[v]
}

/// The base64 text of `bytes` in the standard alphabet, padded with `=` to a
/// multiple of four characters.
pub open spec fn base64_text(bytes: Seq<u8>) -> Seq<char>
    decreases bytes.len(),
{
    if bytes.len() == 0 {
        Seq::empty()
    } else if bytes.len() == 1 {
        let a = bytes[0] as int;
        seq![base64_digit(a / 4), base64_digit(a % 4 * 16), '=', '=']
    } else if bytes.len() == 2 {
        let a = bytes[0] as int;
        let b = bytes[1] as int;
        seq![base64_digit(a / 4), base64_digit(a % 4 * 16 + b / 16), base64_digit(b % 16 * 4), '=']
    } else {
        let a = bytes[0] as int;
        let b = bytes[1] as int;
        let c = bytes[2] as int;
        seq![
            base64_digit(a / 4),
            base64_digit(a % 4 * 16 + b / 16),
            base64_digit(b % 16 * 4 + c / 64),
            base64_digit(c % 64),
        ] + base64_text(bytes.skip(3))
    }
}

/// The length of the base64 text of `len` bytes.
pub open spec fn base64_len(len: int) -> int {
    4 * ((len + 2) / 3)
}

/// The pixels of `bgra` with red and blue exchanged in every pixel, and with
/// every alpha value set to 255 where `opaque` is set.
pub open spec fn rgba_of(bgra: Seq<u8>, opaque: bool) -> Seq<u8> {
    Seq::new(
        bgra.len(),
        |i: int|
            if i % 4 == 0 {
                bgra[i + 2]
            } else if i % 4 == 2 {
                bgra[i - 2]
            } else if i % 4 == 3 && opaque {
                255u8
            } else {
                bgra[i]
            },
    )
}

/// The view of optional bytes.
pub open spec fn optional_bytes(bytes: Option<Vec<u8>>) -> Option<Seq<u8>> {
    match bytes {
        Some(b) => Some(b@),
        None => None,
    }
}

/// The view of optional text.
pub open spec fn optional_string(text: Option<String>) -> Option<Seq<char>> {
    match text {
        Some(t) => Some(t@),
        None => None,
    }
}

/// The text for a PNG file, where there is one and its text has a length
/// that a `usize` holds.
pub open spec fn png_text(png: Option<Seq<u8>>) -> Option<Seq<char>> {
    match png {
        Some(bytes) => if base64_len(bytes.len() as int) <= usize::MAX {
            Some(base64_text(bytes))
        } else {
            None
        },
        None => None,
    }
}

/// The text for a bitmap of `width` by `height` pixels: none unless `bgra`
/// holds exactly four bytes for each pixel.
pub open spec fn bitmap_text(width: u32, height: u32, bgra: Seq<u8>, opaque: bool) -> Option<
    Seq<char>,
> {
    if bgra.len() == 4 * width * height {
        png_text(png_encoding(width, height, rgba_of(bgra, opaque)))
    } else {
        None
    }
}

/// Calls `image::write_buffer_with_format` for an 8-bit RGBA buffer and the
/// PNG format, writing into memory. Trusted: the bytes written are a function
/// of width, height and buffer alone, and an image without pixels is refused.
/// The call panics on a buffer of another length than four bytes per pixel,
/// which `requires` leaves out.
#[verifier::external_body]
pub(crate) fn write_png(width: u32, height: u32, rgba: &Vec<u8>) -> (png: Option<Vec<u8>>)
    requires
        rgba.len() == 4 * width * height,
    ensures
        optional_bytes(png) == png_encoding(width, height, rgba@),
        width == 0 || height == 0 ==> png is None,
{
    let mut out: Vec<u8> = Vec::new();
    let written = image::write_buffer_with_format(
        &mut std::io::Cursor::new(&mut out),
        rgba,
        width,
        height,
        image::ColorType::Rgba8,
        image::ImageOutputFormat::Png,
    );
    match written {
        Ok(()) => Some(out),
        Err(_) => None,
    }
}

/// Calls `base64::Engine::encode` on the engine
/// `base64::engine::general_purpose::STANDARD`. Trusted: the result is the
/// padded base64 text of the bytes in the standard alphabet. The call panics
/// where the length of that text overflows a `usize`, which `requires` leaves
/// out.
#[verifier::external_body]
pub(crate) fn base64_standard(bytes: &Vec<u8>) -> (text: String)
    requires
        base64_len(bytes.len() as int) <= usize::MAX,
    ensures
        text@ == base64_text(bytes@),
{
    base64::Engine::encode(&base64::engine::general_purpose::STANDARD, bytes)
}

/// Exchanges red and blue in every pixel, and makes every pixel opaque where
/// `opaque` is set.
pub fn bgra_to_rgba(pixels: Vec<u8>, opaque: bool) -> (rgba: Vec<u8>)
    requires
        pixels.len() % 4 == 0,
    ensures
        rgba@ == rgba_of(pixels@, opaque),
{
    let ghost bgra = pixels@;
    let mut buffer = pixels;
    let len: usize = buffer.len();
    let mut i: usize = 0;
    while i < len
        invariant
            len == bgra.len(),
            buffer.len() == len,
            len % 4 == 0,
            i % 4 == 0,
            i <= len,
            forall|j: int| 0 <= j < i ==> buffer[j] == rgba_of(bgra, opaque)[j],
            forall|j: int| i <= j < len ==> buffer[j] == bgra[j],
        decreases len - i,
    {
        let blue: u8 = buffer[i];
        let red: u8 = buffer[i + 2];
        buffer.set(i, red);
        buffer.set(i + 2, blue);
        if opaque {
            buffer.set(i + 3, 255);
        }
        i += 4;
    }
    assert(buffer@ =~= rgba_of(bgra, opaque));
    buffer
}

/// The base64 text of `bytes`, or `None` where its length overflows a
/// `usize`.
pub fn encode_base64(bytes: &Vec<u8>) -> (text: Option<String>)
    ensures
        optional_string(text) == png_text(Some(bytes@)),
{
    let len: usize = bytes.len();
    let groups: usize = len / 3 + (if len % 3 == 0 {
        0usize
    } else {
        1usize
    });
    assert(groups == (len + 2) / 3);
    if groups > usize::MAX / 4 {
        None
    } else {
        Some(base64_standard(bytes))
    }
}

/// The text for the outcome of writing a PNG file.
pub fn png_to_text(png: Option<Vec<u8>>) -> (text: Option<String>)
    ensures
        optional_string(text) == png_text(optional_bytes(png)),
{
    match png {
        Some(bytes) => encode_base64(&bytes),
        None => None,
    }
}

/// The base64 text of the PNG image of a bitmap of `width` by `height` pixels
/// in the order blue, green, red, alpha. With `opaque` set, the alpha values
/// of the bitmap are ignored. `None` where `bgra` does not hold exactly four
/// bytes for each pixel, or no image could be written.
pub fn encode_bitmap(width: u32, height: u32, bgra: Vec<u8>, opaque: bool) -> (text: Option<String>)
    ensures
        optional_string(text) == bitmap_text(width, height, bgra@, opaque),
        width == 0 || height == 0 ==> text is None,
{
    assert(width * height <= 0xffff_ffff * 0xffff_ffff) by (nonlinear_arith)
        requires
            width <= 0xffff_ffff,
            height <= 0xffff_ffff,
    ;
    let count: u64 = (width as u64) * (height as u64);
    let expected: u128 = 4u128 * (count as u128);
    assert(expected == 4 * width * height) by (nonlinear_arith)
        requires
            expected == 4 * count,
            count == width * height,
    ;
    if bgra.len() as u128 != expected {
        return None;
    }
    let rgba = bgra_to_rgba(bgra, opaque);
    png_to_text(write_png(width, height, &rgba))
}

} // verus!
