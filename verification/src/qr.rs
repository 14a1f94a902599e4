//! The QR code of a client configuration, as a PNG image.

use vstd::prelude::*;
use vstd::string::StringSliceAdditionalSpecFns;

verus! {

/// What `qrcode` makes of the data: the QR code rendered as a grey image
/// of at least the given size (width, height, one byte per pixel, row by
/// row), or the text of its error when the data does not fit in a code.
pub uninterp spec fn qr_render(data: Seq<u8>, min_size: u32) -> Result<(u32, u32, Seq<u8>), Seq<char>>;

/// What `image` makes of a grey image encoded as PNG: its bytes, or the
/// text of its error.
pub uninterp spec fn png_gray(width: u32, height: u32, pixels: Seq<u8>) -> Result<Seq<u8>, Seq<char>>;

/// Encodes the data as a QR code (`QrCode::new`) and renders it into a grey
/// image of at least `min_size` pixels each way. The result is named, not
/// stated; the contract adds only that the pixels fill the image. The
/// renderer adds sizes in `u32`, so the size asked for is kept small.
#[verifier::external_body]
fn qr_gray_pixels(data: &[u8], min_size: u32) -> (r: Result<(u32, u32, Vec<u8>), String>)
    requires
        min_size <= 4096,
    ensures
        match qr_render(data@, min_size) {
            Ok((w, h, px)) => r matches Ok((a, b, c)) && a == w && b == h && c@ == px,
            Err(e) => r matches Err(x) && x@ == e,
        },
        r matches Ok((w, h, px)) ==> px@.len() == w * h,
{
    match qrcode::QrCode::new(data) {
        Ok(code) => {
            let img = code.render::<image::Luma<u8>>().min_dimensions(min_size, min_size).build();
            Ok((img.width(), img.height(), img.into_raw()))
        },
        Err(e) => Err(e.to_string()),
    }
}

/// Encodes a grey image as PNG with `image` (`DynamicImage::write_to` with
/// `ImageFormat::Png`). The result is named, not stated.
#[verifier::external_body]
fn png_encode_gray(width: u32, height: u32, pixels: Vec<u8>) -> (r: Result<Vec<u8>, String>)
    requires
        pixels@.len() == width * height,
    ensures
        match png_gray(width, height, pixels@) {
            Ok(b) => r matches Ok(y) && y@ == b,
            Err(e) => r matches Err(x) && x@ == e,
        },
{
    let buf = match image::ImageBuffer::<image::Luma<u8>, Vec<u8>>::from_raw(width, height, pixels) {
        Some(b) => b,
        None => return Err(String::new()),
    };
    let mut bytes: Vec<u8> = Vec::new();
    match image::DynamicImage::ImageLuma8(buf).write_to(
        &mut std::io::Cursor::new(&mut bytes),
        image::ImageFormat::Png,
    ) {
        Ok(()) => Ok(bytes),
        Err(e) => Err(e.to_string()),
    }
}

/// The side that the QR code of a configuration is at least drawn with.
pub const QR_MIN_SIZE: u32 = 320;

/// The PNG image of the QR code of `text` (its UTF-8 bytes), at least
/// 320 pixels each way.
pub fn qrcode_png(text: &str) -> (r: Result<Vec<u8>, String>)
    ensures
        match qr_render(text.spec_bytes(), QR_MIN_SIZE) {
            Err(e) => r matches Err(x) && x@ == e,
            Ok((w, h, px)) => match png_gray(w, h, px) {
                Ok(b) => r matches Ok(y) && y@ == b,
                Err(e) => r matches Err(x) && x@ == e,
            },
        },
{
    let (w, h, px) = qr_gray_pixels(text.as_bytes(), QR_MIN_SIZE)?;
    png_encode_gray(w, h, px)
}

} // verus!
