//! A captured picture: its pixels, and its way from and to PNG.

use vstd::prelude::*;

use crate::text::join;

verus! {

/// An RGBA picture: four bytes a pixel, rows from the top, no padding.
#[derive(Debug, PartialEq, Eq)]
pub struct Picture {
    pub width: u32,
    pub height: u32,
    pub pixels: Vec<u8>,
}

impl Picture {
    /// The buffer holds exactly one RGBA quadruple for each pixel, and the bytes of a row
    /// can be counted.
    pub open spec fn wf(&self) -> bool {
        &&& self.pixels@.len() == self.width * self.height * 4
        &&& self.width * 4 <= usize::MAX
    }

    /// A copy of a picture.
    pub fn copy(&self) -> (r: Picture)
        ensures
            r.width == self.width,
            r.height == self.height,
            r.pixels@ == self.pixels@,
    {
        let pixels = self.pixels.clone();
        assert(pixels@ =~= self.pixels@);
        Picture { width: self.width, height: self.height, pixels }
    }
}

/// What `image::load_from_memory` and `to_rgba8` make of a file's bytes: width, height and
/// RGBA bytes, or the error's text.
pub uninterp spec fn decoded(bytes: Seq<u8>) -> Result<(u32, u32, Seq<u8>), Seq<char>>;

/// What the PNG encoder of `image` makes of a picture (width, height, RGBA bytes): the
/// file's bytes, or the error's text.
pub uninterp spec fn encoded(width: u32, height: u32, pixels: Seq<u8>) -> Result<Seq<u8>, Seq<char>>;

/// The pixels and size of a decoded picture, or the error's text.
pub open spec fn decoding(r: Result<Picture, String>) -> Result<(u32, u32, Seq<u8>), Seq<char>> {
    match r {
        Ok(p) => Ok((p.width, p.height, p.pixels@)),
        Err(e) => Err(e@),
    }
}

/// The bytes of an encoded picture, or the error's text.
pub open spec fn encoding(r: Result<Vec<u8>, String>) -> Result<Seq<u8>, Seq<char>> {
    match r {
        Ok(bytes) => Ok(bytes@),
        Err(e) => Err(e@),
    }
}

/// Decodes an image file by `image::load_from_memory`, which guesses the format from the
/// bytes, and turns it into RGBA by `DynamicImage::to_rgba8`. The result depends on the
/// bytes alone, and holds four bytes for each pixel.
#[verifier::external_body]
pub(crate) fn load_from_memory(bytes: &[u8]) -> (r: Result<Picture, String>)
    ensures
        decoding(r) == decoded(bytes@),
        r matches Ok(p) ==> p.wf(),
{
    match image::load_from_memory(bytes) {
        Ok(img) => {
            let rgba = img.to_rgba8();
            let (width, height) = rgba.dimensions();
            Ok(Picture { width, height, pixels: rgba.into_raw() })
        },
        Err(e) => Err(e.to_string()),
    }
}

/// Encodes a picture as PNG by `image::RgbaImage::write_to`. The result depends on the
/// picture alone.
#[verifier::external_body]
pub(crate) fn write_png(picture: &Picture) -> (r: Result<Vec<u8>, String>)
    requires
        picture.wf(),
    ensures
        encoding(r) == encoded(picture.width, picture.height, picture.pixels@),
{
    let img = image::RgbaImage::from_raw(picture.width, picture.height, picture.pixels.clone());
    let mut out = std::io::Cursor::new(Vec::new());
    match img.unwrap().write_to(&mut out, image::ImageFormat::Png) {
        Ok(()) => Ok(out.into_inner()),
        Err(e) => Err(e.to_string()),
    }
}

/// The outcome of encoding a picture, with the error as the user sees it.
pub open spec fn png_result(r: Result<Seq<u8>, Seq<char>>) -> Result<Seq<u8>, Seq<char>> {
    match r {
        Ok(bytes) => Ok(bytes),
        Err(e) => Err("PNG encode failed: "@ + e),
    }
}

/// Words the outcome of an encoding for the user.
pub fn name_png_error(r: Result<Vec<u8>, String>) -> (out: Result<Vec<u8>, String>)
    ensures
        encoding(out) == png_result(encoding(r)),
{
    match r {
        Ok(bytes) => Ok(bytes),
        Err(e) => Err(join("PNG encode failed: ", e.as_str())),
    }
}

/// Encodes a captured picture as PNG for the upload.
pub fn encode_png(picture: &Picture) -> (r: Result<Vec<u8>, String>)
    requires
        picture.wf(),
    ensures
        encoding(r) == png_result(encoded(picture.width, picture.height, picture.pixels@)),
{
    name_png_error(write_png(picture))
}

} // verus!
