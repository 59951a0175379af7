//! An RGBA image with 8 bits per channel, stored row by row.

use vstd::prelude::*;

use crate::error::TiedyeError;

verus! {

/// What an [`Image`] holds: its size in texels and its raw bytes, four per
/// texel, row after row.
pub struct ImageView {
    pub width: u32,
    pub height: u32,
    pub bytes: Seq<u8>,
}

impl ImageView {
    /// The bytes the texels need: `4 * width * height`.
    pub open spec fn required_len(self) -> int {
        4 * self.width * self.height
    }

    /// The buffer holds at least every texel.
    pub open spec fn wf(self) -> bool {
        self.required_len() <= self.bytes.len()
    }
}

/// An RGBA image with 8 bits per channel whose buffer holds at least
/// `4 * width * height` bytes.
#[derive(Debug)]
pub struct Image {
    width: u32,
    height: u32,
    bytes: Vec<u8>,
}

impl View for Image {
    type V = ImageView;

    closed spec fn view(&self) -> ImageView {
        ImageView { width: self.width, height: self.height, bytes: self.bytes@ }
    }
}

impl Image {
    #[verifier::type_invariant]
    spec fn holds_every_texel(self) -> bool {
        4 * self.width * self.height <= self.bytes@.len()
    }

    /// An image of the given size over `bytes`; `None` when `bytes` is shorter
    /// than the `4 * width * height` bytes that the texels need, or when that
    /// count, or `4 * width` on the way to it, does not fit in `usize`.
    pub fn from_raw(width: u32, height: u32, bytes: Vec<u8>) -> (image: Option<Image>)
        ensures
            image is Some <==> (4 * width <= usize::MAX && 4 * width * height <= bytes@.len()),
            image matches Some(img) ==> img@ == (ImageView { width, height, bytes: bytes@ }),
    {
        let available = bytes.len();
        let required = match (width as usize).checked_mul(4) {
            Some(row) => row.checked_mul(height as usize),
            None => None,
        };
        proof {
            assert(4 * width * height == width * 4 * height) by (nonlinear_arith);
        }
        match required {
            Some(len) => {
                if len <= available {
                    Some(Image { width, height, bytes })
                } else {
                    None
                }
            },
            None => None,
        }
    }

    /// Width in texels.
    pub fn width(&self) -> (width: u32)
        ensures
            width == self@.width,
    {
        self.width
    }

    /// Height in texels.
    pub fn height(&self) -> (height: u32)
        ensures
            height == self@.height,
    {
        self.height
    }

    /// Width and height in texels.
    pub fn dimensions(&self) -> (size: (u32, u32))
        ensures
            size == (self@.width, self@.height),
    {
        (self.width, self.height)
    }

    /// The raw bytes, four per texel, row after row.
    pub fn as_raw(&self) -> (bytes: &[u8])
        ensures
            bytes@ == self@.bytes,
            self@.wf(),
    {
        proof {
            use_type_invariant(self);
        }
        self.bytes.as_slice()
    }

    /// Gives up the image and returns its raw bytes.
    pub fn into_raw(self) -> (bytes: Vec<u8>)
        ensures
            bytes@ == self@.bytes,
    {
        self.bytes
    }
}

/// The PNG file that the `image` crate's PNG encoder writes for an 8-bit RGBA
/// image of the given size and bytes.
pub uninterp spec fn png_encoding(width: u32, height: u32, bytes: Seq<u8>) -> Seq<u8>;

/// `image::write_buffer_with_format` with `ExtendedColorType::Rgba8` and
/// `ImageFormat::Png`, writing into an in-memory buffer. On success the buffer
/// holds [`png_encoding`] of the arguments. The PNG encoder refuses a zero
/// width or height and nothing else here: writing into memory cannot fail, and
/// the encoder asserts, and so requires, that `bytes` holds exactly
/// `4 * width * height` bytes.
#[verifier::external_body]
fn write_png(width: u32, height: u32, bytes: &[u8]) -> (result: Result<Vec<u8>, image::ImageError>)
    requires
        bytes@.len() == 4 * width * height,
    ensures
        result is Ok <==> (width > 0 && height > 0),
        result matches Ok(png) ==> png@ == png_encoding(width, height, bytes@),
{
    let mut png: Vec<u8> = Vec::new();
    image::write_buffer_with_format(
        &mut std::io::Cursor::new(&mut png),
        bytes,
        width,
        height,
        image::ExtendedColorType::Rgba8,
        image::ImageFormat::Png,
    )?;
    Ok(png)
}

/// Encodes the image as a PNG file; fails, with an image error, exactly for an
/// image with no texels in a row or column. The image's buffer must hold
/// exactly its texels, as every rendered image does.
pub fn encode_png(image: &Image) -> (result: Result<Vec<u8>, TiedyeError>)
    requires
        image@.bytes.len() == 4 * image@.width * image@.height,
    ensures
        result is Ok <==> (image@.width > 0 && image@.height > 0),
        result matches Ok(png) ==> png@ == png_encoding(image@.width, image@.height, image@.bytes),
        result matches Err(e) ==> e is ImageError,
{
    match write_png(image.width(), image.height(), image.as_raw()) {
        Ok(png) => Ok(png),
        Err(e) => Err(TiedyeError::ImageError(e)),
    }
}

} // verus!
