//! CPU-side RGBA8 images and texture payloads.

use vstd::prelude::*;
use crate::glm::U8Vec4;

verus! {

/// Bytes per pixel of RGBA8 image data.
pub const RGBA8_BYTES_PER_PIXEL: usize = 4;

/// Width and height of a 2D texture in pixels.
#[derive(Clone, Copy, Debug, Default, PartialEq, Eq, Structural)]
pub struct TextureExtent {
    /// Texture width in pixels.
    pub width: u32,
    /// Texture height in pixels.
    pub height: u32,
}

impl TextureExtent {
    /// Creates a texture extent in pixels.
    pub fn new(width: u32, height: u32) -> (extent: Self)
        ensures
            extent == (TextureExtent { width, height }),
    {
        Self { width, height }
    }

    /// Whether either dimension is zero.
    pub open spec fn spec_is_empty(self) -> bool {
        self.width == 0 || self.height == 0
    }

    /// Returns `true` when either dimension is zero.
    pub fn is_empty(self) -> (empty: bool)
        ensures
            empty == self.spec_is_empty(),
    {
        self.width == 0 || self.height == 0
    }

    /// Number of RGBA8 bytes an image of this extent holds.
    pub open spec fn spec_rgba8_len(self) -> int {
        self.width * self.height * RGBA8_BYTES_PER_PIXEL
    }

    /// Returns the number of RGBA8 bytes for this extent, or `None` when it
    /// does not fit a `usize`.
    pub fn rgba8_byte_len(self) -> (len: Option<usize>)
        ensures
            match len {
                Some(n) => n == self.spec_rgba8_len(),
                None => self.spec_rgba8_len() > usize::MAX,
            },
    {
        let width = self.width as usize;
        let height = self.height as usize;
        match width.checked_mul(height) {
            Some(pixels) => {
                let len = pixels.checked_mul(RGBA8_BYTES_PER_PIXEL);
                len
            },
            None => {
                assert(self.width * self.height * 4 >= self.width * self.height) by (nonlinear_arith);
                None
            },
        }
    }
}

/// Errors returned while creating CPU texture data.
#[derive(Clone, Debug, PartialEq, Eq)]
pub enum TextureDataError {
    /// Texture extent must have non-zero width and height.
    EmptyExtent(TextureExtent),
    /// RGBA8 byte length does not match the supplied extent.
    InvalidRgba8ByteLength {
        /// Expected number of bytes for the extent.
        expected: usize,
        /// Actual byte count supplied by the caller.
        actual: usize,
    },
    /// RGBA8 byte length overflowed `usize` for the supplied extent.
    ByteLengthOverflow(TextureExtent),
    /// Failed to open an image file.
    ImageOpen {
        /// Image path that failed to open.
        path: String,
        /// What the operating system reported.
        reason: String,
    },
    /// Failed to decode an image file.
    ImageDecode {
        /// Image path that failed to decode.
        path: String,
        /// What the decoder reported.
        reason: String,
    },
}

/// What the `image` crate makes of an encoded image file: the format is
/// taken from the extension of `path`, the bytes are decoded in that format
/// and converted to RGBA8, giving width, height and pixels; or the text of
/// the decoder's error.
pub uninterp spec fn spec_decoded_rgba8(encoded: Seq<u8>, path: Seq<char>) -> Result<
    (u32, u32, Seq<u8>),
    Seq<char>,
>;

/// The view of a decoder's output.
pub open spec fn decoded_view(decoded: Result<(u32, u32, Vec<u8>), String>) -> Result<
    (u32, u32, Seq<u8>),
    Seq<char>,
> {
    match decoded {
        Ok((width, height, pixels)) => Ok((width, height, pixels@)),
        Err(reason) => Err(reason@),
    }
}

/// Trusted: `image::ImageFormat::from_path` picks the format from the
/// path's extension, `image::load_from_memory_with_format` decodes the bytes
/// in it, and `DynamicImage::into_rgba8` converts the result. The contract
/// says only that the outcome is the decoder's, a function of the bytes and
/// the path; what it decodes to is not stated.
#[verifier::external_body]
fn decode_rgba8(encoded: &[u8], path: &str) -> (decoded: Result<(u32, u32, Vec<u8>), String>)
    ensures
        decoded_view(decoded) == spec_decoded_rgba8(encoded@, path@),
{
    let format = match image::ImageFormat::from_path(path) {
        Ok(format) => format,
        Err(error) => return Err(error.to_string()),
    };
    let decoded = match image::load_from_memory_with_format(encoded, format) {
        Ok(decoded) => decoded,
        Err(error) => return Err(error.to_string()),
    };
    let rgba = decoded.into_rgba8();
    Ok((rgba.width(), rgba.height(), rgba.into_raw()))
}

/// What a block of RGBA8 image data holds.
pub struct ImageModel {
    pub extent: TextureExtent,
    pub pixels: Seq<u8>,
}

/// CPU-side RGBA8 image pixels: a non-empty extent and exactly four bytes
/// per pixel, row by row.
#[derive(Debug, PartialEq, Eq)]
pub struct ImageData {
    extent: TextureExtent,
    pixels: Vec<u8>,
}

/// Side of the default checkerboard image, in pixels.
pub const CHECKERBOARD_SIZE: u32 = 16;

/// Side of one checkerboard square, in pixels.
pub const CHECKERBOARD_SQUARE: u32 = 8;

/// Byte `i` of the default checkerboard: magenta where the square indices
/// sum to an even number, black elsewhere, both opaque.
pub open spec fn spec_checkerboard_byte(i: int) -> u8 {
    let pixel = i / 4;
    let channel = i % 4;
    let x = pixel % 16;
    let y = pixel / 16;
    if (x / 8 + y / 8) % 2 == 0 {
        if channel == 1 {
            0
        } else {
            255
        }
    } else {
        if channel == 3 {
            255
        } else {
            0
        }
    }
}

impl View for ImageData {
    type V = ImageModel;

    closed spec fn view(&self) -> ImageModel {
        ImageModel { extent: self.extent, pixels: self.pixels@ }
    }
}

impl ImageData {
    #[verifier::type_invariant]
    closed spec fn well_formed(self) -> bool {
        !self.extent.spec_is_empty() && self.pixels@.len() == self.extent.spec_rgba8_len()
    }

    /// Creates a one-pixel RGBA8 image with the supplied color.
    pub fn solid_rgba8(color: U8Vec4) -> (image: Self)
        ensures
            image@.extent == TextureExtent::new_spec(1, 1),
            image@.pixels == color.spec_bytes(),
    {
        let pixels = color.to_vec();
        assert(pixels@.len() == 4);
        ImageData { extent: TextureExtent { width: 1, height: 1 }, pixels }
    }

    /// Creates the default 16x16 magenta/black checkerboard of 8x8 squares.
    pub fn checkerboard() -> (image: Self)
        ensures
            image@.extent == TextureExtent::new_spec(CHECKERBOARD_SIZE, CHECKERBOARD_SIZE),
            image@.pixels.len() == 1024,
            forall|i: int| 0 <= i < 1024 ==> #[trigger] image@.pixels[i] == spec_checkerboard_byte(i),
    {
        let mut pixels: Vec<u8> = Vec::with_capacity(1024);
        let mut y: u32 = 0;
        while y < CHECKERBOARD_SIZE
            invariant
                0 <= y <= 16,
                pixels@.len() == y * 64,
                forall|i: int| 0 <= i < pixels@.len() ==> #[trigger] pixels@[i] == spec_checkerboard_byte(i),
            decreases 16 - y,
        {
            let mut x: u32 = 0;
            while x < CHECKERBOARD_SIZE
                invariant
                    0 <= y < 16,
                    0 <= x <= 16,
                    pixels@.len() == y * 64 + x * 4,
                    forall|i: int| 0 <= i < pixels@.len() ==> #[trigger] pixels@[i] == spec_checkerboard_byte(i),
                decreases 16 - x,
            {
                let magenta = (x / CHECKERBOARD_SQUARE + y / CHECKERBOARD_SQUARE) % 2 == 0;
                let base = pixels.len();
                proof {
                    lemma_checkerboard_pixel(x as int, y as int, base as int);
                }
                if magenta {
                    pixels.push(255);
                    pixels.push(0);
                    pixels.push(255);
                    pixels.push(255);
                } else {
                    pixels.push(0);
                    pixels.push(0);
                    pixels.push(0);
                    pixels.push(255);
                }
                x = x + 1;
            }
            y = y + 1;
        }
        ImageData { extent: TextureExtent { width: CHECKERBOARD_SIZE, height: CHECKERBOARD_SIZE }, pixels }
    }

    /// The outcome of creating an image from an extent and raw bytes.
    pub open spec fn spec_from_rgba8(extent: TextureExtent, pixels: Seq<u8>) -> Result<
        ImageModel,
        TextureDataError,
    > {
        if extent.spec_is_empty() {
            Err(TextureDataError::EmptyExtent(extent))
        } else if extent.spec_rgba8_len() > usize::MAX {
            Err(TextureDataError::ByteLengthOverflow(extent))
        } else if extent.spec_rgba8_len() != pixels.len() {
            Err(
                TextureDataError::InvalidRgba8ByteLength {
                    expected: extent.spec_rgba8_len() as usize,
                    actual: pixels.len() as usize,
                },
            )
        } else {
            Ok(ImageModel { extent, pixels })
        }
    }

    /// Creates RGBA8 image data from raw bytes, rejecting an empty extent, an
    /// extent whose byte count overflows, and a byte count that does not
    /// match the extent.
    pub fn from_rgba8(extent: TextureExtent, pixels: Vec<u8>) -> (image: Result<
        Self,
        TextureDataError,
    >)
        ensures
            match (image, Self::spec_from_rgba8(extent, pixels@)) {
                (Ok(img), Ok(model)) => img@ == model,
                (Err(e), Err(f)) => e == f,
                _ => false,
            },
            match image {
                Ok(img) => {
                    &&& !extent.spec_is_empty()
                    &&& extent.spec_rgba8_len() == pixels@.len()
                    &&& img@.extent == extent
                    &&& img@.pixels == pixels@
                },
                Err(TextureDataError::EmptyExtent(e)) => extent.spec_is_empty() && e == extent,
                Err(TextureDataError::ByteLengthOverflow(e)) => !extent.spec_is_empty()
                    && extent.spec_rgba8_len() > usize::MAX && e == extent,
                Err(TextureDataError::InvalidRgba8ByteLength { expected, actual }) => {
                    &&& !extent.spec_is_empty()
                    &&& expected == extent.spec_rgba8_len()
                    &&& actual == pixels@.len()
                    &&& expected != actual
                },
                Err(_) => false,
            },
    {
        if extent.is_empty() {
            return Err(TextureDataError::EmptyExtent(extent));
        }
        let expected = match extent.rgba8_byte_len() {
            Some(n) => n,
            None => return Err(TextureDataError::ByteLengthOverflow(extent)),
        };
        let actual = pixels.len();
        if actual != expected {
            return Err(TextureDataError::InvalidRgba8ByteLength { expected, actual });
        }
        Ok(ImageData { extent, pixels })
    }

    /// The outcome of building an image from a decoder's output for the
    /// file at `path`: a decoding failure becomes `ImageDecode` with the path
    /// and the decoder's text; decoded pixels are checked as
    /// [`ImageData::from_rgba8`] checks them.
    pub open spec fn spec_decode_outcome(
        path: Seq<char>,
        decoded: Result<(u32, u32, Seq<u8>), Seq<char>>,
        outcome: Result<ImageModel, TextureDataError>,
    ) -> bool {
        match decoded {
            Err(reason) => outcome matches Err(TextureDataError::ImageDecode { path: p, reason: r })
                && p@ == path && r@ == reason,
            Ok((width, height, pixels)) => outcome == Self::spec_from_rgba8(
                TextureExtent { width, height },
                pixels,
            ),
        }
    }

    /// Builds an image from a decoder's output for the file at `path`.
    pub fn from_decoded(path: &str, decoded: Result<(u32, u32, Vec<u8>), String>) -> (image: Result<
        Self,
        TextureDataError,
    >)
        ensures
            Self::spec_decode_outcome(
                path@,
                decoded_view(decoded),
                match image {
                    Ok(i) => Ok(i@),
                    Err(e) => Err(e),
                },
            ),
    {
        match decoded {
            Ok((width, height, pixels)) => Self::from_rgba8(TextureExtent::new(width, height), pixels),
            Err(reason) => Err(TextureDataError::ImageDecode { path: String::from_str(path), reason }),
        }
    }

    /// Decodes the bytes of an image file into RGBA8 image data with the
    /// `image` crate; the format is taken from the extension of `path`.
    pub fn from_encoded(path: &str, encoded: &[u8]) -> (image: Result<Self, TextureDataError>)
        ensures
            Self::spec_decode_outcome(
                path@,
                spec_decoded_rgba8(encoded@, path@),
                match image {
                    Ok(i) => Ok(i@),
                    Err(e) => Err(e),
                },
            ),
    {
        let decoded = decode_rgba8(encoded, path);
        Self::from_decoded(path, decoded)
    }

    /// Returns the image extent.
    pub fn extent(&self) -> (extent: TextureExtent)
        ensures
            extent == self@.extent,
    {
        self.extent
    }

    /// Returns the image width in pixels.
    pub fn width(&self) -> (width: u32)
        ensures
            width == self@.extent.width,
    {
        self.extent.width
    }

    /// Returns the image height in pixels.
    pub fn height(&self) -> (height: u32)
        ensures
            height == self@.extent.height,
    {
        self.extent.height
    }

    /// Returns the raw RGBA8 image bytes.
    pub fn pixels(&self) -> (pixels: &[u8])
        ensures
            pixels@ == self@.pixels,
            pixels@.len() == self@.extent.spec_rgba8_len(),
            !self@.extent.spec_is_empty(),
    {
        proof {
            use_type_invariant(self);
        }
        self.pixels.as_slice()
    }

    /// Returns the number of raw RGBA8 bytes.
    pub fn byte_len(&self) -> (len: usize)
        ensures
            len == self@.pixels.len(),
            len == self@.extent.spec_rgba8_len(),
    {
        proof {
            use_type_invariant(self);
        }
        self.pixels.len()
    }

    /// Consumes the image data and returns its raw RGBA8 bytes.
    pub fn into_pixels(self) -> (pixels: Vec<u8>)
        ensures
            pixels@ == self@.pixels,
            pixels@.len() == self@.extent.spec_rgba8_len(),
    {
        proof {
            use_type_invariant(&self);
        }
        self.pixels
    }
}

impl Clone for ImageData {
    fn clone(&self) -> (copy: Self)
        ensures
            copy@ == self@,
    {
        proof {
            use_type_invariant(self);
        }
        let pixels = self.pixels.clone();
        assert(pixels@ =~= self.pixels@);
        ImageData { extent: self.extent, pixels }
    }
}

impl Default for ImageData {
    /// The default image is the checkerboard.
    fn default() -> (image: Self)
        ensures
            image@.extent == TextureExtent::new_spec(CHECKERBOARD_SIZE, CHECKERBOARD_SIZE),
            image@.pixels.len() == 1024,
            forall|i: int| 0 <= i < 1024 ==> #[trigger] image@.pixels[i] == spec_checkerboard_byte(i),
    {
        Self::checkerboard()
    }
}

/// The view of an optional owned string.
pub open spec fn label_view(label: Option<String>) -> Option<Seq<char>> {
    match label {
        Some(s) => Some(s@),
        None => None,
    }
}

/// Borrows an optional owned string as an optional string slice.
pub fn label_as_str(label: &Option<String>) -> (borrowed: Option<&str>)
    ensures
        match borrowed {
            Some(s) => label_view(*label) == Some(s@),
            None => label.is_none(),
        },
{
    match label {
        Some(s) => Some(s.as_str()),
        None => None,
    }
}

/// What a texture payload holds.
pub struct TextureModel {
    pub label: Option<Seq<char>>,
    pub image: ImageModel,
}

/// CPU-side texture payload plus upload metadata.
#[derive(Debug, PartialEq, Eq)]
pub struct TextureData {
    label: Option<String>,
    image: ImageData,
}

/// Label of the default texture.
pub const DEFAULT_TEXTURE_LABEL: &'static str = "default-checkerboard";

impl View for TextureData {
    type V = TextureModel;

    closed spec fn view(&self) -> TextureModel {
        TextureModel { label: label_view(self.label), image: self.image@ }
    }
}

impl Clone for TextureData {
    fn clone(&self) -> (copy: Self)
        ensures
            copy@ == self@,
    {
        let label = match &self.label {
            Some(l) => Some(l.clone()),
            None => None,
        };
        TextureData { label, image: self.image.clone() }
    }
}

impl Default for TextureData {
    /// The default texture is the checkerboard labelled
    /// `default-checkerboard`.
    fn default() -> (texture: Self)
        ensures
            texture@.label == Some(DEFAULT_TEXTURE_LABEL@),
            texture@.image.extent == TextureExtent::new_spec(CHECKERBOARD_SIZE, CHECKERBOARD_SIZE),
            texture@.image.pixels.len() == 1024,
            forall|i: int| 0 <= i < 1024 ==> #[trigger] texture@.image.pixels[i] == spec_checkerboard_byte(i),
    {
        TextureData { label: Some(String::from_str(DEFAULT_TEXTURE_LABEL)), image: ImageData::checkerboard() }
    }
}

impl TextureData {
    /// Creates a labeled one-pixel RGBA8 texture with the supplied color.
    pub fn solid_rgba8(label: &str, color: U8Vec4) -> (texture: Self)
        ensures
            texture@.label == Some(label@),
            texture@.image.extent == TextureExtent::new_spec(1, 1),
            texture@.image.pixels == color.spec_bytes(),
    {
        TextureData { label: Some(String::from_str(label)), image: ImageData::solid_rgba8(color) }
    }

    /// Creates unlabeled RGBA8 texture data from raw bytes; fails exactly as
    /// [`ImageData::from_rgba8`] does.
    pub fn from_rgba8(extent: TextureExtent, pixels: Vec<u8>) -> (texture: Result<
        Self,
        TextureDataError,
    >)
        ensures
            match (texture, ImageData::spec_from_rgba8(extent, pixels@)) {
                (Ok(t), Ok(model)) => t@.label.is_none() && t@.image == model,
                (Err(e), Err(f)) => e == f,
                _ => false,
            },
    {
        match ImageData::from_rgba8(extent, pixels) {
            Ok(image) => Ok(TextureData { label: None, image }),
            Err(e) => Err(e),
        }
    }

    /// Creates labeled RGBA8 texture data from raw bytes; fails exactly as
    /// [`ImageData::from_rgba8`] does.
    pub fn from_rgba8_with_label(label: &str, extent: TextureExtent, pixels: Vec<u8>) -> (texture:
        Result<Self, TextureDataError>)
        ensures
            match (texture, ImageData::spec_from_rgba8(extent, pixels@)) {
                (Ok(t), Ok(model)) => t@.label == Some(label@) && t@.image == model,
                (Err(e), Err(f)) => e == f,
                _ => false,
            },
    {
        match ImageData::from_rgba8(extent, pixels) {
            Ok(image) => Ok(TextureData { label: Some(String::from_str(label)), image }),
            Err(e) => Err(e),
        }
    }

    /// Decodes the bytes of an image file into texture data labelled with
    /// the file's path; fails exactly as [`ImageData::from_encoded`] does.
    pub fn from_encoded(path: &str, encoded: &[u8]) -> (texture: Result<Self, TextureDataError>)
        ensures
            texture matches Ok(t) ==> t@.label == Some(path@),
            ImageData::spec_decode_outcome(
                path@,
                spec_decoded_rgba8(encoded@, path@),
                match texture {
                    Ok(t) => Ok(t@.image),
                    Err(e) => Err(e),
                },
            ),
    {
        match ImageData::from_encoded(path, encoded) {
            Ok(image) => Ok(TextureData { label: Some(String::from_str(path)), image }),
            Err(e) => Err(e),
        }
    }

    /// Creates labeled texture data from decoded image data.
    pub fn from_image(label: &str, image: ImageData) -> (texture: Self)
        ensures
            texture@.label == Some(label@),
            texture@.image == image@,
    {
        TextureData { label: Some(String::from_str(label)), image }
    }

    /// Returns the optional texture label or source path.
    pub fn label(&self) -> (label: Option<&str>)
        ensures
            match label {
                Some(s) => self@.label == Some(s@),
                None => self@.label.is_none(),
            },
    {
        label_as_str(&self.label)
    }

    /// Returns the decoded image payload.
    pub fn image(&self) -> (image: &ImageData)
        ensures
            image@ == self@.image,
    {
        &self.image
    }

    /// Returns the texture extent.
    pub fn extent(&self) -> (extent: TextureExtent)
        ensures
            extent == self@.image.extent,
    {
        self.image.extent()
    }

    /// Returns the texture width in pixels.
    pub fn width(&self) -> (width: u32)
        ensures
            width == self@.image.extent.width,
    {
        self.image.width()
    }

    /// Returns the texture height in pixels.
    pub fn height(&self) -> (height: u32)
        ensures
            height == self@.image.extent.height,
    {
        self.image.height()
    }

    /// Returns the raw RGBA8 texture bytes.
    pub fn pixels(&self) -> (pixels: &[u8])
        ensures
            pixels@ == self@.image.pixels,
    {
        self.image.pixels()
    }

    /// Returns the number of raw RGBA8 bytes.
    pub fn byte_len(&self) -> (len: usize)
        ensures
            len == self@.image.pixels.len(),
            len == self@.image.extent.spec_rgba8_len(),
    {
        self.image.byte_len()
    }

    /// Consumes the texture data and returns its decoded image payload.
    pub fn into_image(self) -> (image: ImageData)
        ensures
            image@ == self@.image,
    {
        self.image
    }

    /// Consumes the texture data and returns its raw RGBA8 bytes.
    pub fn into_pixels(self) -> (pixels: Vec<u8>)
        ensures
            pixels@ == self@.image.pixels,
    {
        self.image.into_pixels()
    }
}

impl TextureExtent {
    /// The extent of the given width and height.
    pub open spec fn new_spec(width: u32, height: u32) -> TextureExtent {
        TextureExtent { width, height }
    }
}

/// Bytes `base .. base + 4` belong to pixel (x, y) of the checkerboard.
proof fn lemma_checkerboard_pixel(x: int, y: int, base: int)
    requires
        0 <= x < 16,
        0 <= y < 16,
        base == y * 64 + x * 4,
    ensures
        forall|k: int| 0 <= k < 4 ==> #[trigger] ((base + k) / 4) == y * 16 + x,
        forall|k: int| 0 <= k < 4 ==> #[trigger] ((base + k) % 4) == k,
        (y * 16 + x) % 16 == x,
        (y * 16 + x) / 16 == y,
{
    assert forall|k: int| 0 <= k < 4 implies #[trigger] ((base + k) / 4) == y * 16 + x && (base
        + k) % 4 == k by {
        assert(base + k == (y * 16 + x) * 4 + k);
    }
}

} // verus!
