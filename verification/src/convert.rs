//! The pixel converter: from a decoded image to the bytes and descriptor the
//! renderer takes.
//!
//! Four-channel images arrive as red, green, blue, alpha and leave as blue,
//! green, red, alpha, with the three colours premultiplied by the alpha.
//! Grey images pass through untouched. Nothing here keeps state.

use vstd::prelude::*;
use crate::render::{ImageDescriptor, ImageFormat};

verus! {

/// The colour layouts a decoder hands over.
#[derive(Clone, Copy, Debug, PartialEq, Eq, Hash, Structural)]
pub enum ColorLayout {
    /// One byte of grey per pixel.
    Luma8,
    /// One byte of grey and one of alpha per pixel.
    LumaAlpha8,
    /// One byte each of red, green and blue per pixel.
    Rgb8,
    /// One byte each of red, green, blue and alpha per pixel.
    Rgba8,
    /// Two bytes of grey per pixel.
    Luma16,
    /// Two bytes of grey and two of alpha per pixel.
    LumaAlpha16,
    /// Two bytes each of red, green and blue per pixel.
    Rgb16,
    /// Two bytes each of red, green, blue and alpha per pixel.
    Rgba16,
    /// Four bytes each of red, green and blue per pixel, as floating point
    /// numbers.
    Rgb32F,
    /// Four bytes each of red, green, blue and alpha per pixel, as floating
    /// point numbers.
    Rgba32F,
    /// A layout that has no name here.
    Unknown,
}

impl ColorLayout {
    /// The number of bytes one pixel takes, where the layout is known.
    pub open spec fn spec_bytes_per_pixel(self) -> Option<u8> {
        match self {
            ColorLayout::Luma8 => Some(1u8),
            ColorLayout::LumaAlpha8 => Some(2u8),
            ColorLayout::Rgb8 => Some(3u8),
            ColorLayout::Rgba8 => Some(4u8),
            ColorLayout::Luma16 => Some(2u8),
            ColorLayout::LumaAlpha16 => Some(4u8),
            ColorLayout::Rgb16 => Some(6u8),
            ColorLayout::Rgba16 => Some(8u8),
            ColorLayout::Rgb32F => Some(12u8),
            ColorLayout::Rgba32F => Some(16u8),
            ColorLayout::Unknown => None,
        }
    }

    /// The number of bytes one pixel takes, where the layout is known.
    #[verifier::when_used_as_spec(spec_bytes_per_pixel)]
    pub fn bytes_per_pixel(self) -> (bytes: Option<u8>)
        ensures
            bytes == self.spec_bytes_per_pixel(),
    {
        match self {
            ColorLayout::Luma8 => Some(1),
            ColorLayout::LumaAlpha8 => Some(2),
            ColorLayout::Rgb8 => Some(3),
            ColorLayout::Rgba8 => Some(4),
            ColorLayout::Luma16 => Some(2),
            ColorLayout::LumaAlpha16 => Some(4),
            ColorLayout::Rgb16 => Some(6),
            ColorLayout::Rgba16 => Some(8),
            ColorLayout::Rgb32F => Some(12),
            ColorLayout::Rgba32F => Some(16),
            ColorLayout::Unknown => None,
        }
    }
}

/// What a decoded image is: its dimensions, its layout and its bytes, row
/// after row.
pub struct Raster {
    /// Width in pixels.
    pub width: u32,
    /// Height in pixels.
    pub height: u32,
    /// Layout of each pixel.
    pub layout: ColorLayout,
    /// The bytes of all pixels.
    pub pixels: Seq<u8>,
}

impl Raster {
    /// Whether the bytes are exactly those of `width * height` pixels. An
    /// unknown layout asks for nothing.
    pub open spec fn is_whole(self) -> bool {
        match self.layout.spec_bytes_per_pixel() {
            Some(bytes) => self.pixels.len() == self.width * self.height * bytes,
            None => true,
        }
    }
}

/// A decoded image whose buffer holds exactly the pixels its dimensions
/// announce.
#[derive(Debug, PartialEq, Eq)]
pub struct DecodedImage {
    width: u32,
    height: u32,
    layout: ColorLayout,
    pixels: Vec<u8>,
}

impl View for DecodedImage {
    type V = Raster;

    closed spec fn view(&self) -> Raster {
        Raster { width: self.width, height: self.height, layout: self.layout, pixels: self.pixels@ }
    }
}

impl Clone for DecodedImage {
    fn clone(&self) -> (copy: DecodedImage)
        ensures
            copy@ == self@,
    {
        proof {
            use_type_invariant(self);
        }
        let pixels = self.pixels.clone();
        DecodedImage { width: self.width, height: self.height, layout: self.layout, pixels }
    }
}

impl DecodedImage {
    #[verifier::type_invariant]
    spec fn whole(&self) -> bool {
        self@.is_whole()
    }

    /// Builds a decoded image from its parts, or nothing where the buffer
    /// does not hold exactly `width * height` pixels of the layout.
    pub fn new(width: u32, height: u32, layout: ColorLayout, pixels: Vec<u8>) -> (image: Option<
        DecodedImage,
    >)
        ensures
            image is Some <==> (Raster { width, height, layout, pixels: pixels@ }).is_whole(),
            image matches Some(decoded) ==> decoded@ == (Raster {
                width,
                height,
                layout,
                pixels: pixels@,
            }),
    {
        let whole = match layout.bytes_per_pixel() {
            Some(bytes) => {
                assert(0 <= width as int * height as int <= 0xffff_ffff * 0xffff_ffff)
                    by (nonlinear_arith)
                    requires
                        0 <= width as int <= 0xffff_ffff,
                        0 <= height as int <= 0xffff_ffff,
                ;
                let count: u64 = (width as u64) * (height as u64);
                assert(0 <= count as int * bytes as int <= 0xffff_ffff * 0xffff_ffff * 16)
                    by (nonlinear_arith)
                    requires
                        0 <= count as int <= 0xffff_ffff * 0xffff_ffff,
                        0 <= bytes as int <= 16,
                ;
                let expected: u128 = (count as u128) * (bytes as u128);
                pixels.len() as u128 == expected
            },
            None => true,
        };
        if whole {
            Some(DecodedImage { width, height, layout, pixels })
        } else {
            None
        }
    }

    /// Width in pixels.
    pub fn width(&self) -> (width: u32)
        ensures
            width == self@.width,
    {
        self.width
    }

    /// Height in pixels.
    pub fn height(&self) -> (height: u32)
        ensures
            height == self@.height,
    {
        self.height
    }

    /// Layout of each pixel.
    pub fn layout(&self) -> (layout: ColorLayout)
        ensures
            layout == self@.layout,
    {
        self.layout
    }

    /// The bytes of all pixels.
    pub fn pixels(&self) -> (pixels: &[u8])
        ensures
            pixels@ == self@.pixels,
            self@.is_whole(),
    {
        proof {
            use_type_invariant(self);
        }
        self.pixels.as_slice()
    }
}

/// Why an image cannot be converted.
#[derive(Clone, Copy, Debug, PartialEq, Eq, Structural)]
pub enum ConversionError {
    /// The layout is neither four bytes of red, green, blue and alpha nor
    /// one byte of grey.
    UnsupportedFormat,
}

/// One colour channel multiplied by an alpha value and rounded:
/// `(channel * alpha + 128) / 255`, in whole numbers.
pub open spec fn scaled(channel: u8, alpha: u8) -> u8 {
    ((channel as int * alpha as int + 128) / 255) as u8
}

/// `scaled` never leaves the range of a byte, so it is the rounded quotient
/// itself. Full alpha keeps a channel, no alpha clears it, and no alpha
/// makes a channel larger.
pub proof fn lemma_scaled(channel: u8, alpha: u8)
    ensures
        scaled(channel, alpha) as int == (channel as int * alpha as int + 128) / 255,
        scaled(channel, 255) == channel,
        scaled(channel, 0) == 0,
        scaled(channel, alpha) <= channel,
{
    let c = channel as int;
    let a = alpha as int;
    assert(0 <= c * a <= c * 255) by (nonlinear_arith)
        requires
            0 <= c,
            0 <= a <= 255,
    ;
    assert((255 * c + 128) / 255 == c) by (nonlinear_arith)
        requires
            0 <= c,
    ;
}

/// Computes `scaled`.
fn scale(channel: u8, alpha: u8) -> (out: u8)
    ensures
        out == scaled(channel, alpha),
{
    proof {
        lemma_scaled(channel, alpha);
    }
    assert(0 <= channel as int * alpha as int <= 255 * 255) by (nonlinear_arith)
        requires
            0 <= channel as int <= 255,
            0 <= alpha as int <= 255,
    ;
    let product: u32 = (channel as u32) * (alpha as u32) + 128;
    let rounded: u32 = product / 255;
    rounded as u8
}

/// The bytes of four-byte pixels after premultiplication: the first three
/// bytes of every pixel scaled by the fourth, the fourth as it was.
pub open spec fn premultiplied(pixels: Seq<u8>) -> Seq<u8> {
    Seq::new(
        pixels.len(),
        |i: int|
            if i % 4 == 3 {
                pixels[i]
            } else {
                scaled(pixels[i], pixels[i - i % 4 + 3])
            },
    )
}

/// The bytes of four-byte pixels with the first and third byte of every
/// pixel exchanged.
pub open spec fn red_blue_swapped(pixels: Seq<u8>) -> Seq<u8> {
    Seq::new(
        pixels.len(),
        |i: int|
            if i % 4 == 0 {
                pixels[i + 2]
            } else if i % 4 == 2 {
                pixels[i - 2]
            } else {
                pixels[i]
            },
    )
}

/// Whether every whole four-byte pixel has a fourth byte of 255.
pub open spec fn all_opaque(pixels: Seq<u8>) -> bool {
    forall|p: int| 0 <= p < pixels.len() / 4 ==> #[trigger] pixels[4 * p + 3] == 255
}

/// The upload bytes of red, green, blue, alpha pixels: per pixel the blue,
/// the green and the red, each scaled by the alpha, then the alpha.
pub open spec fn upload_bytes(rgba: Seq<u8>) -> Seq<u8> {
    Seq::new(
        rgba.len(),
        |i: int|
            {
                let pixel = i - i % 4;
                let alpha = rgba[pixel + 3];
                if i % 4 == 0 {
                    scaled(rgba[pixel + 2], alpha)
                } else if i % 4 == 1 {
                    scaled(rgba[pixel + 1], alpha)
                } else if i % 4 == 2 {
                    scaled(rgba[pixel], alpha)
                } else {
                    alpha
                }
            },
    )
}

/// What conversion makes of a decoded image: the upload bytes and the
/// descriptor, or the refusal of its layout.
pub open spec fn converted(image: Raster) -> Result<(Seq<u8>, ImageDescriptor), ConversionError> {
    match image.layout {
        ColorLayout::Rgba8 => Ok(
            (
                upload_bytes(image.pixels),
                ImageDescriptor::packed(
                    image.width,
                    image.height,
                    ImageFormat::BGRA8,
                    all_opaque(image.pixels),
                    false,
                ),
            ),
        ),
        ColorLayout::Luma8 => Ok(
            (
                image.pixels,
                ImageDescriptor::packed(image.width, image.height, ImageFormat::R8, true, false),
            ),
        ),
        _ => Err(ConversionError::UnsupportedFormat),
    }
}

/// Premultiplies four-byte pixels in place: the first three bytes of each
/// pixel are scaled by its fourth, the alpha, which stays.
pub fn premultiply(data: &mut [u8])
    requires
        old(data)@.len() % 4 == 0,
    ensures
        final(data)@ == premultiplied(old(data)@),
{
    let ghost before = data@;
    let len = data.len();
    let mut i: usize = 0;
    while i < len
        invariant
            len == before.len(),
            data@.len() == before.len(),
            len % 4 == 0,
            i % 4 == 0,
            i <= len,
            forall|j: int| 0 <= j < i ==> data@[j] == premultiplied(before)[j],
            forall|j: int| i <= j < len ==> data@[j] == before[j],
        decreases len - i,
    {
        let a = data[i + 3];
        let b = scale(data[i], a);
        let g = scale(data[i + 1], a);
        let r = scale(data[i + 2], a);
        data[i] = b;
        data[i + 1] = g;
        data[i + 2] = r;
        i += 4;
    }
}

/// Exchanges the first and third byte of every four-byte pixel in place,
/// which turns red, green, blue, alpha into blue, green, red, alpha.
pub fn swap_red_blue(data: &mut [u8])
    requires
        old(data)@.len() % 4 == 0,
    ensures
        final(data)@ == red_blue_swapped(old(data)@),
{
    let ghost before = data@;
    let len = data.len();
    let mut i: usize = 0;
    while i < len
        invariant
            len == before.len(),
            data@.len() == before.len(),
            len % 4 == 0,
            i % 4 == 0,
            i <= len,
            forall|j: int| 0 <= j < i ==> data@[j] == red_blue_swapped(before)[j],
            forall|j: int| i <= j < len ==> data@[j] == before[j],
        decreases len - i,
    {
        let red = data[i];
        let blue = data[i + 2];
        data[i] = blue;
        data[i + 2] = red;
        i += 4;
    }
}

/// Whether an image of the given format is opaque: a one-channel image
/// always is, a four-channel image when every alpha byte is 255.
pub fn is_image_opaque(format: ImageFormat, bytes: &[u8]) -> (opaque: bool)
    requires
        format is BGRA8 || format is R8,
    ensures
        opaque == (format is R8 || all_opaque(bytes@)),
{
    match format {
        ImageFormat::BGRA8 => {
            let len = bytes.len();
            let count = len / 4;
            let mut p: usize = 0;
            while p < count
                invariant
                    format is BGRA8,
                    len == bytes@.len(),
                    count == len / 4,
                    p <= count,
                    forall|q: int| 0 <= q < p ==> #[trigger] bytes@[4 * q + 3] == 255,
                decreases count - p,
            {
                if bytes[4 * p + 3] != 255 {
                    return false;
                }
                p += 1;
            }
            true
        },
        _ => true,
    }
}

/// Swapping red and blue and then premultiplying gives the upload bytes, and
/// leaves every alpha where and what it was.
proof fn lemma_swap_then_premultiply(rgba: Seq<u8>)
    requires
        rgba.len() % 4 == 0,
    ensures
        premultiplied(red_blue_swapped(rgba)) == upload_bytes(rgba),
        all_opaque(upload_bytes(rgba)) == all_opaque(rgba),
{
    let out = upload_bytes(rgba);
    if all_opaque(rgba) {
        assert forall|p: int| 0 <= p < out.len() / 4 implies #[trigger] out[4 * p + 3] == 255 by {
            assert(rgba[4 * p + 3] == 255);
        }
    }
    if all_opaque(out) {
        assert forall|p: int| 0 <= p < rgba.len() / 4 implies #[trigger] rgba[4 * p + 3]
            == 255 by {
            assert(out[4 * p + 3] == 255);
        }
    }
}

/// Converts a decoded image into the bytes and the descriptor the renderer
/// takes.
///
/// Red, green, blue, alpha pixels are reordered to blue, green, red, alpha
/// and their colours premultiplied; the image is opaque when every alpha is
/// 255. Grey pixels are kept as they are and are always opaque. Any other
/// layout is refused.
pub fn prepare_image(image: DecodedImage) -> (res: Result<
    (Vec<u8>, ImageDescriptor),
    ConversionError,
>)
    ensures
        match converted(image@) {
            Ok((bytes, descriptor)) => res matches Ok(out) && out.0@ == bytes && out.1
                == descriptor,
            Err(error) => res == Err::<(Vec<u8>, ImageDescriptor), ConversionError>(error),
        },
        res matches Ok(out) ==> out.0@.len() == out.1.packed_size(),
{
    proof {
        use_type_invariant(&image);
    }
    let DecodedImage { width, height, layout, pixels } = image;
    match layout {
        ColorLayout::Rgba8 => {
            let mut bytes = pixels;
            let ghost rgba = bytes@;
            swap_red_blue(bytes.as_mut_slice());
            premultiply(bytes.as_mut_slice());
            let opaque = is_image_opaque(ImageFormat::BGRA8, bytes.as_slice());
            proof {
                lemma_swap_then_premultiply(rgba);
            }
            Ok((bytes, ImageDescriptor::new(width, height, ImageFormat::BGRA8, opaque, false)))
        },
        ColorLayout::Luma8 => {
            let opaque = is_image_opaque(ImageFormat::R8, pixels.as_slice());
            Ok((pixels, ImageDescriptor::new(width, height, ImageFormat::R8, opaque, false)))
        },
        _ => Err(ConversionError::UnsupportedFormat),
    }
}

/// Every converted pixel is the premultiplied source pixel in the order
/// blue, green, red, alpha: each colour is `(colour * alpha + 128) / 255` in
/// whole numbers, and the alpha is the source's.
pub proof fn lemma_converted_pixel(image: Raster, p: int)
    requires
        image.layout is Rgba8,
        0 <= p < image.pixels.len() / 4,
    ensures
        converted(image) matches Ok(out) && {
            let red = image.pixels[4 * p] as int;
            let green = image.pixels[4 * p + 1] as int;
            let blue = image.pixels[4 * p + 2] as int;
            let alpha = image.pixels[4 * p + 3] as int;
            &&& out.0.len() == image.pixels.len()
            &&& out.0[4 * p] as int == (blue * alpha + 128) / 255
            &&& out.0[4 * p + 1] as int == (green * alpha + 128) / 255
            &&& out.0[4 * p + 2] as int == (red * alpha + 128) / 255
            &&& out.0[4 * p + 3] as int == alpha
        },
{
    let alpha = image.pixels[4 * p + 3];
    lemma_scaled(image.pixels[4 * p], alpha);
    lemma_scaled(image.pixels[4 * p + 1], alpha);
    lemma_scaled(image.pixels[4 * p + 2], alpha);
}

/// A grey image is always opaque. A red, green, blue, alpha image is opaque
/// exactly when the alpha of every pixel is 255.
pub proof fn lemma_opacity(image: Raster)
    ensures
        image.layout is Luma8 ==> (converted(image) matches Ok(out) && out.1.is_opaque),
        image.layout is Rgba8 ==> (converted(image) matches Ok(out) && (out.1.is_opaque
            <==> forall|p: int|
            0 <= p < image.pixels.len() / 4 ==> #[trigger] image.pixels[4 * p + 3] == 255)),
{
}

/// A red, green, blue, alpha image with one pixel whose alpha is below 255
/// is not opaque.
pub proof fn lemma_transparent_pixel(image: Raster, p: int)
    requires
        image.layout is Rgba8,
        0 <= p < image.pixels.len() / 4,
        image.pixels[4 * p + 3] < 255,
    ensures
        converted(image) matches Ok(out) && !out.1.is_opaque,
{
}

/// Only red, green, blue, alpha images and grey images are converted: every
/// other layout is refused.
pub proof fn lemma_unsupported_layout(image: Raster)
    ensures
        converted(image) is Err <==> !(image.layout is Rgba8 || image.layout is Luma8),
        converted(image) is Err ==> converted(image) == Err::<
            (Seq<u8>, ImageDescriptor),
            ConversionError,
        >(ConversionError::UnsupportedFormat),
{
}

} // verus!
