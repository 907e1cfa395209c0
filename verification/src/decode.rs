//! Decoding: from the bytes of an image file to pixels.
//!
//! The decoding itself is the work of the `image` crate. What comes back is
//! taken apart into plain values and checked before anything else sees it.

use vstd::prelude::*;
use vstd::string::StringExecFns;
use crate::convert::{ColorLayout, DecodedImage, Raster};

verus! {

/// A decoded image as the `image` crate holds it. Nothing of such a value is
/// known here; it is only handed on to be taken apart.
#[verifier::external_type_specification]
#[verifier::external_body]
pub struct ExDynamicImage(image::DynamicImage);

/// The error of the `image` crate. Nothing of such a value is known here;
/// it is only turned into text.
#[verifier::external_type_specification]
#[verifier::external_body]
pub struct ExImageError(image::ImageError);

/// `image::load_from_memory` decodes the bytes of an image file, whose
/// format it guesses from the bytes.
///
/// Nothing is claimed of the answer. Which formats are recognised depends on
/// the decoders that are built in and on those the process has registered
/// with the `image` crate, so the same bytes need not give the same answer
/// everywhere.
pub assume_specification[ image::load_from_memory ](buffer: &[u8]) -> (decoded: image::ImageResult<
    image::DynamicImage,
>)
;

/// The text of an error of the `image` crate, as its `Display` writes it.
#[verifier::external_body]
fn error_text(error: &image::ImageError) -> (text: String) {
    error.to_string()
}

/// Takes a decoded image apart into its width, height, colour type and
/// bytes: `width`, `height`, `color` and `into_bytes` of `DynamicImage`.
/// Every colour type of the crate has its layout here; one that the crate
/// may add later is unknown.
///
/// Nothing is claimed of the parts: they are checked before they are used.
#[verifier::external_body]
fn into_parts(decoded: image::DynamicImage) -> (parts: (u32, u32, ColorLayout, Vec<u8>)) {
    let layout = match decoded.color() {
        image::ColorType::L8 => ColorLayout::Luma8,
        image::ColorType::La8 => ColorLayout::LumaAlpha8,
        image::ColorType::Rgb8 => ColorLayout::Rgb8,
        image::ColorType::Rgba8 => ColorLayout::Rgba8,
        image::ColorType::L16 => ColorLayout::Luma16,
        image::ColorType::La16 => ColorLayout::LumaAlpha16,
        image::ColorType::Rgb16 => ColorLayout::Rgb16,
        image::ColorType::Rgba16 => ColorLayout::Rgba16,
        image::ColorType::Rgb32F => ColorLayout::Rgb32F,
        image::ColorType::Rgba32F => ColorLayout::Rgba32F,
        _ => ColorLayout::Unknown,
    };
    (decoded.width(), decoded.height(), layout, decoded.into_bytes())
}

/// What is said of a decoder whose buffer does not hold the pixels that its
/// dimensions announce.
pub open spec fn incomplete_buffer() -> Seq<char> {
    "the decoded buffer does not hold the pixels of the image"@
}

/// What a decoder's answer amounts to: the image where its buffer holds
/// exactly the pixels of its dimensions, else a failure; a failure stays
/// what it is.
pub open spec fn checked_parts(
    parts: Result<(u32, u32, ColorLayout, Seq<u8>), Seq<char>>,
) -> Result<Raster, Seq<char>> {
    match parts {
        Ok((width, height, layout, pixels)) => {
            let image = Raster { width, height, layout, pixels };
            if image.is_whole() {
                Ok(image)
            } else {
                Err(incomplete_buffer())
            }
        },
        Err(message) => Err(message),
    }
}

/// A decoder's answer with its bytes and text as sequences.
pub open spec fn parts_view(parts: Result<(u32, u32, ColorLayout, Vec<u8>), String>) -> Result<
    (u32, u32, ColorLayout, Seq<u8>),
    Seq<char>,
> {
    match parts {
        Ok((width, height, layout, pixels)) => Ok((width, height, layout, pixels@)),
        Err(message) => Err(message@),
    }
}

/// A decoded image, or the text of a failure, with bytes and text as
/// sequences.
pub open spec fn decoded_view(decoded: Result<DecodedImage, String>) -> Result<Raster, Seq<char>> {
    match decoded {
        Ok(image) => Ok(image@),
        Err(message) => Err(message@),
    }
}

/// Checks a decoder's answer: an image is kept where its buffer holds
/// exactly the pixels of its dimensions and is a failure where it does not.
pub fn check_decoded(parts: Result<(u32, u32, ColorLayout, Vec<u8>), String>) -> (res: Result<
    DecodedImage,
    String,
>)
    ensures
        decoded_view(res) == checked_parts(parts_view(parts)),
{
    match parts {
        Ok((width, height, layout, pixels)) => match DecodedImage::new(
            width,
            height,
            layout,
            pixels,
        ) {
            Some(image) => Ok(image),
            None => Err(
                String::from_str("the decoded buffer does not hold the pixels of the image"),
            ),
        },
        Err(message) => Err(message),
    }
}

/// Decodes the bytes of an image file.
///
/// The format is guessed from the bytes. A failure carries what the decoder
/// said. An image whose buffer does not hold exactly the pixels of its
/// dimensions is a failure too, so every image that comes out is whole.
pub fn decode_image(bytes: &[u8]) -> (res: Result<DecodedImage, String>)
    ensures
        res matches Ok(image) ==> image@.is_whole(),
{
    match image::load_from_memory(bytes) {
        Ok(decoded) => check_decoded(Ok(into_parts(decoded))),
        Err(error) => check_decoded(Err(error_text(&error))),
    }
}

} // verus!
