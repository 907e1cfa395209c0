//! What the renderer is told and what it hands out.
//!
//! The renderer is the work of the `webrender` crate. Of its connection only
//! one thing is asked here: a fresh handle for every new image. Everything
//! else is data in plain values: the handle, the descriptor of an image's
//! pixels, and the two resource updates the registry produces. The caller
//! submits the updates to the renderer.

use vstd::prelude::*;
use webrender::render_api::RenderApi;

verus! {

/// The handle the renderer issues for one image resource.
///
/// Handles are only ever generated by the renderer; this crate copies and
/// compares them, it never makes one up.
#[derive(Clone, Copy, Debug, PartialEq, Eq, Hash, Structural)]
pub struct ImageKey {
    /// The namespace of the renderer connection that issued the handle.
    pub namespace: u32,
    /// The number of the handle within its namespace.
    pub id: u32,
}

/// A connection to the renderer, as the `webrender` crate holds it. Nothing
/// of such a value is known here; it is only asked for handles.
#[verifier::external_type_specification]
#[verifier::external_body]
pub struct ExRenderApi(RenderApi);

/// Calls `RenderApi::generate_image_key` and gives the handle as plain
/// values: the namespace of the connection and the number in it.
///
/// Nothing is claimed of the handle. The connection numbers its handles one
/// after the other in a counter of its own that is not seen here.
#[verifier::external_body]
pub(crate) fn generate_image_key(api: &RenderApi) -> (key: ImageKey) {
    let key = api.generate_image_key();
    ImageKey { namespace: key.0 .0, id: key.1 }
}

/// How the bytes of one pixel are laid out, in the renderer's terms.
#[derive(Clone, Copy, Debug, PartialEq, Eq, Hash, Structural)]
pub enum ImageFormat {
    /// One channel, one byte.
    R8,
    /// One channel, two bytes.
    R16,
    /// Four channels of one byte each, in the order blue, green, red, alpha.
    BGRA8,
    /// Four channels, floating point storage.
    RGBAF32,
    /// Two channels of one byte each.
    RG8,
    /// Two channels of two bytes each.
    RG16,
    /// Four channels, signed integer storage.
    RGBAI32,
    /// Four channels of one byte each, in the order red, green, blue, alpha.
    RGBA8,
}

impl ImageFormat {
    /// The number of bytes one pixel takes.
    pub open spec fn spec_bytes_per_pixel(self) -> u32 {
        match self {
            ImageFormat::R8 => 1u32,
            ImageFormat::R16 => 2u32,
            ImageFormat::BGRA8 => 4u32,
            ImageFormat::RGBAF32 => 16u32,
            ImageFormat::RG8 => 2u32,
            ImageFormat::RG16 => 4u32,
            ImageFormat::RGBAI32 => 16u32,
            ImageFormat::RGBA8 => 4u32,
        }
    }

    /// The number of bytes one pixel takes.
    #[verifier::when_used_as_spec(spec_bytes_per_pixel)]
    pub fn bytes_per_pixel(self) -> (bytes: u32)
        ensures
            bytes == self.spec_bytes_per_pixel(),
    {
        match self {
            ImageFormat::R8 => 1,
            ImageFormat::R16 => 2,
            ImageFormat::BGRA8 => 4,
            ImageFormat::RGBAF32 => 16,
            ImageFormat::RG8 => 2,
            ImageFormat::RG16 => 4,
            ImageFormat::RGBAI32 => 16,
            ImageFormat::RGBA8 => 4,
        }
    }
}

/// Dimensions, pixel format and opacity of an image resource.
#[derive(Clone, Copy, Debug, PartialEq, Eq, Structural)]
pub struct ImageDescriptor {
    /// Width in pixels.
    pub width: u32,
    /// Height in pixels.
    pub height: u32,
    /// Layout of each pixel.
    pub format: ImageFormat,
    /// The number of bytes from the start of one row to the start of the
    /// next; `None` where the rows follow each other without a gap.
    pub stride: Option<u32>,
    /// The number of bytes that come before the first pixel in the buffer.
    pub offset: u32,
    /// Whether every pixel is fully opaque.
    pub is_opaque: bool,
    /// Whether the renderer may build mipmaps for the image.
    pub has_mipmaps: bool,
}

impl ImageDescriptor {
    /// The descriptor of an image whose rows fill its buffer from the start
    /// and without gaps.
    pub open spec fn packed(
        width: u32,
        height: u32,
        format: ImageFormat,
        is_opaque: bool,
        has_mipmaps: bool,
    ) -> ImageDescriptor {
        ImageDescriptor {
            width,
            height,
            format,
            stride: None,
            offset: 0,
            is_opaque,
            has_mipmaps,
        }
    }

    /// The number of bytes that `width * height` pixels of the format take.
    pub open spec fn packed_size(self) -> nat {
        (self.width * self.height * self.format.spec_bytes_per_pixel()) as nat
    }

    /// The descriptor of an image whose rows fill its buffer from the start
    /// and without gaps.
    pub fn new(
        width: u32,
        height: u32,
        format: ImageFormat,
        is_opaque: bool,
        has_mipmaps: bool,
    ) -> (descriptor: ImageDescriptor)
        ensures
            descriptor == ImageDescriptor::packed(width, height, format, is_opaque, has_mipmaps),
    {
        ImageDescriptor { width, height, format, stride: None, offset: 0, is_opaque, has_mipmaps }
    }
}

/// The kind of texture an externally owned image lives in.
#[derive(Clone, Copy, Debug, PartialEq, Eq, Hash, Structural)]
pub enum ImageBufferKind {
    /// An ordinary two-dimensional texture.
    Texture2D,
    /// A rectangle texture.
    TextureRect,
    /// A texture in a format only the driver understands.
    TextureExternal,
    /// As `TextureExternal`, converted from YUV with the BT.709 colour space.
    TextureExternalBT709,
}

/// Where the pixels of an externally owned image are kept.
#[derive(Clone, Copy, Debug, PartialEq, Eq, Hash, Structural)]
pub enum ExternalImageType {
    /// In a texture of the given kind.
    TextureHandle(ImageBufferKind),
    /// In memory that the producer allocated.
    Buffer,
}

/// A reference to pixels that a producer outside this crate owns, such as
/// the frames of a video.
#[derive(Clone, Copy, Debug, PartialEq, Eq, Hash, Structural)]
pub struct ExternalImageData {
    /// The producer's identifier of the texture.
    pub id: u64,
    /// The plane of a multi-plane image; 0 for single-plane images.
    pub channel_index: u8,
    /// Where the pixels are kept.
    pub image_type: ExternalImageType,
    /// Whether texture coordinates for this image run from 0 to 1.
    pub normalized_uvs: bool,
}

/// The pixels that go with a resource update.
#[derive(Debug, PartialEq, Eq)]
pub enum ImageData {
    /// A buffer of bytes, ready for upload.
    Raw(Vec<u8>),
    /// Pixels that stay with their producer.
    External(ExternalImageData),
}

/// A part of an image that changed, in pixels.
#[derive(Clone, Copy, Debug, PartialEq, Eq, Structural)]
pub struct DirtyRect {
    /// Left edge.
    pub x: u32,
    /// Top edge.
    pub y: u32,
    /// Width.
    pub width: u32,
    /// Height.
    pub height: u32,
}

/// Registers a new image resource under a freshly issued handle.
#[derive(Debug, PartialEq, Eq)]
pub struct AddImage {
    /// The handle of the new resource.
    pub key: ImageKey,
    /// What the pixels are.
    pub descriptor: ImageDescriptor,
    /// The pixels.
    pub data: ImageData,
    /// Edge length of the tiles to store the image in, if it is to be tiled.
    pub tiling: Option<u16>,
}

/// Replaces the pixels of an image resource that already exists.
#[derive(Debug, PartialEq, Eq)]
pub struct UpdateImage {
    /// The handle of the resource.
    pub key: ImageKey,
    /// What the new pixels are.
    pub descriptor: ImageDescriptor,
    /// The new pixels.
    pub data: ImageData,
    /// The part that changed; `None` when the whole image did.
    pub dirty_rect: Option<DirtyRect>,
}

/// One command for the renderer.
#[derive(Debug, PartialEq, Eq)]
pub enum ResourceUpdate {
    /// Register a new image.
    AddImage(AddImage),
    /// Replace an image's pixels.
    UpdateImage(UpdateImage),
}

/// The pixels of a resource update, a buffer being the sequence of its
/// bytes.
pub enum Pixels {
    /// The bytes of a buffer, ready for upload.
    Raw(Seq<u8>),
    /// Pixels that stay with their producer.
    External(ExternalImageData),
}

/// A command for the renderer, a buffer being the sequence of its bytes.
pub enum Command {
    /// Register a new image.
    AddImage {
        /// The handle of the new resource.
        key: ImageKey,
        /// What the pixels are.
        descriptor: ImageDescriptor,
        /// The pixels.
        data: Pixels,
        /// Edge length of the tiles, if the image is to be tiled.
        tiling: Option<u16>,
    },
    /// Replace an image's pixels.
    UpdateImage {
        /// The handle of the resource.
        key: ImageKey,
        /// What the new pixels are.
        descriptor: ImageDescriptor,
        /// The new pixels.
        data: Pixels,
        /// The part that changed; `None` when the whole image did.
        dirty_rect: Option<DirtyRect>,
    },
}

impl Command {
    /// The command that registers a buffer of bytes as a new image, not
    /// tiled.
    pub open spec fn add(key: ImageKey, descriptor: ImageDescriptor, bytes: Seq<u8>) -> Command {
        Command::AddImage { key, descriptor, data: Pixels::Raw(bytes), tiling: None }
    }

    /// The command that points an image at pixels that stay with their
    /// producer, the whole image being new.
    pub open spec fn stream(
        key: ImageKey,
        descriptor: ImageDescriptor,
        data: ExternalImageData,
    ) -> Command {
        Command::UpdateImage { key, descriptor, data: Pixels::External(data), dirty_rect: None }
    }
}

impl View for ImageData {
    type V = Pixels;

    open spec fn view(&self) -> Pixels {
        match self {
            ImageData::Raw(bytes) => Pixels::Raw(bytes@),
            ImageData::External(external) => Pixels::External(*external),
        }
    }
}

impl View for AddImage {
    type V = Command;

    open spec fn view(&self) -> Command {
        Command::AddImage {
            key: self.key,
            descriptor: self.descriptor,
            data: self.data@,
            tiling: self.tiling,
        }
    }
}

impl View for UpdateImage {
    type V = Command;

    open spec fn view(&self) -> Command {
        Command::UpdateImage {
            key: self.key,
            descriptor: self.descriptor,
            data: self.data@,
            dirty_rect: self.dirty_rect,
        }
    }
}

impl View for ResourceUpdate {
    type V = Command;

    open spec fn view(&self) -> Command {
        match self {
            ResourceUpdate::AddImage(add) => add@,
            ResourceUpdate::UpdateImage(update) => update@,
        }
    }
}

impl Clone for ImageData {
    fn clone(&self) -> (copy: ImageData)
        ensures
            copy@ == self@,
    {
        match self {
            ImageData::Raw(bytes) => ImageData::Raw(bytes.clone()),
            ImageData::External(external) => ImageData::External(*external),
        }
    }
}

impl Clone for AddImage {
    fn clone(&self) -> (copy: AddImage)
        ensures
            copy@ == self@,
    {
        AddImage {
            key: self.key,
            descriptor: self.descriptor,
            data: self.data.clone(),
            tiling: self.tiling,
        }
    }
}

impl Clone for UpdateImage {
    fn clone(&self) -> (copy: UpdateImage)
        ensures
            copy@ == self@,
    {
        UpdateImage {
            key: self.key,
            descriptor: self.descriptor,
            data: self.data.clone(),
            dirty_rect: self.dirty_rect,
        }
    }
}

impl Clone for ResourceUpdate {
    fn clone(&self) -> (copy: ResourceUpdate)
        ensures
            copy@ == self@,
    {
        match self {
            ResourceUpdate::AddImage(add) => ResourceUpdate::AddImage(add.clone()),
            ResourceUpdate::UpdateImage(update) => ResourceUpdate::UpdateImage(update.clone()),
        }
    }
}

} // verus!
