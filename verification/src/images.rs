//! The image registry: which source has which image with the renderer.
//!
//! The registry decides and records; it neither reads files nor sends
//! anything to the renderer. A lookup says whether an image is cached or
//! which file has to be read. Loading takes the bytes, asks the connection
//! to the renderer for a handle once the pixels are ready, and gives back
//! the update to submit to the renderer. Whatever adds an image needs the
//! connection, so it has to be there before the first image is loaded.

use std::collections::HashMap;
use vstd::hash_map::StringHashMap;
use vstd::prelude::*;
use vstd::std_specs::hash::group_hash_axioms;
use webrender::render_api::RenderApi;
use crate::convert::{converted, prepare_image, DecodedImage, Raster};
use crate::decode::{decode_image, decoded_view};
use crate::render::{
    generate_image_key, AddImage, Command, ExternalImageData, ImageData, ImageDescriptor, ImageKey,
    ResourceUpdate, UpdateImage,
};
use crate::source::{join, joined, SourceKey};

pub use crate::convert::premultiply;
pub use crate::source::ImageSource;

verus! {

/// An image that the renderer holds: its handle and what it is.
#[derive(Clone, Copy, Debug, PartialEq, Eq, Structural)]
pub struct ImageInfo {
    /// The handle the renderer issued for the image.
    pub key: ImageKey,
    /// Dimensions, format and opacity of the image.
    pub descriptor: ImageDescriptor,
}

/// Why an image could not be loaded.
#[derive(Debug, PartialEq, Eq)]
pub enum Cause {
    /// The file could not be read.
    Io {
        /// The path that was tried.
        path: String,
        /// What the system said.
        message: String,
    },
    /// The bytes could not be decoded as an image; with what the decoder
    /// said.
    Decode(String),
    /// The image was decoded, but its layout is not one the renderer is
    /// given.
    UnsupportedFormat,
    /// No image has been loaded under this bundled name.
    BundledImageMissing(String),
}

/// A `Cause` with its text as sequences of characters.
pub enum CauseText {
    /// The file could not be read.
    Io {
        /// The path that was tried.
        path: Seq<char>,
        /// What the system said.
        message: Seq<char>,
    },
    /// The bytes could not be decoded as an image.
    Decode(Seq<char>),
    /// The layout is not one the renderer is given.
    UnsupportedFormat,
    /// No image has been loaded under this bundled name.
    BundledImageMissing(Seq<char>),
}

impl View for Cause {
    type V = CauseText;

    open spec fn view(&self) -> CauseText {
        match self {
            Cause::Io { path, message } => CauseText::Io { path: path@, message: message@ },
            Cause::Decode(message) => CauseText::Decode(message@),
            Cause::UnsupportedFormat => CauseText::UnsupportedFormat,
            Cause::BundledImageMissing(name) => CauseText::BundledImageMissing(name@),
        }
    }
}

impl Clone for Cause {
    fn clone(&self) -> (copy: Cause)
        ensures
            copy@ == self@,
    {
        match self {
            Cause::Io { path, message } => Cause::Io {
                path: path.clone(),
                message: message.clone(),
            },
            Cause::Decode(message) => Cause::Decode(message.clone()),
            Cause::UnsupportedFormat => Cause::UnsupportedFormat,
            Cause::BundledImageMissing(name) => Cause::BundledImageMissing(name.clone()),
        }
    }
}

/// The failure to load an image from a source, with its cause.
#[derive(Debug, PartialEq, Eq)]
pub struct LookupError {
    /// The source that was asked for.
    pub source: ImageSource,
    /// What went wrong.
    pub cause: Cause,
}

impl Clone for LookupError {
    fn clone(&self) -> (copy: LookupError)
        ensures
            copy@ == self@,
    {
        LookupError { source: self.source.clone(), cause: self.cause.clone() }
    }
}

/// A `LookupError` with its text as sequences of characters.
pub struct Failure {
    /// The source that was asked for.
    pub source: SourceKey,
    /// What went wrong.
    pub cause: CauseText,
}

impl View for LookupError {
    type V = Failure;

    open spec fn view(&self) -> Failure {
        Failure { source: self.source@, cause: self.cause@ }
    }
}

/// What a lookup found.
#[derive(Debug)]
pub enum Lookup<'a> {
    /// The image is with the renderer already.
    Cached(&'a ImageInfo),
    /// The image has to be loaded from the file at this path.
    Open(String),
}

/// What a registry holds.
pub struct Registry {
    /// The root that asset paths are resolved against.
    pub assets_path: Seq<char>,
    /// The images that are with the renderer, by source.
    pub images: Map<SourceKey, ImageInfo>,
    /// The latest descriptor of every streamed texture, by texture id.
    pub texture_descriptors: Map<u64, ImageDescriptor>,
}

/// What a lookup amounts to.
pub enum Found {
    /// The image is cached, with this handle and descriptor.
    Cached(ImageInfo),
    /// The image has to be loaded from the file at this path.
    Open(Seq<char>),
    /// The bundled image of this name was never loaded.
    Missing(Seq<char>),
}

/// What converting a decoder's answer for a source comes to: the bytes to
/// upload and their descriptor, or the failure to load the source. A failed
/// decoding and a refused layout are failures.
pub open spec fn prepared(source: SourceKey, decoded: Result<Raster, Seq<char>>) -> Result<
    (Seq<u8>, ImageDescriptor),
    Failure,
> {
    match decoded {
        Err(message) => Err(Failure { source, cause: CauseText::Decode(message) }),
        Ok(image) => match converted(image) {
            Err(_) => Err(Failure { source, cause: CauseText::UnsupportedFormat }),
            Ok(out) => Ok(out),
        },
    }
}

/// What reading a file and decoding it came to, seen from the registry: the
/// failure to read, or the decoder's answer.
pub open spec fn as_read(contents: Result<Vec<u8>, String>, decoded: Result<Raster, Seq<char>>) -> Result<
    Result<Raster, Seq<char>>,
    Seq<char>,
> {
    match contents {
        Err(message) => Err(message@),
        Ok(_) => Ok(decoded),
    }
}

impl Registry {
    /// The registry that holds nothing.
    pub open spec fn empty() -> Registry {
        Registry {
            assets_path: Seq::empty(),
            images: Map::empty(),
            texture_descriptors: Map::empty(),
        }
    }

    /// The file that holds the image of a source: the path itself, or the
    /// path below the assets root. A bundled image has no file.
    pub open spec fn path_of(self, source: SourceKey) -> Option<Seq<char>> {
        match source {
            SourceKey::AbsolutePath(path) => Some(path),
            SourceKey::AssetPath(path) => Some(joined(self.assets_path, path)),
            SourceKey::Bundled(_) => None,
        }
    }

    /// The outcome of looking a source up: the cached image where there is
    /// one, else the file to read, and for a bundled image that it is
    /// missing.
    pub open spec fn lookup(self, source: SourceKey) -> Found {
        if self.images.contains_key(source) {
            Found::Cached(self.images[source])
        } else {
            match source {
                SourceKey::AbsolutePath(path) => Found::Open(path),
                SourceKey::AssetPath(path) => Found::Open(joined(self.assets_path, path)),
                SourceKey::Bundled(name) => Found::Missing(name),
            }
        }
    }

    /// The registry with an image cached under a source, in place of any
    /// that was cached there.
    pub open spec fn with_image(self, source: SourceKey, info: ImageInfo) -> Registry {
        Registry { images: self.images.insert(source, info), ..self }
    }

    /// The registry with a descriptor recorded for a streamed texture, in
    /// place of any that was recorded for it.
    pub open spec fn with_texture(self, texture_id: u64, descriptor: ImageDescriptor) -> Registry {
        Registry {
            texture_descriptors: self.texture_descriptors.insert(texture_id, descriptor),
            ..self
        }
    }

    /// What registering a decoder's answer under a source and a handle
    /// comes to: the registry with the converted image cached and the bytes
    /// to upload, or the failure.
    pub open spec fn registered(
        self,
        source: SourceKey,
        decoded: Result<Raster, Seq<char>>,
        key: ImageKey,
    ) -> Result<(Registry, Seq<u8>), Failure> {
        match prepared(source, decoded) {
            Err(failure) => Err(failure),
            Ok((bytes, descriptor)) => Ok(
                (self.with_image(source, ImageInfo { key, descriptor }), bytes),
            ),
        }
    }

    /// What loading the file of a source comes to, `contents` being the
    /// failure to read the file or what the decoder made of it: nothing
    /// changes and nothing is uploaded where the image is cached; a bundled
    /// image is missing; an unreadable file is the failure; else the
    /// decoder's answer is registered.
    pub open spec fn loaded(
        self,
        source: SourceKey,
        contents: Result<Result<Raster, Seq<char>>, Seq<char>>,
        key: ImageKey,
    ) -> Result<(Registry, Option<Seq<u8>>), Failure> {
        match self.lookup(source) {
            Found::Cached(_) => Ok((self, None)),
            Found::Missing(name) => Err(
                Failure { source, cause: CauseText::BundledImageMissing(name) },
            ),
            Found::Open(path) => match contents {
                Err(message) => Err(Failure { source, cause: CauseText::Io { path, message } }),
                Ok(decoded) => match self.registered(source, decoded, key) {
                    Ok((registry, bytes)) => Ok((registry, Some(bytes))),
                    Err(failure) => Err(failure),
                },
            },
        }
    }

    /// The registry with another assets root.
    pub open spec fn with_assets_path(self, path: Seq<char>) -> Registry {
        Registry { assets_path: path, ..self }
    }
}

/// Whether `after` and `res` are what registering a decoder's answer makes
/// of the registry `before`: on success the image is cached and `res` is
/// the one update that adds it; on failure nothing has changed and `res`
/// is the failure.
pub open spec fn registers(
    before: Registry,
    source: SourceKey,
    decoded: Result<Raster, Seq<char>>,
    key: ImageKey,
    after: Registry,
    res: Result<ResourceUpdate, LookupError>,
) -> bool {
    match before.registered(source, decoded, key) {
        Ok((registry, bytes)) => {
            &&& after == registry
            &&& res matches Ok(update)
            &&& update@ == Command::add(key, registry.images[source].descriptor, bytes)
        },
        Err(failure) => {
            &&& after == before
            &&& res matches Err(error)
            &&& error@ == failure
        },
    }
}

/// Whether `after` and `res` are what loading the file of a source makes of
/// the registry `before`: on success `res` is the one update that adds the
/// image, or nothing where the image was cached already; on failure
/// nothing has changed and `res` is the failure.
pub open spec fn loads(
    before: Registry,
    source: SourceKey,
    contents: Result<Result<Raster, Seq<char>>, Seq<char>>,
    key: ImageKey,
    after: Registry,
    res: Result<Option<ResourceUpdate>, LookupError>,
) -> bool {
    match before.loaded(source, contents, key) {
        Ok((registry, Some(bytes))) => {
            &&& after == registry
            &&& res matches Ok(Some(update))
            &&& update@ == Command::add(key, registry.images[source].descriptor, bytes)
        },
        Ok((registry, None)) => {
            &&& after == registry
            &&& res matches Ok(None)
        },
        Err(failure) => {
            &&& after == before
            &&& res matches Err(error)
            &&& error@ == failure
        },
    }
}

/// Once an image is registered under a source, every lookup of that source
/// finds it cached, under the handle it was registered with: no file is
/// asked for again. Lookups of other sources are what they were.
pub proof fn lemma_registered_is_cached(
    registry: Registry,
    source: SourceKey,
    decoded: Result<Raster, Seq<char>>,
    key: ImageKey,
    other: SourceKey,
)
    requires
        registry.registered(source, decoded, key) is Ok,
    ensures
        registry.registered(source, decoded, key) matches Ok(done) && {
            &&& done.0.lookup(source) matches Found::Cached(info)
            &&& info.key == key
            &&& other != source ==> done.0.lookup(other) == registry.lookup(other)
            &&& done.0.texture_descriptors == registry.texture_descriptors
        },
{
}

/// A source is loaded at most once. After a load of a source has
/// succeeded, the source is cached; if it was cached before, it still has
/// the handle it had, and nothing was uploaded. Every further load of the
/// source, whatever its file holds by then and whichever handle would be
/// issued for it, leaves the registry as it is and uploads nothing.
pub proof fn lemma_loaded_once(
    registry: Registry,
    source: SourceKey,
    contents: Result<Result<Raster, Seq<char>>, Seq<char>>,
    key: ImageKey,
    later_contents: Result<Result<Raster, Seq<char>>, Seq<char>>,
    later_key: ImageKey,
)
    requires
        registry.loaded(source, contents, key) is Ok,
    ensures
        registry.loaded(source, contents, key) matches Ok(done) && {
            &&& done.0.lookup(source) matches Found::Cached(info)
            &&& registry.lookup(source) matches Found::Cached(earlier) ==> info == earlier
                && done.1 is None && done.0 == registry
            &&& !(registry.lookup(source) is Cached) ==> info.key == key && done.1 is Some
            &&& done.0.loaded(source, later_contents, later_key) == Ok::<
                (Registry, Option<Seq<u8>>),
                Failure,
            >((done.0, None))
        },
{
}

/// A failed load leaves no trace: whatever went wrong, the source is looked
/// up afterwards as it was before.
pub proof fn lemma_failed_load_changes_nothing(
    before: Registry,
    source: SourceKey,
    contents: Result<Result<Raster, Seq<char>>, Seq<char>>,
    key: ImageKey,
    after: Registry,
    res: Result<Option<ResourceUpdate>, LookupError>,
)
    requires
        loads(before, source, contents, key, after, res),
        res is Err,
    ensures
        after == before,
        before.loaded(source, contents, key) is Err,
{
}

/// An image in a layout that is not converted is never registered: the
/// outcome is the failure to load the source for its unsupported format.
pub proof fn lemma_unsupported_is_not_registered(
    registry: Registry,
    source: SourceKey,
    image: Raster,
    key: ImageKey,
)
    requires
        !(image.layout is Rgba8 || image.layout is Luma8),
    ensures
        registry.registered(source, Ok(image), key) == Err::<(Registry, Seq<u8>), Failure>(
            Failure { source, cause: CauseText::UnsupportedFormat },
        ),
{
}

/// A bundled image that was never registered is missing, whatever else the
/// registry holds, and no file brings it in: loading it from whatever
/// contents fails in the same way.
pub proof fn lemma_unregistered_bundled_is_missing(
    registry: Registry,
    name: Seq<char>,
    contents: Result<Result<Raster, Seq<char>>, Seq<char>>,
    key: ImageKey,
)
    requires
        !registry.images.contains_key(SourceKey::Bundled(name)),
    ensures
        registry.lookup(SourceKey::Bundled(name)) == Found::Missing(name),
        registry.path_of(SourceKey::Bundled(name)) is None,
        registry.loaded(SourceKey::Bundled(name), contents, key) == Err::<
            (Registry, Option<Seq<u8>>),
            Failure,
        >(
            Failure {
                source: SourceKey::Bundled(name),
                cause: CauseText::BundledImageMissing(name),
            },
        ),
{
}

/// An asset that is not cached is looked for below the assets root: at the
/// root, a `/` and the path, where the root is not empty and does not end
/// in `/` and the path does not start with one.
pub proof fn lemma_asset_is_below_root(registry: Registry, path: Seq<char>)
    requires
        !registry.images.contains_key(SourceKey::AssetPath(path)),
        registry.assets_path.len() > 0,
        registry.assets_path.last() != '/',
        path.len() > 0 ==> path[0] != '/',
    ensures
        registry.lookup(SourceKey::AssetPath(path)) == Found::Open(
            registry.assets_path + seq!['/'] + path,
        ),
{
}

/// A file that cannot be read is the failure to load its source, with the
/// path that was resolved for it, and nothing is cached.
pub proof fn lemma_unreadable_file(
    registry: Registry,
    source: SourceKey,
    message: Seq<char>,
    key: ImageKey,
)
    requires
        !registry.images.contains_key(source),
        !(source is Bundled),
    ensures
        registry.path_of(source) matches Some(path) && registry.loaded(source, Err(message), key)
            == Err::<(Registry, Option<Seq<u8>>), Failure>(
            Failure { source, cause: CauseText::Io { path, message } },
        ),
{
}

/// The cache of images that are with the renderer, and the table of
/// streamed textures.
pub struct ImageLoader {
    /// The connection to the renderer, once there is one.
    pub render: Option<RenderApi>,
    assets_path: String,
    absolute: StringHashMap<ImageInfo>,
    assets: StringHashMap<ImageInfo>,
    bundled: StringHashMap<ImageInfo>,
    texture_descriptors: HashMap<u64, ImageDescriptor>,
}

impl View for ImageLoader {
    type V = Registry;

    closed spec fn view(&self) -> Registry {
        Registry {
            assets_path: self.assets_path@,
            images: Map::new(
                |source: SourceKey|
                    match source {
                        SourceKey::AbsolutePath(path) => self.absolute@.contains_key(path),
                        SourceKey::AssetPath(path) => self.assets@.contains_key(path),
                        SourceKey::Bundled(name) => self.bundled@.contains_key(name),
                    },
                |source: SourceKey|
                    match source {
                        SourceKey::AbsolutePath(path) => self.absolute@[path],
                        SourceKey::AssetPath(path) => self.assets@[path],
                        SourceKey::Bundled(name) => self.bundled@[name],
                    },
            ),
            texture_descriptors: self.texture_descriptors@,
        }
    }
}

impl Default for ImageLoader {
    fn default() -> (loader: ImageLoader)
        ensures
            loader@ == Registry::empty(),
            loader.connection() is None,
    {
        ImageLoader::new()
    }
}

impl ImageLoader {
    /// A registry that holds nothing, with an empty assets root.
    pub fn new() -> (loader: ImageLoader)
        ensures
            loader@ == Registry::empty(),
            loader.connection() is None,
    {
        broadcast use group_hash_axioms;

        let loader = ImageLoader {
            render: None,
            assets_path: String::new(),
            absolute: StringHashMap::new(),
            assets: StringHashMap::new(),
            bundled: StringHashMap::new(),
            texture_descriptors: HashMap::new(),
        };
        assert(loader@.images =~= Map::empty());
        loader
    }

    /// The connection to the renderer, once there is one.
    pub closed spec fn connection(&self) -> Option<RenderApi> {
        self.render
    }

    /// Whether there is a connection to the renderer.
    pub fn is_connected(&self) -> (connected: bool)
        ensures
            connected == self.connection() is Some,
    {
        self.render.is_some()
    }

    /// Takes the connection to the renderer, in place of any there was.
    /// What is cached stays.
    pub fn connect(&mut self, api: RenderApi)
        ensures
            final(self).connection() == Some(api),
            final(self)@ == old(self)@,
    {
        self.render = Some(api);
    }

    /// The root that asset paths are resolved against.
    pub fn assets_path(&self) -> (path: &String)
        ensures
            path@ == self@.assets_path,
    {
        &self.assets_path
    }

    /// Sets the root that asset paths are resolved against.
    pub fn set_assets_path(&mut self, path: String)
        ensures
            final(self)@ == old(self)@.with_assets_path(path@),
            final(self).connection() == old(self).connection(),
    {
        self.assets_path = path;
    }

    /// The cached image of a source, if there is one.
    pub fn cached(&self, source: &ImageSource) -> (found: Option<&ImageInfo>)
        ensures
            match found {
                Some(info) => self@.images.contains_key(source@) && *info == self@.images[source@],
                None => !self@.images.contains_key(source@),
            },
    {
        match source {
            ImageSource::AbsolutePath(path) => self.absolute.get(path.as_str()),
            ImageSource::AssetPath(path) => self.assets.get(path.as_str()),
            ImageSource::Bundled(name) => self.bundled.get(name.as_str()),
        }
    }

    /// The descriptor that was last recorded for a streamed texture.
    pub fn texture_descriptor(&self, texture_id: u64) -> (found: Option<&ImageDescriptor>)
        ensures
            match found {
                Some(descriptor) => self@.texture_descriptors.contains_key(texture_id)
                    && *descriptor == self@.texture_descriptors[texture_id],
                None => !self@.texture_descriptors.contains_key(texture_id),
            },
    {
        broadcast use group_hash_axioms;

        self.texture_descriptors.get(&texture_id)
    }

    /// Looks a source up.
    ///
    /// A cached image is returned as it is. For a path that is not cached
    /// the answer is the file to read: the path itself, or the path below
    /// the assets root. A bundled image that is not cached is missing: it
    /// has no file to come from.
    pub fn get_image<'a>(&'a self, source: &ImageSource) -> (res: Result<Lookup<'a>, LookupError>)
        ensures
            match self@.lookup(source@) {
                Found::Cached(info) => res matches Ok(Lookup::Cached(cached)) && *cached == info,
                Found::Open(path) => res matches Ok(Lookup::Open(file)) && file@ == path,
                Found::Missing(name) => res matches Err(error) && error@ == (Failure {
                    source: source@,
                    cause: CauseText::BundledImageMissing(name),
                }),
            },
    {
        match self.cached(source) {
            Some(info) => Ok(Lookup::Cached(info)),
            None => match source {
                ImageSource::AbsolutePath(path) => Ok(Lookup::Open(path.clone())),
                ImageSource::AssetPath(path) => Ok(
                    Lookup::Open(join(self.assets_path.as_str(), path.as_str())),
                ),
                ImageSource::Bundled(name) => Err(
                    LookupError {
                        source: source.clone(),
                        cause: Cause::BundledImageMissing(name.clone()),
                    },
                ),
            },
        }
    }

    /// Caches an image under a source, in place of any cached there.
    fn insert(&mut self, source: &ImageSource, info: ImageInfo)
        ensures
            final(self)@ == old(self)@.with_image(source@, info),
            final(self).connection() == old(self).connection(),
    {
        match source {
            ImageSource::AbsolutePath(path) => self.absolute.insert(path.clone(), info),
            ImageSource::AssetPath(path) => self.assets.insert(path.clone(), info),
            ImageSource::Bundled(name) => self.bundled.insert(name.clone(), info),
        }
        assert(self@.images =~= old(self)@.images.insert(source@, info));
    }

    /// The connection to the renderer, where there is one.
    fn render_api(&self) -> (api: &RenderApi)
        requires
            self.connection() is Some,
        ensures
            self.connection() == Some(*api),
    {
        self.render.as_ref().unwrap()
    }

    /// The image resource for a buffer under a handle: the record to keep,
    /// and the update that hands the buffer to the renderer, not tiled.
    fn image_resource(key: ImageKey, data: Vec<u8>, descriptor: ImageDescriptor) -> (out: (
        ImageInfo,
        ResourceUpdate,
    ))
        ensures
            out.0 == (ImageInfo { key, descriptor }),
            out.1@ == Command::add(key, descriptor, data@),
    {
        let update = ResourceUpdate::AddImage(
            AddImage { key, descriptor, data: ImageData::Raw(data), tiling: None },
        );
        (ImageInfo { key, descriptor }, update)
    }

    /// Makes an image resource for a buffer: asks the connection to the
    /// renderer for a fresh handle, and gives the record to keep and the
    /// update that hands the buffer to the renderer under that handle, not
    /// tiled.
    pub fn create_image_resource(&self, data: Vec<u8>, descriptor: ImageDescriptor) -> (out: (
        ImageInfo,
        ResourceUpdate,
    ))
        requires
            self.connection() is Some,
        ensures
            out.0.descriptor == descriptor,
            out.1@ == Command::add(out.0.key, descriptor, data@),
    {
        let key = generate_image_key(self.render_api());
        ImageLoader::image_resource(key, data, descriptor)
    }

    /// Caches a converted image under a source and a handle, in place of
    /// any cached there, and gives the update that adds it to the renderer.
    pub fn put_image(
        &mut self,
        source: &ImageSource,
        key: ImageKey,
        data: Vec<u8>,
        descriptor: ImageDescriptor,
    ) -> (update: ResourceUpdate)
        ensures
            final(self)@ == old(self)@.with_image(source@, ImageInfo { key, descriptor }),
            final(self).connection() == old(self).connection(),
            update@ == Command::add(key, descriptor, data@),
    {
        let (info, update) = ImageLoader::image_resource(key, data, descriptor);
        self.insert(source, info);
        update
    }

    /// Converts what a decoder made of the image of a source. A failed
    /// decoding or a refused layout is the failure to load the source.
    pub fn prepare_decoded(source: &ImageSource, decoded: Result<DecodedImage, String>) -> (res:
        Result<(Vec<u8>, ImageDescriptor), LookupError>)
        ensures
            match prepared(source@, decoded_view(decoded)) {
                Ok((bytes, descriptor)) => res matches Ok(out) && out.0@ == bytes && out.1
                    == descriptor,
                Err(failure) => res matches Err(error) && error@ == failure,
            },
    {
        match decoded {
            Err(message) => Err(
                LookupError { source: source.clone(), cause: Cause::Decode(message) },
            ),
            Ok(image) => match prepare_image(image) {
                Err(_) => Err(
                    LookupError { source: source.clone(), cause: Cause::UnsupportedFormat },
                ),
                Ok(out) => Ok(out),
            },
        }
    }

    /// Registers what a decoder made of an image under a source and a
    /// handle.
    ///
    /// A decoded image is converted, cached under the source in place of
    /// any cached there, and the update that adds it under `key` is
    /// returned. A failed decoding or a refused layout is returned as the
    /// failure to load the source, and the registry stays as it was.
    pub fn register_image(
        &mut self,
        source: &ImageSource,
        decoded: Result<DecodedImage, String>,
        key: ImageKey,
    ) -> (res: Result<ResourceUpdate, LookupError>)
        ensures
            registers(old(self)@, source@, decoded_view(decoded), key, final(self)@, res),
            final(self).connection() == old(self).connection(),
    {
        match ImageLoader::prepare_decoded(source, decoded) {
            Err(error) => Err(error),
            Ok((data, descriptor)) => Ok(self.put_image(source, key, data, descriptor)),
        }
    }

    /// Decodes the bytes of an image and registers it under a source, with
    /// a handle that the connection to the renderer issues once the pixels
    /// are converted.
    fn load(&mut self, source: &ImageSource, bytes: &[u8]) -> (res: Result<
        ResourceUpdate,
        LookupError,
    >)
        requires
            old(self).connection() is Some,
        ensures
            final(self).connection() == old(self).connection(),
            exists|decoded: Result<Raster, Seq<char>>, key: ImageKey|
                {
                    &&& decoded matches Ok(image) ==> image.is_whole()
                    &&& #[trigger] registers(
                        old(self)@,
                        source@,
                        decoded,
                        key,
                        final(self)@,
                        res,
                    )
                },
    {
        let decoded = decode_image(bytes);
        let ghost answer = decoded_view(decoded);
        match ImageLoader::prepare_decoded(source, decoded) {
            Err(error) => {
                let res = Err(error);
                let ghost unused: ImageKey = arbitrary();
                assert(registers(old(self)@, source@, answer, unused, self@, res));
                res
            },
            Ok((data, descriptor)) => {
                let (info, update) = self.create_image_resource(data, descriptor);
                self.insert(source, info);
                let res = Ok(update);
                assert(registers(old(self)@, source@, answer, info.key, self@, res));
                res
            },
        }
    }

    /// Loads the image of a source from the contents of its file, unless
    /// it is cached.
    ///
    /// `contents` is what reading the file that `get_image` named came to.
    /// Where the source is cached nothing happens and there is nothing to
    /// submit. A bundled image has no file: it is missing. Where the file
    /// could not be read, that is the failure. Else the contents are
    /// decoded and converted, the connection to the renderer is asked for a
    /// handle, the image is cached under it, and the update to submit is
    /// returned. After any failure the registry is as it was.
    pub fn load_file(&mut self, source: &ImageSource, contents: Result<Vec<u8>, String>) -> (res:
        Result<Option<ResourceUpdate>, LookupError>)
        requires
            old(self).connection() is Some,
        ensures
            final(self).connection() == old(self).connection(),
            res is Err ==> final(self)@ == old(self)@,
            exists|decoded: Result<Raster, Seq<char>>, key: ImageKey|
                {
                    &&& decoded matches Ok(image) ==> image.is_whole()
                    &&& #[trigger] loads(
                        old(self)@,
                        source@,
                        as_read(contents, decoded),
                        key,
                        final(self)@,
                        res,
                    )
                },
    {
        let ghost nothing: Result<Raster, Seq<char>> = Err(Seq::empty());
        let ghost unused: ImageKey = arbitrary();
        let path = match self.get_image(source) {
            Ok(Lookup::Cached(_)) => {
                let res = Ok(None);
                assert(loads(old(self)@, source@, as_read(contents, nothing), unused, self@, res));
                return res;
            },
            Ok(Lookup::Open(path)) => path,
            Err(error) => {
                let res = Err(error);
                assert(loads(old(self)@, source@, as_read(contents, nothing), unused, self@, res));
                return res;
            },
        };
        match contents {
            Err(message) => {
                let res = Err(
                    LookupError { source: source.clone(), cause: Cause::Io { path, message } },
                );
                assert(loads(old(self)@, source@, as_read(contents, nothing), unused, self@, res));
                res
            },
            Ok(bytes) => {
                let attempt = self.load(source, bytes.as_slice());
                let ghost (decoded, key) = choose|decoded: Result<Raster, Seq<char>>, key: ImageKey|
                    {
                        &&& decoded matches Ok(image) ==> image.is_whole()
                        &&& #[trigger] registers(old(self)@, source@, decoded, key, self@, attempt)
                    };
                let res = match attempt {
                    Ok(update) => Ok(Some(update)),
                    Err(error) => Err(error),
                };
                assert(loads(old(self)@, source@, as_read(contents, decoded), key, self@, res));
                res
            },
        }
    }

    /// Decodes the bytes of an image and registers it as the bundled image
    /// of a name, in place of any registered under that name.
    ///
    /// Once the pixels are converted, the connection to the renderer is
    /// asked for a handle, the image is cached under it, and the update to
    /// submit is returned. After a failure the registry is as it was.
    pub fn load_image(&mut self, name: &str, data: Vec<u8>) -> (res: Result<
        ResourceUpdate,
        LookupError,
    >)
        requires
            old(self).connection() is Some,
        ensures
            final(self).connection() == old(self).connection(),
            res is Err ==> final(self)@ == old(self)@,
            exists|decoded: Result<Raster, Seq<char>>, key: ImageKey|
                {
                    &&& decoded matches Ok(image) ==> image.is_whole()
                    &&& #[trigger] registers(
                        old(self)@,
                        SourceKey::Bundled(name@),
                        decoded,
                        key,
                        final(self)@,
                        res,
                    )
                },
    {
        let source = ImageSource::bundled(name);
        self.load(&source, data.as_slice())
    }

    /// Records the descriptor of a streamed texture, in place of any
    /// recorded for it, and gives the update that points the image of
    /// `key` at the producer's pixels, the whole image being new.
    pub fn update_texture(
        &mut self,
        key: ImageKey,
        descriptor: ImageDescriptor,
        data: ExternalImageData,
    ) -> (update: ResourceUpdate)
        ensures
            final(self)@ == old(self)@.with_texture(data.id, descriptor),
            final(self).connection() == old(self).connection(),
            update@ == Command::stream(key, descriptor, data),
    {
        broadcast use group_hash_axioms;

        let update = ResourceUpdate::UpdateImage(
            UpdateImage { key, descriptor, data: ImageData::External(data), dirty_rect: None },
        );
        self.texture_descriptors.insert(data.id, descriptor);
        update
    }
}

} // verus!
