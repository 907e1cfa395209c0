use image_resources::convert::{ColorLayout, DecodedImage};
use image_resources::images::{Cause, ImageInfo, ImageLoader, ImageSource, Lookup, LookupError};
use image_resources::render::{
    AddImage, ExternalImageData, ExternalImageType, ImageBufferKind, ImageData, ImageDescriptor,
    ImageFormat, ImageKey, ResourceUpdate, UpdateImage,
};
use image_resources::Resources;
use std::any::Any;
use std::io::Cursor;
use webrender::api::crossbeam_channel::unbounded;
use webrender::api::IdNamespace;
use webrender::render_api::{RenderApi, RenderApiSender};
use wr_glyph_rasterizer::SharedFontResources;

/// A connection to a renderer that is not there: what is sent over it ends
/// in the second value, which has to outlive the making of the connection.
/// Its handles are in namespace 7 and are numbered from 0.
fn connection() -> (RenderApi, Box<dyn Any>) {
    let (api_sender, api_receiver) = unbounded();
    let (scene_sender, scene_receiver) = unbounded();
    let (low_sender, low_receiver) = unbounded();
    let sender = RenderApiSender::new(
        api_sender,
        scene_sender,
        low_sender,
        None,
        SharedFontResources::new(IdNamespace(7)),
    );
    let api = sender.create_api_by_client(IdNamespace(7));
    (api, Box::new((api_receiver, scene_receiver, low_receiver)))
}

/// A registry with a connection to a renderer that is not there.
fn connected() -> (ImageLoader, Box<dyn Any>) {
    let (api, renderer) = connection();
    let mut loader = ImageLoader::new();
    loader.connect(api);
    (loader, renderer)
}

fn png(width: u32, height: u32, color: image::ExtendedColorType, pixels: &[u8]) -> Vec<u8> {
    let mut file = Cursor::new(Vec::new());
    image::write_buffer_with_format(
        &mut file,
        pixels,
        width,
        height,
        color,
        image::ImageFormat::Png,
    )
    .expect("encoded");
    file.into_inner()
}

fn key(id: u32) -> ImageKey {
    ImageKey { namespace: 7, id }
}

fn is_cached(loader: &ImageLoader, source: &ImageSource) -> bool {
    matches!(loader.get_image(source), Ok(Lookup::Cached(_)))
}

fn cached_key(loader: &ImageLoader, source: &ImageSource) -> ImageKey {
    match loader.get_image(source) {
        Ok(Lookup::Cached(info)) => info.key,
        other => panic!("not cached: {:?}", other),
    }
}

fn external(id: u64) -> ExternalImageData {
    ExternalImageData {
        id,
        channel_index: 0,
        image_type: ExternalImageType::TextureHandle(ImageBufferKind::Texture2D),
        normalized_uvs: false,
    }
}

#[test]
fn new_registry_holds_nothing() {
    let loader = ImageLoader::new();
    assert!(!loader.is_connected());
    assert!(loader.render.is_none());
    assert_eq!(loader.assets_path(), "");
    assert!(loader.cached(&ImageSource::absolute("/a.png")).is_none());
    assert!(loader.cached(&ImageSource::asset("a.png")).is_none());
    assert!(loader.cached(&ImageSource::bundled("a")).is_none());
    assert!(loader.texture_descriptor(0).is_none());
}

#[test]
fn default_registry_holds_nothing() {
    let loader = ImageLoader::default();
    assert_eq!(loader.assets_path(), "");
    assert!(loader.cached(&ImageSource::bundled("a")).is_none());
    let resources = Resources::default();
    assert!(resources.image_loader.cached(&ImageSource::bundled("a")).is_none());
    let resources = Resources::new();
    assert!(resources.image_loader.texture_descriptor(1).is_none());
}

#[test]
fn connecting_keeps_what_is_cached() {
    let (api, _renderer) = connection();
    let mut loader = ImageLoader::new();
    let descriptor = ImageDescriptor::new(1, 1, ImageFormat::R8, true, false);
    loader.set_assets_path(String::from("/assets"));
    loader.put_image(&ImageSource::bundled("a"), key(3), vec![0], descriptor);
    loader.update_texture(key(4), descriptor, external(5));
    loader.connect(api);
    assert!(loader.is_connected());
    assert!(loader.render.is_some());
    assert_eq!(loader.assets_path(), "/assets");
    assert_eq!(cached_key(&loader, &ImageSource::bundled("a")), key(3));
    assert_eq!(loader.texture_descriptor(5), Some(&descriptor));
}

#[test]
fn lookups_need_no_connection() {
    let mut loader = ImageLoader::new();
    let descriptor = ImageDescriptor::new(1, 1, ImageFormat::R8, true, false);
    loader.put_image(&ImageSource::absolute("/a.png"), key(3), vec![0], descriptor);
    assert_eq!(cached_key(&loader, &ImageSource::absolute("/a.png")), key(3));
    assert!(matches!(loader.get_image(&ImageSource::absolute("/b.png")), Ok(Lookup::Open(_))));
    assert!(loader.get_image(&ImageSource::bundled("b")).is_err());
}

#[test]
fn absolute_path_that_is_not_cached_is_to_be_opened() {
    let mut loader = ImageLoader::new();
    loader.set_assets_path(String::from("/assets"));
    match loader.get_image(&ImageSource::absolute("/pictures/a.png")) {
        Ok(Lookup::Open(path)) => assert_eq!(path, "/pictures/a.png"),
        other => panic!("unexpected: {:?}", other),
    }
}

#[test]
fn asset_path_is_resolved_against_the_assets_root() {
    let mut loader = ImageLoader::new();
    loader.set_assets_path(String::from("/assets"));
    assert_eq!(loader.assets_path(), "/assets");
    match loader.get_image(&ImageSource::asset("foo.png")) {
        Ok(Lookup::Open(path)) => assert_eq!(path, "/assets/foo.png"),
        other => panic!("unexpected: {:?}", other),
    }
}

#[test]
fn asset_path_follows_a_changed_assets_root() {
    let mut loader = ImageLoader::new();
    match loader.get_image(&ImageSource::asset("foo.png")) {
        Ok(Lookup::Open(path)) => assert_eq!(path, "foo.png"),
        other => panic!("unexpected: {:?}", other),
    }
    loader.set_assets_path(String::from("data/"));
    match loader.get_image(&ImageSource::asset("foo.png")) {
        Ok(Lookup::Open(path)) => assert_eq!(path, "data/foo.png"),
        other => panic!("unexpected: {:?}", other),
    }
}

#[test]
fn missing_asset_file_is_an_io_failure_with_the_resolved_path() {
    let (mut loader, _renderer) = connected();
    loader.set_assets_path(String::from("/assets"));
    let source = ImageSource::asset("foo.png");
    let res = loader.load_file(&source, Err(String::from("No such file or directory")));
    assert_eq!(
        res,
        Err(LookupError {
            source: ImageSource::asset("foo.png"),
            cause: Cause::Io {
                path: String::from("/assets/foo.png"),
                message: String::from("No such file or directory"),
            },
        })
    );
    assert!(!is_cached(&loader, &source));
}

#[test]
fn missing_absolute_file_is_an_io_failure_with_the_path() {
    let (mut loader, _renderer) = connected();
    loader.set_assets_path(String::from("/assets"));
    let source = ImageSource::absolute("/pictures/a.png");
    let res = loader.load_file(&source, Err(String::from("denied")));
    assert_eq!(
        res,
        Err(LookupError {
            source: ImageSource::absolute("/pictures/a.png"),
            cause: Cause::Io {
                path: String::from("/pictures/a.png"),
                message: String::from("denied"),
            },
        })
    );
    assert!(!is_cached(&loader, &source));
}

#[test]
fn bundled_image_that_was_never_loaded_is_missing() {
    let loader = ImageLoader::new();
    let res = loader.get_image(&ImageSource::bundled("x"));
    match res {
        Err(error) => assert_eq!(
            error,
            LookupError {
                source: ImageSource::bundled("x"),
                cause: Cause::BundledImageMissing(String::from("x")),
            }
        ),
        other => panic!("unexpected: {:?}", other),
    }
    assert!(loader.cached(&ImageSource::bundled("x")).is_none());
}

#[test]
fn bundled_image_is_never_loaded_from_a_file() {
    let (mut loader, _renderer) = connected();
    let file = png(1, 1, image::ExtendedColorType::L8, &[5]);
    let source = ImageSource::bundled("x");
    let res = loader.load_file(&source, Ok(file));
    assert_eq!(
        res,
        Err(LookupError {
            source: ImageSource::bundled("x"),
            cause: Cause::BundledImageMissing(String::from("x")),
        })
    );
    assert!(!is_cached(&loader, &source));
}

#[test]
fn bundled_name_is_apart_from_paths_of_the_same_text() {
    let (mut loader, _renderer) = connected();
    let file = png(1, 1, image::ExtendedColorType::L8, &[5]);
    loader.load_image("x", file).unwrap();
    assert!(is_cached(&loader, &ImageSource::bundled("x")));
    assert!(!is_cached(&loader, &ImageSource::absolute("x")));
    assert!(!is_cached(&loader, &ImageSource::asset("x")));
}

#[test]
fn file_is_loaded_once_and_then_served_from_the_cache() {
    let (mut loader, _renderer) = connected();
    let source = ImageSource::absolute("/pictures/a.png");
    let file = png(1, 1, image::ExtendedColorType::Rgba8, &[200, 100, 50, 128]);

    let first = loader.load_file(&source, Ok(file.clone())).unwrap();
    let descriptor = ImageDescriptor::new(1, 1, ImageFormat::BGRA8, false, false);
    assert_eq!(
        first,
        Some(ResourceUpdate::AddImage(AddImage {
            key: key(0),
            descriptor,
            data: ImageData::Raw(vec![25, 50, 100, 128]),
            tiling: None,
        }))
    );
    assert_eq!(loader.cached(&source), Some(&ImageInfo { key: key(0), descriptor }));
    assert_eq!(cached_key(&loader, &source), key(0));
    assert_eq!(cached_key(&loader, &source), key(0));

    let second = loader.load_file(&source, Ok(file)).unwrap();
    assert_eq!(second, None);
    assert_eq!(cached_key(&loader, &source), key(0));
}

#[test]
fn cached_source_is_not_loaded_again_even_from_a_failed_read() {
    let (mut loader, _renderer) = connected();
    let source = ImageSource::asset("a.png");
    let file = png(1, 1, image::ExtendedColorType::L8, &[9]);
    assert!(loader.load_file(&source, Ok(file)).unwrap().is_some());
    assert_eq!(loader.load_file(&source, Err(String::from("gone"))), Ok(None));
    assert_eq!(cached_key(&loader, &source), key(0));
}

#[test]
fn every_new_image_has_a_handle_of_its_own() {
    let (mut loader, _renderer) = connected();
    let file = png(1, 1, image::ExtendedColorType::L8, &[9]);
    let first = ImageSource::absolute("/a.png");
    let second = ImageSource::asset("a.png");
    loader.load_file(&first, Ok(file.clone())).unwrap();
    loader.load_file(&second, Ok(file.clone())).unwrap();
    loader.load_image("a", file).unwrap();
    assert_eq!(cached_key(&loader, &first), key(0));
    assert_eq!(cached_key(&loader, &second), key(1));
    assert_eq!(cached_key(&loader, &ImageSource::bundled("a")), key(2));
}

#[test]
fn handle_is_asked_for_only_when_an_image_is_added() {
    let (mut loader, _renderer) = connected();
    let source = ImageSource::absolute("/pictures/a.png");
    let grey = png(1, 1, image::ExtendedColorType::L8, &[9]);
    let colour = png(1, 1, image::ExtendedColorType::Rgb8, &[1, 2, 3]);
    assert!(loader.load_file(&source, Err(String::from("busy"))).is_err());
    assert!(loader.load_file(&source, Ok(b"no image".to_vec())).is_err());
    assert!(loader.load_file(&source, Ok(colour.clone())).is_err());
    assert!(loader.load_file(&ImageSource::bundled("a"), Ok(grey.clone())).is_err());
    assert!(loader.load_image("a", colour).is_err());
    assert!(loader.load_image("a", Vec::new()).is_err());
    assert!(loader.load_file(&source, Ok(grey.clone())).unwrap().is_some());
    assert_eq!(cached_key(&loader, &source), key(0));
    assert_eq!(loader.load_file(&source, Ok(grey.clone())), Ok(None));
    loader.load_image("a", grey).unwrap();
    assert_eq!(cached_key(&loader, &ImageSource::bundled("a")), key(1));
}

#[test]
fn grey_file_is_uploaded_as_it_is() {
    let (mut loader, _renderer) = connected();
    let source = ImageSource::asset("grey.png");
    let file = png(2, 2, image::ExtendedColorType::L8, &[0, 1, 2, 255]);
    let update = loader.load_file(&source, Ok(file)).unwrap();
    let descriptor = ImageDescriptor::new(2, 2, ImageFormat::R8, true, false);
    assert_eq!(
        update,
        Some(ResourceUpdate::AddImage(AddImage {
            key: key(0),
            descriptor,
            data: ImageData::Raw(vec![0, 1, 2, 255]),
            tiling: None,
        }))
    );
    assert_eq!(loader.cached(&source), Some(&ImageInfo { key: key(0), descriptor }));
}

#[test]
fn file_in_unsupported_layout_is_refused_and_not_cached() {
    let (mut loader, _renderer) = connected();
    let source = ImageSource::absolute("/pictures/rgb.png");
    let file = png(1, 1, image::ExtendedColorType::Rgb8, &[1, 2, 3]);
    let res = loader.load_file(&source, Ok(file));
    assert_eq!(
        res,
        Err(LookupError {
            source: ImageSource::absolute("/pictures/rgb.png"),
            cause: Cause::UnsupportedFormat,
        })
    );
    assert!(!is_cached(&loader, &source));
    assert!(loader.cached(&source).is_none());
}

#[test]
fn file_that_is_no_image_is_a_decode_failure_and_not_cached() {
    let (mut loader, _renderer) = connected();
    let source = ImageSource::absolute("/pictures/text.png");
    let res = loader.load_file(&source, Ok(b"plain text".to_vec()));
    match res {
        Err(LookupError { source: failed, cause: Cause::Decode(message) }) => {
            assert_eq!(failed, source);
            assert!(!message.is_empty());
        },
        other => panic!("unexpected: {:?}", other),
    }
    assert!(!is_cached(&loader, &source));
}

#[test]
fn failed_load_can_be_tried_again() {
    let (mut loader, _renderer) = connected();
    let source = ImageSource::absolute("/pictures/a.png");
    assert!(loader.load_file(&source, Err(String::from("busy"))).is_err());
    let file = png(1, 1, image::ExtendedColorType::L8, &[9]);
    assert!(loader.load_file(&source, Ok(file)).unwrap().is_some());
    assert!(is_cached(&loader, &source));
}

#[test]
fn load_image_registers_under_the_bundled_name() {
    let (mut loader, _renderer) = connected();
    let file = png(
        2,
        1,
        image::ExtendedColorType::Rgba8,
        &[200, 100, 50, 128, 10, 20, 30, 255],
    );
    let update = loader.load_image("logo", file).unwrap();
    let descriptor = ImageDescriptor::new(2, 1, ImageFormat::BGRA8, false, false);
    assert_eq!(
        update,
        ResourceUpdate::AddImage(AddImage {
            key: key(0),
            descriptor,
            data: ImageData::Raw(vec![25, 50, 100, 128, 30, 20, 10, 255]),
            tiling: None,
        })
    );
    let source = ImageSource::bundled("logo");
    assert_eq!(loader.cached(&source), Some(&ImageInfo { key: key(0), descriptor }));
    assert_eq!(cached_key(&loader, &source), key(0));
    assert!(!is_cached(&loader, &ImageSource::bundled("other")));
}

#[test]
fn load_image_of_opaque_pixels_is_opaque() {
    let (mut loader, _renderer) = connected();
    let file = png(1, 2, image::ExtendedColorType::Rgba8, &[1, 2, 3, 255, 4, 5, 6, 255]);
    loader.load_image("opaque", file).unwrap();
    let info = loader.cached(&ImageSource::bundled("opaque")).unwrap();
    assert!(info.descriptor.is_opaque);
    assert!(!info.descriptor.has_mipmaps);
}

#[test]
fn load_image_again_replaces_the_entry() {
    let (mut loader, _renderer) = connected();
    let first = png(1, 1, image::ExtendedColorType::L8, &[1]);
    let second = png(2, 1, image::ExtendedColorType::L8, &[1, 2]);
    loader.load_image("logo", first).unwrap();
    let update = loader.load_image("logo", second).unwrap();
    let descriptor = ImageDescriptor::new(2, 1, ImageFormat::R8, true, false);
    assert_eq!(
        update,
        ResourceUpdate::AddImage(AddImage {
            key: key(1),
            descriptor,
            data: ImageData::Raw(vec![1, 2]),
            tiling: None,
        })
    );
    assert_eq!(
        loader.cached(&ImageSource::bundled("logo")),
        Some(&ImageInfo { key: key(1), descriptor })
    );
}

#[test]
fn load_image_of_bytes_that_are_no_image_fails_and_changes_nothing() {
    let (mut loader, _renderer) = connected();
    let good = png(1, 1, image::ExtendedColorType::L8, &[1]);
    loader.load_image("logo", good).unwrap();
    let res = loader.load_image("logo", b"garbage".to_vec());
    match res {
        Err(LookupError { source, cause: Cause::Decode(_) }) => {
            assert_eq!(source, ImageSource::bundled("logo"))
        },
        other => panic!("unexpected: {:?}", other),
    }
    assert_eq!(cached_key(&loader, &ImageSource::bundled("logo")), key(0));
    let res = loader.load_image("new", Vec::new());
    assert!(res.is_err());
    assert!(!is_cached(&loader, &ImageSource::bundled("new")));
}

#[test]
fn load_image_in_unsupported_layout_fails_and_changes_nothing() {
    let (mut loader, _renderer) = connected();
    let file = png(1, 1, image::ExtendedColorType::La8, &[1, 2]);
    let res = loader.load_image("logo", file);
    assert_eq!(
        res,
        Err(LookupError {
            source: ImageSource::bundled("logo"),
            cause: Cause::UnsupportedFormat
        })
    );
    assert!(!is_cached(&loader, &ImageSource::bundled("logo")));
}

#[test]
fn decoded_image_in_unsupported_layout_is_refused_and_not_cached() {
    let mut loader = ImageLoader::new();
    let source = ImageSource::asset("palette.png");
    let image = DecodedImage::new(1, 1, ColorLayout::Unknown, vec![0]).unwrap();
    let res = loader.register_image(&source, Ok(image), key(1));
    assert_eq!(
        res,
        Err(LookupError {
            source: ImageSource::asset("palette.png"),
            cause: Cause::UnsupportedFormat
        })
    );
    assert!(loader.cached(&source).is_none());
    let image = DecodedImage::new(1, 1, ColorLayout::Rgb8, vec![1, 2, 3]).unwrap();
    assert!(loader.register_image(&source, Ok(image), key(2)).is_err());
    assert!(loader.cached(&source).is_none());
}

#[test]
fn decoded_image_is_converted_and_cached() {
    let mut loader = ImageLoader::new();
    let source = ImageSource::asset("a.png");
    let image = DecodedImage::new(1, 1, ColorLayout::Rgba8, vec![255, 0, 128, 255]).unwrap();
    let update = loader.register_image(&source, Ok(image), key(5)).unwrap();
    let descriptor = ImageDescriptor::new(1, 1, ImageFormat::BGRA8, true, false);
    assert_eq!(
        update,
        ResourceUpdate::AddImage(AddImage {
            key: key(5),
            descriptor,
            data: ImageData::Raw(vec![128, 0, 255, 255]),
            tiling: None,
        })
    );
    assert_eq!(loader.cached(&source), Some(&ImageInfo { key: key(5), descriptor }));
}

#[test]
fn failure_of_the_decoder_is_the_cause_of_the_lookup_error() {
    let mut loader = ImageLoader::new();
    let source = ImageSource::asset("a.png");
    let res = loader.register_image(&source, Err(String::from("bad header")), key(1));
    assert_eq!(
        res,
        Err(LookupError {
            source: ImageSource::asset("a.png"),
            cause: Cause::Decode(String::from("bad header")),
        })
    );
    assert!(loader.cached(&source).is_none());
}

#[test]
fn decoded_image_is_prepared_for_its_source() {
    let source = ImageSource::bundled("a");
    let image = DecodedImage::new(1, 1, ColorLayout::Rgba8, vec![200, 100, 50, 128]).unwrap();
    assert_eq!(
        ImageLoader::prepare_decoded(&source, Ok(image)),
        Ok((vec![25, 50, 100, 128], ImageDescriptor::new(1, 1, ImageFormat::BGRA8, false, false)))
    );
    let image = DecodedImage::new(1, 1, ColorLayout::Rgb16, vec![0; 6]).unwrap();
    assert_eq!(
        ImageLoader::prepare_decoded(&source, Ok(image)),
        Err(LookupError { source: ImageSource::bundled("a"), cause: Cause::UnsupportedFormat })
    );
    assert_eq!(
        ImageLoader::prepare_decoded(&source, Err(String::from("truncated"))),
        Err(LookupError {
            source: ImageSource::bundled("a"),
            cause: Cause::Decode(String::from("truncated")),
        })
    );
}

#[test]
fn create_image_resource_pairs_the_record_with_the_update() {
    let (loader, _renderer) = connected();
    let descriptor = ImageDescriptor::new(2, 1, ImageFormat::R8, true, false);
    let (info, update) = loader.create_image_resource(vec![1, 2], descriptor);
    assert_eq!(info, ImageInfo { key: key(0), descriptor });
    assert_eq!(
        update,
        ResourceUpdate::AddImage(AddImage {
            key: key(0),
            descriptor,
            data: ImageData::Raw(vec![1, 2]),
            tiling: None,
        })
    );
    let (info, update) = loader.create_image_resource(vec![3], descriptor);
    assert_eq!(info, ImageInfo { key: key(1), descriptor });
    assert_eq!(
        update,
        ResourceUpdate::AddImage(AddImage {
            key: key(1),
            descriptor,
            data: ImageData::Raw(vec![3]),
            tiling: None,
        })
    );
}

#[test]
fn handles_are_those_that_the_connection_issues() {
    let (api, _renderer) = connection();
    let (loader, _other_renderer) = connected();
    let descriptor = ImageDescriptor::new(1, 1, ImageFormat::R8, true, false);
    for _ in 0..3 {
        let issued = api.generate_image_key();
        let (info, _) = loader.create_image_resource(vec![0], descriptor);
        assert_eq!(info.key, ImageKey { namespace: issued.0 .0, id: issued.1 });
    }
}

#[test]
fn loading_keeps_the_connection() {
    let (mut loader, _renderer) = connected();
    let grey = png(1, 1, image::ExtendedColorType::L8, &[9]);
    loader.load_image("a", grey.clone()).unwrap();
    assert!(loader.is_connected());
    assert!(loader.load_image("b", Vec::new()).is_err());
    assert!(loader.is_connected());
    loader.load_file(&ImageSource::asset("a.png"), Ok(grey)).unwrap();
    assert!(loader.is_connected());
    assert!(loader.load_file(&ImageSource::asset("b.png"), Err(String::from("gone"))).is_err());
    assert!(loader.is_connected());
    loader.set_assets_path(String::from("/assets"));
    assert!(loader.is_connected());
}

#[test]
fn put_image_caches_under_each_kind_of_source() {
    let mut loader = ImageLoader::new();
    let descriptor = ImageDescriptor::new(1, 1, ImageFormat::R8, true, false);
    let sources = vec![
        ImageSource::absolute("/a.png"),
        ImageSource::asset("a.png"),
        ImageSource::bundled("a"),
    ];
    for (index, source) in sources.iter().enumerate() {
        let id = index as u32;
        let update = loader.put_image(source, key(id), vec![id as u8], descriptor);
        assert_eq!(
            update,
            ResourceUpdate::AddImage(AddImage {
                key: key(id),
                descriptor,
                data: ImageData::Raw(vec![id as u8]),
                tiling: None,
            })
        );
    }
    for (index, source) in sources.iter().enumerate() {
        assert_eq!(cached_key(&loader, source), key(index as u32));
    }
}

#[test]
fn put_image_leaves_the_texture_table_alone() {
    let mut loader = ImageLoader::new();
    let descriptor = ImageDescriptor::new(1, 1, ImageFormat::R8, true, false);
    loader.update_texture(key(1), descriptor, external(11));
    loader.put_image(&ImageSource::bundled("a"), key(2), vec![0], descriptor);
    assert_eq!(loader.texture_descriptor(11), Some(&descriptor));
}

#[test]
fn update_texture_records_the_descriptor_and_points_at_the_producer() {
    let mut loader = ImageLoader::new();
    let descriptor = ImageDescriptor {
        width: 640,
        height: 480,
        format: ImageFormat::RGBA8,
        stride: Some(2600),
        offset: 16,
        is_opaque: true,
        has_mipmaps: false,
    };
    let update = loader.update_texture(key(1), descriptor, external(42));
    assert_eq!(
        update,
        ResourceUpdate::UpdateImage(UpdateImage {
            key: key(1),
            descriptor,
            data: ImageData::External(external(42)),
            dirty_rect: None,
        })
    );
    assert_eq!(loader.texture_descriptor(42), Some(&descriptor));
    assert_eq!(loader.texture_descriptor(43), None);
}

#[test]
fn update_texture_again_replaces_the_descriptor() {
    let mut loader = ImageLoader::new();
    let small = ImageDescriptor::new(1, 1, ImageFormat::BGRA8, false, false);
    let large = ImageDescriptor::new(1920, 1080, ImageFormat::BGRA8, true, false);
    loader.update_texture(key(1), small, external(42));
    loader.update_texture(key(1), small, external(7));
    loader.update_texture(key(1), large, external(42));
    assert_eq!(loader.texture_descriptor(42), Some(&large));
    assert_eq!(loader.texture_descriptor(7), Some(&small));
}

#[test]
fn update_texture_leaves_the_image_cache_alone() {
    let mut loader = ImageLoader::new();
    let descriptor = ImageDescriptor::new(1, 1, ImageFormat::R8, true, false);
    loader.put_image(&ImageSource::bundled("a"), key(2), vec![0], descriptor);
    loader.update_texture(key(2), descriptor, external(1));
    assert_eq!(cached_key(&loader, &ImageSource::bundled("a")), key(2));
    assert!(!is_cached(&loader, &ImageSource::bundled("b")));
}
