//! An image registry for a GPU renderer.
//!
//! Images are known by where they come from. The registry resolves a source
//! to the image that the renderer holds for it, converts the pixels of a
//! decoded image once for every source, and keeps the descriptors of
//! textures that are streamed in from outside. Reading files and sending to
//! the renderer is left to the caller: the registry names the file to read,
//! takes its contents, asks the connection to the renderer for a handle,
//! and gives back the update to submit.

pub mod convert;
pub mod decode;
pub mod images;
pub mod render;
pub mod source;

use vstd::prelude::*;
use crate::images::{ImageLoader, Registry};

verus! {

/// The resources that a process shares.
pub struct Resources {
    /// The registry of images.
    pub image_loader: ImageLoader,
}

impl Resources {
    /// Resources with a registry that holds nothing.
    pub fn new() -> (resources: Resources)
        ensures
            resources.image_loader@ == Registry::empty(),
            resources.image_loader.connection() is None,
    {
        Resources { image_loader: ImageLoader::new() }
    }
}

impl Default for Resources {
    fn default() -> (resources: Resources)
        ensures
            resources.image_loader@ == Registry::empty(),
            resources.image_loader.connection() is None,
    {
        Resources::new()
    }
}

} // verus!
