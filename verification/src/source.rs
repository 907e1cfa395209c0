//! The key an image is known by: where it comes from.

use vstd::prelude::*;
use vstd::string::StrSliceExecFns;
use vstd::string::StringExecFns;

verus! {

/// Where an image comes from. Paths are text with `/` between their parts.
#[derive(Debug, PartialEq, Eq, Hash)]
pub enum ImageSource {
    /// A file at a fully resolved path.
    AbsolutePath(String),
    /// A file at a path below the assets root.
    AssetPath(String),
    /// An image handed over as bytes under a name; it is never looked for
    /// on disk.
    Bundled(String),
}

/// An `ImageSource` with its text as sequences of characters.
pub enum SourceKey {
    /// A file at a fully resolved path.
    AbsolutePath(Seq<char>),
    /// A file at a path below the assets root.
    AssetPath(Seq<char>),
    /// An image handed over as bytes under a name.
    Bundled(Seq<char>),
}

impl View for ImageSource {
    type V = SourceKey;

    open spec fn view(&self) -> SourceKey {
        match self {
            ImageSource::AbsolutePath(path) => SourceKey::AbsolutePath(path@),
            ImageSource::AssetPath(path) => SourceKey::AssetPath(path@),
            ImageSource::Bundled(name) => SourceKey::Bundled(name@),
        }
    }
}

/// `String::from` on a string slice gives a string of the same characters.
/// With it, a source made from a string slice is known by its text.
pub assume_specification<'a, 'b>[ <String as From<&'a str>>::from ](text: &'b str) -> (owned: String)
    ensures
        owned@ == text@,
;

impl Clone for ImageSource {
    fn clone(&self) -> (copy: ImageSource)
        ensures
            copy@ == self@,
    {
        match self {
            ImageSource::AbsolutePath(path) => ImageSource::AbsolutePath(path.clone()),
            ImageSource::AssetPath(path) => ImageSource::AssetPath(path.clone()),
            ImageSource::Bundled(name) => ImageSource::Bundled(name.clone()),
        }
    }
}

impl ImageSource {
    /// The source for a file at a fully resolved path.
    pub fn absolute<P: Into<String>>(path: P) -> (source: ImageSource)
        ensures
            source matches ImageSource::AbsolutePath(text) && call_ensures(P::into, (path,), text),
    {
        ImageSource::AbsolutePath(path.into())
    }

    /// The source for a file at a path below the assets root.
    pub fn asset<P: Into<String>>(path: P) -> (source: ImageSource)
        ensures
            source matches ImageSource::AssetPath(text) && call_ensures(P::into, (path,), text),
    {
        ImageSource::AssetPath(path.into())
    }

    /// The source for an image handed over as bytes under a name.
    pub fn bundled<P: Into<String>>(name: P) -> (source: ImageSource)
        ensures
            source matches ImageSource::Bundled(text) && call_ensures(P::into, (name,), text),
    {
        ImageSource::Bundled(name.into())
    }
}

/// A path below a root: the path itself where it starts at `/`, else the
/// root and the path with exactly one `/` between them, which an empty root
/// or a root that ends in `/` already brings.
pub open spec fn joined(root: Seq<char>, path: Seq<char>) -> Seq<char> {
    if path.len() > 0 && path[0] == '/' {
        path
    } else if root.len() == 0 || root.last() == '/' {
        root + path
    } else {
        root + seq!['/'] + path
    }
}

/// Resolves a path against a root.
pub fn join(root: &str, path: &str) -> (resolved: String)
    ensures
        resolved@ == joined(root@, path@),
{
    let path_len = path.unicode_len();
    if path_len > 0 && path.get_char(0) == '/' {
        return String::from_str(path);
    }
    let root_len = root.unicode_len();
    let mut resolved = String::from_str(root);
    if root_len > 0 && root.get_char(root_len - 1) != '/' {
        proof {
            reveal_strlit("/");
        }
        resolved.append("/");
    }
    resolved.append(path);
    resolved
}

} // verus!
