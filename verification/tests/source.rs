use image_resources::images::ImageSource;
use image_resources::source::join;
use std::path::PathBuf;

fn pushed(root: &str, path: &str) -> String {
    let mut whole = PathBuf::from(root);
    whole.push(path);
    whole.into_os_string().into_string().expect("text")
}

#[test]
fn constructors_make_the_three_kinds() {
    assert_eq!(
        ImageSource::absolute("/pictures/a.png"),
        ImageSource::AbsolutePath(String::from("/pictures/a.png"))
    );
    assert_eq!(ImageSource::asset("a.png"), ImageSource::AssetPath(String::from("a.png")));
    assert_eq!(ImageSource::bundled("logo"), ImageSource::Bundled(String::from("logo")));
}

#[test]
fn constructors_take_owned_text_too() {
    assert_eq!(ImageSource::absolute(String::from("/a")), ImageSource::absolute("/a"));
    assert_eq!(ImageSource::asset(String::from("a")), ImageSource::asset("a"));
    assert_eq!(ImageSource::bundled(String::from("a")), ImageSource::bundled("a"));
}

#[test]
fn sources_of_different_kinds_differ() {
    assert_ne!(ImageSource::absolute("a"), ImageSource::asset("a"));
    assert_ne!(ImageSource::asset("a"), ImageSource::bundled("a"));
    assert_ne!(ImageSource::bundled("a"), ImageSource::bundled("b"));
}

#[test]
fn clone_of_a_source_equals_it() {
    let sources = vec![
        ImageSource::absolute("/pictures/a.png"),
        ImageSource::asset("a.png"),
        ImageSource::bundled("logo"),
    ];
    for source in &sources {
        assert_eq!(&source.clone(), source);
    }
}

#[test]
fn join_puts_one_separator_between_root_and_path() {
    assert_eq!(join("/assets", "foo.png"), "/assets/foo.png");
    assert_eq!(join("/assets/", "foo.png"), "/assets/foo.png");
    assert_eq!(join("assets", "icons/foo.png"), "assets/icons/foo.png");
}

#[test]
fn join_with_empty_root_is_the_path() {
    assert_eq!(join("", "foo.png"), "foo.png");
    assert_eq!(join("", ""), "");
}

#[test]
fn join_with_empty_path_ends_in_a_separator() {
    assert_eq!(join("/assets", ""), "/assets/");
    assert_eq!(join("/assets/", ""), "/assets/");
}

#[test]
fn join_keeps_a_path_that_starts_at_the_root() {
    assert_eq!(join("/assets", "/elsewhere/foo.png"), "/elsewhere/foo.png");
    assert_eq!(join("", "/foo.png"), "/foo.png");
}

#[test]
fn join_counts_characters_not_bytes() {
    assert_eq!(join("/bilder/\u{e4}", "\u{fc}.png"), "/bilder/\u{e4}/\u{fc}.png");
    assert_eq!(join("\u{e4}/", "\u{fc}"), "\u{e4}/\u{fc}");
}

#[test]
fn join_agrees_with_pushing_onto_a_path() {
    let roots = ["", "/", "/assets", "/assets/", "assets", "a/b", "\u{e4}"];
    let paths = ["", "foo.png", "icons/foo.png", "/abs.png", "/", "\u{fc}.png"];
    for root in roots {
        for path in paths {
            assert_eq!(join(root, path), pushed(root, path));
        }
    }
}
