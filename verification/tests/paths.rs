use bubblebox::errors::{Error, GuestPath};
use bubblebox::paths::Guest;

fn guest(path: &str) -> Guest {
    Guest::new(path.as_bytes()).unwrap()
}

fn components(g: &Guest) -> Vec<String> {
    (0..g.len()).map(|i| String::from_utf8(g.component(i)).unwrap()).collect()
}

#[test]
fn guest_paths_are_normalized() {
    let g = guest("/a/./b//c/");
    assert_eq!(components(&g), vec!["a", "b", "c"]);
    assert_eq!(g.parent_dir(), b"/a/b".to_vec());
    assert_eq!(g.file_name(), b"c".to_vec());
    let top = guest("//etc");
    assert_eq!(top.parent_dir(), b"/".to_vec());
    assert_eq!(top.file_name(), b"etc".to_vec());
}

#[test]
fn guest_path_errors() {
    assert_eq!(Guest::new(b"a/b").unwrap_err(), Error::GuestPath(GuestPath::PathNotAbsolute));
    assert_eq!(Guest::new(b"").unwrap_err(), Error::GuestPath(GuestPath::PathNotAbsolute));
    assert_eq!(Guest::new(b"/a/../b").unwrap_err(), Error::GuestPath(GuestPath::PathContainsParent));
    assert_eq!(Guest::new(b"/..").unwrap_err(), Error::GuestPath(GuestPath::PathContainsParent));
    assert_eq!(Guest::new(b"/").unwrap_err(), Error::GuestPath(GuestPath::NoParentDirectory));
    assert_eq!(Guest::new(b"/./.").unwrap_err(), Error::GuestPath(GuestPath::NoParentDirectory));
    assert_eq!(Guest::new(b"/a\0b").unwrap_err(), Error::GuestPath(GuestPath::Invalid));
    let long = format!("/{}", "x".repeat(256));
    assert_eq!(Guest::new(long.as_bytes()).unwrap_err(), Error::GuestPath(GuestPath::Invalid));
    let fits = format!("/{}", "x".repeat(255));
    assert!(Guest::new(fits.as_bytes()).is_ok());
    let deep = format!("{}/f", "/abcdefghi".repeat(410));
    assert_eq!(Guest::new(deep.as_bytes()).unwrap_err(), Error::GuestPath(GuestPath::Invalid));
    assert!(Guest::new(b"/...").is_ok());
}

#[test]
fn starts_with_is_by_component() {
    assert!(guest("/a/b/c").starts_with(&guest("/a/b")));
    assert!(guest("/a/b").starts_with(&guest("/a/b")));
    assert!(!guest("/a/bc").starts_with(&guest("/a/b")));
    assert!(!guest("/a").starts_with(&guest("/a/b")));
}

#[test]
fn paths_are_ordered_by_component() {
    assert!(guest("/a").is_before(&guest("/a/b")));
    assert!(guest("/a/b").is_before(&guest("/a/c")));
    assert!(guest("/a/z").is_before(&guest("/ab")));
    assert!(!guest("/b").is_before(&guest("/a/z")));
    assert!(!guest("/a").is_before(&guest("/a")));
    assert!(guest("/a/b").same_path(&guest("/a//b/.")));
    assert!(!guest("/a/b").same_path(&guest("/a")));
}

#[test]
fn c_paths_join_parent_and_name() {
    assert_eq!(guest("/a/b").c_path(16).unwrap(), b"/a/b\0".to_vec());
    assert_eq!(guest("/a").c_path(16).unwrap(), b"//a\0".to_vec());
    assert!(guest("/a/b").c_path(5).is_ok());
    assert!(guest("/a/b").c_path(4).is_err());
    assert_eq!(components(&guest("/x/y").duplicate()), vec!["x", "y"]);
}
