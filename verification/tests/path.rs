use std::path::{Path, PathBuf};

use aurelius::url_path_to_file_path;

fn text(path: &str) -> String {
    url_path_to_file_path(path).into_os_string().into_string().unwrap()
}

#[test]
fn uri_path_to_file_path() {
    assert_eq!(url_path_to_file_path("/file.txt"), Path::new("file.txt"));
    assert_eq!(
        url_path_to_file_path("/a/b/c/d"),
        vec!["a", "b", "c", "d"].iter().collect::<PathBuf>(),
    );
}

#[test]
fn empty_url_paths() {
    assert_eq!(text(""), "");
    assert_eq!(text("/"), "");
    assert_eq!(text("///"), "");
}

#[test]
fn leading_slashes_go() {
    assert_eq!(text("a/b"), "a/b");
    assert_eq!(text("/a/b"), "a/b");
    assert_eq!(text("//a/b"), "a/b");
}

#[test]
fn runs_of_slashes_are_one() {
    assert_eq!(text("/a//b///c"), "a/b/c");
    assert_eq!(text("/a/b//"), "a/b/");
}

#[test]
fn dots_and_other_characters_stay() {
    assert_eq!(text("/../a/./b"), "../a/./b");
    assert_eq!(text("/gr\u{fc}n/\u{1f600}.md"), "gr\u{fc}n/\u{1f600}.md");
}

#[test]
fn pieces_are_collected_as_a_path() {
    for path in ["", "/", "a", "/a/", "//a//b//", "/a/../b", "/./a", "x//", "/ /b"] {
        let collected: PathBuf = path.trim_start_matches('/').split('/').collect();
        assert_eq!(url_path_to_file_path(path).as_os_str(), collected.as_os_str());
    }
}

#[test]
fn components_of_a_file_path() {
    for (path, components) in [
        ("", vec![]),
        ("/a/b", vec!["a", "b"]),
        ("//a//b/", vec!["a", "b"]),
        ("/a/./b/.", vec!["a", "b"]),
        ("/./a", vec![".", "a"]),
        ("/../a/..", vec!["..", "a", ".."]),
    ] {
        let file_path = url_path_to_file_path(path);
        let found: Vec<&str> =
            file_path.components().map(|component| component.as_os_str().to_str().unwrap()).collect();
        assert_eq!(found, components);
    }
}

#[test]
fn a_file_path_is_its_own_file_path() {
    for path in ["/a//b/", "///", "a/b/c"] {
        assert_eq!(text(&text(path)), text(path));
    }
}

#[test]
fn names_are_kept() {
    let path = "//a///b/c//";
    let names: Vec<&str> = path.split('/').filter(|name| !name.is_empty()).collect();
    let file_path = text(path);
    let kept: Vec<&str> = file_path.split('/').filter(|name| !name.is_empty()).collect();
    assert_eq!(kept, names);
    assert_eq!(kept, vec!["a", "b", "c"]);
}

#[test]
fn joined_paths() {
    assert_eq!(text("a//b///c/"), "a/b/c/");
    for (a, b) in [("a", "b"), ("", "b"), ("a", ""), ("a/", "/b"), ("//a", "b//"), ("", "")] {
        let joined = format!("{}/{}", a, b);
        let mut path = url_path_to_file_path(a);
        path.push(url_path_to_file_path(b));
        assert_eq!(url_path_to_file_path(&joined).as_os_str(), path.as_os_str());
    }
}
