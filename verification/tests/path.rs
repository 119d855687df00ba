use qlira_web_server::path::{
    extension_of, join_path, normalize_chars, normalize_path, resolve, PathError,
};
use std::path::{Component, Path, PathBuf};

fn by_the_standard_library(path: &str) -> String {
    let path = path.replace('\\', "/");
    let mut result = PathBuf::new();
    for component in Path::new(&path).components() {
        if let Component::Normal(part) = component {
            result.push(part);
        }
    }
    result.to_str().unwrap().to_string()
}

#[test]
fn traversal_attempts_are_confined() {
    assert_eq!(normalize_path("../../etc/passwd"), Ok("etc/passwd".to_string()));
    assert_eq!(normalize_path("/etc/passwd"), Ok("etc/passwd".to_string()));
    assert_eq!(normalize_path("a/../../b"), Ok("a/b".to_string()));
    assert_eq!(normalize_path("..\\..\\windows\\system32"), Ok("windows/system32".to_string()));
    assert_eq!(normalize_path(".."), Ok(String::new()));
    assert_eq!(normalize_path("../"), Ok(String::new()));
    assert_eq!(normalize_path("/"), Ok(String::new()));
    assert_eq!(normalize_path("////"), Ok(String::new()));
    assert_eq!(normalize_path("a/./b/."), Ok("a/b".to_string()));
    assert_eq!(normalize_path("..a/b.."), Ok("..a/b..".to_string()));
    assert_eq!(normalize_path("..."), Ok("...".to_string()));
    assert_eq!(normalize_path(""), Ok(String::new()));
}

#[test]
fn resolved_components_are_never_parent_or_root() {
    let samples = [
        "../../etc/passwd",
        "/../..//x/../y",
        "a\\..\\..\\b\\",
        "./././..",
        "css/../../../../site.css",
        "%2e%2e/secret",
        "..\\../..\\/mixed",
    ];
    for requested in samples {
        let resolved = normalize_path(requested).unwrap();
        for component in resolved.split('/') {
            assert_ne!(component, "..", "{:?}", requested);
            assert_ne!(component, ".", "{:?}", requested);
            assert!(!component.contains('\\'), "{:?}", requested);
        }
        assert!(!resolved.starts_with('/'), "{:?}", requested);
        assert!(!resolved.ends_with('/'), "{:?}", requested);
        let full = resolve("static", requested).unwrap();
        assert!(full == "static/" || full.starts_with("static/"), "{:?}", requested);
        assert!(Path::new(&full).starts_with("static"), "{:?}", requested);
        for component in Path::new(&full).components() {
            assert!(matches!(component, Component::Normal(_)), "{:?}", requested);
        }
    }
}

#[test]
fn normalizing_agrees_with_the_standard_library() {
    let samples = [
        "",
        "index.html",
        "css/site.css",
        "/css//site.css",
        "css\\site.css",
        "./a",
        "a/.",
        "a/./b",
        "a/../b",
        "../a",
        "..",
        ".",
        "/",
        "//",
        "a//b///c",
        "a/b/",
        ".hidden/.git",
        "..a/.b./c..",
        "a b/c d",
        "ünï/cödé",
        "\\\\server\\share",
    ];
    for requested in samples {
        assert_eq!(
            normalize_path(requested).unwrap(),
            by_the_standard_library(requested),
            "{:?}",
            requested
        );
        let chars: Vec<char> = requested.chars().collect();
        let ours: String = normalize_chars(&chars).iter().collect();
        assert_eq!(ours, by_the_standard_library(requested), "{:?}", requested);
    }
}

#[test]
fn normalizing_twice_changes_nothing() {
    let samples = ["", "a/../b", "/x//y/", "..\\..\\z", "./.", "css/site.css", "a\\b/c"];
    for requested in samples {
        let once = normalize_path(requested).unwrap();
        assert_eq!(normalize_path(&once).unwrap(), once, "{:?}", requested);
    }
}

#[test]
fn joining_agrees_with_the_standard_library() {
    let samples = [
        ("static", "css/site.css"),
        ("static/", "css/site.css"),
        ("static", ""),
        ("", "a.txt"),
        ("", ""),
        ("/", "a"),
        ("/srv/www", "index.html"),
        ("static", "/etc/passwd"),
        ("a//", "b"),
    ];
    for (root, relative) in samples {
        let theirs = PathBuf::from(root).join(relative);
        assert_eq!(join_path(root, relative), theirs.to_str().unwrap(), "{:?} {:?}", root, relative);
    }
}

#[test]
fn resolving_joins_the_normalized_path_to_the_root() {
    assert_eq!(resolve("static", "css/site.css"), Ok("static/css/site.css".to_string()));
    assert_eq!(resolve("static", "../../etc/passwd"), Ok("static/etc/passwd".to_string()));
    assert_eq!(resolve("static/", "/abs"), Ok("static/abs".to_string()));
    assert_eq!(resolve("static", ""), Ok("static/".to_string()));
    assert_eq!(resolve("", "../x"), Ok("x".to_string()));
    assert_eq!(resolve("/var/www", "..\\..\\x"), Ok("/var/www/x".to_string()));
}

#[test]
fn path_error_is_an_ordinary_value() {
    assert_eq!(PathError::NotText, PathError::NotText);
    assert_eq!(format!("{:?}", PathError::NotText), "NotText");
}

#[test]
fn extension_agrees_with_the_standard_library_on_normalized_paths() {
    let samples = [
        "",
        "a",
        "a.txt",
        "a.tar.gz",
        ".bashrc",
        ".a.b",
        "a.",
        "dir.d/file",
        "dir.d/file.html",
        "dir/.hidden",
        "a/b/c.JPG",
        "...",
        "a..b",
        "x/y.z/w",
    ];
    for path in samples {
        let theirs = Path::new(path).extension().and_then(|e| e.to_str()).unwrap_or("");
        assert_eq!(extension_of(path), theirs, "{:?}", path);
    }
}
