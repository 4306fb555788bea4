use std::path::{Component, Path, PathBuf};

use rfs::path::{
    absolute, extension, file_name, join, mime_from_ext, normalize, parent, resolve,
};

fn std_normalize(p: &str) -> String {
    let mut rtn = PathBuf::new();
    for comp in Path::new(p).components() {
        match comp {
            Component::Prefix(prefix) => rtn.push(prefix.as_os_str()),
            Component::ParentDir => {
                rtn.pop();
            }
            Component::Normal(c) => rtn.push(c),
            Component::RootDir => rtn.push(comp.as_os_str()),
            Component::CurDir => {}
        }
    }
    rtn.to_str().unwrap().to_owned()
}

const SAMPLES: &[&str] = &[
    "",
    "/",
    "//",
    ".",
    "..",
    "a",
    "/a",
    "a/",
    "/a/b/../c/./d",
    "a/./b/..",
    "/../a",
    "a/../..",
    "../../x/y",
    "/a//b///c/",
    "./a/./b/.",
    "/a/b/c/../../..",
    "x/y/z/../../w",
    "file.tar.gz",
    "/srv/data/.hidden",
    "/srv/data/name.",
    "dir/sub/",
    "dir/sub/.",
    "/a/b/..",
];

#[test]
fn normalize_matches_std_components() {
    for s in SAMPLES {
        assert_eq!(normalize(s), std_normalize(s), "normalize({s:?})");
    }
}

#[test]
fn normalize_examples() {
    assert_eq!(normalize("/a/b/../c/./d"), "/a/c/d");
    assert_eq!(normalize("a/./b/.."), "a");
    assert_eq!(normalize("/../a"), "/a");
    assert_eq!(normalize("a/../.."), "");
}

#[test]
fn normalize_is_idempotent_on_examples() {
    for s in SAMPLES {
        let once = normalize(s);
        assert_eq!(normalize(&once), once, "normalize twice on {s:?}");
    }
}

#[test]
fn join_matches_std() {
    let bases = ["", "/", "/srv", "/srv/", "rel", "rel/dir/"];
    let parts = ["", "a", "a/b", "/abs", "./x", "../y"];
    for b in bases {
        for p in parts {
            let expected = Path::new(b).join(p);
            assert_eq!(join(b, p), expected.to_str().unwrap(), "join({b:?}, {p:?})");
        }
    }
}

#[test]
fn resolve_relative_and_absolute() {
    assert_eq!(resolve("/etc/rfs", "../data"), "/etc/data");
    assert_eq!(resolve("/etc/rfs", "./templates"), "/etc/rfs/templates");
    assert_eq!(resolve("/etc/rfs", "/var/lib/rfs"), "/var/lib/rfs");
}

#[test]
fn absolute_paths() {
    assert!(absolute("/a"));
    assert!(!absolute("a/b"));
    assert!(!absolute(""));
}

#[test]
fn parent_file_name_extension_match_std() {
    for s in SAMPLES {
        let p = Path::new(s);
        assert_eq!(
            parent(s),
            p.parent().map(|x| x.to_str().unwrap().to_owned()),
            "parent({s:?})"
        );
        assert_eq!(
            file_name(s),
            p.file_name().map(|x| x.to_str().unwrap().to_owned()),
            "file_name({s:?})"
        );
        assert_eq!(
            extension(s),
            p.extension().map(|x| x.to_str().unwrap().to_owned()),
            "extension({s:?})"
        );
    }
}

#[test]
fn mime_from_known_extensions() {
    assert_eq!(mime_from_ext(Some("jpg")), "image/jpeg");
    assert_eq!(mime_from_ext(Some("jpeg")), "image/jpeg");
    assert_eq!(mime_from_ext(Some("png")), "image/png");
    assert_eq!(mime_from_ext(Some("gif")), "image/gif");
    assert_eq!(mime_from_ext(Some("svg")), "image/svg+xml");
    assert_eq!(mime_from_ext(Some("webp")), "image/webp");
    assert_eq!(mime_from_ext(Some("ico")), "image/x-icon");
    assert_eq!(mime_from_ext(Some("css")), "text/css");
    assert_eq!(mime_from_ext(Some("html")), "text/html");
    assert_eq!(mime_from_ext(Some("txt")), "text/plain");
    assert_eq!(mime_from_ext(Some("js")), "application/javascript");
    assert_eq!(mime_from_ext(Some("json")), "application/json");
}

#[test]
fn mime_from_unknown_or_missing_extension() {
    assert_eq!(mime_from_ext(Some("PNG")), "application/octet-stream");
    assert_eq!(mime_from_ext(Some("exe")), "application/octet-stream");
    assert_eq!(mime_from_ext(None), "application/octet-stream");
    for s in ["image/jpeg", "text/plain", "application/octet-stream"] {
        assert!(s.parse::<mime::Mime>().is_ok());
    }
}
