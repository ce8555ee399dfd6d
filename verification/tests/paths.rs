use std::path::Path;

use cat_show_downloader::paths::{join_path, path_extension, path_file_name, path_file_stem};

const PATHS: [&str; 30] = [
    "",
    ".",
    "..",
    "/",
    "//",
    "/.",
    "/..",
    "./",
    "./.",
    "a",
    "a/",
    "a//",
    "a/.",
    "a/./",
    "a/..",
    "a/../",
    "../.",
    "a.b",
    "a.b.c",
    ".a",
    ".a.b",
    "a.",
    "...",
    "..a",
    "dir.d/file",
    "dir/file.mp4",
    "/tmp/7-episode-title.mp4",
    "https://example.invalid/master.jpg",
    "https://example.invalid",
    "a/b././/",
];

#[test]
fn parts_of_a_path() {
    for p in PATHS {
        let path = Path::new(p);
        assert_eq!(path_file_name(p).as_deref(), path.file_name().and_then(|s| s.to_str()), "{}", p);
        assert_eq!(path_file_stem(p).as_deref(), path.file_stem().and_then(|s| s.to_str()), "{}", p);
        assert_eq!(path_extension(p).as_deref(), path.extension().and_then(|s| s.to_str()), "{}", p);
    }
    assert_eq!(path_file_stem("7-episode-title.mp4"), Some("7-episode-title".to_string()));
    assert_eq!(path_extension("x.mp4.tmp"), Some("tmp".to_string()));
}

#[test]
fn joined_paths() {
    for d in PATHS {
        for p in PATHS {
            assert_eq!(join_path(d, p), Path::new(d).join(p).to_str().unwrap(), "{} {}", d, p);
        }
    }
    assert_eq!(join_path("output", "a.mp4"), "output/a.mp4");
    assert_eq!(join_path("output/", "a.mp4"), "output/a.mp4");
    assert_eq!(join_path("output", "/a.mp4"), "/a.mp4");
}

#[test]
fn a_file_keeps_its_name_in_a_directory() {
    for d in PATHS {
        assert_eq!(path_file_name(&join_path(d, "1-one.mp4")), Some("1-one.mp4".to_string()));
    }
}

#[test]
fn different_names_have_different_paths() {
    for d in PATHS {
        assert_ne!(join_path(d, "1-one.mp4"), join_path(d, "1-two.mp4"));
    }
}
