use glide::path::{file_name, with_extension};
use std::path::{Path, PathBuf};

const PATHS: [&str; 34] = [
    "", "/", "//", ".", "./", "..", "../", "/..", "/.", "a", "a/", "a//", "a/.", "a/./", "a/./.",
    "a/..", "a/../", "/a", "/a.mkv", "/dir/film.mkv", "/dir/film.mkv/", "/dir/film.tar.gz",
    "/dir/.hidden", "/dir/.hidden.mkv", "/dir.d/film", "film.", "film..", "..film", "/x/...",
    "./film.mkv", "a/./b.c", "/m\u{e9}dia/\u{e9}t\u{e9}.avi", "/dir/ .mkv", "a./",
];

#[test]
fn file_names_agree_with_the_standard_library() {
    for path in PATHS {
        let expected = Path::new(path).file_name().and_then(|name| name.to_str());
        let found = file_name(path.as_bytes()).map(|name| String::from_utf8(name).unwrap());
        assert_eq!(found.as_deref(), expected, "{:?}", path);
    }
}

#[test]
fn extensions_agree_with_the_standard_library() {
    for path in PATHS {
        for extension in ["srt", ""] {
            let mut expected = PathBuf::from(path);
            expected.set_extension(extension);
            let found = with_extension(path.as_bytes(), extension.as_bytes());
            let found = String::from_utf8(found).unwrap();
            assert_eq!(Some(found.as_str()), expected.to_str(), "{:?}", path);
        }
    }
}

#[test]
fn the_subtitle_file_stands_beside_the_media() {
    assert_eq!(with_extension(b"/dir/film.mkv", b"srt"), b"/dir/film.srt".to_vec());
    assert_eq!(with_extension(b"/dir/film", b"srt"), b"/dir/film.srt".to_vec());
    assert_eq!(with_extension(b"/dir/..", b"srt"), b"/dir/..".to_vec());
    assert_eq!(file_name(b"/dir/film.srt"), Some(b"film.srt".to_vec()));
    assert_eq!(file_name(b"/"), None);
}

#[test]
fn paths_need_not_be_text() {
    assert_eq!(file_name(b"/dir/\xff\xfe.mkv"), Some(b"\xff\xfe.mkv".to_vec()));
    assert_eq!(with_extension(b"/dir/\xff\xfe.mkv", b"srt"), b"/dir/\xff\xfe.srt".to_vec());
}
