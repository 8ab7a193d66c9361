use img_maniac::format::is_supported_format;

#[test]
fn supported_lowercase_extensions() {
    let exts = [
        "jpg", "jpeg", "png", "pnm", "bmp", "dds", "exr", "tga", "tiff", "ico", "qoi", "hdr",
        "webp", "ff",
    ];
    for ext in exts {
        let path = format!("photo.{}", ext);
        assert!(is_supported_format(&path, true), "{} must be supported", path);
    }
}

#[test]
fn supported_is_case_insensitive() {
    assert!(is_supported_format("a.JPG", true));
    assert!(is_supported_format("a.Jpeg", true));
    assert!(is_supported_format("a.PnG", true));
    assert!(is_supported_format("shot.WEBP", true));
    assert!(is_supported_format("shot.TiFf", true));
}

#[test]
fn unsupported_extensions_rejected() {
    assert!(!is_supported_format("notes.txt", true));
    assert!(!is_supported_format("archive.tar.gz", true));
    assert!(!is_supported_format("movie.mp4", true));
    assert!(!is_supported_format("photo.jpg.bak", true));
    assert!(!is_supported_format("image.jp", true));
    assert!(!is_supported_format("image.jpgg", true));
}

#[test]
fn paths_without_extension_rejected() {
    assert!(!is_supported_format("README", true));
    assert!(!is_supported_format("", true));
    assert!(!is_supported_format("dir/file", true));
    assert!(!is_supported_format("trailing.", true));
}

#[test]
fn hidden_files_have_no_extension() {
    assert!(!is_supported_format(".png", true));
    assert!(!is_supported_format("dir/.png", true));
    assert!(is_supported_format(".hidden.png", true));
}

#[test]
fn directories_are_never_supported() {
    assert!(!is_supported_format("photos.png", false));
    assert!(!is_supported_format("dir", false));
}

#[test]
fn extension_comes_from_file_name_only() {
    assert!(is_supported_format("some.dir/photo.png", true));
    assert!(!is_supported_format("some.png/photo", true));
}
