use senddisimages::format::{kind_of_extension, ImageKind};

#[test]
fn jpeg_extensions() {
    assert_eq!(kind_of_extension("jpg"), Some(ImageKind::Jpeg));
    assert_eq!(kind_of_extension("jpeg"), Some(ImageKind::Jpeg));
    assert_eq!(kind_of_extension("JPG"), Some(ImageKind::Jpeg));
    assert_eq!(kind_of_extension("JpEg"), Some(ImageKind::Jpeg));
}

#[test]
fn png_extensions() {
    assert_eq!(kind_of_extension("png"), Some(ImageKind::Png));
    assert_eq!(kind_of_extension("PNG"), Some(ImageKind::Png));
    assert_eq!(kind_of_extension("pNg"), Some(ImageKind::Png));
}

#[test]
fn other_extensions_declare_nothing() {
    for extension in ["", "gif", "jp", "jpe", "jpegg", "pn", "pngg", ".png", "png ", " jpg", "webp", "tiff"] {
        assert_eq!(kind_of_extension(extension), None, "{:?}", extension);
    }
}

#[test]
fn characters_next_to_letters_are_not_letters() {
    assert_eq!(kind_of_extension("*pg"), None);
    assert_eq!(kind_of_extension("Jp\u{47}"), Some(ImageKind::Jpeg));
    assert_eq!(kind_of_extension("jp\u{27}"), None);
    assert_eq!(kind_of_extension("\u{4a}PG"), Some(ImageKind::Jpeg));
    assert_eq!(kind_of_extension("\u{2a}PG"), None);
    assert_eq!(kind_of_extension("pn\u{7}"), None);
}

#[test]
fn characters_outside_ascii_match_nothing() {
    assert_eq!(kind_of_extension("jp\u{11f}"), None);
    assert_eq!(kind_of_extension("\u{ff4a}pg"), None);
    assert_eq!(kind_of_extension("pn\u{121}"), None);
    assert_eq!(kind_of_extension("j\u{e9}g"), None);
}

#[test]
fn agrees_with_lowercasing_the_extension() {
    for extension in ["JPG", "jPeG", "PNG", "Png", "GIF", "JPGX", "\u{212a}", "P\u{4e}G"] {
        let lowered = extension.to_lowercase();
        let expected = match lowered.as_str() {
            "jpg" | "jpeg" => Some(ImageKind::Jpeg),
            "png" => Some(ImageKind::Png),
            _ => None,
        };
        assert_eq!(kind_of_extension(extension), expected, "{:?}", extension);
    }
}
