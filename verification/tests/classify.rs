use lossless_optimiser::classify::FileKind;
use lossless_optimiser::classify::classify;
use lossless_optimiser::classify::classify_extension;
use lossless_optimiser::classify::expected_mime;
use lossless_optimiser::errors::SkipReason;

#[test]
fn extension_recognises_the_three_suffixes() {
    assert_eq!(classify_extension("photo.png"), Ok(FileKind::Png));
    assert_eq!(classify_extension("photo.jpg"), Ok(FileKind::Jpeg));
    assert_eq!(classify_extension("photo.jpeg"), Ok(FileKind::Jpeg));
}

#[test]
fn extension_match_is_case_sensitive() {
    assert_eq!(
        classify_extension("photo.PNG"),
        Err(SkipReason::UnsupportedExtension)
    );
    assert_eq!(
        classify_extension("photo.Jpg"),
        Err(SkipReason::UnsupportedExtension)
    );
}

#[test]
fn extension_rejects_other_names() {
    assert_eq!(
        classify_extension("archive.tar.gz"),
        Err(SkipReason::UnsupportedExtension)
    );
    assert_eq!(
        classify_extension("noextension"),
        Err(SkipReason::UnsupportedExtension)
    );
    assert_eq!(classify_extension(""), Err(SkipReason::UnsupportedExtension));
    assert_eq!(classify_extension("png"), Err(SkipReason::UnsupportedExtension));
}

#[test]
fn bare_suffix_counts_as_extension() {
    assert_eq!(classify_extension(".png"), Ok(FileKind::Png));
    assert_eq!(classify_extension(".jpeg"), Ok(FileKind::Jpeg));
}

#[test]
fn expected_mime_per_kind() {
    assert_eq!(expected_mime(FileKind::Png), "image/png");
    assert_eq!(expected_mime(FileKind::Jpeg), "image/jpeg");
}

#[test]
fn classify_accepts_matching_content() {
    let c = classify("img.png", true).unwrap();
    assert_eq!(c.path, "img.png");
    assert_eq!(c.kind, FileKind::Png);
}

#[test]
fn png_extension_with_foreign_content_is_a_skip_not_a_fatal_error() {
    let r = classify("img.png", false);
    assert_eq!(r.unwrap_err(), SkipReason::TypeMismatch);
}

#[test]
fn jpeg_extension_with_foreign_content_is_a_skip() {
    let r = classify("img.jpeg", false);
    assert_eq!(r.unwrap_err(), SkipReason::TypeMismatch);
}

#[test]
fn unknown_extension_skips_before_content_is_considered() {
    assert_eq!(
        classify("img.gif", true).unwrap_err(),
        SkipReason::UnsupportedExtension
    );
    assert_eq!(
        classify("img.gif", false).unwrap_err(),
        SkipReason::UnsupportedExtension
    );
}

#[test]
fn skip_reason_messages() {
    assert_eq!(SkipReason::UnsupportedExtension.message(), "unknown file extension");
    assert_eq!(
        SkipReason::TypeMismatch.message(),
        "the file's content does not match its extension"
    );
    assert_eq!(
        SkipReason::CanonicalizationFailure.message(),
        "the path cannot be canonicalised"
    );
}
