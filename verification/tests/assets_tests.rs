use rpmpack::assets::{pad_permission, parse_octal, FileKind};
use rpmpack::errors::PackError;

#[test]
fn regular_file_mode_is_padded() {
    assert_eq!(pad_permission(0o644, FileKind::Regular), Ok(0o100644));
}

#[test]
fn directory_mode_is_padded() {
    assert_eq!(pad_permission(0o755, FileKind::Directory), Ok(0o040755));
}

#[test]
fn symlink_mode_is_padded() {
    assert_eq!(pad_permission(0o777, FileKind::Symlink), Ok(0o120000 | 0o777));
}

#[test]
fn named_pipe_is_rejected() {
    assert_eq!(
        pad_permission(0o644, FileKind::Other),
        Err(PackError::InvalidFileType)
    );
}

#[test]
fn octal_strings_parse_exactly() {
    assert_eq!(parse_octal("644"), Ok(0o644));
    assert_eq!(parse_octal("0"), Ok(0));
    assert_eq!(parse_octal("755"), Ok(0o755));
    assert_eq!(parse_octal("177777"), Ok(0o177777));
}

#[test]
fn bad_octal_strings_are_rejected() {
    assert_eq!(parse_octal(""), Err(PackError::ManifestError));
    assert_eq!(parse_octal("8"), Err(PackError::ManifestError));
    assert_eq!(parse_octal("64x"), Err(PackError::ManifestError));
    assert_eq!(parse_octal("200000"), Err(PackError::ManifestError));
}
