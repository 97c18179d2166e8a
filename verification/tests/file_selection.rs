//! Path validation and normalization of the file chooser.

use dialog::backends::Dialog;
use dialog::{Error, FileSelection, FileSelectionMode};

#[test]
fn existing_directory_gains_trailing_separator() {
    let mut fs = FileSelection::new("pick");
    fs.path("/etc");
    assert_eq!(fs.path_to_string().as_deref(), Some("/etc/"));
}

#[test]
fn missing_directory_does_not_validate() {
    let mut fs = FileSelection::new("pick");
    fs.path("/no-such-directory-here");
    assert_eq!(fs.path_to_string(), None);
}

#[test]
fn file_is_not_a_directory() {
    let mut fs = FileSelection::new("pick");
    fs.path("/etc/hostname");
    assert_eq!(fs.path_to_string(), None);
}

#[test]
fn serialization_fails_with_invalid_path_for_missing_directory() {
    let mut fs = FileSelection::new("pick");
    fs.path("/no-such-directory-here");
    let backend = Dialog::new();
    let r = backend.file_selection_args(&fs);
    assert!(matches!(r, Err(Error::InvalidPath)));
}

#[test]
fn serialization_fails_with_invalid_path_without_a_path() {
    let fs = FileSelection {
        text: "pick".to_string(),
        path: None,
        mode: FileSelectionMode::Open,
    };
    let backend = Dialog::new();
    let r = backend.file_selection_args(&fs);
    assert!(matches!(r, Err(Error::InvalidPath)));
}

#[test]
fn serialization_uses_normalized_directory_as_argument() {
    let mut fs = FileSelection::new("pick");
    fs.path("/etc");
    let backend = Dialog::new();
    let args = backend.file_selection_args(&fs).unwrap();
    let expected: Vec<String> = ["--fselect", "/etc/", "0", "0"]
        .iter()
        .map(|s| s.to_string())
        .collect();
    assert_eq!(args, expected);
}

#[test]
fn mode_can_be_changed() {
    let mut fs = FileSelection::new("pick");
    fs.mode(FileSelectionMode::Save);
    assert_eq!(fs.mode, FileSelectionMode::Save);
}
