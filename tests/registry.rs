use fat::file::{check_file_path, PathError};
use fat::registry::{
    get_extension_from_id, get_extension_name, matching_extensions, other_mimes, Category,
    Extension, ExtensionVec, LookupError,
};

fn record(id: &str, extension: &str, name: &str, mimes: &[&str]) -> Extension {
    Extension {
        id: id.to_string(),
        extension: extension.to_string(),
        name: name.to_string(),
        category: Category::Document,
        description: String::new(),
        further_reading: String::new(),
        preferred_mime: mimes[0].to_string(),
        mime: mimes.iter().map(|m| m.to_string()).collect(),
    }
}

fn registry() -> ExtensionVec {
    ExtensionVec {
        extensions: vec![
            record("ooxmldocument", "docx", "Word document", &["application/docx"]),
            record("jpeg", "jpg", "JPEG image", &["image/jpeg", "image/pjpeg", "image/jpeg"]),
            record("jpeg2", "jpg", "Another JPEG", &["image/jpeg"]),
        ],
    }
}

#[test]
fn category_tokens_ignore_ascii_case() {
    assert_eq!(Category::from_token("archive"), Category::Archive);
    assert_eq!(Category::from_token("VIDEO"), Category::Video);
    assert_eq!(Category::from_token("GeoSpatial"), Category::Geospatial);
    assert_eq!(Category::from_token("other"), Category::Other);
}

#[test]
fn unknown_category_is_other() {
    assert_eq!(Category::from_token("agriculture"), Category::Other);
    assert_eq!(Category::from_token(""), Category::Other);
    assert_eq!(Category::from_token("archives"), Category::Other);
}

#[test]
fn category_names() {
    assert_eq!(Category::Spreadsheet.name(), "Spreadsheet");
    assert_eq!(Category::Rom.name(), "Rom");
    assert_eq!(Category::from_token(Category::Haptics.name()), Category::Haptics);
}

#[test]
fn lookup_by_id() {
    assert_eq!(get_extension_from_id(&registry(), "jpeg"), Ok("jpg".to_string()));
    assert_eq!(get_extension_from_id(&registry(), "ooxmldocument"), Ok("docx".to_string()));
    assert_eq!(get_extension_from_id(&registry(), "png"), Err(LookupError::NotFound));
}

#[test]
fn lookup_name_by_extension() {
    assert_eq!(get_extension_name(&registry(), "jpg"), "JPEG image");
    assert_eq!(get_extension_name(&registry(), "docx"), "Word document");
    assert_eq!(get_extension_name(&registry(), "png"), "unknown type");
    assert_eq!(get_extension_name(&registry(), ""), "unknown type");
}

#[test]
fn all_records_of_an_extension() {
    assert_eq!(matching_extensions(&registry(), "jpg"), vec![1, 2]);
    assert_eq!(matching_extensions(&registry(), "docx"), vec![0]);
    assert!(matching_extensions(&registry(), "png").is_empty());
}

#[test]
fn alternate_mimes_leave_out_the_preferred() {
    let r = registry();
    assert_eq!(other_mimes(&r.extensions[1]), vec!["image/pjpeg".to_string()]);
    assert!(other_mimes(&r.extensions[0]).is_empty());
}

#[test]
fn file_path_checks() {
    assert!(check_file_path(&Ok(true), true).is_ok());
    assert!(matches!(check_file_path(&Ok(true), false), Err(PathError::IsADirectory)));
    assert!(matches!(check_file_path(&Ok(false), false), Err(PathError::IsADirectory)));
    match check_file_path(&Err("permission denied".to_string()), false) {
        Err(e) => {
            assert!(matches!(e, PathError::Inaccessible(_)));
            assert_eq!(e.message(), "permission denied");
        }
        Ok(()) => panic!("accepted"),
    }
    assert_eq!(PathError::IsADirectory.message(), "file is a directory");
}
