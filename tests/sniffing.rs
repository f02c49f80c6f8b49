use fat::entry::{CompressionMethod, ContainerEntry, EntryRead};
use fat::registry::{Category, Extension, ExtensionVec, LookupError};
use fat::sniff::{get_complex_zip_extension, get_complex_zip_id, landmark_of, needs_sniffing};

fn entry(name: &str) -> EntryRead {
    Ok(ContainerEntry {
        name: name.to_string(),
        enclosed_path: Some(name.to_string()),
        is_directory: name.ends_with('/'),
        compressed_size: 10,
        uncompressed_size: 20,
        compression_method: CompressionMethod::Deflated,
        comment: String::new(),
        encrypted: false,
        last_modified: None,
        crc32: 0,
    })
}

fn sniff(names: &[&str]) -> String {
    let entries: Vec<EntryRead> = names.iter().map(|n| entry(n)).collect();
    get_complex_zip_id(&entries)
}

fn record(id: &str, extension: &str) -> Extension {
    Extension {
        id: id.to_string(),
        extension: extension.to_string(),
        name: format!("{} file", extension),
        category: Category::Archive,
        description: String::new(),
        further_reading: String::new(),
        preferred_mime: "application/zip".to_string(),
        mime: vec!["application/zip".to_string()],
    }
}

#[test]
fn android_manifest_alone_is_apk() {
    assert_eq!(sniff(&["AndroidManifest.xml"]), "apk");
}

#[test]
fn landmark_among_other_entries_is_found() {
    assert_eq!(sniff(&["res/a.png", "classes.dex", "AndroidManifest.xml", "lib/x.so"]), "apk");
}

#[test]
fn manifest_alone_is_jar() {
    assert_eq!(sniff(&["META-INF/MANIFEST.MF"]), "jar");
    assert_eq!(sniff(&["META-INF/MANIFEST.MF", "com/x/Main.class"]), "jar");
}

#[test]
fn manifest_then_application_xml_is_ear() {
    assert_eq!(sniff(&["META-INF/MANIFEST.MF", "lib/a.jar", "META-INF/application.xml"]), "ear");
}

#[test]
fn manifest_then_web_xml_is_war() {
    assert_eq!(sniff(&["META-INF/MANIFEST.MF", "WEB-INF/web.xml"]), "war");
}

#[test]
fn no_landmark_is_zip() {
    assert_eq!(sniff(&["readme.txt", "src/main.rs", "docs/"]), "zip");
    assert_eq!(sniff(&[]), "zip");
}

#[test]
fn first_landmark_in_order_wins() {
    assert_eq!(sniff(&["word/document.xml", "AndroidManifest.xml"]), "ooxmldocument");
    assert_eq!(sniff(&["AndroidManifest.xml", "word/document.xml"]), "apk");
}

#[test]
fn unreadable_entries_are_passed_over() {
    let entries: Vec<EntryRead> =
        vec![Err("bad record".to_string()), entry("doc.kml"), Err("bad".to_string())];
    assert_eq!(get_complex_zip_id(&entries), "kmz");
    let only_errors: Vec<EntryRead> = vec![Err("bad".to_string())];
    assert_eq!(get_complex_zip_id(&only_errors), "zip");
}

#[test]
fn every_exact_name_has_its_format() {
    let cases = [
        ("AndroidManifest.xml", "apk"),
        ("AppManifest.xaml", "xap"),
        ("AppxManifest.xml", "appx"),
        ("AppxMetadata/AppxBundleManifest.xml", "appxbundle"),
        ("BundleConfig.pb", "aab"),
        ("DOMDocument.xml", "fla"),
        ("META-INF/AIR/application.xml", "air"),
        ("META-INF/application.xml", "ear"),
        ("META-INF/mozilla.rsa", "xpi"),
        ("WEB-INF/web.xml", "war"),
        ("doc.kml", "kmz"),
        ("document.json", "sketch43"),
        ("extension.vsixmanifest", "vsix"),
    ];
    for (name, id) in cases {
        assert_eq!(sniff(&[name]), id, "{}", name);
    }
}

#[test]
fn every_path_pattern_has_its_format() {
    let cases = [
        ("Fusion[Active]/model.bin", "autodesk123d"),
        ("circuitdiagram/doc.xml", "cddx"),
        ("dwf/documents.xml", "dwfx"),
        ("book.fb2", "fbz"),
        ("FusionAssetName[Active]/x", "fusion360"),
        ("Payload/App.app/Info.plist", "ipa"),
        ("word/document.xml", "ooxmldocument"),
        ("visio/document.xml", "ooxmldrawing"),
        ("ppt/presentation.xml", "ooxmlpresentation"),
        ("xl/workbook.xml", "ooxmlspreadsheet"),
        ("Documents/1/Pages/1.fpage", "xps"),
        ("SpaceClaim/doc.xml", "scdoc"),
        ("3D/3dmodel.model", "3mf"),
        ("scene.usd", "usdz"),
        ("scene.usda", "usdz"),
        ("scene.usdc", "usdz"),
    ];
    for (name, id) in cases {
        assert_eq!(sniff(&[name]), id, "{}", name);
    }
}

#[test]
fn patterns_need_every_part() {
    assert_eq!(sniff(&["books/book.fb2"]), "zip");
    assert_eq!(sniff(&["Payload/readme.txt"]), "zip");
    assert_eq!(sniff(&["Documents/page.xml"]), "zip");
    assert_eq!(sniff(&["3D/texture.png"]), "zip");
    assert_eq!(sniff(&["models/scene.usdz"]), "zip");
    assert_eq!(sniff(&["assets/scene.usd"]), "zip");
    assert_eq!(sniff(&["androidmanifest.xml"]), "zip");
}

#[test]
fn manifest_settles_nothing_alone() {
    assert_eq!(landmark_of("META-INF/MANIFEST.MF"), None);
    assert_eq!(landmark_of("AndroidManifest.xml"), Some("apk"));
    assert_eq!(landmark_of("notes.txt"), None);
}

#[test]
fn zip_and_missing_extensions_are_sniffed() {
    assert!(needs_sniffing("zip"));
    assert!(needs_sniffing(""));
    assert!(!needs_sniffing("ZIP"));
    assert!(!needs_sniffing("docx"));
}

#[test]
fn sniffed_format_resolves_to_extension() {
    let registry = ExtensionVec {
        extensions: vec![record("zip", "zip"), record("ooxmldocument", "docx"), record("apk", "apk")],
    };
    let docx: Vec<EntryRead> = vec![entry("[Content_Types].xml"), entry("word/document.xml")];
    assert_eq!(get_complex_zip_extension(&registry, &docx), Ok("docx".to_string()));
    let plain: Vec<EntryRead> = vec![entry("a.txt")];
    assert_eq!(get_complex_zip_extension(&registry, &plain), Ok("zip".to_string()));
    let jar: Vec<EntryRead> = vec![entry("META-INF/MANIFEST.MF")];
    assert_eq!(get_complex_zip_extension(&registry, &jar), Err(LookupError::NotFound));
}
