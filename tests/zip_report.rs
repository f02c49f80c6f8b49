use fat::entry::{CompressionMethod, ContainerEntry, EntryRead, Timestamp};
use fat::registry::{Category, Extension, ExtensionVec};
use fat::render::{decimal_text, percent, size_text, zero_padded_text};
use fat::report::{ratio_percent, suffix_of, ArchiveComment};
use fat::zip::get_zip_info;

fn file(path: &str, method: CompressionMethod, compressed: u64, uncompressed: u64) -> ContainerEntry {
    ContainerEntry {
        name: path.to_string(),
        enclosed_path: Some(path.to_string()),
        is_directory: false,
        compressed_size: compressed,
        uncompressed_size: uncompressed,
        compression_method: method,
        comment: String::new(),
        encrypted: false,
        last_modified: None,
        crc32: 7,
    }
}

fn registry() -> ExtensionVec {
    ExtensionVec {
        extensions: vec![Extension {
            id: "txt".to_string(),
            extension: "txt".to_string(),
            name: "Plain text".to_string(),
            category: Category::Document,
            description: String::new(),
            further_reading: String::new(),
            preferred_mime: "text/plain".to_string(),
            mime: vec!["text/plain".to_string()],
        }],
    }
}

#[test]
fn ratio_is_clamped_and_exact() {
    assert_eq!(ratio_percent(5, 0), 10000);
    assert_eq!(ratio_percent(0, 0), 0);
    assert_eq!(ratio_percent(0, 10), 0);
    assert_eq!(ratio_percent(50, 100), 5000);
    assert_eq!(ratio_percent(1, 3), 3333);
    assert_eq!(ratio_percent(200, 100), 10000);
    assert_eq!(ratio_percent(u64::MAX, 1), 10000);
    assert_eq!(ratio_percent(u64::MAX - 1, u64::MAX), 9999);
}

#[test]
fn suffix_is_taken_from_last_segment() {
    assert_eq!(suffix_of("docs/readme.txt"), "txt");
    assert_eq!(suffix_of("a.b/c"), "");
    assert_eq!(suffix_of("archive.tar.gz"), "gz");
    assert_eq!(suffix_of(".bashrc"), "");
    assert_eq!(suffix_of("dir/.hidden"), "");
    assert_eq!(suffix_of("name."), "");
    assert_eq!(suffix_of(""), "");
}

#[test]
fn traversal_entry_gives_one_warning_and_no_record() {
    let mut evil = file("../evil.sh", CompressionMethod::Stored, 1, 1);
    evil.enclosed_path = None;
    let entries: Vec<EntryRead> = vec![
        Ok(file("a.txt", CompressionMethod::Deflated, 5, 10)),
        Ok(evil),
        Ok(file("b.txt", CompressionMethod::Deflated, 5, 10)),
    ];
    let report = get_zip_info(&registry(), b"", 100, &entries);
    assert_eq!(report.entries.len(), 2);
    assert_eq!(report.entries[0].display_path, "a.txt");
    assert_eq!(report.entries[1].display_path, "b.txt");
    assert_eq!(report.warnings, vec!["File ../evil.sh has a suspicious path".to_string()]);
    assert_eq!(report.compression_methods_used, vec![CompressionMethod::Deflated]);
}

#[test]
fn methods_are_listed_once_in_first_seen_order() {
    let entries: Vec<EntryRead> = vec![
        Ok(file("a", CompressionMethod::Deflated, 1, 2)),
        Ok(file("b", CompressionMethod::Stored, 2, 2)),
        Ok(file("c", CompressionMethod::Deflated, 1, 2)),
        Ok(file("d", CompressionMethod::Bzip2, 1, 2)),
    ];
    let report = get_zip_info(&registry(), b"", 10, &entries);
    assert_eq!(
        report.compression_methods_used,
        vec![CompressionMethod::Deflated, CompressionMethod::Stored, CompressionMethod::Bzip2]
    );
}

#[test]
fn unreadable_entry_is_a_warning() {
    let entries: Vec<EntryRead> = vec![
        Err("unsupported encryption".to_string()),
        Ok(file("a.txt", CompressionMethod::Stored, 4, 4)),
    ];
    let report = get_zip_info(&registry(), b"", 4, &entries);
    assert_eq!(report.entries.len(), 1);
    assert_eq!(
        report.warnings,
        vec!["Error (most likely encrypted file): unsupported encryption".to_string()]
    );
    assert_eq!(report.total_uncompressed_size, 4);
}

#[test]
fn archive_comment_is_decoded_or_warned_about() {
    let entries: Vec<EntryRead> = Vec::new();
    let good = get_zip_info(&registry(), "héllo".as_bytes(), 0, &entries);
    match good.archive_comment {
        ArchiveComment::Text(t) => assert_eq!(t, "héllo"),
        other => panic!("{:?}", other),
    }
    assert!(good.warnings.is_empty());
    let bad = get_zip_info(&registry(), &[0xff, 0xfe, 0x41], 0, &entries);
    assert!(matches!(bad.archive_comment, ArchiveComment::Absent));
    assert_eq!(bad.warnings, vec!["Archive comment is not valid UTF-8".to_string()]);
    let none = get_zip_info(&registry(), b"", 0, &entries);
    assert!(matches!(none.archive_comment, ArchiveComment::Absent));
    assert!(none.warnings.is_empty());
}

#[test]
fn records_carry_entry_details() {
    let mut commented = file("notes/readme.txt", CompressionMethod::Deflated, 30, 120);
    commented.comment = "see me".to_string();
    commented.encrypted = true;
    commented.last_modified =
        Some(Timestamp { year: 2021, month: 3, day: 4, hour: 5, minute: 6, second: 8 });
    let mut dir = file("notes/", CompressionMethod::Stored, 0, 0);
    dir.is_directory = true;
    let entries: Vec<EntryRead> =
        vec![Ok(dir), Ok(commented), Ok(file("image.png", CompressionMethod::Stored, 9, 9))];
    let report = get_zip_info(&registry(), b"", 60, &entries);
    assert_eq!(report.entries.len(), 3);
    let d = &report.entries[0];
    assert!(d.is_directory);
    assert_eq!(d.kind_name, "unknown type");
    assert_eq!(d.ratio_percent, Some(0));
    let t = &report.entries[1];
    assert_eq!(t.kind_name, "Plain text");
    assert_eq!(t.compressed_size, Some(30));
    assert_eq!(t.uncompressed_size, 120);
    assert_eq!(t.ratio_percent, Some(2500));
    assert_eq!(t.comment, Some("see me".to_string()));
    assert!(t.encrypted);
    assert_eq!(t.last_modified.unwrap().year, 2021);
    assert_eq!(t.crc32, 7);
    assert!(!t.partial);
    let p = &report.entries[2];
    assert_eq!(p.kind_name, "unknown type");
    assert_eq!(p.comment, None);
    assert_eq!(p.ratio_percent, Some(10000));
    assert_eq!(report.total_compressed_size, 60);
    assert_eq!(report.total_uncompressed_size, 129);
    assert_eq!(report.overall_ratio, 4651);
}

#[test]
fn large_totals_do_not_overflow() {
    let entries: Vec<EntryRead> = vec![
        Ok(file("a", CompressionMethod::Stored, 1, u64::MAX)),
        Ok(file("b", CompressionMethod::Stored, 1, u64::MAX)),
    ];
    let report = get_zip_info(&registry(), b"", 1000, &entries);
    assert_eq!(report.total_uncompressed_size, 2 * (u64::MAX as u128));
    assert_eq!(report.overall_ratio, 0);
}

#[test]
fn method_names() {
    assert_eq!(CompressionMethod::Deflated.name(), "Deflated");
    assert_eq!(CompressionMethod::Stored.name(), "Stored");
    assert_eq!(CompressionMethod::Other(12).name(), "Unsupported");
}

#[test]
fn numbers_are_rendered_in_decimal() {
    assert_eq!(decimal_text(0), "0");
    assert_eq!(decimal_text(1234), "1234");
    assert_eq!(decimal_text(u128::MAX), u128::MAX.to_string());
    assert_eq!(zero_padded_text(7, 2), "07");
    assert_eq!(zero_padded_text(123, 2), "123");
    assert_eq!(zero_padded_text(5, 4), "0005");
    assert_eq!(percent(0), "0.00");
    assert_eq!(percent(1234), "12.34");
    assert_eq!(percent(5), "0.05");
    assert_eq!(percent(10000), "100.00");
    assert_eq!(size_text(1536, false), "1536");
    assert_eq!(size_text(512, true), "512 B");
    assert_eq!(size_text(1536, true), "1.5 kiB");
    assert_eq!(size_text(u64::MAX as u128 + 1, true), "18446744073709551616");
}

#[test]
fn timestamps_are_zero_padded() {
    let t = Timestamp { year: 2021, month: 3, day: 4, hour: 5, minute: 6, second: 8 };
    assert_eq!(t.render(), "2021-03-04 05:06:08");
    let early = Timestamp { year: 980, month: 12, day: 31, hour: 23, minute: 59, second: 58 };
    assert_eq!(early.render(), "0980-12-31 23:59:58");
}

#[test]
fn method_codes_name_methods() {
    assert_eq!(CompressionMethod::from_code(0), CompressionMethod::Stored);
    assert_eq!(CompressionMethod::from_code(8), CompressionMethod::Deflated);
    assert_eq!(CompressionMethod::from_code(12), CompressionMethod::Bzip2);
    assert_eq!(CompressionMethod::from_code(93), CompressionMethod::Zstd);
    assert_eq!(CompressionMethod::from_code(99), CompressionMethod::Aes);
    assert_eq!(CompressionMethod::from_code(1), CompressionMethod::Other(1));
}

#[test]
fn directories_get_a_type_name_too() {
    let mut dir = file("photos.txt", CompressionMethod::Stored, 0, 0);
    dir.is_directory = true;
    let mut slash = file("notes/", CompressionMethod::Stored, 0, 0);
    slash.is_directory = true;
    let entries: Vec<EntryRead> = vec![Ok(dir), Ok(slash)];
    let report = get_zip_info(&registry(), b"", 0, &entries);
    assert_eq!(report.entries[0].kind_name, "Plain text");
    assert_eq!(report.entries[1].kind_name, "unknown type");
}
