//! The inventory of a RAR archive.
use vstd::prelude::*;

use crate::registry::{extension_name, get_extension_name, Extension, ExtensionVec};
use crate::report::{
    clamped_ratio, clamped_ratio_exec, file_suffix, suffix_of, view_strings,
    ArchiveComment, ArchiveReport, EntryRecord,
};

verus! {

/// What the archive's main header tells once it is open.
#[derive(Clone, Copy, Debug, PartialEq, Eq, Structural)]
pub struct RarHeader {
    pub has_comment: bool,
    /// The archive is one volume of several.
    pub multi_volume: bool,
}

/// How opening an archive went: usable, usable although part of its header is
/// damaged, or not at all.
#[derive(Clone, Debug)]
pub enum RarOpen {
    Opened(RarHeader),
    OpenedWithWarning(RarHeader, String),
    Failed(String),
}

/// One entry of a RAR archive.
#[derive(Clone, Debug)]
pub struct RarEntry {
    pub filename: String,
    pub is_directory: bool,
    /// The entry continues in another volume.
    pub is_split: bool,
    pub encrypted: bool,
    pub unpacked_size: u64,
    pub crc32: u32,
}

/// One position of a RAR listing: the entry, or the message of the error met
/// while reading it.
pub type RarEntryRead = Result<RarEntry, String>;

/// Why no inventory of a RAR archive was made.
#[derive(Clone, Debug)]
pub enum RarFailure {
    /// The archive could not be opened; the message says why.
    OpenFailed(String),
    /// Archives split into volumes are not listed.
    MultiVolume,
}

/// The message that refuses an archive split into volumes.
pub open spec fn multi_volume_message() -> Seq<char> {
    "This is multi-part archive, it is not supported for now."@
}

/// The message that explains a failure.
pub open spec fn failure_message(f: RarFailure) -> Seq<char> {
    match f {
        RarFailure::OpenFailed(m) => "Error: "@ + m@,
        RarFailure::MultiVolume => multi_volume_message(),
    }
}

impl RarFailure {
    /// The one message that explains the failure.
    pub fn message(&self) -> (r: String)
        ensures
            r@ == failure_message(*self),
    {
        match self {
            RarFailure::OpenFailed(m) => {
                let mut w = "Error: ".to_string();
                w.append(m.as_str());
                w
            },
            RarFailure::MultiVolume => {
                "This is multi-part archive, it is not supported for now.".to_string()
            },
        }
    }
}

/// The header of an archive that opened, damaged or not.
pub open spec fn opened_header(open: RarOpen) -> Option<RarHeader> {
    match open {
        RarOpen::Opened(h) => Some(h),
        RarOpen::OpenedWithWarning(h, _) => Some(h),
        RarOpen::Failed(_) => None,
    }
}

/// Whether the entries of an archive opened this way are to be listed: it
/// opened, and it is not a volume of several.
pub open spec fn lists_entries(open: RarOpen) -> bool {
    opened_header(open) matches Some(h) && !h.multi_volume
}

/// Whether the caller should read the entries of an archive opened this way.
pub fn rar_should_list(open: &RarOpen) -> (r: bool)
    ensures
        r == lists_entries(*open),
{
    match open {
        RarOpen::Opened(h) => !h.multi_volume,
        RarOpen::OpenedWithWarning(h, _) => !h.multi_volume,
        RarOpen::Failed(_) => false,
    }
}

/// The warning for an archive whose header is damaged but readable.
pub open spec fn damaged_header_warning(message: Seq<char>) -> Seq<char> {
    "Error: "@ + message + ", continuing."@
}

/// The warning for an entry that could not be listed.
pub open spec fn rar_entry_warning(message: Seq<char>) -> Seq<char> {
    "Error: "@ + message
}

/// The warning of opening, where the header was damaged.
pub open spec fn open_warnings(open: RarOpen) -> Seq<Seq<char>> {
    match open {
        RarOpen::OpenedWithWarning(_, m) => seq![damaged_header_warning(m@)],
        _ => Seq::empty(),
    }
}

/// The entries listed without error.
pub open spec fn rar_accepted(s: Seq<RarEntryRead>) -> Seq<RarEntry>
    decreases s.len(),
{
    if s.len() == 0 {
        Seq::empty()
    } else {
        let before = rar_accepted(s.drop_last());
        match s.last() {
            Ok(e) => before.push(e),
            Err(_) => before,
        }
    }
}

/// The warnings of the listing errors, in order.
pub open spec fn rar_warnings(s: Seq<RarEntryRead>) -> Seq<Seq<char>>
    decreases s.len(),
{
    if s.len() == 0 {
        Seq::empty()
    } else {
        let before = rar_warnings(s.drop_last());
        match s.last() {
            Ok(_) => before,
            Err(m) => before.push(rar_entry_warning(m@)),
        }
    }
}

/// The sum of the unpacked sizes of the entries listed without error.
pub open spec fn rar_total(s: Seq<RarEntryRead>) -> nat
    decreases s.len(),
{
    if s.len() == 0 {
        0
    } else {
        rar_total(s.drop_last()) + match s.last() {
            Ok(e) => e.unpacked_size as nat,
            Err(_) => 0,
        }
    }
}

/// `rec` lists the RAR entry `e`, with type names from `exts`.
pub open spec fn is_rar_record(rec: EntryRecord, e: RarEntry, exts: Seq<Extension>) -> bool {
    &&& rec.display_path@ == e.filename@
    &&& rec.is_directory == e.is_directory
    &&& rec.compressed_size is None
    &&& rec.uncompressed_size == e.unpacked_size
    &&& rec.ratio_percent is None
    &&& rec.kind_name@ == extension_name(exts, file_suffix(e.filename@))
    &&& rec.last_modified is None
    &&& rec.crc32 == e.crc32
    &&& rec.encrypted == e.encrypted
    &&& rec.partial == e.is_split
    &&& rec.comment is None
}

fn rar_record(registry: &ExtensionVec, e: &RarEntry) -> (r: EntryRecord)
    ensures
        is_rar_record(r, *e, registry.extensions@),
{
    let suffix = suffix_of(e.filename.as_str());
    let kind_name = get_extension_name(registry, suffix.as_str());
    EntryRecord {
        display_path: e.filename.clone(),
        is_directory: e.is_directory,
        compressed_size: None,
        uncompressed_size: e.unpacked_size,
        ratio_percent: None,
        kind_name,
        last_modified: None,
        crc32: e.crc32,
        encrypted: e.encrypted,
        partial: e.is_split,
        comment: None,
    }
}

/// Builds the inventory of a RAR archive from how opening it went, the size
/// of its file and its listing. An archive that did not open, or that is one
/// volume of several, gives a failure and no inventory. A damaged header and
/// each listing error give a warning, and the listing goes on. A comment is
/// reported as present but not rendered.
pub fn get_rar_info(
    registry: &ExtensionVec,
    open: &RarOpen,
    size_on_disk: u64,
    entries: &Vec<RarEntryRead>,
) -> (r: Result<ArchiveReport, RarFailure>)
    ensures
        opened_header(*open) is None ==> r is Err && r->Err_0 is OpenFailed
            && r->Err_0->OpenFailed_0@ == open->Failed_0@,
        opened_header(*open) matches Some(h) && h.multi_volume ==> r is Err
            && r->Err_0 is MultiVolume,
        lists_entries(*open) ==> r is Ok && {
            let rep = r->Ok_0;
            let h = opened_header(*open)->Some_0;
            &&& (if h.has_comment {
                rep.archive_comment is Unrendered
            } else {
                rep.archive_comment is Absent
            })
            &&& rep.total_compressed_size == size_on_disk
            &&& rep.total_uncompressed_size == rar_total(entries@)
            &&& rep.overall_ratio == clamped_ratio(size_on_disk as nat, rar_total(entries@))
            &&& rep.compression_methods_used@.len() == 0
            &&& rep.entries@.len() == rar_accepted(entries@).len()
            &&& forall|k: int|
                0 <= k < rep.entries@.len() ==> is_rar_record(
                    #[trigger] rep.entries@[k],
                    rar_accepted(entries@)[k],
                    registry.extensions@,
                )
            &&& view_strings(rep.warnings@) == open_warnings(*open) + rar_warnings(entries@)
        },
{
    let header = match open {
        RarOpen::Failed(m) => {
            return Err(RarFailure::OpenFailed(m.clone()));
        },
        RarOpen::Opened(h) => *h,
        RarOpen::OpenedWithWarning(h, _) => *h,
    };
    if header.multi_volume {
        return Err(RarFailure::MultiVolume);
    }
    let comment = if header.has_comment {
        ArchiveComment::Unrendered
    } else {
        ArchiveComment::Absent
    };
    let mut warnings: Vec<String> = Vec::new();
    if let RarOpen::OpenedWithWarning(_, m) = open {
        let mut w = "Error: ".to_string();
        w.append(m.as_str());
        w.append(", continuing.");
        warnings.push(w);
    }
    assert(view_strings(warnings@) =~= open_warnings(*open));
    let ghost ow = view_strings(warnings@);
    let mut records: Vec<EntryRecord> = Vec::new();
    let mut total: u128 = 0;
    let mut i: usize = 0;
    while i < entries.len()
        invariant
            i <= entries@.len(),
            ow == open_warnings(*open),
            total == rar_total(entries@.subrange(0, i as int)),
            total <= i * 0xFFFF_FFFF_FFFF_FFFFu128,
            records@.len() == rar_accepted(entries@.subrange(0, i as int)).len(),
            forall|k: int|
                0 <= k < records@.len() ==> is_rar_record(
                    #[trigger] records@[k],
                    rar_accepted(entries@.subrange(0, i as int))[k],
                    registry.extensions@,
                ),
            view_strings(warnings@) == ow + rar_warnings(entries@.subrange(0, i as int)),
        decreases entries.len() - i,
    {
        let ghost pre = entries@.subrange(0, i as int);
        let ghost next = entries@.subrange(0, i + 1);
        assert(next.drop_last() =~= pre);
        assert(next.last() == entries@[i as int]);
        let ghost old_records = records@;
        let ghost old_warnings = view_strings(warnings@);
        match &entries[i] {
            Err(message) => {
                let mut w = "Error: ".to_string();
                w.append(message.as_str());
                warnings.push(w);
                assert(view_strings(warnings@) =~= old_warnings.push(rar_entry_warning(message@)));
                assert(ow + rar_warnings(next) =~= (ow + rar_warnings(pre)).push(
                    rar_entry_warning(message@),
                ));
            },
            Ok(e) => {
                total = total + e.unpacked_size as u128;
                records.push(rar_record(registry, e));
                assert forall|k: int| 0 <= k < records@.len() implies is_rar_record(
                    #[trigger] records@[k],
                    rar_accepted(next)[k],
                    registry.extensions@,
                ) by {
                    if k < old_records.len() {
                        assert(records@[k] == old_records[k]);
                    }
                }
            },
        }
        i = i + 1;
    }
    assert(entries@.subrange(0, i as int) =~= entries@);
    let ratio = clamped_ratio_exec(size_on_disk as u128, total);
    Ok(
        ArchiveReport {
            archive_comment: comment,
            total_compressed_size: size_on_disk,
            total_uncompressed_size: total,
            overall_ratio: ratio,
            compression_methods_used: Vec::new(),
            entries: records,
            warnings,
        },
    )
}

} // verus!
