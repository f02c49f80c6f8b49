//! The inventory of a ZIP archive.
use vstd::prelude::*;
use vstd::utf8::{decode_utf8, valid_utf8};

use crate::entry::{CompressionMethod, ContainerEntry, EntryRead};
use crate::registry::{extension_name, get_extension_name, ExtensionVec, Extension};
use crate::report::{
    clamped_ratio, clamped_ratio_exec, file_suffix, first_seen, suffix_of, view_string_option,
    view_strings, ArchiveComment, ArchiveReport, EntryRecord,
};

verus! {

/// Relies on `std::str::from_utf8`: it accepts exactly the byte strings that
/// are valid UTF-8, and the text it returns is made of those bytes.
#[verifier::external_body]
fn utf8_text(bytes: &[u8]) -> (r: Option<String>)
    ensures
        r is Some <==> valid_utf8(bytes@),
        r is Some ==> r->Some_0@ == decode_utf8(bytes@),
{
    match std::str::from_utf8(bytes) {
        Ok(s) => Some(s.to_string()),
        Err(_) => None,
    }
}

/// The entries that get a record: those read without error whose path is safe.
pub open spec fn zip_accepted(s: Seq<EntryRead>) -> Seq<ContainerEntry>
    decreases s.len(),
{
    if s.len() == 0 {
        Seq::empty()
    } else {
        let before = zip_accepted(s.drop_last());
        match s.last() {
            Ok(e) => if e.enclosed_path is Some {
                before.push(e)
            } else {
                before
            },
            Err(_) => before,
        }
    }
}

/// The warning for an entry that could not be read.
pub open spec fn unreadable_warning(message: Seq<char>) -> Seq<char> {
    "Error (most likely encrypted file): "@ + message
}

/// The warning for an entry whose path is unsafe.
pub open spec fn suspicious_path_warning(name: Seq<char>) -> Seq<char> {
    "File "@ + name + " has a suspicious path"@
}

/// The warning for an archive comment that is not text.
pub open spec fn bad_comment_warning() -> Seq<char> {
    "Archive comment is not valid UTF-8"@
}

/// The warning that one position of the entry list gives, if any.
pub open spec fn entry_warning(r: EntryRead) -> Seq<Seq<char>> {
    match r {
        Err(m) => seq![unreadable_warning(m@)],
        Ok(e) => if e.enclosed_path is None {
            seq![suspicious_path_warning(e.name@)]
        } else {
            Seq::empty()
        },
    }
}

/// The warnings of an entry list, in its order.
pub open spec fn zip_warnings(s: Seq<EntryRead>) -> Seq<Seq<char>>
    decreases s.len(),
{
    if s.len() == 0 {
        Seq::empty()
    } else {
        zip_warnings(s.drop_last()) + entry_warning(s.last())
    }
}

/// The warning of an archive comment, if it is not text.
pub open spec fn comment_warnings(comment: Seq<u8>) -> Seq<Seq<char>> {
    if comment.len() > 0 && !valid_utf8(comment) {
        seq![bad_comment_warning()]
    } else {
        Seq::empty()
    }
}

/// The sum of the uncompressed sizes of the entries read without error.
pub open spec fn readable_total(s: Seq<EntryRead>) -> nat
    decreases s.len(),
{
    if s.len() == 0 {
        0
    } else {
        readable_total(s.drop_last()) + match s.last() {
            Ok(e) => e.uncompressed_size as nat,
            Err(_) => 0,
        }
    }
}

pub open spec fn methods_of(es: Seq<ContainerEntry>) -> Seq<CompressionMethod> {
    es.map_values(|e: ContainerEntry| e.compression_method)
}

/// `rec` lists the accepted entry `e`, with type names from `exts`.
pub open spec fn is_zip_record(rec: EntryRecord, e: ContainerEntry, exts: Seq<Extension>) -> bool {
    let path = e.enclosed_path->Some_0@;
    &&& rec.display_path@ == path
    &&& rec.is_directory == e.is_directory
    &&& rec.compressed_size == Some(e.compressed_size)
    &&& rec.uncompressed_size == e.uncompressed_size
    &&& rec.ratio_percent == Some(
        clamped_ratio(e.compressed_size as nat, e.uncompressed_size as nat) as u32,
    )
    &&& rec.kind_name@ == extension_name(exts, file_suffix(path))
    &&& rec.last_modified == e.last_modified
    &&& rec.crc32 == e.crc32
    &&& rec.encrypted == e.encrypted
    &&& !rec.partial
    &&& view_string_option(rec.comment) == if e.comment@.len() == 0 {
        None
    } else {
        Some(e.comment@)
    }
}

fn zip_record(registry: &ExtensionVec, e: &ContainerEntry, path: &String) -> (r: EntryRecord)
    requires
        e.enclosed_path == Some(*path),
    ensures
        is_zip_record(r, *e, registry.extensions@),
{
    let suffix = suffix_of(path.as_str());
    let kind_name = get_extension_name(registry, suffix.as_str());
    let comment = if e.comment.as_str().is_empty() {
        None
    } else {
        Some(e.comment.clone())
    };
    EntryRecord {
        display_path: path.clone(),
        is_directory: e.is_directory,
        compressed_size: Some(e.compressed_size),
        uncompressed_size: e.uncompressed_size,
        ratio_percent: Some(
            clamped_ratio_exec(e.compressed_size as u128, e.uncompressed_size as u128),
        ),
        kind_name,
        last_modified: e.last_modified,
        crc32: e.crc32,
        encrypted: e.encrypted,
        partial: false,
        comment,
    }
}

fn contains_method(v: &Vec<CompressionMethod>, m: CompressionMethod) -> (r: bool)
    ensures
        r == v@.contains(m),
{
    let mut i: usize = 0;
    while i < v.len()
        invariant
            i <= v@.len(),
            forall|j: int| 0 <= j < i ==> v@[j] != m,
        decreases v.len() - i,
    {
        if v[i] == m {
            return true;
        }
        i = i + 1;
    }
    false
}

fn suspicious_path_message(name: &str) -> (r: String)
    ensures
        r@ == suspicious_path_warning(name@),
{
    let mut w = "File ".to_string();
    w.append(name);
    w.append(" has a suspicious path");
    w
}

fn unreadable_message(message: &str) -> (r: String)
    ensures
        r@ == unreadable_warning(message@),
{
    let mut w = "Error (most likely encrypted file): ".to_string();
    w.append(message);
    w
}

/// Builds the inventory of a ZIP archive from its comment, the size of its
/// file and its entry list. Unreadable entries and entries with an unsafe
/// path are skipped with one warning each; every other entry gets a record.
/// A comment that is not text gives a warning instead. This never fails.
pub fn get_zip_info(
    registry: &ExtensionVec,
    archive_comment: &[u8],
    size_on_disk: u64,
    entries: &Vec<EntryRead>,
) -> (r: ArchiveReport)
    ensures
        archive_comment@.len() == 0 ==> r.archive_comment is Absent,
        archive_comment@.len() > 0 && valid_utf8(archive_comment@) ==> r.archive_comment is Text
            && r.archive_comment->Text_0@ == decode_utf8(archive_comment@),
        archive_comment@.len() > 0 && !valid_utf8(archive_comment@) ==> r.archive_comment is Absent,
        r.total_compressed_size == size_on_disk,
        r.total_uncompressed_size == readable_total(entries@),
        r.overall_ratio == clamped_ratio(size_on_disk as nat, readable_total(entries@)),
        r.compression_methods_used@ == first_seen(methods_of(zip_accepted(entries@))),
        r.entries@.len() == zip_accepted(entries@).len(),
        forall|k: int|
            0 <= k < r.entries@.len() ==> is_zip_record(
                #[trigger] r.entries@[k],
                zip_accepted(entries@)[k],
                registry.extensions@,
            ),
        view_strings(r.warnings@) == comment_warnings(archive_comment@) + zip_warnings(entries@),
{
    let mut warnings: Vec<String> = Vec::new();
    let comment = if archive_comment.len() == 0 {
        ArchiveComment::Absent
    } else {
        match utf8_text(archive_comment) {
            Some(text) => ArchiveComment::Text(text),
            None => {
                warnings.push("Archive comment is not valid UTF-8".to_string());
                ArchiveComment::Absent
            },
        }
    };
    assert(view_strings(warnings@) =~= comment_warnings(archive_comment@));
    let ghost cw = view_strings(warnings@);
    let mut records: Vec<EntryRecord> = Vec::new();
    let mut methods: Vec<CompressionMethod> = Vec::new();
    let mut total: u128 = 0;
    let mut i: usize = 0;
    while i < entries.len()
        invariant
            i <= entries@.len(),
            cw == comment_warnings(archive_comment@),
            total == readable_total(entries@.subrange(0, i as int)),
            total <= i * 0xFFFF_FFFF_FFFF_FFFFu128,
            records@.len() == zip_accepted(entries@.subrange(0, i as int)).len(),
            forall|k: int|
                0 <= k < records@.len() ==> is_zip_record(
                    #[trigger] records@[k],
                    zip_accepted(entries@.subrange(0, i as int))[k],
                    registry.extensions@,
                ),
            methods@ == first_seen(methods_of(zip_accepted(entries@.subrange(0, i as int)))),
            view_strings(warnings@) == cw + zip_warnings(entries@.subrange(0, i as int)),
        decreases entries.len() - i,
    {
        let ghost pre = entries@.subrange(0, i as int);
        let ghost next = entries@.subrange(0, i + 1);
        assert(next.drop_last() =~= pre);
        assert(next.last() == entries@[i as int]);
        let ghost old_records = records@;
        let ghost old_warnings = view_strings(warnings@);
        match &entries[i] {
            Err(message) => {
                warnings.push(unreadable_message(message.as_str()));
                assert(view_strings(warnings@) =~= old_warnings.push(
                    unreadable_warning(message@),
                ));
                assert(cw + zip_warnings(next) =~= cw + zip_warnings(pre) + seq![
                    unreadable_warning(message@),
                ]);
                assert(zip_accepted(next) == zip_accepted(pre));
            },
            Ok(e) => {
                total = total + e.uncompressed_size as u128;
                match &e.enclosed_path {
                    None => {
                        warnings.push(suspicious_path_message(e.name.as_str()));
                        assert(view_strings(warnings@) =~= old_warnings.push(
                            suspicious_path_warning(e.name@),
                        ));
                        assert(cw + zip_warnings(next) =~= cw + zip_warnings(pre) + seq![
                            suspicious_path_warning(e.name@),
                        ]);
                        assert(zip_accepted(next) == zip_accepted(pre));
                    },
                    Some(path) => {
                        let rec = zip_record(registry, e, path);
                        records.push(rec);
                        let m = e.compression_method;
                        let ghost ms = methods_of(zip_accepted(pre));
                        assert(ms.push(m).drop_last() =~= ms);
                        assert(ms.push(m).last() == m);
                        if !contains_method(&methods, m) {
                            methods.push(m);
                        }
                        assert(methods_of(zip_accepted(next)) =~= methods_of(
                            zip_accepted(pre),
                        ).push(m));
                        assert(zip_warnings(next) =~= zip_warnings(pre));
                        assert forall|k: int| 0 <= k < records@.len() implies is_zip_record(
                            #[trigger] records@[k],
                            zip_accepted(next)[k],
                            registry.extensions@,
                        ) by {
                            if k < old_records.len() {
                                assert(records@[k] == old_records[k]);
                            }
                        }
                    },
                }
            },
        }
        i = i + 1;
    }
    assert(entries@.subrange(0, i as int) =~= entries@);
    let ratio = clamped_ratio_exec(size_on_disk as u128, total);
    ArchiveReport {
        archive_comment: comment,
        total_compressed_size: size_on_disk,
        total_uncompressed_size: total,
        overall_ratio: ratio,
        compression_methods_used: methods,
        entries: records,
        warnings,
    }
}

proof fn lemma_zip_concat(a: Seq<EntryRead>, b: Seq<EntryRead>)
    ensures
        zip_accepted(a + b) == zip_accepted(a) + zip_accepted(b),
        zip_warnings(a + b) == zip_warnings(a) + zip_warnings(b),
    decreases b.len(),
{
    if b.len() == 0 {
        assert(a + b =~= a);
        assert(zip_accepted(a) + zip_accepted(b) =~= zip_accepted(a));
        assert(zip_warnings(a) + zip_warnings(b) =~= zip_warnings(a));
    } else {
        lemma_zip_concat(a, b.drop_last());
        assert((a + b).drop_last() =~= a + b.drop_last());
        assert((a + b).last() == b.last());
        assert(zip_accepted(a + b) =~= zip_accepted(a) + zip_accepted(b));
        assert(zip_warnings(a + b) =~= zip_warnings(a) + zip_warnings(b));
    }
}

/// An entry whose path is unsafe gets no record and exactly one warning,
/// which names it: the records, and the warnings of every other entry, are
/// those of the same list without it.
pub proof fn lemma_unsafe_entry_skipped(s: Seq<EntryRead>, k: int)
    requires
        0 <= k < s.len(),
        s[k] is Ok,
        s[k]->Ok_0.enclosed_path is None,
    ensures
        zip_accepted(s) == zip_accepted(s.remove(k)),
        zip_warnings(s) == zip_warnings(s.take(k)) + seq![suspicious_path_warning(s[k]->Ok_0.name@)]
            + zip_warnings(s.skip(k + 1)),
        zip_warnings(s).len() == zip_warnings(s.remove(k)).len() + 1,
{
    let one = seq![s[k]];
    assert(s =~= s.take(k) + one + s.skip(k + 1));
    assert(s.remove(k) =~= s.take(k) + s.skip(k + 1));
    lemma_zip_concat(s.take(k), one);
    lemma_zip_concat(s.take(k) + one, s.skip(k + 1));
    lemma_zip_concat(s.take(k), s.skip(k + 1));
    assert(one.drop_last() =~= Seq::<EntryRead>::empty());
    assert(one.last() == s[k]);
    assert(zip_accepted(one.drop_last()) =~= Seq::<ContainerEntry>::empty());
    assert(zip_warnings(one.drop_last()) =~= Seq::<Seq<char>>::empty());
    assert(zip_accepted(one) =~= Seq::<ContainerEntry>::empty());
    assert(zip_warnings(one) =~= seq![suspicious_path_warning(s[k]->Ok_0.name@)]);
    assert(zip_accepted(s.take(k)) + zip_accepted(one) =~= zip_accepted(s.take(k)));
}

} // verus!
