//! Recognising the real format of a ZIP container from landmark entries.
use vstd::prelude::*;

use crate::entry::EntryRead;
use crate::registry::{find_by_id, get_extension_from_id, ExtensionVec, LookupError};
use crate::text::{
    contains_char, contains_text, ends_with, has_infix, has_prefix, has_suffix, same_text,
    starts_with,
};

verus! {

/// The manifest that JAR, EAR and WAR files all carry.
pub open spec fn is_manifest(name: Seq<char>) -> bool {
    name == "META-INF/MANIFEST.MF"@
}

/// Formats recognised by one entry name that belongs to them alone.
pub open spec fn exact_landmark(name: Seq<char>) -> Option<Seq<char>> {
    if name == "AndroidManifest.xml"@ {
        Some("apk"@)
    } else if name == "AppManifest.xaml"@ {
        Some("xap"@)
    } else if name == "AppxManifest.xml"@ {
        Some("appx"@)
    } else if name == "AppxMetadata/AppxBundleManifest.xml"@ {
        Some("appxbundle"@)
    } else if name == "BundleConfig.pb"@ {
        Some("aab"@)
    } else if name == "DOMDocument.xml"@ {
        Some("fla"@)
    } else if name == "META-INF/AIR/application.xml"@ {
        Some("air"@)
    } else if name == "META-INF/application.xml"@ {
        Some("ear"@)
    } else if name == "META-INF/mozilla.rsa"@ {
        Some("xpi"@)
    } else if name == "WEB-INF/web.xml"@ {
        Some("war"@)
    } else if name == "doc.kml"@ {
        Some("kmz"@)
    } else if name == "document.json"@ {
        Some("sketch43"@)
    } else if name == "extension.vsixmanifest"@ {
        Some("vsix"@)
    } else {
        None
    }
}

/// Formats recognised by the shape of an entry's path, tried in this order.
pub open spec fn pattern_landmark(name: Seq<char>) -> Option<Seq<char>> {
    if has_prefix(name, "Fusion[Active]/"@) {
        Some("autodesk123d"@)
    } else if has_prefix(name, "circuitdiagram/"@) {
        Some("cddx"@)
    } else if has_prefix(name, "dwf/"@) {
        Some("dwfx"@)
    } else if has_suffix(name, ".fb2"@) && !name.contains('/') {
        Some("fbz"@)
    } else if has_prefix(name, "FusionAssetName[Active]/"@) {
        Some("fusion360"@)
    } else if has_prefix(name, "Payload/"@) && has_infix(name, ".app/"@) {
        Some("ipa"@)
    } else if has_prefix(name, "word/"@) {
        Some("ooxmldocument"@)
    } else if has_prefix(name, "visio/"@) {
        Some("ooxmldrawing"@)
    } else if has_prefix(name, "ppt/"@) {
        Some("ooxmlpresentation"@)
    } else if has_prefix(name, "xl/"@) {
        Some("ooxmlspreadsheet"@)
    } else if has_prefix(name, "Documents/"@) && has_suffix(name, ".fpage"@) {
        Some("xps"@)
    } else if has_prefix(name, "SpaceClaim/"@) {
        Some("scdoc"@)
    } else if has_prefix(name, "3D/"@) && has_suffix(name, ".model"@) {
        Some("3mf"@)
    } else if (has_suffix(name, ".usd"@) || has_suffix(name, ".usda"@) || has_suffix(
        name,
        ".usdc"@,
    )) && !name.contains('/') {
        Some("usdz"@)
    } else {
        None
    }
}

/// The format that an entry of this name settles on its own, if any. The
/// manifest settles nothing: it is shared by several formats.
pub open spec fn landmark(name: Seq<char>) -> Option<Seq<char>> {
    if is_manifest(name) {
        None
    } else if exact_landmark(name) is Some {
        exact_landmark(name)
    } else {
        pattern_landmark(name)
    }
}

/// Scanning `entries` in order, with `seen` telling whether the manifest was
/// met before them: the first landmark wins; with none, a manifest makes a
/// JAR and anything else stays a plain ZIP. Unreadable positions are passed
/// over.
pub open spec fn sniff_scan(entries: Seq<EntryRead>, seen: bool) -> Seq<char>
    decreases entries.len(),
{
    if entries.len() == 0 {
        if seen {
            "jar"@
        } else {
            "zip"@
        }
    } else {
        match entries[0] {
            Err(_) => sniff_scan(entries.drop_first(), seen),
            Ok(e) => match landmark(e.name@) {
                Some(id) => id,
                None => sniff_scan(entries.drop_first(), seen || is_manifest(e.name@)),
            },
        }
    }
}

/// The format identifier recognised for a container with these entries.
pub open spec fn sniff(entries: Seq<EntryRead>) -> Seq<char> {
    sniff_scan(entries, false)
}

/// The landmark of one position of an entry list; none where it was unreadable.
pub open spec fn read_landmark(r: EntryRead) -> Option<Seq<char>> {
    match r {
        Ok(e) => landmark(e.name@),
        Err(_) => None,
    }
}

/// Whether one position of an entry list holds the manifest.
pub open spec fn read_is_manifest(r: EntryRead) -> bool {
    match r {
        Ok(e) => is_manifest(e.name@),
        Err(_) => false,
    }
}

proof fn lemma_scan_first_landmark(entries: Seq<EntryRead>, k: int, id: Seq<char>, seen: bool)
    requires
        0 <= k < entries.len(),
        read_landmark(entries[k]) == Some(id),
        forall|j: int| 0 <= j < k ==> read_landmark(#[trigger] entries[j]) is None,
    ensures
        sniff_scan(entries, seen) == id,
    decreases k,
{
    if k > 0 {
        let rest = entries.drop_first();
        assert forall|j: int| 0 <= j < k - 1 implies read_landmark(#[trigger] rest[j]) is None by {
            assert(rest[j] == entries[j + 1]);
        }
        assert(rest[k - 1] == entries[k]);
        assert(read_landmark(entries[0]) is None);
        match entries[0] {
            Err(_) => lemma_scan_first_landmark(rest, k - 1, id, seen),
            Ok(e) => lemma_scan_first_landmark(rest, k - 1, id, seen || is_manifest(e.name@)),
        }
    }
}

proof fn lemma_scan_without_landmark(entries: Seq<EntryRead>, seen: bool)
    requires
        forall|j: int| 0 <= j < entries.len() ==> read_landmark(#[trigger] entries[j]) is None,
    ensures
        sniff_scan(entries, seen) == if seen || exists|j: int|
            0 <= j < entries.len() && read_is_manifest(#[trigger] entries[j]) {
            "jar"@
        } else {
            "zip"@
        },
    decreases entries.len(),
{
    if entries.len() > 0 {
        let rest = entries.drop_first();
        assert forall|j: int| 0 <= j < rest.len() implies read_landmark(#[trigger] rest[j]) is None by {
            assert(rest[j] == entries[j + 1]);
        }
        assert(read_landmark(entries[0]) is None);
        let seen2 = seen || read_is_manifest(entries[0]);
        lemma_scan_without_landmark(rest, seen2);
        let here = exists|j: int| 0 <= j < entries.len() && read_is_manifest(#[trigger] entries[j]);
        let there = exists|j: int| 0 <= j < rest.len() && read_is_manifest(#[trigger] rest[j]);
        if there {
            let j = choose|j: int| 0 <= j < rest.len() && read_is_manifest(#[trigger] rest[j]);
            assert(read_is_manifest(entries[j + 1]));
        }
        if here && !read_is_manifest(entries[0]) {
            let j = choose|j: int| 0 <= j < entries.len() && read_is_manifest(#[trigger] entries[j]);
            assert(j != 0);
            assert(rest[j - 1] == entries[j]);
        }
    }
}

/// Scanning stops at the first entry that is a landmark: whatever follows it,
/// and whatever unrecognised entries precede it, the container is the
/// landmark's format.
pub proof fn lemma_first_landmark_decides(entries: Seq<EntryRead>, k: int, id: Seq<char>)
    requires
        0 <= k < entries.len(),
        read_landmark(entries[k]) == Some(id),
        forall|j: int| 0 <= j < k ==> read_landmark(#[trigger] entries[j]) is None,
    ensures
        sniff(entries) == id,
{
    lemma_scan_first_landmark(entries, k, id, false);
}

/// A container whose only distinctive entry is the manifest is a JAR.
pub proof fn lemma_manifest_alone_is_jar(entries: Seq<EntryRead>, m: int)
    requires
        0 <= m < entries.len(),
        read_is_manifest(entries[m]),
        forall|j: int| 0 <= j < entries.len() ==> read_landmark(#[trigger] entries[j]) is None,
    ensures
        sniff(entries) == "jar"@,
{
    lemma_scan_without_landmark(entries, false);
    assert(read_is_manifest(entries[m]));
}

/// The manifest does not end the scan: an EAR's application descriptor that
/// comes after it, with no landmark in between, still makes the container an
/// EAR.
pub proof fn lemma_manifest_then_ear(entries: Seq<EntryRead>, m: int, k: int)
    requires
        0 <= m < k < entries.len(),
        read_is_manifest(entries[m]),
        entries[k] is Ok,
        entries[k]->Ok_0.name@ == "META-INF/application.xml"@,
        forall|j: int| 0 <= j < k ==> read_landmark(#[trigger] entries[j]) is None,
    ensures
        sniff(entries) == "ear"@,
{
    reveal_strlit("META-INF/application.xml");
    reveal_strlit("META-INF/MANIFEST.MF");
    reveal_strlit("AndroidManifest.xml");
    reveal_strlit("AppManifest.xaml");
    reveal_strlit("AppxManifest.xml");
    reveal_strlit("AppxMetadata/AppxBundleManifest.xml");
    reveal_strlit("BundleConfig.pb");
    reveal_strlit("DOMDocument.xml");
    reveal_strlit("META-INF/AIR/application.xml");
    assert(read_landmark(entries[k]) == Some("ear"@));
    lemma_scan_first_landmark(entries, k, "ear"@, false);
}

/// A container with neither a landmark nor the manifest is a plain ZIP.
pub proof fn lemma_no_landmark_is_zip(entries: Seq<EntryRead>)
    requires
        forall|j: int| 0 <= j < entries.len() ==> read_landmark(#[trigger] entries[j]) is None,
        forall|j: int| 0 <= j < entries.len() ==> !read_is_manifest(#[trigger] entries[j]),
    ensures
        sniff(entries) == "zip"@,
{
    lemma_scan_without_landmark(entries, false);
}

/// The characters of an optional text.
pub open spec fn view_option(o: Option<&str>) -> Option<Seq<char>> {
    match o {
        Some(s) => Some(s@),
        None => None,
    }
}

fn exact_landmark_of(name: &str) -> (r: Option<&'static str>)
    ensures
        view_option(r) == exact_landmark(name@),
{
    if same_text(name, "AndroidManifest.xml") {
        Some("apk")
    } else if same_text(name, "AppManifest.xaml") {
        Some("xap")
    } else if same_text(name, "AppxManifest.xml") {
        Some("appx")
    } else if same_text(name, "AppxMetadata/AppxBundleManifest.xml") {
        Some("appxbundle")
    } else if same_text(name, "BundleConfig.pb") {
        Some("aab")
    } else if same_text(name, "DOMDocument.xml") {
        Some("fla")
    } else if same_text(name, "META-INF/AIR/application.xml") {
        Some("air")
    } else if same_text(name, "META-INF/application.xml") {
        Some("ear")
    } else if same_text(name, "META-INF/mozilla.rsa") {
        Some("xpi")
    } else if same_text(name, "WEB-INF/web.xml") {
        Some("war")
    } else if same_text(name, "doc.kml") {
        Some("kmz")
    } else if same_text(name, "document.json") {
        Some("sketch43")
    } else if same_text(name, "extension.vsixmanifest") {
        Some("vsix")
    } else {
        None
    }
}

fn pattern_landmark_of(name: &str) -> (r: Option<&'static str>)
    ensures
        view_option(r) == pattern_landmark(name@),
{
    if starts_with(name, "Fusion[Active]/") {
        Some("autodesk123d")
    } else if starts_with(name, "circuitdiagram/") {
        Some("cddx")
    } else if starts_with(name, "dwf/") {
        Some("dwfx")
    } else if ends_with(name, ".fb2") && !contains_char(name, '/') {
        Some("fbz")
    } else if starts_with(name, "FusionAssetName[Active]/") {
        Some("fusion360")
    } else if starts_with(name, "Payload/") && contains_text(name, ".app/") {
        Some("ipa")
    } else if starts_with(name, "word/") {
        Some("ooxmldocument")
    } else if starts_with(name, "visio/") {
        Some("ooxmldrawing")
    } else if starts_with(name, "ppt/") {
        Some("ooxmlpresentation")
    } else if starts_with(name, "xl/") {
        Some("ooxmlspreadsheet")
    } else if starts_with(name, "Documents/") && ends_with(name, ".fpage") {
        Some("xps")
    } else if starts_with(name, "SpaceClaim/") {
        Some("scdoc")
    } else if starts_with(name, "3D/") && ends_with(name, ".model") {
        Some("3mf")
    } else if (ends_with(name, ".usd") || ends_with(name, ".usda") || ends_with(name, ".usdc"))
        && !contains_char(name, '/') {
        Some("usdz")
    } else {
        None
    }
}

/// The format that an entry named `name` settles on its own, if any.
pub fn landmark_of(name: &str) -> (r: Option<&'static str>)
    ensures
        view_option(r) == landmark(name@),
{
    if same_text(name, "META-INF/MANIFEST.MF") {
        None
    } else {
        match exact_landmark_of(name) {
            Some(id) => Some(id),
            None => pattern_landmark_of(name),
        }
    }
}

/// Recognises the format that a ZIP container really holds from its entry
/// names, in the order the container lists them. Unreadable entries are
/// passed over; without any landmark the result is "zip".
pub fn get_complex_zip_id(entries: &Vec<EntryRead>) -> (r: String)
    ensures
        r@ == sniff(entries@),
{
    let mut seen = false;
    let mut i: usize = 0;
    assert(entries@.subrange(0, entries@.len() as int) =~= entries@);
    while i < entries.len()
        invariant
            i <= entries@.len(),
            sniff(entries@) == sniff_scan(entries@.subrange(i as int, entries@.len() as int), seen),
        decreases entries.len() - i,
    {
        let ghost rest = entries@.subrange(i as int, entries@.len() as int);
        assert(rest.drop_first() =~= entries@.subrange(i + 1, entries@.len() as int));
        assert(rest[0] == entries@[i as int]);
        match &entries[i] {
            Err(_) => {},
            Ok(e) => {
                match landmark_of(e.name.as_str()) {
                    Some(id) => {
                        return id.to_string();
                    },
                    None => {
                        if same_text(e.name.as_str(), "META-INF/MANIFEST.MF") {
                            seen = true;
                        }
                    },
                }
            },
        }
        i = i + 1;
    }
    assert(entries@.subrange(i as int, entries@.len() as int).len() == 0);
    if seen {
        "jar".to_string()
    } else {
        "zip".to_string()
    }
}

/// The extension under which the registry knows the format that a ZIP
/// container with these entries really holds; `NotFound` where the registry
/// has no record of that format.
pub fn get_complex_zip_extension(registry: &ExtensionVec, entries: &Vec<EntryRead>) -> (r: Result<
    String,
    LookupError,
>)
    ensures
        match find_by_id(registry.extensions@, sniff(entries@), 0) {
            Some(i) => r is Ok && r->Ok_0@ == registry.extensions@[i].extension@,
            None => r == Err::<String, LookupError>(LookupError::NotFound),
        },
{
    let id = get_complex_zip_id(entries);
    get_extension_from_id(registry, id.as_str())
}

/// Whether a file with this nominal extension is worth sniffing: it claims to
/// be a ZIP, or claims nothing.
pub fn needs_sniffing(extension: &str) -> (r: bool)
    ensures
        r == (extension@ == "zip"@ || extension@.len() == 0),
{
    extension.is_empty() || same_text(extension, "zip")
}

} // verus!
