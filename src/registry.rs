//! The extension registry: what is known of each file extension, loaded once
//! by the caller and consulted by reference.
use vstd::prelude::*;

use crate::text::same_text;

verus! {

/// The broad kind of content that files of an extension hold.
#[derive(Clone, Copy, Debug, PartialEq, Eq, Structural)]
pub enum Category {
    /// Files and directories stored in a single, possibly compressed, archive.
    Archive,
    /// Music, sounds, recordings, ringtones, speech synthesis.
    Audio,
    /// Backup files of applications.
    Backup,
    /// Calendars.
    Calendar,
    /// Compressed single files or streams.
    Compressed,
    /// Configuration files.
    Config,
    /// Address books and contacts.
    Contacts,
    /// Electronic currencies.
    Currency,
    /// Organized collections of data.
    Database,
    /// Visual information using graphics and spatial relationships.
    Diagram,
    /// Floppy disk images, optical disc images and virtual machine disks.
    Disk,
    /// Word processing and desktop publishing documents.
    Document,
    /// Electronic books.
    Ebook,
    /// Machine-executable code, virtual machine code and shared libraries.
    Executable,
    /// Typefaces.
    Font,
    /// Mathematical formulas.
    Formula,
    /// Game data such as saves.
    Gamedata,
    /// Geospatial features, GPS tracks and other location-related files.
    Geospatial,
    /// Haptic effects.
    Haptics,
    /// Help files and manual pages.
    Help,
    /// Animations, raster and vector graphics, icons, cursors.
    Image,
    /// Installers.
    Installer,
    /// Data that describe other data.
    Metadata,
    /// 3D images, CAD/CAM drawings.
    Model,
    /// Anything not covered by another category.
    Other,
    /// Collections of files bundled together for distribution.
    Package,
    /// Ordered lists of audio or video files.
    Playlist,
    /// Slideshows.
    Presentation,
    /// Copies of read-only memory chips.
    Rom,
    /// Temporary application files.
    Temporary,
    /// Data in tabular form.
    Spreadsheet,
    /// Subtitles, captions and annotations.
    Subtitle,
    /// Video streams and containers.
    Video,
}

/// Every category, in declaration order.
pub open spec fn all_categories() -> Seq<Category> {
    seq![
        Category::Archive, Category::Audio, Category::Backup, Category::Calendar,
        Category::Compressed, Category::Config, Category::Contacts, Category::Currency,
        Category::Database, Category::Diagram, Category::Disk, Category::Document,
        Category::Ebook, Category::Executable, Category::Font, Category::Formula,
        Category::Gamedata, Category::Geospatial, Category::Haptics, Category::Help,
        Category::Image, Category::Installer, Category::Metadata, Category::Model,
        Category::Other, Category::Package, Category::Playlist, Category::Presentation,
        Category::Rom, Category::Temporary, Category::Spreadsheet, Category::Subtitle,
        Category::Video,
    ]
}

/// The name under which a category is written.
pub open spec fn category_name(c: Category) -> Seq<char> {
    match c {
        Category::Archive => "Archive"@,
        Category::Audio => "Audio"@,
        Category::Backup => "Backup"@,
        Category::Calendar => "Calendar"@,
        Category::Compressed => "Compressed"@,
        Category::Config => "Config"@,
        Category::Contacts => "Contacts"@,
        Category::Currency => "Currency"@,
        Category::Database => "Database"@,
        Category::Diagram => "Diagram"@,
        Category::Disk => "Disk"@,
        Category::Document => "Document"@,
        Category::Ebook => "Ebook"@,
        Category::Executable => "Executable"@,
        Category::Font => "Font"@,
        Category::Formula => "Formula"@,
        Category::Gamedata => "Gamedata"@,
        Category::Geospatial => "Geospatial"@,
        Category::Haptics => "Haptics"@,
        Category::Help => "Help"@,
        Category::Image => "Image"@,
        Category::Installer => "Installer"@,
        Category::Metadata => "Metadata"@,
        Category::Model => "Model"@,
        Category::Other => "Other"@,
        Category::Package => "Package"@,
        Category::Playlist => "Playlist"@,
        Category::Presentation => "Presentation"@,
        Category::Rom => "Rom"@,
        Category::Temporary => "Temporary"@,
        Category::Spreadsheet => "Spreadsheet"@,
        Category::Subtitle => "Subtitle"@,
        Category::Video => "Video"@,
    }
}

/// An ASCII capital letter.
pub open spec fn is_ascii_upper(c: char) -> bool {
    'A' <= c && c <= 'Z'
}

/// Two characters are equal once ASCII capitals are lowered.
pub open spec fn same_char_ignoring_ascii_case(a: char, b: char) -> bool {
    a == b || (is_ascii_upper(a) && a as u32 + 32 == b as u32) || (is_ascii_upper(b) && b as u32
        + 32 == a as u32)
}

/// Two texts are equal once ASCII capitals are lowered.
pub open spec fn same_ignoring_ascii_case(s: Seq<char>, t: Seq<char>) -> bool {
    s.len() == t.len() && forall|i: int|
        0 <= i < s.len() ==> same_char_ignoring_ascii_case(#[trigger] s[i], t[i])
}

/// The first category, from position `from` of `all_categories()` on, whose
/// name matches `token` regardless of ASCII case; `Other` if none does.
pub open spec fn category_from(token: Seq<char>, from: int) -> Category
    decreases all_categories().len() - from,
{
    if from < 0 || from >= all_categories().len() {
        Category::Other
    } else if same_ignoring_ascii_case(token, category_name(all_categories()[from])) {
        all_categories()[from]
    } else {
        category_from(token, from + 1)
    }
}

/// The category written as `token`, in any ASCII case; unknown tokens are `Other`.
pub open spec fn category_of(token: Seq<char>) -> Category {
    category_from(token, 0)
}

fn same_char_ignoring_ascii_case_exec(a: char, b: char) -> (r: bool)
    ensures
        r == same_char_ignoring_ascii_case(a, b),
{
    let x = a as u32;
    let y = b as u32;
    x == y || ('A' <= a && a <= 'Z' && x + 32 == y) || ('A' <= b && b <= 'Z' && y + 32 == x)
}

/// Whether `s` and `t` are equal once ASCII capitals are lowered.
pub fn eq_ignoring_ascii_case(s: &str, t: &str) -> (r: bool)
    ensures
        r == same_ignoring_ascii_case(s@, t@),
{
    let n = s.unicode_len();
    if n != t.unicode_len() {
        return false;
    }
    let mut i: usize = 0;
    while i < n
        invariant
            n == s@.len(),
            n == t@.len(),
            i <= n,
            forall|j: int| 0 <= j < i ==> same_char_ignoring_ascii_case(#[trigger] s@[j], t@[j]),
        decreases n - i,
    {
        if !same_char_ignoring_ascii_case_exec(s.get_char(i), t.get_char(i)) {
            return false;
        }
        i = i + 1;
    }
    true
}

impl Category {
    /// The name under which this category is written.
    pub fn name(&self) -> (r: &'static str)
        ensures
            r@ == category_name(*self),
    {
        match self {
            Category::Archive => "Archive",
            Category::Audio => "Audio",
            Category::Backup => "Backup",
            Category::Calendar => "Calendar",
            Category::Compressed => "Compressed",
            Category::Config => "Config",
            Category::Contacts => "Contacts",
            Category::Currency => "Currency",
            Category::Database => "Database",
            Category::Diagram => "Diagram",
            Category::Disk => "Disk",
            Category::Document => "Document",
            Category::Ebook => "Ebook",
            Category::Executable => "Executable",
            Category::Font => "Font",
            Category::Formula => "Formula",
            Category::Gamedata => "Gamedata",
            Category::Geospatial => "Geospatial",
            Category::Haptics => "Haptics",
            Category::Help => "Help",
            Category::Image => "Image",
            Category::Installer => "Installer",
            Category::Metadata => "Metadata",
            Category::Model => "Model",
            Category::Other => "Other",
            Category::Package => "Package",
            Category::Playlist => "Playlist",
            Category::Presentation => "Presentation",
            Category::Rom => "Rom",
            Category::Temporary => "Temporary",
            Category::Spreadsheet => "Spreadsheet",
            Category::Subtitle => "Subtitle",
            Category::Video => "Video",
        }
    }

    /// Reads a category token of the registry, in any ASCII case. A token
    /// that names no category is `Other`: this never fails.
    pub fn from_token(token: &str) -> (r: Category)
        ensures
            r == category_of(token@),
    {
        let all = vec![
            Category::Archive, Category::Audio, Category::Backup, Category::Calendar,
            Category::Compressed, Category::Config, Category::Contacts, Category::Currency,
            Category::Database, Category::Diagram, Category::Disk, Category::Document,
            Category::Ebook, Category::Executable, Category::Font, Category::Formula,
            Category::Gamedata, Category::Geospatial, Category::Haptics, Category::Help,
            Category::Image, Category::Installer, Category::Metadata, Category::Model,
            Category::Other, Category::Package, Category::Playlist, Category::Presentation,
            Category::Rom, Category::Temporary, Category::Spreadsheet, Category::Subtitle,
            Category::Video,
        ];
        assert(all@ == all_categories());
        let mut i: usize = 0;
        while i < all.len()
            invariant
                all@ == all_categories(),
                i <= all@.len(),
                category_of(token@) == category_from(token@, i as int),
            decreases all.len() - i,
        {
            let c = all[i];
            if eq_ignoring_ascii_case(token, c.name()) {
                return c;
            }
            i = i + 1;
        }
        Category::Other
    }
}

/// What the registry knows of one extension.
#[derive(Clone, Debug)]
pub struct Extension {
    /// The registry's own key for the format.
    pub id: String,
    /// The extension, without its dot.
    pub extension: String,
    pub name: String,
    pub category: Category,
    pub description: String,
    pub further_reading: String,
    pub preferred_mime: String,
    pub mime: Vec<String>,
}

/// The whole registry, in the order of its source.
#[derive(Clone, Debug)]
pub struct ExtensionVec {
    pub extensions: Vec<Extension>,
}

/// A lookup in the registry found nothing.
#[derive(Clone, Copy, Debug, PartialEq, Eq, Structural)]
pub enum LookupError {
    NotFound,
}

impl LookupError {
    /// The message that explains the failure.
    pub fn message(&self) -> (r: &'static str)
        ensures
            r@ == "extension was not found by looking through extensions file!"@,
    {
        "extension was not found by looking through extensions file!"
    }
}

/// The first position, from `from` on, whose `id` is `id`.
pub open spec fn find_by_id(exts: Seq<Extension>, id: Seq<char>, from: int) -> Option<int>
    decreases exts.len() - from,
{
    if from < 0 || from >= exts.len() {
        None
    } else if exts[from].id@ == id {
        Some(from)
    } else {
        find_by_id(exts, id, from + 1)
    }
}

/// The first position, from `from` on, whose `extension` is `ext`.
pub open spec fn find_by_extension(exts: Seq<Extension>, ext: Seq<char>, from: int) -> Option<
    int,
>
    decreases exts.len() - from,
{
    if from < 0 || from >= exts.len() {
        None
    } else if exts[from].extension@ == ext {
        Some(from)
    } else {
        find_by_extension(exts, ext, from + 1)
    }
}

/// The display name of the extension `ext`: that of its first record, or
/// "unknown type".
pub open spec fn extension_name(exts: Seq<Extension>, ext: Seq<char>) -> Seq<char> {
    match find_by_extension(exts, ext, 0) {
        Some(i) => exts[i].name@,
        None => "unknown type"@,
    }
}

/// The positions among the first `n` records whose `extension` is `ext`, in order.
pub open spec fn positions_with_extension(exts: Seq<Extension>, ext: Seq<char>, n: int) -> Seq<
    usize,
>
    decreases n,
{
    if n <= 0 {
        Seq::empty()
    } else {
        let before = positions_with_extension(exts, ext, n - 1);
        if exts[n - 1].extension@ == ext {
            before.push((n - 1) as usize)
        } else {
            before
        }
    }
}

/// The media types of a record other than its preferred one, among the first `n`.
pub open spec fn alternate_mimes(mime: Seq<String>, preferred: Seq<char>, n: int) -> Seq<
    Seq<char>,
>
    decreases n,
{
    if n <= 0 {
        Seq::empty()
    } else {
        let before = alternate_mimes(mime, preferred, n - 1);
        if mime[n - 1]@ == preferred {
            before
        } else {
            before.push(mime[n - 1]@)
        }
    }
}

/// The extension registered for the format identifier `id`: that of the first
/// record with this id, or `NotFound`.
pub fn get_extension_from_id(registry: &ExtensionVec, id: &str) -> (r: Result<String, LookupError>)
    ensures
        match find_by_id(registry.extensions@, id@, 0) {
            Some(i) => r is Ok && r->Ok_0@ == registry.extensions@[i].extension@,
            None => r == Err::<String, LookupError>(LookupError::NotFound),
        },
{
    let exts = &registry.extensions;
    let mut i: usize = 0;
    while i < exts.len()
        invariant
            exts@ == registry.extensions@,
            i <= exts@.len(),
            find_by_id(exts@, id@, 0) == find_by_id(exts@, id@, i as int),
        decreases exts.len() - i,
    {
        if same_text(exts[i].id.as_str(), id) {
            return Ok(exts[i].extension.clone());
        }
        i = i + 1;
    }
    Err(LookupError::NotFound)
}

/// The display name of the extension `extension`, or "unknown type".
pub fn get_extension_name(registry: &ExtensionVec, extension: &str) -> (r: String)
    ensures
        r@ == extension_name(registry.extensions@, extension@),
{
    let exts = &registry.extensions;
    let mut i: usize = 0;
    while i < exts.len()
        invariant
            exts@ == registry.extensions@,
            i <= exts@.len(),
            find_by_extension(exts@, extension@, 0) == find_by_extension(
                exts@,
                extension@,
                i as int,
            ),
        decreases exts.len() - i,
    {
        if same_text(exts[i].extension.as_str(), extension) {
            return exts[i].name.clone();
        }
        i = i + 1;
    }
    "unknown type".to_string()
}

/// The positions of all records of the extension `extension`, in registry order.
pub fn matching_extensions(registry: &ExtensionVec, extension: &str) -> (r: Vec<usize>)
    ensures
        r@ == positions_with_extension(
            registry.extensions@,
            extension@,
            registry.extensions@.len() as int,
        ),
{
    let exts = &registry.extensions;
    let mut r: Vec<usize> = Vec::new();
    let mut i: usize = 0;
    while i < exts.len()
        invariant
            exts@ == registry.extensions@,
            i <= exts@.len(),
            r@ == positions_with_extension(exts@, extension@, i as int),
        decreases exts.len() - i,
    {
        if same_text(exts[i].extension.as_str(), extension) {
            r.push(i);
        }
        i = i + 1;
    }
    r
}

/// The media types of `ext` other than its preferred one, in their order.
pub fn other_mimes(ext: &Extension) -> (r: Vec<String>)
    ensures
        r@.map_values(|m: String| m@) == alternate_mimes(
            ext.mime@,
            ext.preferred_mime@,
            ext.mime@.len() as int,
        ),
{
    let mut r: Vec<String> = Vec::new();
    let mut i: usize = 0;
    while i < ext.mime.len()
        invariant
            i <= ext.mime@.len(),
            r@.map_values(|m: String| m@) == alternate_mimes(
                ext.mime@,
                ext.preferred_mime@,
                i as int,
            ),
        decreases ext.mime.len() - i,
    {
        if ext.mime[i] != ext.preferred_mime {
            r.push(ext.mime[i].clone());
            assert(r@.map_values(|m: String| m@) =~= alternate_mimes(
                ext.mime@,
                ext.preferred_mime@,
                i as int,
            ).push(ext.mime@[i as int]@));
        }
        i = i + 1;
    }
    r
}

} // verus!
