//! The inventory of an archive: totals, one record per listed entry, and the
//! warnings met on the way.
use vstd::prelude::*;

use crate::entry::{CompressionMethod, Timestamp};

verus! {

/// A ratio of `part` to `whole` in hundredths of a percent, at most 100%.
/// Nothing out of nothing is 0%; something out of nothing is 100%.
pub open spec fn clamped_ratio(part: nat, whole: nat) -> nat {
    if whole == 0 {
        if part == 0 {
            0
        } else {
            10000
        }
    } else if part * 10000 / whole > 10000 {
        10000
    } else {
        part * 10000 / whole
    }
}

/// Every ratio lies between 0% and 100%, whatever the pair of sizes,
/// including a size out of nothing and nothing out of nothing.
pub proof fn lemma_ratio_in_range(part: nat, whole: nat)
    ensures
        0 <= clamped_ratio(part, whole) <= 10000,
        part == 0 ==> clamped_ratio(part, whole) == 0,
{
    if whole > 0 && part == 0 {
        assert(part * 10000 == 0);
    }
}

pub(crate) fn clamped_ratio_exec(part: u128, whole: u128) -> (r: u32)
    requires
        part <= u64::MAX,
    ensures
        r == clamped_ratio(part as nat, whole as nat),
        r <= 10000,
{
    if whole == 0 {
        if part == 0 {
            0
        } else {
            10000
        }
    } else {
        let q = part * 10000 / whole;
        if q > 10000 {
            10000
        } else {
            q as u32
        }
    }
}

/// How much of an entry's size is left after compression, in hundredths of a
/// percent: `compressed / uncompressed`, clamped to 0..=10000 (0% to 100%).
/// `(0, 0)` gives 0; a nonzero size out of nothing gives 100%.
pub fn ratio_percent(compressed: u64, uncompressed: u64) -> (r: u32)
    ensures
        r == clamped_ratio(compressed as nat, uncompressed as nat),
        r <= 10000,
{
    clamped_ratio_exec(compressed as u128, uncompressed as u128)
}

/// The index of the last `c` among the first `n` characters of `s`, or -1.
pub open spec fn last_index_of(s: Seq<char>, c: char, n: int) -> int
    decreases n,
{
    if n <= 0 {
        -1
    } else if s[n - 1] == c {
        n - 1
    } else {
        last_index_of(s, c, n - 1)
    }
}

/// The last segment of a `/`-separated path.
pub open spec fn last_segment(path: Seq<char>) -> Seq<char> {
    path.subrange(last_index_of(path, '/', path.len() as int) + 1, path.len() as int)
}

/// The extension of a path: what follows the last dot of its last segment,
/// unless that dot begins the segment; empty without such a dot.
pub open spec fn file_suffix(path: Seq<char>) -> Seq<char> {
    let seg = last_segment(path);
    let dot = last_index_of(seg, '.', seg.len() as int);
    if dot <= 0 {
        Seq::empty()
    } else {
        seg.subrange(dot + 1, seg.len() as int)
    }
}

proof fn lemma_last_index_bounds(s: Seq<char>, c: char, n: int)
    requires
        0 <= n <= s.len(),
    ensures
        -1 <= last_index_of(s, c, n) < n,
        last_index_of(s, c, n) >= 0 ==> s[last_index_of(s, c, n)] == c,
    decreases n,
{
    if n > 0 && s[n - 1] != c {
        lemma_last_index_bounds(s, c, n - 1);
    }
}

fn last_index_of_exec(s: &str, len: usize, c: char) -> (r: usize)
    requires
        len == s@.len(),
    ensures
        r as int == last_index_of(s@, c, len as int) + 1,
{
    let mut n: usize = len;
    while n > 0
        invariant
            n <= len,
            len == s@.len(),
            last_index_of(s@, c, len as int) == last_index_of(s@, c, n as int),
        decreases n,
    {
        if s.get_char(n - 1) == c {
            return n;
        }
        n = n - 1;
    }
    0
}

/// The extension of `path`, as `file_suffix` states it.
pub fn suffix_of(path: &str) -> (r: String)
    ensures
        r@ == file_suffix(path@),
{
    let len = path.unicode_len();
    let start = last_index_of_exec(path, len, '/');
    proof {
        lemma_last_index_bounds(path@, '/', len as int);
    }
    let seg = path.substring_char(start, len);
    let seg_len = seg.unicode_len();
    let dot1 = last_index_of_exec(seg, seg_len, '.');
    proof {
        lemma_last_index_bounds(seg@, '.', seg_len as int);
    }
    if dot1 <= 1 {
        String::new()
    } else {
        seg.substring_char(dot1, seg_len).to_string()
    }
}

/// The distinct elements of `s`, each where it first occurs.
pub open spec fn first_seen(s: Seq<CompressionMethod>) -> Seq<CompressionMethod>
    decreases s.len(),
{
    if s.len() == 0 {
        Seq::empty()
    } else {
        let before = first_seen(s.drop_last());
        if before.contains(s.last()) {
            before
        } else {
            before.push(s.last())
        }
    }
}

/// `a` occurs among the first `q` elements of `s`.
pub open spec fn occurs_before(s: Seq<CompressionMethod>, a: CompressionMethod, q: int) -> bool {
    exists|p: int| 0 <= p < q && s[p] == a
}

/// The list of distinct compression methods holds each method of the entries
/// exactly once and nothing else, and orders them by first appearance: a
/// method listed before another occurs in the entries before every occurrence
/// of the other.
pub proof fn lemma_first_seen(s: Seq<CompressionMethod>)
    ensures
        first_seen(s).no_duplicates(),
        forall|m: CompressionMethod| first_seen(s).contains(m) <==> s.contains(m),
        forall|i: int, j: int, q: int|
            #![trigger first_seen(s)[i], first_seen(s)[j], s[q]]
            0 <= i < j < first_seen(s).len() && 0 <= q < s.len() && s[q] == first_seen(s)[j]
                ==> occurs_before(s, first_seen(s)[i], q),
    decreases s.len(),
{
    if s.len() > 0 {
        let t = s.drop_last();
        let y = s.last();
        let before = first_seen(t);
        lemma_first_seen(t);
        assert forall|m: CompressionMethod| s.contains(m) <==> (t.contains(m) || m == y) by {
            if s.contains(m) {
                let k = choose|k: int| 0 <= k < s.len() && s[k] == m;
                if k < s.len() - 1 {
                    assert(t[k] == m);
                }
            }
            if t.contains(m) {
                let k = choose|k: int| 0 <= k < t.len() && t[k] == m;
                assert(s[k] == m);
            }
            if m == y {
                assert(s[s.len() - 1] == m);
            }
        }
        let r = first_seen(s);
        if !before.contains(y) {
            assert(r == before.push(y));
            assert forall|m: CompressionMethod| r.contains(m) <==> (before.contains(m) || m == y) by {
                if r.contains(m) {
                    let k = choose|k: int| 0 <= k < r.len() && r[k] == m;
                    if k < before.len() {
                        assert(before[k] == m);
                    }
                }
                if before.contains(m) {
                    let k = choose|k: int| 0 <= k < before.len() && before[k] == m;
                    assert(r[k] == m);
                }
                if m == y {
                    assert(r[r.len() - 1] == m);
                }
            }
        }
        assert forall|i: int, j: int, q: int|
            #![trigger r[i], r[j], s[q]]
            0 <= i < j < r.len() && 0 <= q < s.len() && s[q] == r[j] implies occurs_before(
                s,
                r[i],
                q,
            ) by {
            if q < s.len() - 1 {
                assert(t[q] == s[q]);
                if j < before.len() {
                    assert(r[j] == before[j]);
                    assert(r[i] == before[i]);
                    assert(occurs_before(t, before[i], q));
                    let p = choose|p: int| 0 <= p < q && t[p] == before[i];
                    assert(s[p] == t[p]);
                } else {
                    assert(r[j] == y);
                    assert(t.contains(y));
                    assert(false);
                }
            } else {
                assert(r[i] == before[i]);
                assert(before.contains(before[i]));
                assert(t.contains(before[i]));
                let p = choose|p: int| 0 <= p < t.len() && t[p] == before[i];
                assert(s[p] == t[p]);
            }
        }
    }
}

/// What an archive says of its own comment.
#[derive(Clone, Debug)]
pub enum ArchiveComment {
    /// No comment, or one that could not be read as text.
    Absent,
    Text(String),
    /// A comment is there but is not rendered as text.
    Unrendered,
}

/// What is listed of one entry.
#[derive(Clone, Debug)]
pub struct EntryRecord {
    pub display_path: String,
    pub is_directory: bool,
    /// `None` where the container does not report it.
    pub compressed_size: Option<u64>,
    pub uncompressed_size: u64,
    /// In hundredths of a percent, 0..=10000; present with `compressed_size`.
    pub ratio_percent: Option<u32>,
    /// The registry's name for the extension of the entry's own path.
    pub kind_name: String,
    pub last_modified: Option<Timestamp>,
    pub crc32: u32,
    pub encrypted: bool,
    /// The entry continues in another volume.
    pub partial: bool,
    /// The entry's comment, where it has a non-empty one.
    pub comment: Option<String>,
}

/// The inventory of one archive.
#[derive(Clone, Debug)]
pub struct ArchiveReport {
    pub archive_comment: ArchiveComment,
    /// The size of the archive file: container overhead included.
    pub total_compressed_size: u64,
    /// The sum of the uncompressed sizes of all readable entries.
    pub total_uncompressed_size: u128,
    /// `total_compressed_size` against `total_uncompressed_size`, in
    /// hundredths of a percent, at most 10000.
    pub overall_ratio: u32,
    /// Each method used by a listed entry once, in order of first use.
    pub compression_methods_used: Vec<CompressionMethod>,
    pub entries: Vec<EntryRecord>,
    pub warnings: Vec<String>,
}

/// The characters of an optional text.
pub open spec fn view_string_option(o: Option<String>) -> Option<Seq<char>> {
    match o {
        Some(s) => Some(s@),
        None => None,
    }
}

/// The characters of each text of a list.
pub open spec fn view_strings(v: Seq<String>) -> Seq<Seq<char>> {
    v.map_values(|s: String| s@)
}

} // verus!
