//! The rules of a directory listing: which files are photos, what an entry
//! records, and the order in which entries are shown.

use vstd::prelude::*;
use vstd::string::*;
use crate::models::DirectoryEntry;
use crate::text::chars_of;

verus! {

/// The lowercase equivalent of a text, as `str::to_lowercase` gives it.
pub uninterp spec fn lowercased(text: Seq<char>) -> Seq<char>;

/// `str::to_lowercase` gives the lowercase equivalent of a text as a new
/// text. The contract only gives the outcome its name, [`lowercased`].
pub assume_specification[ str::to_lowercase ](text: &str) -> (lower: String)
    ensures
        lower@ == lowercased(text@),
;

/// A letter `A` to `Z` as its small letter; any other character as it is.
pub open spec fn ascii_lower(c: char) -> char {
    if 'A' <= c <= 'Z' {
        ((c as u8) + 32) as char
    } else {
        c
    }
}

/// `text` with its letters `A` to `Z` made small.
pub open spec fn ascii_lowered(text: Seq<char>) -> Seq<char> {
    text.map_values(|c: char| ascii_lower(c))
}

/// Whether a file name's extension, without the dot, is that of a photo:
/// one of `jpg`, `jpeg`, `png`, `tiff`, `tif` and `webp`, in letters of
/// either case.
pub open spec fn is_photo_extension(extension: Seq<char>) -> bool {
    let lower = ascii_lowered(extension);
    ||| lower == "jpg"@
    ||| lower == "jpeg"@
    ||| lower == "png"@
    ||| lower == "tiff"@
    ||| lower == "tif"@
    ||| lower == "webp"@
}

/// Whether a file name's extension, without the dot, is that of a photo.
pub fn is_supported_extension(extension: &str) -> (supported: bool)
    ensures
        supported == is_photo_extension(extension@),
{
    let mut lower = String::new();
    for c in it: extension.chars()
        invariant
            it.seq() == extension@,
            lower@ == ascii_lowered(extension@.take(it.index() as int)),
    {
        let small = if 'A' <= c && c <= 'Z' {
            ((c as u8) + 32) as char
        } else {
            c
        };
        lower.push(small);
    }
    assert(extension@.take(extension@.len() as int) == extension@);
    lower == String::from_str("jpg") || lower == String::from_str("jpeg") || lower
        == String::from_str("png") || lower == String::from_str("tiff") || lower
        == String::from_str("tif") || lower == String::from_str("webp")
}

/// Whether a directory's entry is listed: every folder, and every file
/// whose extension is that of a photo.
pub fn is_listed(is_directory: bool, extension: Option<&str>) -> (listed: bool)
    ensures
        listed == (is_directory || (extension matches Some(e) && is_photo_extension(e@))),
{
    if is_directory {
        true
    } else {
        match extension {
            Some(e) => is_supported_extension(e),
            None => false,
        }
    }
}

/// The entry of a listing for a folder or a file. A folder is recorded with
/// the size 0, whatever the file system says of it.
pub fn directory_entry(
    name: String,
    path: String,
    is_directory: bool,
    modified_time: String,
    length: u64,
) -> (entry: DirectoryEntry)
    ensures
        entry.name == name,
        entry.path == path,
        entry.is_directory == is_directory,
        entry.modified_time == modified_time,
        entry.captured_time is None,
        entry.file_size == if is_directory {
            0
        } else {
            length
        },
{
    DirectoryEntry {
        name,
        path,
        is_directory,
        modified_time,
        captured_time: None,
        file_size: if is_directory {
            0
        } else {
            length
        },
    }
}

/// Whether `a` comes before `b`, or is `b`, in the order of a dictionary
/// whose letters are ordered by their code points.
pub open spec fn text_le(a: Seq<char>, b: Seq<char>) -> bool
    decreases a.len(),
{
    if a.len() == 0 {
        true
    } else if b.len() == 0 {
        false
    } else if a[0] != b[0] {
        a[0] < b[0]
    } else {
        text_le(a.drop_first(), b.drop_first())
    }
}

/// Whether an entry may stand before another: a folder before a file, and
/// among folders and among files the names in dictionary order, their
/// letters taken as small letters.
pub open spec fn entry_le(a: DirectoryEntry, b: DirectoryEntry) -> bool {
    key_le(a.is_directory, lowercased(a.name@), b.is_directory, lowercased(b.name@))
}

/// [`entry_le`] on what it reads of the two entries: whether each is a
/// folder, and each name in small letters.
pub open spec fn key_le(a_folder: bool, a_name: Seq<char>, b_folder: bool, b_name: Seq<char>) -> bool {
    if a_folder != b_folder {
        a_folder
    } else {
        text_le(a_name, b_name)
    }
}

/// Whether `sorted` holds the entries of `entries` from the place `from`
/// on, in the order of [`entry_le`], entries that may stand either way
/// round left in the order they came in. `places` gives for each entry of
/// `sorted` its place in `entries`.
pub open spec fn is_stable_order(
    sorted: Seq<DirectoryEntry>,
    entries: Seq<DirectoryEntry>,
    places: Seq<int>,
    from: int,
) -> bool {
    &&& 0 <= from <= entries.len()
    &&& sorted.len() == entries.len() - from
    &&& places.len() == sorted.len()
    &&& forall|i: int| 0 <= i < places.len() ==> from <= #[trigger] places[i] < entries.len()
    &&& forall|i: int, j: int|
        0 <= i < j < places.len() ==> #[trigger] places[i] != #[trigger] places[j]
    &&& forall|i: int| 0 <= i < sorted.len() ==> #[trigger] sorted[i] == entries[places[i]]
    &&& forall|i: int, j: int|
        0 <= i < j < sorted.len() ==> entry_le(#[trigger] sorted[i], #[trigger] sorted[j])
    &&& forall|i: int, j: int|
        0 <= i < j < sorted.len() && entry_le(#[trigger] sorted[j], #[trigger] sorted[i])
            ==> places[i] < places[j]
}

/// Whether `sorted` is all of `entries` in the order of [`entry_le`],
/// entries that may stand either way round left in the order they came in.
/// `places` gives for each entry of `sorted` its place in `entries`.
pub open spec fn is_stable_sort(
    sorted: Seq<DirectoryEntry>,
    entries: Seq<DirectoryEntry>,
    places: Seq<int>,
) -> bool {
    is_stable_order(sorted, entries, places, 0)
}

/// Of two texts one comes before the other, or they are the same.
pub proof fn lemma_text_le_total(a: Seq<char>, b: Seq<char>)
    ensures
        text_le(a, b) || text_le(b, a),
    decreases a.len(),
{
    if a.len() > 0 && b.len() > 0 && a[0] == b[0] {
        lemma_text_le_total(a.drop_first(), b.drop_first());
    }
}

/// What comes before a text comes before all that the text comes before.
pub proof fn lemma_text_le_transitive(a: Seq<char>, b: Seq<char>, c: Seq<char>)
    requires
        text_le(a, b),
        text_le(b, c),
    ensures
        text_le(a, c),
    decreases a.len(),
{
    if a.len() > 0 && b.len() > 0 && c.len() > 0 && a[0] == b[0] && b[0] == c[0] {
        lemma_text_le_transitive(a.drop_first(), b.drop_first(), c.drop_first());
    }
}

/// Of two entries one may stand before the other.
pub proof fn lemma_entry_le_total(a: DirectoryEntry, b: DirectoryEntry)
    ensures
        entry_le(a, b) || entry_le(b, a),
{
    lemma_text_le_total(lowercased(a.name@), lowercased(b.name@));
}

/// The order of entries carries over.
pub proof fn lemma_entry_le_transitive(a: DirectoryEntry, b: DirectoryEntry, c: DirectoryEntry)
    requires
        entry_le(a, b),
        entry_le(b, c),
    ensures
        entry_le(a, c),
{
    if a.is_directory == b.is_directory && b.is_directory == c.is_directory {
        lemma_text_le_transitive(lowercased(a.name@), lowercased(b.name@), lowercased(c.name@));
    }
}

/// An order of the entries from a place on takes in the entry before that
/// place: it goes in front of the first entry that it may stand before.
proof fn lemma_insert_earlier(
    sorted: Seq<DirectoryEntry>,
    entries: Seq<DirectoryEntry>,
    places: Seq<int>,
    from: int,
    at: int,
)
    requires
        is_stable_order(sorted, entries, places, from),
        from > 0,
        0 <= at <= sorted.len(),
        forall|i: int| 0 <= i < at ==> !entry_le(entries[from - 1], #[trigger] sorted[i]),
        at < sorted.len() ==> entry_le(entries[from - 1], sorted[at]),
    ensures
        is_stable_order(
            sorted.insert(at, entries[from - 1]),
            entries,
            places.insert(at, from - 1),
            from - 1,
        ),
{
    let entry = entries[from - 1];
    assert forall|i: int| 0 <= i < at implies entry_le(#[trigger] sorted[i], entry) by {
        lemma_entry_le_total(sorted[i], entry);
    }
    assert forall|j: int| at <= j < sorted.len() implies entry_le(entry, #[trigger] sorted[j]) by {
        if j > at {
            lemma_entry_le_transitive(entry, sorted[at], sorted[j]);
        }
    }
}

/// Whether `a` comes before `b`, or is `b`, in dictionary order.
fn text_precedes(a: &Vec<char>, b: &Vec<char>) -> (le: bool)
    ensures
        le == text_le(a@, b@),
{
    let mut i: usize = 0;
    assert(a@.skip(0) == a@ && b@.skip(0) == b@);
    while i < a.len() && i < b.len()
        invariant
            i <= a@.len(),
            i <= b@.len(),
            text_le(a@, b@) == text_le(a@.skip(i as int), b@.skip(i as int)),
        decreases a@.len() - i,
    {
        proof {
            assert(a@.skip(i as int).drop_first() == a@.skip(i + 1));
            assert(b@.skip(i as int).drop_first() == b@.skip(i + 1));
        }
        if a[i] != b[i] {
            return a[i] < b[i];
        }
        i = i + 1;
    }
    i == a.len()
}

/// Whether an entry may stand before another, by what the order reads of
/// the two.
fn key_precedes(a_folder: bool, a_name: &Vec<char>, b_folder: bool, b_name: &Vec<char>) -> (le: bool)
    ensures
        le == key_le(a_folder, a_name@, b_folder, b_name@),
{
    if a_folder != b_folder {
        a_folder
    } else {
        text_precedes(a_name, b_name)
    }
}

/// The key by which an entry is ordered: its name in small letters.
fn sort_key(entry: &DirectoryEntry) -> (key: Vec<char>)
    ensures
        key@ == lowercased(entry.name@),
{
    let lower = entry.name.as_str().to_lowercase();
    chars_of(lower.as_str())
}

/// Puts the entries of a listing in order: folders first, then files, each
/// group by name without regard to the case of letters. Entries whose names
/// differ in case only stay in the order they came in.
pub fn sort_entries(entries: Vec<DirectoryEntry>) -> (sorted: Vec<DirectoryEntry>)
    ensures
        exists|places: Seq<int>| is_stable_sort(sorted@, entries@, places),
{
    let ghost given = entries@;
    let mut pending = entries;
    let mut sorted: Vec<DirectoryEntry> = Vec::new();
    let mut keys: Vec<Vec<char>> = Vec::new();
    let ghost mut places: Seq<int> = Seq::empty();
    while pending.len() > 0
        invariant
            pending@ == given.take(pending@.len() as int),
            is_stable_order(sorted@, given, places, pending@.len() as int),
            keys@.len() == sorted@.len(),
            forall|i: int|
                0 <= i < keys@.len() ==> (#[trigger] keys@[i])@ == lowercased(sorted@[i].name@),
        decreases pending@.len(),
    {
        let ghost from = pending@.len() as int;
        let entry = pending.pop().unwrap();
        let key = sort_key(&entry);
        let mut at: usize = 0;
        while at < sorted.len() && !key_precedes(
            entry.is_directory,
            &key,
            sorted[at].is_directory,
            &keys[at],
        )
            invariant
                at <= sorted@.len(),
                keys@.len() == sorted@.len(),
                key@ == lowercased(entry.name@),
                forall|i: int|
                    0 <= i < keys@.len() ==> (#[trigger] keys@[i])@ == lowercased(
                        sorted@[i].name@,
                    ),
                forall|i: int| 0 <= i < at ==> !entry_le(entry, #[trigger] sorted@[i]),
            decreases sorted@.len() - at,
        {
            at = at + 1;
        }
        proof {
            lemma_insert_earlier(sorted@, given, places, from, at as int);
            places = places.insert(at as int, from - 1);
        }
        sorted.insert(at, entry);
        keys.insert(at, key);
    }
    assert(is_stable_sort(sorted@, given, places));
    sorted
}

} // verus!
