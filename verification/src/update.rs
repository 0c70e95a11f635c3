//! The list of downloaded files: which files there are, under what names,
//! newest first.

use vstd::hash_map::StringHashMap;
use vstd::prelude::*;
use crate::text::{str_eq, str_of, text_of};

verus! {

#[verifier::external_type_specification]
#[verifier::external_body]
pub struct ExJsonValue(serde_json::Value);

/// What the named group of the leftmost match of a pattern in a text holds;
/// nothing where the pattern does not match, has no such group, or the group
/// took no part in the match.
pub uninterp spec fn regex_named_capture(
    pattern: Seq<char>,
    text: Seq<char>,
    group: Seq<char>,
) -> Option<Seq<char>>;

/// The elements of the array that a JSON text holds; nothing where the text
/// is no JSON array.
pub uninterp spec fn json_list(content: Seq<char>) -> Option<Seq<serde_json::Value>>;

/// What a JSON value holds under a key.
pub uninterp spec fn json_field(value: serde_json::Value, key: Seq<char>) -> FieldView;

/// What an entry of the stored list holds under one key.
#[derive(Clone, Debug, PartialEq, Eq)]
pub enum Field {
    /// The entry is no object, or has no such key.
    Missing,
    /// The key is there with a value that is no text.
    Other,
    /// The key is there with this text.
    Text(String),
}

/// What a field is.
pub enum FieldView {
    Missing,
    Other,
    Text(Seq<char>),
}

impl View for Field {
    type V = FieldView;

    open spec fn view(&self) -> FieldView {
        match *self {
            Field::Missing => FieldView::Missing,
            Field::Other => FieldView::Other,
            Field::Text(text) => FieldView::Text(text@),
        }
    }
}

/// An entry of the stored list, as far as the listing reads it.
#[derive(Clone, Debug, PartialEq, Eq)]
pub struct Known {
    pub id: Field,
    pub name: Field,
}

/// What an entry of the stored list is.
pub struct KnownView {
    pub id: FieldView,
    pub name: FieldView,
}

impl View for Known {
    type V = KnownView;

    open spec fn view(&self) -> KnownView {
        KnownView { id: self.id@, name: self.name@ }
    }
}

/// What a list of entries holds.
pub open spec fn known_views(entries: Seq<Known>) -> Seq<KnownView> {
    entries.map_values(|e: Known| e@)
}

/// A file that was found in the download folder.
#[derive(Clone, Debug, PartialEq, Eq)]
pub struct FoundFile {
    pub path: String,
    /// When the file was created, in milliseconds.
    pub created: u64,
}

/// What a found file is.
pub struct FoundView {
    pub path: Seq<char>,
    pub created: u64,
}

impl View for FoundFile {
    type V = FoundView;

    open spec fn view(&self) -> FoundView {
        FoundView { path: self.path@, created: self.created }
    }
}

/// What a list of found files holds.
pub open spec fn found_views(files: Seq<FoundFile>) -> Seq<FoundView> {
    files.map_values(|f: FoundFile| f@)
}

/// One line of the list of downloads.
#[derive(Clone, Debug, PartialEq, Eq)]
pub struct FileMetadata {
    pub name: String,
    pub ext: String,
    pub created: u64,
    pub id: String,
}

/// What a line of the list of downloads is.
pub struct FileView {
    pub name: Seq<char>,
    pub ext: Seq<char>,
    pub created: u64,
    pub id: Seq<char>,
}

impl View for FileMetadata {
    type V = FileView;

    open spec fn view(&self) -> FileView {
        FileView { name: self.name@, ext: self.ext@, created: self.created, id: self.id@ }
    }
}

/// What a list of lines holds.
pub open spec fn file_views(list: Seq<FileMetadata>) -> Seq<FileView> {
    list.map_values(|f: FileMetadata| f@)
}

/// Why no list of downloads was made.
#[derive(Clone, Copy, Debug, PartialEq, Eq, Structural)]
pub enum DownloadError {
    /// The pattern for file names was not accepted where a path was searched
    /// with it.
    Pattern,
    /// The path of a file does not end in an identifier, one character and
    /// an extension.
    NoMatch,
    /// The stored entry of a file has no name.
    NameMissing,
}

/// The pattern for the path of a downloaded file: an identifier of letters,
/// digits and underscores, one character, and an extension up to the end.
pub open spec fn file_pattern() -> Seq<char> {
    "(?P<id>[\\d\\w]+).(?P<ext>\\w+)$"@
}

/// The pattern for the path of a downloaded file.
pub fn file_pattern_str() -> (r: &'static str)
    ensures
        r@ == file_pattern(),
{
    "(?P<id>[\\d\\w]+).(?P<ext>\\w+)$"
}

/// Compiles a pattern with `regex::Regex::new`, searches a text with
/// `regex::Regex::captures` and hands out what two named groups of the match
/// hold, as `regex::Captures::name` gives them. The result is nothing at all
/// where the pattern is not accepted. When that is so is left open: besides
/// the pattern it hangs on a limit in bytes that is held against sizes of
/// the machine's own types. Where the pattern is accepted, the two parts are
/// those of the pattern on the text.
#[verifier::external_body]
fn named_pair(pattern: &str, text: &str, first: &str, second: &str) -> (r: Option<
    (Option<String>, Option<String>),
>)
    ensures
        r matches Some(found) ==> text_of(found.0) == regex_named_capture(
            pattern@,
            text@,
            first@,
        ) && text_of(found.1) == regex_named_capture(pattern@, text@, second@),
{
    let re = regex::Regex::new(pattern).ok()?;
    let found = re.captures(text);
    let first = found.as_ref().and_then(|f| f.name(first)).map(|part| part.as_str().to_string());
    let second = found.as_ref().and_then(|f| f.name(second)).map(|part| part.as_str().to_string());
    Some((first, second))
}

/// Reads a JSON text as an array of values with `serde_json::from_str`. The
/// result is that of the text: its elements, or nothing where the text is no
/// JSON array.
#[verifier::external_body]
fn parse_list(content: &str) -> (r: Option<Vec<serde_json::Value>>)
    ensures
        match r {
            Some(values) => json_list(content@) == Some(values@),
            None => json_list(content@) is None,
        },
{
    serde_json::from_str::<Vec<serde_json::Value>>(content).ok()
}

/// Looks a key up in a JSON value with `serde_json::Value::get` and tells
/// apart whether nothing, a text or something else stands there.
#[verifier::external_body]
fn text_field(value: &serde_json::Value, key: &str) -> (r: Field)
    ensures
        r@ == json_field(*value, key@),
{
    match value.get(key) {
        None => Field::Missing,
        Some(serde_json::Value::String(text)) => Field::Text(text.clone()),
        Some(_) => Field::Other,
    }
}

/// What the listing reads of one stored value.
pub open spec fn known_of(value: serde_json::Value) -> KnownView {
    KnownView { id: json_field(value, "id"@), name: json_field(value, "name"@) }
}

/// The entries of the stored list. A list that could not be read, or that is
/// no JSON array, has none.
pub open spec fn entries_of(content: Option<Seq<char>>) -> Seq<KnownView> {
    match content {
        None => Seq::empty(),
        Some(text) => match json_list(text) {
            None => Seq::empty(),
            Some(values) => values.map_values(|v: serde_json::Value| known_of(v)),
        },
    }
}

/// Reads the stored list of downloads. `content` is the text of the file,
/// or nothing where the file could not be read. The second part of the
/// result says that the file has to be written anew as an empty list.
pub fn get_download_list(content: Option<&str>) -> (r: (Vec<Known>, bool))
    ensures
        known_views(r.0@) == entries_of(str_of(content)),
        r.1 == content is None,
{
    let mut out: Vec<Known> = Vec::new();
    let text = match content {
        Some(text) => text,
        None => {
            assert(known_views(out@) =~= Seq::<KnownView>::empty());
            return (out, true);
        },
    };
    match parse_list(text) {
        None => {
            assert(known_views(out@) =~= Seq::<KnownView>::empty());
        },
        Some(values) => {
            let mut i: usize = 0;
            while i < values.len()
                invariant
                    i <= values.len(),
                    out@.len() == i,
                    forall|n: int| 0 <= n < i ==> (#[trigger] out@[n])@ == known_of(values@[n]),
                decreases values.len() - i,
            {
                let id = text_field(&values[i], "id");
                let name = text_field(&values[i], "name");
                out.push(Known { id, name });
                i += 1;
            }
            assert(known_views(out@) =~= values@.map_values(|v: serde_json::Value| known_of(v)));
        },
    }
    (out, false)
}

/// The names that the stored list holds, by identifier. Only an entry
/// whose identifier is a text counts, and of two entries with one identifier
/// the later one.
pub open spec fn name_index(entries: Seq<KnownView>) -> Map<Seq<char>, FieldView>
    decreases entries.len(),
{
    if entries.len() == 0 {
        Map::empty()
    } else {
        let earlier = name_index(entries.drop_last());
        match entries.last().id {
            FieldView::Text(id) => earlier.insert(id, entries.last().name),
            _ => earlier,
        }
    }
}

/// The name that the index holds for an identifier, or nothing where it
/// holds none.
pub open spec fn stored_name(names: Map<Seq<char>, FieldView>, id: Seq<char>) -> Option<FieldView> {
    if names.contains_key(id) {
        Some(names[id])
    } else {
        None
    }
}

/// The name field of the last entry with the identifier, or nothing where
/// no entry has it.
pub open spec fn last_name(entries: Seq<KnownView>, id: Seq<char>) -> Option<FieldView>
    decreases entries.len(),
{
    if entries.len() == 0 {
        None
    } else if entries.last().id == FieldView::Text(id) {
        Some(entries.last().name)
    } else {
        last_name(entries.drop_last(), id)
    }
}

/// The index holds for every identifier the name of the last entry that
/// has it.
pub proof fn lemma_last_entry_wins(entries: Seq<KnownView>, id: Seq<char>)
    ensures
        stored_name(name_index(entries), id) == last_name(entries, id),
    decreases entries.len(),
{
    if entries.len() > 0 {
        lemma_last_entry_wins(entries.drop_last(), id);
    }
}

/// What an index holds.
pub open spec fn index_view(index: Map<Seq<char>, Field>) -> Map<Seq<char>, FieldView> {
    index.map_values(|f: Field| f@)
}

/// The view of an optional field.
pub open spec fn field_of(field: Option<Field>) -> Option<FieldView> {
    match field {
        Some(f) => Some(f@),
        None => None,
    }
}

fn copy_field(field: &Field) -> (r: Field)
    ensures
        r@ == field@,
{
    match field {
        Field::Missing => Field::Missing,
        Field::Other => Field::Other,
        Field::Text(text) => Field::Text(text.clone()),
    }
}

/// Indexes the names of the stored list by identifier.
pub fn index_names(entries: &Vec<Known>) -> (r: StringHashMap<Field>)
    ensures
        index_view(r@) == name_index(known_views(entries@)),
{
    let mut index: StringHashMap<Field> = StringHashMap::new();
    let mut i: usize = 0;
    assert(known_views(entries@).take(0) =~= Seq::<KnownView>::empty());
    assert(index_view(index@) =~= Map::<Seq<char>, FieldView>::empty());
    while i < entries.len()
        invariant
            i <= entries.len(),
            index_view(index@) == name_index(known_views(entries@).take(i as int)),
        decreases entries.len() - i,
    {
        let ghost upto = known_views(entries@).take(i + 1);
        let ghost before = index@;
        proof {
            assert(upto.drop_last() =~= known_views(entries@).take(i as int));
            assert(upto.last() == entries@[i as int]@);
        }
        match &entries[i].id {
            Field::Text(id) => {
                let name = copy_field(&entries[i].name);
                index.insert(id.clone(), name);
                assert(index_view(index@) =~= index_view(before).insert(id@, name@));
            },
            _ => {},
        }
        i += 1;
    }
    assert(known_views(entries@).take(i as int) =~= known_views(entries@));
    index
}

/// Looks up the name that the index holds for an identifier.
pub fn find_name(index: &StringHashMap<Field>, id: &str) -> (r: Option<Field>)
    ensures
        field_of(r) == stored_name(index_view(index@), id@),
{
    match index.get(id) {
        Some(name) => Some(copy_field(name)),
        None => None,
    }
}

/// The line for one file. `parts` is what the two groups of the pattern
/// hold in the file's path. The name is the identifier, unless the index
/// has a text as the name for the identifier, and unless a new name is
/// given for just this identifier, which comes last.
pub open spec fn described(
    parts: Option<(Seq<char>, Seq<char>)>,
    created: u64,
    names: Map<Seq<char>, FieldView>,
    filename: Option<Seq<char>>,
    id: Option<Seq<char>>,
) -> Result<FileView, DownloadError> {
    match parts {
        None => Err(DownloadError::NoMatch),
        Some((fid, ext)) => {
            let stored = stored_name(names, fid);
            if stored == Some(FieldView::Missing) {
                Err(DownloadError::NameMissing)
            } else {
                let kept = match stored {
                    Some(FieldView::Text(name)) => name,
                    _ => fid,
                };
                let name = match (filename, id) {
                    (Some(new_name), Some(which)) => if which == fid {
                        new_name
                    } else {
                        kept
                    },
                    _ => kept,
                };
                Ok(FileView { name, ext, created, id: fid })
            }
        },
    }
}

/// The view of a pair of texts.
pub open spec fn parts_of(parts: Option<(String, String)>) -> Option<(Seq<char>, Seq<char>)> {
    match parts {
        Some((a, b)) => Some((a@, b@)),
        None => None,
    }
}

/// The view of a line or an error.
pub open spec fn line_of(r: Result<FileMetadata, DownloadError>) -> Result<
    FileView,
    DownloadError,
> {
    match r {
        Ok(line) => Ok(line@),
        Err(e) => Err(e),
    }
}

/// Makes the line for one file from what the pattern found in its path.
pub fn describe_file(
    parts: Option<(String, String)>,
    created: u64,
    index: &StringHashMap<Field>,
    filename: &Option<String>,
    id: &Option<String>,
) -> (r: Result<FileMetadata, DownloadError>)
    ensures
        line_of(r) == described(
            parts_of(parts),
            created,
            index_view(index@),
            text_of(*filename),
            text_of(*id),
        ),
{
    let (fid, ext) = match parts {
        Some(pair) => pair,
        None => {
            return Err(DownloadError::NoMatch);
        },
    };
    let mut name = fid.clone();
    match find_name(index, fid.as_str()) {
        Some(Field::Missing) => {
            return Err(DownloadError::NameMissing);
        },
        Some(Field::Text(stored)) => {
            name = stored;
        },
        _ => {},
    }
    match (filename, id) {
        (Some(new_name), Some(which)) => {
            if str_eq(which.as_str(), fid.as_str()) {
                name = new_name.clone();
            }
        },
        _ => {},
    }
    Ok(FileMetadata { name, ext, created, id: fid })
}

/// Where a line goes among lines that stand newest first: before the first
/// one that is not newer than it.
pub open spec fn slot(created: u64, sorted: Seq<FileView>) -> int
    decreases sorted.len(),
{
    if sorted.len() == 0 {
        0
    } else if sorted.first().created <= created {
        0
    } else {
        1 + slot(created, sorted.drop_first())
    }
}

/// The lines with one more put in its place.
pub open spec fn placed(line: FileView, sorted: Seq<FileView>) -> Seq<FileView> {
    sorted.insert(slot(line.created, sorted), line)
}

/// The lines in the order of their creation, newest first. Lines of the
/// same time keep the order in which they came.
pub open spec fn newest_first(lines: Seq<FileView>) -> Seq<FileView>
    decreases lines.len(),
{
    if lines.len() == 0 {
        Seq::empty()
    } else {
        placed(lines.first(), newest_first(lines.drop_first()))
    }
}

/// Whether no line stands before a newer one.
pub open spec fn is_newest_first(lines: Seq<FileView>) -> bool {
    forall|i: int, j: int|
        0 <= i < j < lines.len() ==> (#[trigger] lines[i]).created >= (#[trigger] lines[j]).created
}

/// The place of a line is the one before which all lines are newer and at
/// which the line is not.
pub proof fn lemma_slot(created: u64, sorted: Seq<FileView>, at: int)
    requires
        0 <= at <= sorted.len(),
        forall|j: int| 0 <= j < at ==> (#[trigger] sorted[j]).created > created,
        at < sorted.len() ==> sorted[at].created <= created,
    ensures
        slot(created, sorted) == at,
    decreases sorted.len(),
{
    if sorted.len() > 0 && at > 0 {
        let rest = sorted.drop_first();
        assert(sorted[0].created > created);
        assert forall|j: int| 0 <= j < at - 1 implies (#[trigger] rest[j]).created > created by {
            assert(rest[j] == sorted[j + 1]);
        }
        if at - 1 < rest.len() {
            assert(rest[at - 1] == sorted[at]);
        }
        lemma_slot(created, rest, at - 1);
    }
}

/// The place of a line lies within the lines; all lines before it are
/// newer, and the line at it, if there is one, is not.
pub proof fn lemma_slot_bounds(created: u64, sorted: Seq<FileView>)
    ensures
        0 <= slot(created, sorted) <= sorted.len(),
        forall|j: int|
            0 <= j < slot(created, sorted) ==> (#[trigger] sorted[j]).created > created,
        slot(created, sorted) < sorted.len() ==> sorted[slot(created, sorted)].created <= created,
    decreases sorted.len(),
{
    if sorted.len() > 0 && sorted.first().created > created {
        let rest = sorted.drop_first();
        lemma_slot_bounds(created, rest);
        let at = slot(created, rest);
        assert forall|j: int| 0 <= j < at + 1 implies (#[trigger] sorted[j]).created > created by {
            if j > 0 {
                assert(sorted[j] == rest[j - 1]);
            }
        }
        if at < rest.len() {
            assert(rest[at] == sorted[at + 1]);
        }
    }
}

/// Sorting keeps every line, as often as it occurs, and leaves no line
/// before a newer one.
pub proof fn lemma_newest_first(lines: Seq<FileView>)
    ensures
        newest_first(lines).len() == lines.len(),
        newest_first(lines).to_multiset() == lines.to_multiset(),
        is_newest_first(newest_first(lines)),
    decreases lines.len(),
{
    if lines.len() == 0 {
        assert(newest_first(lines) =~= lines);
    } else {
        let line = lines.first();
        let rest = lines.drop_first();
        let sorted = newest_first(rest);
        lemma_newest_first(rest);
        lemma_slot_bounds(line.created, sorted);
        let at = slot(line.created, sorted);
        let out = sorted.insert(at, line);
        vstd::seq_lib::to_multiset_insert(sorted, at, line);
        vstd::seq_lib::to_multiset_insert(rest, 0, line);
        assert(rest.insert(0, line) =~= lines);
        assert forall|i: int, j: int| 0 <= i < j < out.len() implies (#[trigger] out[i]).created >= (
        #[trigger] out[j]).created by {
            if i < at && j > at {
                assert(out[i] == sorted[i]);
                assert(out[j] == sorted[j - 1]);
                if i < j - 1 {
                    assert(sorted[i].created >= sorted[j - 1].created);
                }
            } else if i < at && j == at {
                assert(out[i] == sorted[i]);
            } else if i < at && j < at {
                assert(out[i] == sorted[i]);
                assert(out[j] == sorted[j]);
            } else if i == at {
                assert(out[j] == sorted[j - 1]);
                if at < j - 1 {
                    assert(sorted[at].created >= sorted[j - 1].created);
                }
            } else {
                assert(out[i] == sorted[i - 1]);
                assert(out[j] == sorted[j - 1]);
            }
        }
    }
}

/// Sorts the lines by their creation, newest first. Lines of the same time
/// keep their order.
pub fn sort_newest_first(list: Vec<FileMetadata>) -> (r: Vec<FileMetadata>)
    ensures
        file_views(r@) == newest_first(file_views(list@)),
        r@.len() == list@.len(),
        is_newest_first(file_views(r@)),
        file_views(r@).to_multiset() == file_views(list@).to_multiset(),
{
    let ghost all = file_views(list@);
    let mut rest = list;
    let mut out: Vec<FileMetadata> = Vec::new();
    assert(all.skip(rest@.len() as int) =~= Seq::<FileView>::empty());
    assert(file_views(out@) =~= Seq::<FileView>::empty());
    assert(file_views(rest@) =~= all.take(rest@.len() as int));
    while rest.len() > 0
        invariant
            rest@.len() <= all.len(),
            file_views(rest@) == all.take(rest@.len() as int),
            file_views(out@) == newest_first(all.skip(rest@.len() as int)),
        decreases rest@.len(),
    {
        let ghost before = rest@;
        let ghost sorted = file_views(out@);
        let line = rest.pop().unwrap();
        let mut at: usize = 0;
        while at < out.len() && out[at].created > line.created
            invariant
                at <= out.len(),
                file_views(out@) == sorted,
                forall|j: int| 0 <= j < at ==> (#[trigger] sorted[j]).created > line.created,
            decreases out.len() - at,
        {
            assert(sorted[at as int] == out@[at as int]@);
            at += 1;
        }
        proof {
            if at < out.len() {
                assert(sorted[at as int] == out@[at as int]@);
            }
            lemma_slot(line.created, sorted, at as int);
            let n = before.len() as int;
            let tail = all.skip(n - 1);
            assert(file_views(before)[n - 1] == line@);
            assert(tail.first() == line@);
            assert(tail.drop_first() =~= all.skip(n));
            assert(file_views(rest@) =~= all.take(n - 1));
        }
        out.insert(at, line);
        assert(file_views(out@) =~= sorted.insert(at as int, line@));
    }
    proof {
        assert(all.skip(0) =~= all);
        lemma_newest_first(all);
    }
    out
}

/// The two parts as a pair, or nothing where one of them is missing.
pub open spec fn paired(first: Option<Seq<char>>, second: Option<Seq<char>>) -> Option<
    (Seq<char>, Seq<char>),
> {
    match (first, second) {
        (Some(a), Some(b)) => Some((a, b)),
        _ => None,
    }
}

/// What the two groups "id" and "ext" of a pattern hold in a path: the
/// identifier and the extension, or nothing where one of them is missing.
pub open spec fn file_parts(pattern: Seq<char>, path: Seq<char>) -> Option<(Seq<char>, Seq<char>)> {
    paired(regex_named_capture(pattern, path, "id"@), regex_named_capture(pattern, path, "ext"@))
}

/// Makes a pair of two parts; there is none where one of them is missing.
pub fn pair_up(first: Option<String>, second: Option<String>) -> (r: Option<(String, String)>)
    ensures
        parts_of(r) == paired(text_of(first), text_of(second)),
{
    match (first, second) {
        (Some(a), Some(b)) => Some((a, b)),
        _ => None,
    }
}

/// Takes the identifier and the extension out of a path. The result is
/// nothing at all where the pattern was not accepted.
pub fn split_path(pattern: &str, path: &str) -> (r: Option<Option<(String, String)>>)
    ensures
        r matches Some(parts) ==> parts_of(parts) == file_parts(pattern@, path@),
{
    match named_pair(pattern, path, "id", "ext") {
        None => None,
        Some((id, ext)) => Some(pair_up(id, ext)),
    }
}

/// What the search with a pattern came to for one file.
#[derive(Clone, Debug, PartialEq, Eq)]
pub struct Searched {
    /// Nothing at all where the pattern was not accepted; else the
    /// identifier and the extension, or nothing where the path has none.
    pub parts: Option<Option<(String, String)>>,
    /// When the file was created, in milliseconds.
    pub created: u64,
}

/// What a search came to.
pub struct SearchedView {
    pub parts: Option<Option<(Seq<char>, Seq<char>)>>,
    pub created: u64,
}

impl View for Searched {
    type V = SearchedView;

    open spec fn view(&self) -> SearchedView {
        SearchedView {
            parts: match self.parts {
                Some(parts) => Some(parts_of(parts)),
                None => None,
            },
            created: self.created,
        }
    }
}

/// What a list of searches holds.
pub open spec fn searched_views(searched: Seq<Searched>) -> Seq<SearchedView> {
    searched.map_values(|s: Searched| s@)
}

/// The line for one searched file: the pattern's error where the pattern
/// was not accepted, else the line for what was found.
pub open spec fn line_for(
    searched: SearchedView,
    names: Map<Seq<char>, FieldView>,
    filename: Option<Seq<char>>,
    id: Option<Seq<char>>,
) -> Result<FileView, DownloadError> {
    match searched.parts {
        None => Err(DownloadError::Pattern),
        Some(parts) => described(parts, searched.created, names, filename, id),
    }
}

/// The lines for the searched files, in their order, or the error of the
/// first file that has one.
pub open spec fn all_lines(
    searched: Seq<SearchedView>,
    names: Map<Seq<char>, FieldView>,
    filename: Option<Seq<char>>,
    id: Option<Seq<char>>,
) -> Result<Seq<FileView>, DownloadError>
    decreases searched.len(),
{
    if searched.len() == 0 {
        Ok(Seq::empty())
    } else {
        match all_lines(searched.drop_last(), names, filename, id) {
            Err(e) => Err(e),
            Ok(lines) => match line_for(searched.last(), names, filename, id) {
                Err(e) => Err(e),
                Ok(line) => Ok(lines.push(line)),
            },
        }
    }
}

/// The list for the searched files: their lines, newest first, or the error
/// of the first file that has one.
pub open spec fn listing(
    searched: Seq<SearchedView>,
    names: Map<Seq<char>, FieldView>,
    filename: Option<Seq<char>>,
    id: Option<Seq<char>>,
) -> Result<Seq<FileView>, DownloadError> {
    match all_lines(searched, names, filename, id) {
        Ok(lines) => Ok(newest_first(lines)),
        Err(e) => Err(e),
    }
}

/// What the search comes to for each file where the pattern is accepted.
pub open spec fn accepted(pattern: Seq<char>, files: Seq<FoundView>) -> Seq<SearchedView> {
    files.map_values(
        |f: FoundView| SearchedView { parts: Some(file_parts(pattern, f.path)), created: f.created },
    )
}

/// The list of downloads where the pattern is accepted: the lines for the
/// files, newest first, or the error of the first file that has one.
pub open spec fn listed(
    pattern: Seq<char>,
    files: Seq<FoundView>,
    names: Map<Seq<char>, FieldView>,
    filename: Option<Seq<char>>,
    id: Option<Seq<char>>,
) -> Result<Seq<FileView>, DownloadError> {
    listing(accepted(pattern, files), names, filename, id)
}

/// Whether the searches are those of the files with the pattern: one for
/// each file, with the file's time, and with the pattern's parts wherever
/// the pattern was accepted.
pub open spec fn agrees(pattern: Seq<char>, files: Seq<FoundView>, searched: Seq<SearchedView>) -> bool {
    &&& searched.len() == files.len()
    &&& forall|i: int|
        0 <= i < searched.len() ==> (#[trigger] searched[i]).created == files[i].created && (
        searched[i].parts matches Some(parts) ==> parts == file_parts(pattern, files[i].path))
}

/// The view of a list of lines or an error.
pub open spec fn lines_of(r: Result<Vec<FileMetadata>, DownloadError>) -> Result<
    Seq<FileView>,
    DownloadError,
> {
    match r {
        Ok(lines) => Ok(file_views(lines@)),
        Err(e) => Err(e),
    }
}

/// An error among the first searched files is the error of all of them.
pub proof fn lemma_error_stays(
    searched: Seq<SearchedView>,
    names: Map<Seq<char>, FieldView>,
    filename: Option<Seq<char>>,
    id: Option<Seq<char>>,
    upto: int,
)
    requires
        0 <= upto <= searched.len(),
        all_lines(searched.take(upto), names, filename, id) is Err,
    ensures
        all_lines(searched, names, filename, id) == all_lines(
            searched.take(upto),
            names,
            filename,
            id,
        ),
    decreases searched.len() - upto,
{
    if upto < searched.len() {
        let next = searched.take(upto + 1);
        assert(next.drop_last() =~= searched.take(upto));
        lemma_error_stays(searched, names, filename, id, upto + 1);
    } else {
        assert(searched.take(upto) =~= searched);
    }
}

/// Searches that agree with the files give the list of the accepted
/// pattern, unless the first error among them is that the pattern was not
/// accepted. Where the pattern was accepted for every file, they give that
/// list.
pub proof fn lemma_agreeing_lines(
    pattern: Seq<char>,
    files: Seq<FoundView>,
    searched: Seq<SearchedView>,
    names: Map<Seq<char>, FieldView>,
    filename: Option<Seq<char>>,
    id: Option<Seq<char>>,
)
    requires
        agrees(pattern, files, searched),
    ensures
        ({
            let got = all_lines(searched, names, filename, id);
            let owed = all_lines(accepted(pattern, files), names, filename, id);
            &&& got == Err::<Seq<FileView>, DownloadError>(DownloadError::Pattern) || got == owed
            &&& (forall|i: int| 0 <= i < searched.len() ==> (#[trigger] searched[i]).parts is Some)
                ==> got == owed
        }),
    decreases searched.len(),
{
    let all = accepted(pattern, files);
    if searched.len() > 0 {
        let fewer = files.drop_last();
        let earlier = searched.drop_last();
        assert(all.drop_last() =~= accepted(pattern, fewer));
        assert(agrees(pattern, fewer, earlier)) by {
            assert forall|i: int| 0 <= i < earlier.len() implies (#[trigger] earlier[i]).created
                == fewer[i].created && (earlier[i].parts matches Some(parts) ==> parts
                == file_parts(pattern, fewer[i].path)) by {
                assert(earlier[i] == searched[i]);
            }
        }
        lemma_agreeing_lines(pattern, fewer, earlier, names, filename, id);
        let n = searched.len() - 1;
        assert(searched.last() == searched[n]);
        assert(all.last().created == searched[n].created);
        if forall|i: int| 0 <= i < searched.len() ==> (#[trigger] searched[i]).parts is Some {
            assert forall|i: int| 0 <= i < earlier.len() implies (#[trigger] earlier[i]).parts
                is Some by {
                assert(earlier[i] == searched[i]);
            }
            assert(searched[n].parts is Some);
        }
    } else {
        assert(all =~= Seq::<SearchedView>::empty());
    }
}

/// The searches of the files with the pattern, one for each file.
pub fn search_files(pattern: &str, files: &Vec<FoundFile>) -> (r: Vec<Searched>)
    ensures
        agrees(pattern@, found_views(files@), searched_views(r@)),
{
    let mut out: Vec<Searched> = Vec::new();
    let mut i: usize = 0;
    while i < files.len()
        invariant
            i <= files.len(),
            out@.len() == i,
            forall|n: int|
                0 <= n < i ==> (#[trigger] out@[n])@.created == files@[n].created && (
                out@[n]@.parts matches Some(parts) ==> parts == file_parts(
                    pattern@,
                    files@[n].path@,
                )),
        decreases files.len() - i,
    {
        let parts = split_path(pattern, files[i].path.as_str());
        out.push(Searched { parts, created: files[i].created });
        i += 1;
    }
    proof {
        let searched = searched_views(out@);
        let found = found_views(files@);
        assert forall|n: int| 0 <= n < searched.len() implies (#[trigger] searched[n]).created
            == found[n].created && (searched[n].parts matches Some(parts) ==> parts == file_parts(
            pattern@,
            found[n].path,
        )) by {
            assert(searched[n] == out@[n]@);
        }
    }
    out
}

fn copy_parts(parts: &Option<(String, String)>) -> (r: Option<(String, String)>)
    ensures
        parts_of(r) == parts_of(*parts),
{
    match parts {
        Some((a, b)) => Some((a.clone(), b.clone())),
        None => None,
    }
}

/// Makes the list from what the search came to for each file: the pattern's
/// error for the first file for which the pattern was not accepted, unless
/// an earlier file has an error of its own; else the lines, newest first.
pub fn list_searched(
    searched: &Vec<Searched>,
    index: &StringHashMap<Field>,
    filename: &Option<String>,
    id: &Option<String>,
) -> (r: Result<Vec<FileMetadata>, DownloadError>)
    ensures
        lines_of(r) == listing(
            searched_views(searched@),
            index_view(index@),
            text_of(*filename),
            text_of(*id),
        ),
{
    let ghost all = searched_views(searched@);
    let ghost names = index_view(index@);
    let mut lines: Vec<FileMetadata> = Vec::new();
    let mut i: usize = 0;
    assert(file_views(lines@) =~= Seq::<FileView>::empty());
    assert(all.take(0) =~= Seq::<SearchedView>::empty());
    while i < searched.len()
        invariant
            i <= searched.len(),
            all == searched_views(searched@),
            names == index_view(index@),
            all_lines(all.take(i as int), names, text_of(*filename), text_of(*id)) == Ok::<
                Seq<FileView>,
                DownloadError,
            >(file_views(lines@)),
        decreases searched.len() - i,
    {
        let ghost upto = all.take(i + 1);
        let ghost earlier = file_views(lines@);
        proof {
            assert(upto.drop_last() =~= all.take(i as int));
            assert(upto.last() == searched@[i as int]@);
        }
        let found = match &searched[i].parts {
            None => Err(DownloadError::Pattern),
            Some(parts) => describe_file(
                copy_parts(parts),
                searched[i].created,
                index,
                filename,
                id,
            ),
        };
        match found {
            Err(e) => {
                proof {
                    assert(all_lines(upto, names, text_of(*filename), text_of(*id)) == Err::<
                        Seq<FileView>,
                        DownloadError,
                    >(e));
                    lemma_error_stays(all, names, text_of(*filename), text_of(*id), i + 1);
                }
                return Err(e);
            },
            Ok(line) => {
                lines.push(line);
                assert(file_views(lines@) =~= earlier.push(line@));
            },
        }
        i += 1;
    }
    assert(all.take(i as int) =~= all);
    Ok(sort_newest_first(lines))
}

/// Makes the list for the files found, with the given pattern for their
/// paths and the given entries of the stored list. Every path is searched
/// with the pattern, and the list is made from what the searches came to,
/// as [`list_searched`] makes it. So the result is the list of the accepted
/// pattern, unless it is the pattern's error.
pub fn list_files(
    pattern: &str,
    files: &Vec<FoundFile>,
    entries: &Vec<Known>,
    filename: &Option<String>,
    id: &Option<String>,
) -> (r: Result<Vec<FileMetadata>, DownloadError>)
    ensures
        exists|searched: Seq<SearchedView>| #[trigger]
            agrees(pattern@, found_views(files@), searched) && lines_of(r) == listing(
                searched,
                name_index(known_views(entries@)),
                text_of(*filename),
                text_of(*id),
            ),
        files@.len() == 0 ==> lines_of(r) == Ok::<Seq<FileView>, DownloadError>(Seq::empty()),
        r == Err::<Vec<FileMetadata>, DownloadError>(DownloadError::Pattern) || lines_of(r)
            == listed(
            pattern@,
            found_views(files@),
            name_index(known_views(entries@)),
            text_of(*filename),
            text_of(*id),
        ),
{
    let index = index_names(entries);
    let searched = search_files(pattern, files);
    let r = list_searched(&searched, &index, filename, id);
    proof {
        let all = searched_views(searched@);
        lemma_agreeing_lines(
            pattern@,
            found_views(files@),
            all,
            name_index(known_views(entries@)),
            text_of(*filename),
            text_of(*id),
        );
        if files@.len() == 0 {
            assert(all =~= Seq::<SearchedView>::empty());
            assert(newest_first(Seq::<FileView>::empty()) =~= Seq::<FileView>::empty());
        }
    }
    r
}

/// Makes the list of downloads. `content` is the text of the stored list,
/// or nothing where it could not be read; `files` are the files found, with
/// their times of creation. Where both a new name and an identifier are
/// given, the file with that identifier gets the new name. The list is that
/// of [`list_files`] with the pattern for file names and the entries that
/// the stored list holds.
pub fn download_list(
    content: Option<&str>,
    files: &Vec<FoundFile>,
    filename: Option<String>,
    id: Option<String>,
) -> (r: Result<Vec<FileMetadata>, DownloadError>)
    ensures
        exists|searched: Seq<SearchedView>| #[trigger]
            agrees(file_pattern(), found_views(files@), searched) && lines_of(r) == listing(
                searched,
                name_index(entries_of(str_of(content))),
                text_of(filename),
                text_of(id),
            ),
        files@.len() == 0 ==> lines_of(r) == Ok::<Seq<FileView>, DownloadError>(Seq::empty()),
        r == Err::<Vec<FileMetadata>, DownloadError>(DownloadError::Pattern) || lines_of(r)
            == listed(
            file_pattern(),
            found_views(files@),
            name_index(entries_of(str_of(content))),
            text_of(filename),
            text_of(id),
        ),
{
    let (entries, _) = get_download_list(content);
    list_files(file_pattern_str(), files, &entries, &filename, &id)
}

} // verus!
