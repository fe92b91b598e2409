//! The files the application unpacks into its cache directory: the
//! directory's name, and the plan of what extracting a zip archive writes.

use vstd::prelude::*;
use std::io::Cursor;
use zip::ZipArchive;
use zip::read::ZipFile;
use zip::result::ZipError;

verus! {

/// `std::io::Cursor`, an in-memory reader, opaque to the proofs.
#[verifier::external_type_specification]
#[verifier::external_body]
#[verifier::reject_recursive_types(T)]
pub struct ExCursor<T>(Cursor<T>);

/// `zip::ZipArchive`, opaque; its entries are named by `zip_entries`.
#[verifier::external_type_specification]
#[verifier::external_body]
#[verifier::reject_recursive_types(R)]
pub struct ExZipArchive<R>(ZipArchive<R>);

/// `zip::read::ZipFile`, an opened entry, opaque; see `zip_file_name` and
/// `zip_file_unread`.
#[verifier::external_type_specification]
#[verifier::external_body]
pub struct ExZipFile<'a>(ZipFile<'a>);

/// `zip::result::ZipError`, opaque.
#[verifier::external_type_specification]
#[verifier::external_body]
pub struct ExZipError(ZipError);

/// The directory under the home directory that holds the cache.
pub fn cache_root_name() -> (name: String)
    ensures
        name@ == ".cache"@,
{
    String::from_str(".cache")
}

/// The cache directory of a version of the application.
pub open spec fn cache_dir(version: Seq<char>) -> Seq<char> {
    "aria2c-gui-rs-"@ + version
}

/// The name of the application's cache directory, for its version.
pub fn cache_dir_name(version: &str) -> (name: String)
    ensures
        name@ == cache_dir(version@),
        name@ == "aria2c-gui-rs-"@ + version@,
{
    let mut name = String::from_str("aria2c-gui-rs-");
    name.append(version);
    name
}

/// The permissions that a file unpacked by `init_files` is created with.
pub const INIT_FILE_MODE: u32 = 0o766;

/// An entry as it reads: its name, the bytes that reading it to its end
/// yields (up to a read error), and that error, rendered with `Debug`, if
/// one occurs; or nothing when the entry cannot be opened.
pub type EntryRead = Option<(Seq<char>, Seq<u8>, Option<Seq<char>>)>;

/// The entries of an archive, in order, as `zip::ZipArchive::by_index` opens
/// them and `read_to_end` reads them (nothing where `by_index` fails or
/// would panic).
pub uninterp spec fn zip_entries(archive: ZipArchive<Cursor<Vec<u8>>>) -> Seq<EntryRead>;

/// Whether `zip::ZipArchive::by_index` panics on the entry at this index:
/// it does on an entry that is not marked encrypted but carries the AES
/// extra field.
pub uninterp spec fn zip_entry_panics(archive: ZipArchive<Cursor<Vec<u8>>>, index: int) -> bool;

/// The entries that the `zip` crate reads out of some bytes, or nothing when
/// they are not an archive it can open.
pub uninterp spec fn zip_contents(bytes: Seq<u8>) -> Option<Seq<EntryRead>>;

/// Calls `zip::ZipArchive::new` on the bytes. Trusted: it succeeds exactly
/// when `zip_contents` has entries for the bytes, and the archive then
/// holds those entries.
#[verifier::external_body]
fn open_archive(bytes: &[u8]) -> (archive: Result<ZipArchive<Cursor<Vec<u8>>>, ZipError>)
    ensures
        archive is Ok <==> zip_contents(bytes@) is Some,
        archive matches Ok(a) ==> zip_contents(bytes@) == Some(zip_entries(a)),
{
    ZipArchive::new(Cursor::new(bytes.to_vec()))
}

/// Calls `zip::ZipArchive::len`. Trusted: it is the number of entries.
#[verifier::external_body]
fn archive_len(archive: &ZipArchive<Cursor<Vec<u8>>>) -> (n: usize)
    ensures
        n == zip_entries(*archive).len(),
{
    archive.len()
}

/// Calls `zip::ZipArchive::by_index_decrypt` with an empty password, which,
/// unlike `by_index`, reports an entry that asks for a password it lacks
/// instead of panicking; the entry opened, if any, is dropped at once.
/// Trusted, from the crate's source: on an entry not marked encrypted the
/// password is set aside and the call runs as `by_index` does up to its
/// `unwrap`, so "invalid password" comes back exactly where `by_index`
/// panics; on an entry marked encrypted, `by_index` fails without
/// panicking. Hence: no "invalid password" means `by_index` does not panic
/// there, and "invalid password" means the entry does not open. Opening an
/// entry moves the archive's reader only.
#[verifier::external_body]
fn entry_opens_safely(archive: &mut ZipArchive<Cursor<Vec<u8>>>, index: usize) -> (safe: bool)
    requires
        index < zip_entries(*old(archive)).len(),
    ensures
        zip_entries(*final(archive)) == zip_entries(*old(archive)),
        forall|j: int| zip_entry_panics(*final(archive), j) == zip_entry_panics(*old(archive), j),
        safe ==> !zip_entry_panics(*old(archive), index as int),
        !safe ==> zip_entries(*old(archive))[index as int] is None,
{
    match archive.by_index_decrypt(index, b"") {
        Ok(Ok(_)) => true,
        Ok(Err(_)) => false,
        Err(_) => true,
    }
}

/// The name of an opened entry.
pub uninterp spec fn zip_file_name(file: ZipFile) -> Seq<char>;

/// What reading an opened entry to its end yields: the bytes, and the
/// error met, rendered with `Debug`, if any.
pub uninterp spec fn zip_file_rest(file: ZipFile) -> (Seq<u8>, Option<Seq<char>>);

/// Calls `zip::ZipArchive::by_index`. Trusted: it opens the entry exactly
/// when `zip_entries` has it opening, with that name and that content to
/// read; opening an entry moves the archive's reader only. `requires`
/// leaves out the entries it panics on. The addition in the crate's
/// `find_content` cannot overflow here: it follows a successful read of the
/// local header, which lies within the in-memory archive.
#[verifier::external_body]
fn open_entry<'a>(archive: &'a mut ZipArchive<Cursor<Vec<u8>>>, index: usize) -> (entry: Result<
    ZipFile<'a>,
    ZipError,
>)
    requires
        index < zip_entries(*old(archive)).len(),
        !zip_entry_panics(*old(archive), index as int),
    ensures
        zip_entries(*final(archive)) == zip_entries(*old(archive)),
        forall|j: int| zip_entry_panics(*final(archive), j) == zip_entry_panics(*old(archive), j),
        entry is Ok <==> zip_entries(*old(archive))[index as int] is Some,
        entry matches Ok(f) ==> zip_entries(*old(archive))[index as int] == Some(
            (zip_file_name(f), zip_file_rest(f).0, zip_file_rest(f).1),
        ),
{
    archive.by_index(index)
}

/// Calls `zip::read::ZipFile::name`. Trusted: it is the entry's name.
#[verifier::external_body]
fn opened_entry_name(file: &ZipFile) -> (name: String)
    ensures
        name@ == zip_file_name(*file),
{
    file.name().to_string()
}

/// Reads an opened entry to its end with `std::io::Read::read_to_end`,
/// keeping what was read before an error, if one occurs, and rendering the
/// error with `Debug`. Trusted: the result is what `zip_file_rest` has.
#[verifier::external_body]
fn read_rest(file: &mut ZipFile) -> (read: (Vec<u8>, Option<String>))
    ensures
        read.0@ == zip_file_rest(*old(file)).0,
        read.1 is None <==> zip_file_rest(*old(file)).1 is None,
        read.1 matches Some(e) ==> zip_file_rest(*old(file)).1 == Some(e@),
{
    let mut data = Vec::new();
    let error = std::io::Read::read_to_end(file, &mut data).err().map(|e| format!("{:?}", e));
    (data, error)
}

/// What extracting one entry writes, relative to the target directory.
#[derive(Clone, Debug, PartialEq)]
pub enum ExtractStep {
    /// Create the directory, with its parents.
    Directory { name: String },
    /// Create the file's parent directories, then the file with these bytes.
    File { name: String, data: Vec<u8> },
}

/// Why extraction stops.
#[derive(Clone, Copy, Debug, PartialEq, Eq, Structural)]
pub enum UnzipFailure {
    /// The bytes are not an archive that can be opened.
    InvalidArchive,
    /// The entry at this index cannot be opened.
    UnreadableEntry { index: usize },
    /// The name of the entry at this index is empty or ends in a character
    /// outside ASCII, where its last byte is no place to split it.
    UnsplittableName { index: usize },
}

/// The result of taking one entry out of the archive: the error met while
/// reading it, if any, to be reported first, then the step to carry out or
/// the reason extraction stops.
#[derive(Debug, PartialEq)]
pub struct EntryOutcome {
    pub read_error: Option<String>,
    pub step: Result<ExtractStep, UnzipFailure>,
}

/// Whether the last byte of a name can be split off: the name is not empty
/// and ends in an ASCII character.
pub open spec fn name_splittable(name: Seq<char>) -> bool {
    name.len() > 0 && (name.last() as u32) < 0x80
}

/// Whether an entry name stands for a directory: it ends in a slash.
pub open spec fn names_directory(name: Seq<char>) -> bool {
    name.len() > 0 && name.last() == '/'
}

/// A step as plain values: whether it makes a directory, the name, and the
/// bytes written (none for a directory).
pub open spec fn step_view(step: ExtractStep) -> (bool, Seq<char>, Seq<u8>) {
    match step {
        ExtractStep::Directory { name } => (true, name@, Seq::<u8>::empty()),
        ExtractStep::File { name, data } => (false, name@, data@),
    }
}

/// The step that an entry with this name and these bytes calls for.
pub open spec fn expected_step(name: Seq<char>, data: Seq<u8>) -> (bool, Seq<char>, Seq<u8>) {
    if names_directory(name) {
        (true, name, Seq::<u8>::empty())
    } else {
        (false, name, data)
    }
}

/// The name of an entry that opened.
pub open spec fn entry_name(entry: EntryRead) -> Seq<char> {
    entry.unwrap().0
}

/// The bytes read from an entry that opened.
pub open spec fn entry_data(entry: EntryRead) -> Seq<u8> {
    entry.unwrap().1
}

/// The read error of an entry that opened, if it met one.
pub open spec fn entry_read_error(entry: EntryRead) -> Option<Seq<char>> {
    entry.unwrap().2
}

/// An entry that can be extracted: it opens, and its name can be split.
pub open spec fn entry_usable(entry: EntryRead) -> bool {
    entry is Some && name_splittable(entry_name(entry))
}

/// A text that may be absent, as plain values.
pub open spec fn optional_text(text: Option<String>) -> Option<Seq<char>> {
    match text {
        Some(t) => Some(t@),
        None => None,
    }
}

/// Whether an outcome is what taking out the entry at `index` gives: an
/// entry that does not open stops extraction; one that opens reports its
/// read error, then gives its step, or stops extraction when its name
/// cannot be split.
pub open spec fn outcome_of_entry(outcome: EntryOutcome, entry: EntryRead, index: usize) -> bool {
    match entry {
        None => outcome.read_error is None && outcome.step == Err::<ExtractStep, UnzipFailure>(
            UnzipFailure::UnreadableEntry { index },
        ),
        Some(e) => {
            &&& optional_text(outcome.read_error) == entry_read_error(entry)
            &&& if name_splittable(entry_name(entry)) {
                outcome.step matches Ok(s) && step_view(s) == expected_step(
                    entry_name(entry),
                    entry_data(entry),
                )
            } else {
                outcome.step == Err::<ExtractStep, UnzipFailure>(
                    UnzipFailure::UnsplittableName { index },
                )
            }
        },
    }
}

/// A file entry is extracted whole: for a name that does not end in a
/// slash, the step writes exactly the bytes read, whatever their number,
/// under that name; a name ending in a slash makes a directory.
pub proof fn law_file_entries_keep_every_byte(name: Seq<char>, data: Seq<u8>)
    requires
        name.len() > 0,
    ensures
        name.last() != '/' ==> expected_step(name, data) == (false, name, data),
        name.last() == '/' ==> expected_step(name, data) == (true, name, Seq::<u8>::empty()),
{
}

/// Taking out an entry that opens and has a splittable name gives its step
/// with its name and all its bytes, and reports its read error.
pub proof fn law_outcome_keeps_entry(
    outcome: EntryOutcome,
    name: Seq<char>,
    data: Seq<u8>,
    error: Option<Seq<char>>,
    index: usize,
)
    requires
        outcome_of_entry(outcome, Some((name, data, error)), index),
        name.len() > 0,
        (name.last() as u32) < 0x80,
    ensures
        optional_text(outcome.read_error) == error,
        name.last() != '/' ==> (outcome.step matches Ok(ExtractStep::File { name: n, data: d })
            && n@ == name && d@ == data),
        name.last() == '/' ==> (outcome.step matches Ok(ExtractStep::Directory { name: n }) && n@
            == name),
{
}

/// Taking out an entry that does not open stops extraction at that entry.
pub proof fn law_unopened_entry_stops(outcome: EntryOutcome, index: usize)
    requires
        outcome_of_entry(outcome, None, index),
    ensures
        outcome.step == Err::<ExtractStep, UnzipFailure>(UnzipFailure::UnreadableEntry { index }),
{
}

/// The step for an entry that opened with this name and these bytes, or
/// nothing when the name cannot be split.
pub fn step_for_entry(name: String, data: Vec<u8>) -> (step: Option<ExtractStep>)
    ensures
        step is Some <==> name_splittable(name@),
        step matches Some(s) ==> step_view(s) == expected_step(name@, data@),
        step matches Some(ExtractStep::File { name: n, data: d }) ==> n@ == name@ && d@ == data@
            && name@.last() != '/',
        step matches Some(ExtractStep::Directory { name: n }) ==> n@ == name@ && name@.last()
            == '/',
{
    let n = name.as_str().unicode_len();
    if n == 0 {
        return None;
    }
    let last = name.as_str().get_char(n - 1);
    if (last as u32) >= 0x80 {
        return None;
    }
    if last == '/' {
        Some(ExtractStep::Directory { name })
    } else {
        Some(ExtractStep::File { name, data })
    }
}

/// The extraction of a zip archive, entry by entry, in the archive's order.
pub struct Extraction {
    archive: ZipArchive<Cursor<Vec<u8>>>,
    len: usize,
    next: usize,
    entries: Ghost<Seq<EntryRead>>,
}

impl View for Extraction {
    type V = (Seq<EntryRead>, nat);

    /// The archive's entries, and the index of the next one to take out
    /// (their number once extraction is over).
    closed spec fn view(&self) -> (Seq<EntryRead>, nat) {
        (self.entries@, self.next as nat)
    }
}

impl Extraction {
    /// The extraction's bookkeeping is consistent with its archive.
    pub closed spec fn wf(&self) -> bool {
        &&& zip_entries(self.archive) == self.entries@
        &&& self.len == self.entries@.len()
        &&& self.next <= self.len
    }

    /// Opens the zip archive in `bytes` for extraction.
    pub fn open(bytes: &[u8]) -> (extraction: Result<Extraction, UnzipFailure>)
        ensures
            extraction is Err <==> zip_contents(bytes@) is None,
            extraction matches Err(f) ==> f == UnzipFailure::InvalidArchive,
            extraction matches Ok(x) ==> x.wf() && zip_contents(bytes@) == Some(x@.0) && x@.1
                == 0,
    {
        match open_archive(bytes) {
            Err(_) => Err(UnzipFailure::InvalidArchive),
            Ok(archive) => {
                let len = archive_len(&archive);
                let ghost entries = zip_entries(archive);
                Ok(Extraction { archive, len, next: 0, entries: Ghost(entries) })
            },
        }
    }

    /// Takes out the next entry: nothing once all entries are out or
    /// extraction has stopped; otherwise the outcome for that entry, after
    /// which extraction goes on with the following entry only if the step
    /// was given.
    pub fn next_step(&mut self) -> (outcome: Option<EntryOutcome>)
        requires
            old(self).wf(),
        ensures
            final(self).wf(),
            final(self)@.0 == old(self)@.0,
            old(self)@.1 == old(self)@.0.len() ==> outcome is None && final(self)@ == old(self)@,
            old(self)@.1 < old(self)@.0.len() ==> (outcome matches Some(o) && outcome_of_entry(
                o,
                old(self)@.0[old(self)@.1 as int],
                old(self)@.1 as usize,
            ) && final(self)@.1 == (if entry_usable(old(self)@.0[old(self)@.1 as int]) {
                old(self)@.1 + 1
            } else {
                old(self)@.0.len()
            })),
    {
        if self.next >= self.len {
            return None;
        }
        let i = self.next;
        if !entry_opens_safely(&mut self.archive, i) {
            self.next = self.len;
            return Some(
                EntryOutcome { read_error: None, step: Err(UnzipFailure::UnreadableEntry { index: i }) },
            );
        }
        let read = match open_entry(&mut self.archive, i) {
            Err(_) => None,
            Ok(mut file) => {
                let name = opened_entry_name(&file);
                let (data, error) = read_rest(&mut file);
                Some((name, data, error))
            },
        };
        match read {
            None => {
                self.next = self.len;
                Some(
                    EntryOutcome {
                        read_error: None,
                        step: Err(UnzipFailure::UnreadableEntry { index: i }),
                    },
                )
            },
            Some((name, data, error)) => match step_for_entry(name, data) {
                None => {
                    self.next = self.len;
                    Some(
                        EntryOutcome {
                            read_error: error,
                            step: Err(UnzipFailure::UnsplittableName { index: i }),
                        },
                    )
                },
                Some(step) => {
                    self.next = i + 1;
                    Some(EntryOutcome { read_error: error, step: Ok(step) })
                },
            },
        }
    }
}

} // verus!
