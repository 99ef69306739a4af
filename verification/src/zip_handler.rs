//! Profile files taken out of a ZIP archive, which the `zip` crate reads.

use crate::text::{
    chars_of, ends_with, lowercase_of, prefixed, split, split_on, string_of, to_lowercase, views,
};
use std::io::Cursor;
use std::io::Read;
use vstd::prelude::*;
use zip::read::ZipArchive;
use zip::result::ZipError;

verus! {

/// An open ZIP archive, read by the `zip` crate.
#[verifier::external_type_specification]
#[verifier::external_body]
#[verifier::reject_recursive_types(R)]
pub struct ExZipArchive<R>(ZipArchive<R>);

/// A reader over bytes in memory.
#[verifier::external_type_specification]
#[verifier::external_body]
#[verifier::reject_recursive_types(T)]
pub struct ExCursor<T>(Cursor<T>);

/// The error of the `zip` crate.
#[verifier::external_type_specification]
#[verifier::external_body]
pub struct ExZipError(ZipError);

/// The error with which reading fails.
#[verifier::external_type_specification]
#[verifier::external_body]
pub struct ExIoError(std::io::Error);

/// For each entry of the archive, in the order of its directory: the entry's
/// name where `ZipArchive::by_index` opens the entry, or `None` where it
/// hands back an error.
pub uninterp spec fn entry_names(archive: ZipArchive<Cursor<Vec<u8>>>) -> Seq<Option<Seq<char>>>;

/// For each entry of the archive: its uncompressed bytes, or `None` where the
/// entry cannot be opened or read to its end.
pub uninterp spec fn entry_contents(archive: ZipArchive<Cursor<Vec<u8>>>) -> Seq<Option<Seq<u8>>>;

/// What `ZipArchive::new` finds in these bytes: `None` where it refuses
/// them, else the names and the contents of the archive's entries, as
/// `entry_names` and `entry_contents` give them for the open archive.
pub uninterp spec fn archive_entries(bytes: Seq<u8>) -> Option<
    (Seq<Option<Seq<char>>>, Seq<Option<Seq<u8>>>),
>;

/// Whether an entry of this name is a directory: the name ends in a slash or
/// a backslash.
pub open spec fn is_dir_name(name: Seq<char>) -> bool {
    name.len() > 0 && (name.last() == '/' || name.last() == '\\')
}

/// Opens the archive held in `bytes` with `ZipArchive::new`, which reads
/// the archive's directory. The contract claims that the bytes alone decide
/// whether the archive opens and what its entries are.
#[verifier::external_body]
pub(crate) fn open_archive(bytes: Vec<u8>) -> (r: Result<ZipArchive<Cursor<Vec<u8>>>, ZipError>)
    ensures
        match archive_entries(bytes@) {
            Some((names, contents)) => r is Ok && entry_names(r->Ok_0) == names && entry_contents(
                r->Ok_0,
            ) == contents,
            None => r is Err,
        },
{
    ZipArchive::new(Cursor::new(bytes))
}

/// Calls `ZipArchive::len`: the number of entries.
#[verifier::external_body]
pub(crate) fn archive_len(archive: &ZipArchive<Cursor<Vec<u8>>>) -> (n: usize)
    ensures
        n == entry_names(*archive).len(),
        n == entry_contents(*archive).len(),
{
    archive.len()
}

/// Opens entry `i` with `ZipArchive::by_index` and hands out its name
/// (`ZipFile::name`) and whether it is a directory (`ZipFile::is_dir`, which
/// goes by the name's last character). `by_index` hands back an error for
/// every entry that it does not open: one whose content is encrypted, whose
/// way of compression is not known, or whose header cannot be read. Opening
/// an entry moves the reader and leaves the entries as they are.
#[verifier::external_body]
pub(crate) fn entry_head(archive: &mut ZipArchive<Cursor<Vec<u8>>>, i: usize) -> (r: Result<
    (String, bool),
    ZipError,
>)
    requires
        i < entry_names(*old(archive)).len(),
    ensures
        entry_names(*final(archive)) == entry_names(*old(archive)),
        entry_contents(*final(archive)) == entry_contents(*old(archive)),
        match entry_names(*old(archive))[i as int] {
            Some(name) => r is Ok && r->Ok_0.0@ == name && r->Ok_0.1 == is_dir_name(name),
            None => r is Err,
        },
{
    let file = archive.by_index(i)?;
    Ok((file.name().to_string(), file.is_dir()))
}

/// Opens entry `i` with `ZipArchive::by_index` and reads it to its end
/// (`Read::read_to_end`). A failure of either comes back as the reading
/// error, into which the crate converts its own. The entries stay as they
/// are.
#[verifier::external_body]
pub(crate) fn entry_bytes(archive: &mut ZipArchive<Cursor<Vec<u8>>>, i: usize) -> (r: Result<
    Vec<u8>,
    std::io::Error,
>)
    requires
        i < entry_contents(*old(archive)).len(),
    ensures
        entry_names(*final(archive)) == entry_names(*old(archive)),
        entry_contents(*final(archive)) == entry_contents(*old(archive)),
        match entry_contents(*old(archive))[i as int] {
            Some(bytes) => r is Ok && r->Ok_0@ == bytes,
            None => r is Err,
        },
{
    let mut file = archive.by_index(i)?;
    let mut content = Vec::new();
    file.read_to_end(&mut content)?;
    Ok(content)
}

/// The message of an archive error, as its `Display` impl writes it. Nothing
/// is claimed of the text.
#[verifier::external_body]
pub(crate) fn zip_error_text(e: &ZipError) -> (r: String) {
    e.to_string()
}

/// The message of a reading error, as its `Display` impl writes it. Nothing
/// is claimed of the text.
#[verifier::external_body]
pub(crate) fn io_error_text(e: &std::io::Error) -> (r: String) {
    e.to_string()
}

/// A file taken out of an archive: its name without directories, and its
/// bytes.
pub struct ExtractedFile {
    pub name: String,
    pub content: Vec<u8>,
}

/// An `ExtractedFile` as plain values.
pub struct FileView {
    pub name: Seq<char>,
    pub content: Seq<u8>,
}

impl View for ExtractedFile {
    type V = FileView;

    open spec fn view(&self) -> FileView {
        FileView { name: self.name@, content: self.content@ }
    }
}

/// The views of a list of files.
pub open spec fn files_view(v: Seq<ExtractedFile>) -> Seq<FileView> {
    Seq::new(v.len(), |i: int| v[i]@)
}

/// The last component of an entry's name: what follows its last slash.
pub open spec fn base_name(entry_name: Seq<char>) -> Seq<char> {
    split_on(entry_name, '/').last()
}

/// Whether a name in lower case ends as a profile file's does: in `.ini` or
/// in `.py`.
pub open spec fn is_profile_ending(lowered: Seq<char>) -> bool {
    ".ini"@.is_suffix_of(lowered) || ".py"@.is_suffix_of(lowered)
}

/// Whether a file of this name is a profile file: in lower case the name
/// ends in `.ini` or `.py`.
pub open spec fn is_profile_name(name: Seq<char>) -> bool {
    is_profile_ending(lowercase_of(name))
}

/// What becomes of one entry of the archive.
pub enum EntryFate {
    /// A directory, or no profile file: passed over.
    Skipped,
    /// A profile file: taken out.
    Taken(FileView),
    /// The entry cannot be opened.
    Unopened,
    /// The entry is a profile file whose bytes cannot be read.
    Unread,
}

/// What becomes of an entry with this name and these bytes (`None` where
/// they cannot be had).
pub open spec fn entry_fate(name: Option<Seq<char>>, content: Option<Seq<u8>>) -> EntryFate {
    match name {
        None => EntryFate::Unopened,
        Some(n) => if is_dir_name(n) || !is_profile_name(base_name(n)) {
            EntryFate::Skipped
        } else {
            match content {
                None => EntryFate::Unread,
                Some(c) => EntryFate::Taken(FileView { name: base_name(n), content: c }),
            }
        },
    }
}

/// The fate of entry `i`, given the names and contents of all entries.
pub open spec fn fate_at(
    names: Seq<Option<Seq<char>>>,
    contents: Seq<Option<Seq<u8>>>,
    i: int,
) -> EntryFate {
    entry_fate(names[i], contents[i])
}

/// The files taken out of the first `n` entries, in order.
pub open spec fn taken(
    names: Seq<Option<Seq<char>>>,
    contents: Seq<Option<Seq<u8>>>,
    n: nat,
) -> Seq<FileView>
    decreases n,
{
    if n == 0 {
        Seq::empty()
    } else {
        match fate_at(names, contents, n - 1) {
            EntryFate::Taken(file) => taken(names, contents, (n - 1) as nat).push(file),
            _ => taken(names, contents, (n - 1) as nat),
        }
    }
}

/// Whether entry `i` fails the extraction: it cannot be opened, or it is a
/// profile file that cannot be read.
pub open spec fn fails_at(
    names: Seq<Option<Seq<char>>>,
    contents: Seq<Option<Seq<u8>>>,
    i: int,
) -> bool {
    fate_at(names, contents, i) is Unopened || fate_at(names, contents, i) is Unread
}

/// Whether entry `i` is the first that fails the extraction.
pub open spec fn first_failure(
    names: Seq<Option<Seq<char>>>,
    contents: Seq<Option<Seq<u8>>>,
    i: int,
) -> bool {
    &&& 0 <= i < names.len()
    &&& fails_at(names, contents, i)
    &&& forall|j: int| 0 <= j < i ==> !fails_at(names, contents, j)
}

/// Whether no entry fails the extraction.
pub open spec fn all_readable(
    names: Seq<Option<Seq<char>>>,
    contents: Seq<Option<Seq<u8>>>,
) -> bool {
    forall|j: int| 0 <= j < names.len() ==> !fails_at(names, contents, j)
}

/// What the extraction gives for an archive with these entries. The
/// profile files are taken out in order; the first entry that fails the
/// extraction fails it with a message that tells whether the entry could not
/// be opened or not be read; an archive without profile files is refused.
pub open spec fn is_extraction(
    names: Seq<Option<Seq<char>>>,
    contents: Seq<Option<Seq<u8>>>,
    r: Result<Vec<ExtractedFile>, String>,
) -> bool {
    match r {
        Ok(files) => {
            &&& all_readable(names, contents)
            &&& files_view(files@) == taken(names, contents, names.len())
            &&& files@.len() > 0
        },
        Err(e) => {
            ||| exists|i: int|
                first_failure(names, contents, i) && (fate_at(names, contents, i) is Unopened
                    ==> "Failed to read file from ZIP: "@.is_prefix_of(e@)) && (fate_at(
                    names,
                    contents,
                    i,
                ) is Unread ==> "Failed to read file content: "@.is_prefix_of(e@))
            ||| all_readable(names, contents) && taken(names, contents, names.len()).len() == 0
                && e@ == "No .ini or .py files found in the ZIP archive"@
        },
    }
}

/// The last component of an entry's name.
pub fn file_name_of(entry_name: &str) -> (r: String)
    ensures
        r@ == base_name(entry_name@),
{
    let chars = chars_of(entry_name);
    let pieces = split(&chars, '/');
    assert(views(pieces@).last() == pieces@[pieces@.len() - 1]@);
    string_of(&pieces[pieces.len() - 1])
}

/// Tests whether a name in lower case ends as a profile file's does.
pub fn has_profile_ending(lowered: &str) -> (r: bool)
    ensures
        r == is_profile_ending(lowered@),
{
    let chars = chars_of(lowered);
    let ini = chars_of(".ini");
    let py = chars_of(".py");
    ends_with(&chars, &ini) || ends_with(&chars, &py)
}

/// Tests whether a file of this name is a profile file.
pub fn has_profile_extension(name: &str) -> (r: bool)
    ensures
        r == is_profile_name(name@),
{
    let lowered = to_lowercase(name);
    has_profile_ending(lowered.as_str())
}

/// Takes the profile files out of an open archive: every entry that is no
/// directory and whose file name ends in `.ini` or `.py`, whatever its case,
/// in the order of the archive. Fails at the first entry that cannot be
/// opened, or that is a profile file and cannot be read, and where the
/// archive holds no profile file at all.
pub fn extract_profile_files(archive: &mut ZipArchive<Cursor<Vec<u8>>>) -> (r: Result<
    Vec<ExtractedFile>,
    String,
>)
    ensures
        entry_names(*final(archive)) == entry_names(*old(archive)),
        entry_contents(*final(archive)) == entry_contents(*old(archive)),
        is_extraction(entry_names(*old(archive)), entry_contents(*old(archive)), r),
{
    let ghost names = entry_names(*archive);
    let ghost contents = entry_contents(*archive);
    let count = archive_len(archive);
    let mut files: Vec<ExtractedFile> = Vec::new();
    assert(files_view(files@) =~= Seq::empty());
    let mut i: usize = 0;
    while i < count
        invariant
            i <= count,
            names == entry_names(*old(archive)),
            contents == entry_contents(*old(archive)),
            count == names.len(),
            count == contents.len(),
            entry_names(*archive) == names,
            entry_contents(*archive) == contents,
            files_view(files@) == taken(names, contents, i as nat),
            forall|j: int| 0 <= j < i ==> !fails_at(names, contents, j),
        decreases count - i,
    {
        match entry_head(archive, i) {
            Err(e) => {
                let detail = zip_error_text(&e);
                let text = prefixed("Failed to read file from ZIP: ", detail.as_str());
                assert(first_failure(names, contents, i as int));
                return Err(text);
            },
            Ok((name, is_dir)) => {
                if !is_dir {
                    let base = file_name_of(name.as_str());
                    if has_profile_extension(base.as_str()) {
                        match entry_bytes(archive, i) {
                            Err(e) => {
                                let detail = io_error_text(&e);
                                let text = prefixed("Failed to read file content: ", detail.as_str());
                                assert(first_failure(names, contents, i as int));
                                return Err(text);
                            },
                            Ok(content) => {
                                let ghost before = files_view(files@);
                                let file = ExtractedFile { name: base, content };
                                files.push(file);
                                assert(files_view(files@) =~= before.push(file@));
                            },
                        }
                    }
                }
            },
        }
        i = i + 1;
    }
    if files.len() == 0 {
        return Err(String::from_str("No .ini or .py files found in the ZIP archive"));
    }
    Ok(files)
}

/// Every file that is taken out has a profile file's name.
pub proof fn lemma_taken_are_profile_files(
    names: Seq<Option<Seq<char>>>,
    contents: Seq<Option<Seq<u8>>>,
    n: nat,
)
    ensures
        forall|k: int|
            0 <= k < taken(names, contents, n).len() ==> is_profile_name(
                (#[trigger] taken(names, contents, n)[k]).name,
            ),
    decreases n,
{
    if n > 0 {
        lemma_taken_are_profile_files(names, contents, (n - 1) as nat);
        let before = taken(names, contents, (n - 1) as nat);
        assert forall|k: int| 0 <= k < taken(names, contents, n).len() implies is_profile_name(
            (#[trigger] taken(names, contents, n)[k]).name,
        ) by {
            if k < before.len() {
                assert(taken(names, contents, n)[k] == before[k]);
            }
        }
    }
}

/// Takes the profile files out of the ZIP archive held in `zip_content`:
/// bytes that are no archive are refused, and an archive is handled as
/// `extract_profile_files` says.
pub fn extract_zip_file(zip_content: Vec<u8>) -> (r: Result<Vec<ExtractedFile>, String>)
    ensures
        match archive_entries(zip_content@) {
            Some((names, contents)) => is_extraction(names, contents, r),
            None => r is Err && "Failed to open ZIP: "@.is_prefix_of(r->Err_0@),
        },
        r is Ok ==> forall|k: int|
            0 <= k < r->Ok_0@.len() ==> is_profile_name((#[trigger] r->Ok_0@[k]).name@),
{
    match open_archive(zip_content) {
        Err(e) => {
            let detail = zip_error_text(&e);
            Err(prefixed("Failed to open ZIP: ", detail.as_str()))
        },
        Ok(archive) => {
            let mut archive = archive;
            let ghost names = entry_names(archive);
            let ghost contents = entry_contents(archive);
            let r = extract_profile_files(&mut archive);
            proof {
                lemma_taken_are_profile_files(names, contents, names.len());
                if r is Ok {
                    let files = r->Ok_0;
                    assert forall|k: int| 0 <= k < files@.len() implies is_profile_name(
                        (#[trigger] files@[k]).name@,
                    ) by {
                        assert(files_view(files@)[k] == files@[k]@);
                    }
                }
            }
            r
        },
    }
}

} // verus!
