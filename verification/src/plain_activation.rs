//! The plain way of activating profiles: every file and link of the profile
//! directory counts as existing, a backup copies them by content into a
//! folder named after the local time, only links are removed, and every
//! selected file is linked as a file.

use crate::create_profile_symlink::helpers::TargetEntry;
use crate::digits::{digits_of, render, zero_padded};
use crate::text::{chars_of, extend, prefixed, string_of, text_of, texts};
use std::fmt::Write;
use vstd::prelude::*;

verus! {

/// The text that `chrono` writes for a date and time with a format, or
/// `None` where these are no date and time or the format is none.
pub uninterp spec fn stamp_text(
    format: Seq<char>,
    year: i32,
    month: u32,
    day: u32,
    hour: u32,
    minute: u32,
    second: u32,
) -> Option<Seq<char>>;

/// The format of a backup's stamp: year, month and day, then hour, minute
/// and second, each with leading zeros.
pub open spec fn stamp_format() -> Seq<char> {
    "%Y-%m-%d_%H-%M-%S"@
}

/// Whether a year has a 29th of February.
pub open spec fn is_leap_year(year: int) -> bool {
    year % 4 == 0 && (year % 100 != 0 || year % 400 == 0)
}

/// The number of days of a month.
pub open spec fn days_in_month(year: int, month: int) -> int {
    if month == 2 {
        if is_leap_year(year) {
            29
        } else {
            28
        }
    } else if month == 4 || month == 6 || month == 9 || month == 11 {
        30
    } else {
        31
    }
}

/// A point in local time.
#[derive(Clone, Copy, Debug, PartialEq, Eq, Structural)]
pub struct LocalTime {
    pub year: i32,
    pub month: u32,
    pub day: u32,
    pub hour: u32,
    pub minute: u32,
    pub second: u32,
}

/// Whether the values are a day of the calendar and a time of the day.
pub open spec fn is_date_and_time(at: LocalTime) -> bool {
    &&& 1 <= at.month <= 12
    &&& 1 <= at.day <= days_in_month(at.year as int, at.month as int)
    &&& at.hour < 24
    &&& at.minute < 60
    &&& at.second < 60
}

/// A number in decimal with leading zeros up to `width` digits.
pub open spec fn padded(n: int, width: nat) -> Seq<char> {
    zero_padded(digits_of(n as nat, 10), width)
}

/// The stamp as it is written for a date and time in the years 0 to 9999.
pub open spec fn written_stamp(at: LocalTime) -> Seq<char> {
    padded(at.year as int, 4) + seq!['-'] + padded(at.month as int, 2) + seq!['-'] + padded(
        at.day as int,
        2,
    ) + seq!['_'] + padded(at.hour as int, 2) + seq!['-'] + padded(at.minute as int, 2) + seq![
        '-',
    ] + padded(at.second as int, 2)
}

/// Builds the date and time with `chrono::NaiveDate::from_ymd_opt` and
/// `and_hms_opt` and writes it with `NaiveDateTime::format`. The result is
/// given its name; for the stamp's format and the years 0 to 9999 the
/// contract also claims what the crate documents: the values are accepted
/// exactly where they are a day of the calendar and a time of the day, and
/// each field is written in decimal with leading zeros.
#[verifier::external_body]
pub(crate) fn format_stamp(format: &str, at: LocalTime) -> (r: Option<String>)
    ensures
        text_of(r) == stamp_text(
            format@,
            at.year,
            at.month,
            at.day,
            at.hour,
            at.minute,
            at.second,
        ),
        format@ == stamp_format() && 0 <= at.year <= 9999 ==> text_of(r) == (if is_date_and_time(
            at,
        ) {
            Some(written_stamp(at))
        } else {
            None
        }),
{
    let date = chrono::NaiveDate::from_ymd_opt(at.year, at.month, at.day)?;
    let time = date.and_hms_opt(at.hour, at.minute, at.second)?;
    let mut text = String::new();
    write!(text, "{}", time.format(format)).ok()?;
    Some(text)
}

/// The stamp that a backup made at this time carries.
pub open spec fn stamp_of(at: LocalTime) -> Option<Seq<char>> {
    stamp_text(stamp_format(), at.year, at.month, at.day, at.hour, at.minute, at.second)
}

/// Writes the stamp for a backup made at this time; `None` where the values
/// are no date and time.
pub fn backup_stamp(at: LocalTime) -> (r: Option<String>)
    ensures
        text_of(r) == stamp_of(at),
        0 <= at.year <= 9999 ==> text_of(r) == (if is_date_and_time(at) {
            Some(written_stamp(at))
        } else {
            None
        }),
{
    format_stamp("%Y-%m-%d_%H-%M-%S", at)
}

/// The simulator's profile directory below the user's profile directory.
pub open spec fn target_dir_of(user_profile: Seq<char>) -> Seq<char> {
    user_profile + "\\AppData\\Roaming\\Virtuali\\GSX\\MSFS"@
}

/// The simulator's profile directory for a user.
pub fn target_directory(user_profile: &str) -> (r: String)
    ensures
        r@ == target_dir_of(user_profile@),
{
    let mut path = String::from_str(user_profile);
    path.append("\\AppData\\Roaming\\Virtuali\\GSX\\MSFS");
    path
}

/// Whether the entry is a file or a link.
pub open spec fn is_file_or_link(e: TargetEntry) -> bool {
    e.is_file || e.is_symlink
}

/// Tests whether the profile directory holds a file or a link, so that
/// activation would replace something.
pub fn has_existing_files(entries: &Vec<TargetEntry>) -> (r: bool)
    ensures
        r == exists|i: int| 0 <= i < entries@.len() && is_file_or_link(#[trigger] entries@[i]),
{
    let mut i: usize = 0;
    while i < entries.len()
        invariant
            i <= entries.len(),
            forall|j: int| 0 <= j < i ==> !is_file_or_link(#[trigger] entries@[j]),
        decreases entries.len() - i,
    {
        if entries[i].is_file || entries[i].is_symlink {
            return true;
        }
        i = i + 1;
    }
    false
}

/// One file that a backup copies: its name, and the path of the copy.
pub struct FileCopy {
    pub name: String,
    pub destination: String,
}

/// A backup that is to be made: the folder to create, and the files to copy
/// into it by content.
pub struct CopyPlan {
    pub directory: String,
    pub copies: Vec<FileCopy>,
}

/// The folder of a backup with this stamp.
pub open spec fn backup_dir_of(user_profile: Seq<char>, stamp: Seq<char>) -> Seq<char> {
    target_dir_of(user_profile) + "\\_backup_profiles_"@ + stamp
}

/// The copies of the first `n` entries: one for each file or link, placed
/// in `directory` under its own name.
pub open spec fn copies_of(directory: Seq<char>, entries: Seq<TargetEntry>, n: nat) -> Seq<
    (Seq<char>, Seq<char>),
>
    decreases n,
{
    if n == 0 || n > entries.len() {
        Seq::empty()
    } else if is_file_or_link(entries[n - 1]) {
        copies_of(directory, entries, (n - 1) as nat).push(
            (entries[n - 1].name@, directory + "\\"@ + entries[n - 1].name@),
        )
    } else {
        copies_of(directory, entries, (n - 1) as nat)
    }
}

/// The name and destination of each copy.
pub open spec fn copies_view(v: Seq<FileCopy>) -> Seq<(Seq<char>, Seq<char>)> {
    Seq::new(v.len(), |i: int| (v[i].name@, v[i].destination@))
}

/// Names the folder of a backup with this stamp.
pub fn backup_directory(user_profile: &str, stamp: &str) -> (r: String)
    ensures
        r@ == backup_dir_of(user_profile@, stamp@),
{
    let mut directory = target_directory(user_profile);
    directory.append("\\_backup_profiles_");
    directory.append(stamp);
    directory
}

/// Plans the backup of the profile directory into a folder that carries the
/// given stamp.
pub fn create_profile_backup(user_profile: &str, stamp: &str, entries: &Vec<TargetEntry>) -> (r:
    CopyPlan)
    ensures
        r.directory@ == backup_dir_of(user_profile@, stamp@),
        copies_view(r.copies@) == copies_of(r.directory@, entries@, entries@.len()),
{
    let directory = backup_directory(user_profile, stamp);
    let mut copies: Vec<FileCopy> = Vec::new();
    assert(copies_view(copies@) =~= Seq::empty());
    let mut i: usize = 0;
    while i < entries.len()
        invariant
            i <= entries.len(),
            copies_view(copies@) == copies_of(directory@, entries@, i as nat),
        decreases entries.len() - i,
    {
        let e = &entries[i];
        if e.is_file || e.is_symlink {
            let mut destination = directory.clone();
            destination.append("\\");
            destination.append(e.name.as_str());
            let ghost before = copies_view(copies@);
            copies.push(FileCopy { name: e.name.clone(), destination });
            assert(copies_view(copies@) =~= before.push(
                (e.name@, directory@ + "\\"@ + e.name@),
            ));
        }
        i = i + 1;
    }
    CopyPlan { directory, copies }
}

/// The names of the links among the first `n` entries.
pub open spec fn links_of(entries: Seq<TargetEntry>, n: nat) -> Seq<Seq<char>>
    decreases n,
{
    if n == 0 || n > entries.len() {
        Seq::empty()
    } else if entries[n - 1].is_symlink {
        links_of(entries, (n - 1) as nat).push(entries[n - 1].name@)
    } else {
        links_of(entries, (n - 1) as nat)
    }
}

/// Lists what activation removes from the profile directory: every link,
/// whatever its name.
pub fn remove_existing_symlinks(entries: &Vec<TargetEntry>) -> (r: Vec<String>)
    ensures
        texts(r@) == links_of(entries@, entries@.len()),
{
    let mut names: Vec<String> = Vec::new();
    assert(texts(names@) =~= Seq::empty());
    let mut i: usize = 0;
    while i < entries.len()
        invariant
            i <= entries.len(),
            texts(names@) == links_of(entries@, i as nat),
        decreases entries.len() - i,
    {
        if entries[i].is_symlink {
            let ghost before = texts(names@);
            names.push(entries[i].name.clone());
            assert(texts(names@) =~= before.push(entries@[i as int].name@));
        }
        i = i + 1;
    }
    names
}

/// A selected profile file: its path, and the last component of the path,
/// where it has one.
pub struct SelectedFile {
    pub path: String,
    pub file_name: Option<String>,
}

/// One link that is to be made: from the link's path to the source.
pub struct FileLink {
    pub source: String,
    pub target: String,
}

/// The links that are to be made, in order; and whether, after them, the
/// activation fails for a selected file whose path has no last component.
pub struct LinkPlan {
    pub links: Vec<FileLink>,
    pub invalid_path: bool,
}

/// The number of selected files that come before the first whose path has
/// no last component, among the first `n`.
pub open spec fn valid_prefix(files: Seq<SelectedFile>, n: nat) -> nat
    decreases n,
{
    if n == 0 || n > files.len() {
        0
    } else if valid_prefix(files, (n - 1) as nat) == n - 1 && files[n - 1].file_name is Some {
        n
    } else {
        valid_prefix(files, (n - 1) as nat)
    }
}

/// The link for a selected file in the profile directory.
pub open spec fn link_of(file: SelectedFile, target_dir: Seq<char>) -> (Seq<char>, Seq<char>) {
    (file.path@, target_dir + "\\"@ + file.file_name->0@)
}

/// The source and target of each link.
pub open spec fn links_view(v: Seq<FileLink>) -> Seq<(Seq<char>, Seq<char>)> {
    Seq::new(v.len(), |i: int| (v[i].source@, v[i].target@))
}

/// Plans the links for the selected files: one file link for each, under
/// the file's own name, up to the first file whose path has no last
/// component.
pub fn create_profile_symlinks(selected_files: &Vec<SelectedFile>, target_dir: &str) -> (r:
    LinkPlan)
    ensures
        r.links@.len() == valid_prefix(selected_files@, selected_files@.len()),
        forall|i: int|
            0 <= i < r.links@.len() ==> #[trigger] links_view(r.links@)[i] == link_of(
                selected_files@[i],
                target_dir@,
            ),
        r.invalid_path == (r.links@.len() < selected_files@.len()),
{
    let mut links: Vec<FileLink> = Vec::new();
    let mut i: usize = 0;
    while i < selected_files.len()
        invariant
            i <= selected_files.len(),
            links@.len() == i,
            valid_prefix(selected_files@, i as nat) == i,
            forall|k: int|
                0 <= k < i ==> #[trigger] links_view(links@)[k] == link_of(
                    selected_files@[k],
                    target_dir@,
                ),
        decreases selected_files.len() - i,
    {
        match &selected_files[i].file_name {
            None => {
                proof {
                    lemma_valid_prefix_stops(selected_files@, i as nat, selected_files@.len());
                }
                return LinkPlan { links, invalid_path: true };
            },
            Some(name) => {
                let mut target = String::from_str(target_dir);
                target.append("\\");
                target.append(name.as_str());
                let ghost before = links_view(links@);
                links.push(FileLink { source: selected_files[i].path.clone(), target });
                assert forall|k: int| 0 <= k < i + 1 implies #[trigger] links_view(links@)[k]
                    == link_of(selected_files@[k], target_dir@) by {
                    if k < i {
                        assert(links_view(links@)[k] == before[k]);
                    }
                }
            },
        }
        i = i + 1;
    }
    LinkPlan { links, invalid_path: false }
}

/// Behind a file whose path has no last component nothing more is linked.
pub proof fn lemma_valid_prefix_stops(files: Seq<SelectedFile>, at: nat, n: nat)
    requires
        at < n <= files.len(),
        valid_prefix(files, at) == at,
        files[at as int].file_name is None,
    ensures
        valid_prefix(files, n) == at,
    decreases n,
{
    if n > at + 1 {
        lemma_valid_prefix_stops(files, at, (n - 1) as nat);
    }
}

/// What the user is told after `count` profiles were linked.
pub open spec fn activation_text(count: usize) -> Seq<char> {
    "Successfully activated "@ + digits_of(count as nat, 10) + " profiles"@
}

/// Words what the user is told after `count` profiles were linked.
pub fn activation_message(count: usize) -> (r: String)
    ensures
        r@ == activation_text(count),
{
    let mut text = chars_of("Successfully activated ");
    let number = render(count as u64, 10);
    extend(&mut text, &number);
    let tail = chars_of(" profiles");
    extend(&mut text, &tail);
    string_of(&text)
}

/// What can fail in a plain activation, besides what fails in any.
#[derive(Clone, Copy, Debug, PartialEq, Eq, Structural)]
pub enum PlainFailure {
    /// The user's profile directory is not known.
    UserProfile,
    /// A file could not be read for the backup.
    ReadFile,
    /// A copy could not be written.
    WriteBackupFile,
    /// A link could not be removed.
    RemoveLink,
    /// A link could not be made.
    CreateLink,
    /// A selected file's path has no last component.
    InvalidPath,
}

/// The message for a failure. `subject` is the path that the failure is
/// about and `detail` the system's description; a failure that has none
/// leaves it out.
pub open spec fn plain_failure_text(failure: PlainFailure, subject: Seq<char>, detail: Seq<char>) -> Seq<
    char,
> {
    match failure {
        PlainFailure::UserProfile => "Failed to get user profile directory"@,
        PlainFailure::ReadFile => "Failed to read file "@ + subject + ": "@ + detail,
        PlainFailure::WriteBackupFile => "Failed to write backup file "@ + subject + ": "@
            + detail,
        PlainFailure::RemoveLink => "Failed to remove symlink "@ + subject + ": "@ + detail,
        PlainFailure::CreateLink => "Failed to create symlink: "@ + detail,
        PlainFailure::InvalidPath => "Invalid file path"@,
    }
}

/// `head`, `subject`, a colon with a space, and `detail`.
fn about(head: &str, subject: &str, detail: &str) -> (r: String)
    ensures
        r@ == head@ + subject@ + ": "@ + detail@,
{
    let mut text = String::from_str(head);
    text.append(subject);
    text.append(": ");
    text.append(detail);
    text
}

/// Words the message for a failure.
pub fn plain_failure_message(failure: PlainFailure, subject: &str, detail: &str) -> (r: String)
    ensures
        r@ == plain_failure_text(failure, subject@, detail@),
{
    match failure {
        PlainFailure::UserProfile => String::from_str("Failed to get user profile directory"),
        PlainFailure::ReadFile => about("Failed to read file ", subject, detail),
        PlainFailure::WriteBackupFile => about("Failed to write backup file ", subject, detail),
        PlainFailure::RemoveLink => about("Failed to remove symlink ", subject, detail),
        PlainFailure::CreateLink => prefixed("Failed to create symlink: ", detail),
        PlainFailure::InvalidPath => String::from_str("Invalid file path"),
    }
}

} // verus!
