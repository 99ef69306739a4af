//! The steps of an activation: what is copied to a backup, what is removed
//! from the simulator's profile directory and what is linked into it.

use crate::digits::{digits_of, render};
use crate::text::{chars_of, extend, prefixed, starts_with, string_of, texts};
use vstd::prelude::*;

verus! {

/// One entry of the simulator's profile directory.
pub struct TargetEntry {
    /// The entry's name within the directory.
    pub name: String,
    pub is_dir: bool,
    pub is_file: bool,
    pub is_symlink: bool,
}

/// Whether the entry is a directory that holds an earlier backup: its name
/// begins with `backup-`.
pub open spec fn is_backup_dir(e: TargetEntry) -> bool {
    e.is_dir && "backup-"@.is_prefix_of(e.name@)
}

/// Whether the entry is a file of its own: no backup directory, a file, and
/// no link.
pub open spec fn is_actual_file(e: TargetEntry) -> bool {
    !is_backup_dir(e) && e.is_file && !e.is_symlink
}

/// Whether activation removes the entry: a link that is no backup
/// directory. Files of their own stay where they are.
pub open spec fn is_removed(e: TargetEntry) -> bool {
    !is_backup_dir(e) && e.is_symlink
}

/// Removal leaves files alone: no file of its own is removed, so what a
/// backup copies is never what activation removes; and nothing of an earlier
/// backup is copied or removed.
pub proof fn lemma_removal_spares_files(e: TargetEntry)
    ensures
        is_actual_file(e) ==> !is_removed(e),
        is_removed(e) ==> e.is_symlink,
        is_backup_dir(e) ==> !is_actual_file(e) && !is_removed(e),
{
}

/// Tests whether the entry is a backup directory.
pub fn backup_dir(e: &TargetEntry) -> (r: bool)
    ensures
        r == is_backup_dir(*e),
{
    if !e.is_dir {
        return false;
    }
    let name = chars_of(e.name.as_str());
    let prefix = chars_of("backup-");
    starts_with(&name, &prefix)
}

/// Tests whether the directory holds a file of its own, so that activation
/// would replace something.
pub fn has_actual_files(entries: &Vec<TargetEntry>) -> (r: bool)
    ensures
        r == exists|i: int| 0 <= i < entries@.len() && is_actual_file(#[trigger] entries@[i]),
{
    let mut i: usize = 0;
    while i < entries.len()
        invariant
            i <= entries.len(),
            forall|j: int| 0 <= j < i ==> !is_actual_file(#[trigger] entries@[j]),
        decreases entries.len() - i,
    {
        let e = &entries[i];
        if !backup_dir(e) && e.is_file && !e.is_symlink {
            return true;
        }
        i = i + 1;
    }
    false
}

/// The names of the entries that satisfy `keep`, in order.
pub open spec fn names_where(entries: Seq<TargetEntry>, keep: spec_fn(TargetEntry) -> bool) -> Seq<
    Seq<char>,
>
    decreases entries.len(),
{
    if entries.len() == 0 {
        Seq::empty()
    } else if keep(entries.last()) {
        names_where(entries.drop_last(), keep).push(entries.last().name@)
    } else {
        names_where(entries.drop_last(), keep)
    }
}

/// A backup that is to be made: the directory to create below the profile
/// directory, and the files to copy into it.
pub struct BackupPlan {
    pub directory: String,
    pub files: Vec<String>,
}

/// The name of the backup directory made at `timestamp`, in seconds since
/// the epoch.
pub open spec fn backup_dir_name(timestamp: u64) -> Seq<char> {
    "backup-"@ + digits_of(timestamp as nat, 10)
}

/// Names the backup directory made at `timestamp`.
pub fn backup_directory(timestamp: u64) -> (r: String)
    ensures
        r@ == backup_dir_name(timestamp),
{
    let mut directory = chars_of("backup-");
    let stamp = render(timestamp, 10);
    extend(&mut directory, &stamp);
    string_of(&directory)
}

/// Plans the backup of the profile directory: a directory named after the
/// time, and in it a copy of every file of its own that the directory holds.
pub fn create_profile_backup(timestamp: u64, entries: &Vec<TargetEntry>) -> (r: BackupPlan)
    ensures
        r.directory@ == backup_dir_name(timestamp),
        texts(r.files@) == names_where(entries@, |e: TargetEntry| is_actual_file(e)),
{
    let directory = backup_directory(timestamp);
    let mut files: Vec<String> = Vec::new();
    assert(texts(files@) =~= Seq::empty());
    let mut i: usize = 0;
    while i < entries.len()
        invariant
            i <= entries.len(),
            texts(files@) == names_where(
                entries@.take(i as int),
                |e: TargetEntry| is_actual_file(e),
            ),
        decreases entries.len() - i,
    {
        let e = &entries[i];
        proof {
            assert(entries@.take(i + 1).drop_last() =~= entries@.take(i as int));
        }
        if !backup_dir(e) && e.is_file && !e.is_symlink {
            let ghost before = texts(files@);
            files.push(e.name.clone());
            assert(texts(files@) =~= before.push(e.name@));
        }
        i = i + 1;
    }
    assert(entries@.take(entries@.len() as int) =~= entries@);
    BackupPlan { directory, files }
}

/// Lists what activation removes from the profile directory: every link,
/// but no file of its own and nothing of the backups.
pub fn remove_existing_symlinks(entries: &Vec<TargetEntry>) -> (r: Vec<String>)
    ensures
        texts(r@) == names_where(entries@, |e: TargetEntry| is_removed(e)),
{
    let mut names: Vec<String> = Vec::new();
    assert(texts(names@) =~= Seq::empty());
    let mut i: usize = 0;
    while i < entries.len()
        invariant
            i <= entries.len(),
            texts(names@) == names_where(entries@.take(i as int), |e: TargetEntry| is_removed(e)),
        decreases entries.len() - i,
    {
        let e = &entries[i];
        proof {
            assert(entries@.take(i + 1).drop_last() =~= entries@.take(i as int));
        }
        if e.is_symlink && !backup_dir(e) {
            let ghost before = texts(names@);
            names.push(e.name.clone());
            assert(texts(names@) =~= before.push(e.name@));
        }
        i = i + 1;
    }
    assert(entries@.take(entries@.len() as int) =~= entries@);
    names
}

/// What is known of a selected profile file before it is linked.
pub struct SourceProbe {
    /// Whether the file exists.
    pub exists: bool,
    /// The last component of its path, where it has one.
    pub file_name: Option<String>,
    /// Whether it is a directory.
    pub is_dir: bool,
}

/// What is known of the place in the profile directory where a link is to
/// be made.
pub struct TargetProbe {
    /// Whether something is there, following links.
    pub exists: bool,
    /// Whether a link is there.
    pub is_symlink: bool,
    /// Whether a directory is there, following links.
    pub is_dir: bool,
}

/// What is in the way of a new link and has to be removed first.
#[derive(Clone, Copy, Debug, PartialEq, Eq, Structural)]
pub enum Clearing {
    Nothing,
    RemoveDirectory,
    RemoveFile,
}

/// What is done for one selected profile file.
pub enum LinkDecision {
    /// The file does not exist and is passed over.
    Skip,
    /// Activation fails with this message.
    Fail(String),
    /// A link of this name is made, for a directory or for a file, after the
    /// place was cleared.
    Link { file_name: String, clearing: Clearing, directory: bool },
}

/// A `LinkDecision` as plain values.
pub enum LinkDecisionView {
    Skip,
    Fail(Seq<char>),
    Link { file_name: Seq<char>, clearing: Clearing, directory: bool },
}

impl View for LinkDecision {
    type V = LinkDecisionView;

    open spec fn view(&self) -> LinkDecisionView {
        match *self {
            LinkDecision::Skip => LinkDecisionView::Skip,
            LinkDecision::Fail(m) => LinkDecisionView::Fail(m@),
            LinkDecision::Link { file_name, clearing, directory } => LinkDecisionView::Link {
                file_name: file_name@,
                clearing,
                directory,
            },
        }
    }
}

/// What has to be removed at a place before a link is made there: a
/// directory where one is there, else a file where something or a link is
/// there.
pub open spec fn clearing_of(target: TargetProbe) -> Clearing {
    if !(target.exists || target.is_symlink) {
        Clearing::Nothing
    } else if target.is_dir {
        Clearing::RemoveDirectory
    } else {
        Clearing::RemoveFile
    }
}

/// What is done for a selected profile file. A file that does not exist is
/// passed over; one whose path has no last component fails the activation;
/// any other is linked under its own name, as a directory or as a file.
pub open spec fn link_decision(file_path: Seq<char>, source: SourceProbe, target: TargetProbe) -> LinkDecisionView {
    if !source.exists {
        LinkDecisionView::Skip
    } else if source.file_name is None {
        LinkDecisionView::Fail(failure_prefix(Failure::MissingFileName) + file_path)
    } else {
        LinkDecisionView::Link {
            file_name: source.file_name->0@,
            clearing: clearing_of(target),
            directory: source.is_dir,
        }
    }
}

/// Decides what is done for one selected profile file.
pub fn create_profile_symlink(file_path: &str, source: &SourceProbe, target: &TargetProbe) -> (r:
    LinkDecision)
    ensures
        r@ == link_decision(file_path@, *source, *target),
{
    if !source.exists {
        return LinkDecision::Skip;
    }
    match &source.file_name {
        None => {
            LinkDecision::Fail(failure_message(Failure::MissingFileName, file_path))
        },
        Some(name) => {
            let clearing = if !(target.exists || target.is_symlink) {
                Clearing::Nothing
            } else if target.is_dir {
                Clearing::RemoveDirectory
            } else {
                Clearing::RemoveFile
            };
            LinkDecision::Link { file_name: name.clone(), clearing, directory: source.is_dir }
        },
    }
}

/// The number of links among the first `n` decisions.
pub open spec fn links_among(decisions: Seq<LinkDecision>, n: int) -> nat
    decreases n,
{
    if n <= 0 {
        0
    } else if decisions[n - 1] is Link {
        links_among(decisions, n - 1) + 1
    } else {
        links_among(decisions, n - 1)
    }
}

/// The count of links after one more decision: a link adds one, a file
/// that is passed over adds nothing, and a failure ends the linking with its
/// message.
pub fn link_step(count: usize, decision: &LinkDecision) -> (r: Result<usize, String>)
    requires
        count < usize::MAX,
    ensures
        match decision@ {
            LinkDecisionView::Skip => r == Ok::<usize, String>(count),
            LinkDecisionView::Link { .. } => r == Ok::<usize, String>((count + 1) as usize),
            LinkDecisionView::Fail(message) => r is Err && r->Err_0@ == message,
        },
{
    match decision {
        LinkDecision::Skip => Ok(count),
        LinkDecision::Link { .. } => Ok(count + 1),
        LinkDecision::Fail(message) => Err(message.clone()),
    }
}

/// Whether decision `i` is the first that fails the linking.
pub open spec fn first_refusal(decisions: Seq<LinkDecision>, i: int) -> bool {
    &&& 0 <= i < decisions.len()
    &&& decisions[i] is Fail
    &&& forall|j: int| 0 <= j < i ==> !(decisions[j] is Fail)
}

/// Runs through the decisions for the selected profile files in order: the
/// number of links where none fails, else the message of the first that
/// fails.
pub fn create_profile_symlinks(decisions: &Vec<LinkDecision>) -> (r: Result<usize, String>)
    ensures
        match r {
            Ok(count) => {
                &&& forall|j: int| 0 <= j < decisions@.len() ==> !(decisions@[j] is Fail)
                &&& count == links_among(decisions@, decisions@.len() as int)
            },
            Err(message) => exists|i: int|
                first_refusal(decisions@, i) && message@ == decisions@[i]->Fail_0@,
        },
{
    let mut created: usize = 0;
    let mut i: usize = 0;
    while i < decisions.len()
        invariant
            i <= decisions.len(),
            created == links_among(decisions@, i as int),
            created <= i,
            forall|j: int| 0 <= j < i ==> !(decisions@[j] is Fail),
        decreases decisions.len() - i,
    {
        match link_step(created, &decisions[i]) {
            Ok(count) => {
                created = count;
            },
            Err(message) => {
                assert(first_refusal(decisions@, i as int));
                return Err(message);
            },
        }
        i = i + 1;
    }
    Ok(created)
}

/// An operation on the file system or the environment that can fail during
/// activation.
#[derive(Clone, Copy, Debug, PartialEq, Eq, Structural)]
pub enum Failure {
    ReadEnvironment,
    CreateTargetDirectory,
    SourceMissing,
    ReadDirectory,
    SystemTime,
    CreateBackupDirectory,
    ReadTargetDirectory,
    ReadDirectoryEntry,
    CopyToBackup,
    RemoveEntry,
    MissingFileName,
    RemoveExistingDirectory,
    RemoveExistingFile,
    CreateDirectoryLink,
    CreateFileLink,
}

/// The words with which the message of a failed operation begins. What
/// follows is the system's own description of the failure; for a missing
/// source or file name it is the path, and for an entry that could not be
/// removed see `removal_detail`.
pub open spec fn failure_prefix(failure: Failure) -> Seq<char> {
    match failure {
        Failure::ReadEnvironment => "Failed to get APPDATA environment variable: "@,
        Failure::CreateTargetDirectory => "Failed to create target directory: "@,
        Failure::SourceMissing => "Source file does not exist: "@,
        Failure::ReadDirectory => "Failed to read directory: "@,
        Failure::SystemTime => "Failed to get system time: "@,
        Failure::CreateBackupDirectory => "Failed to create backup directory: "@,
        Failure::ReadTargetDirectory => "Failed to read target directory: "@,
        Failure::ReadDirectoryEntry => "Failed to read directory entry: "@,
        Failure::CopyToBackup => "Failed to copy file to backup: "@,
        Failure::RemoveEntry => "Failed to remove file or symlink "@,
        Failure::MissingFileName => "Could not get file name from path: "@,
        Failure::RemoveExistingDirectory => "Failed to remove existing directory: "@,
        Failure::RemoveExistingFile => "Failed to remove existing file: "@,
        Failure::CreateDirectoryLink => "Failed to create directory symlink: "@,
        Failure::CreateFileLink => "Failed to create file symlink: "@,
    }
}

/// The message for a failed operation, given the system's description.
pub fn failure_message(failure: Failure, detail: &str) -> (r: String)
    ensures
        r@ == failure_prefix(failure) + detail@,
{
    let prefix = match failure {
        Failure::ReadEnvironment => "Failed to get APPDATA environment variable: ",
        Failure::CreateTargetDirectory => "Failed to create target directory: ",
        Failure::SourceMissing => "Source file does not exist: ",
        Failure::ReadDirectory => "Failed to read directory: ",
        Failure::SystemTime => "Failed to get system time: ",
        Failure::CreateBackupDirectory => "Failed to create backup directory: ",
        Failure::ReadTargetDirectory => "Failed to read target directory: ",
        Failure::ReadDirectoryEntry => "Failed to read directory entry: ",
        Failure::CopyToBackup => "Failed to copy file to backup: ",
        Failure::RemoveEntry => "Failed to remove file or symlink ",
        Failure::MissingFileName => "Could not get file name from path: ",
        Failure::RemoveExistingDirectory => "Failed to remove existing directory: ",
        Failure::RemoveExistingFile => "Failed to remove existing file: ",
        Failure::CreateDirectoryLink => "Failed to create directory symlink: ",
        Failure::CreateFileLink => "Failed to create file symlink: ",
    };
    prefixed(prefix, detail)
}

/// What follows the prefix where a file or link could not be removed: the
/// path, written as the system shows it, and the system's description.
pub fn removal_detail(shown_path: &str, description: &str) -> (r: String)
    ensures
        r@ == shown_path@ + ": "@ + description@,
{
    let mut text = String::from_str(shown_path);
    text.append(": ");
    text.append(description);
    text
}

} // verus!
