//! The tree of folders that hold GSX profiles, built from what was read of a
//! directory tree.

use crate::text::{chars_of, contains, occurs_in, prefixed, same_text};
use crate::tree_data::{item_view, items_view, path_id, TreeDataItem, TreeView};
use vstd::prelude::*;

verus! {

/// What reading a directory gave.
pub enum Listing {
    /// The directory could not be read: the system's message, and whether
    /// the reason was a lack of permission.
    Failed { message: String, permission_denied: bool },
    /// The directory's entries, in the order in which they were read.
    Entries(Vec<Entry>),
}

/// One entry of a directory that was read.
pub enum Entry {
    /// The entry itself could not be read: the system's message.
    Unreadable { message: String },
    /// A file.
    File { name: String, path: String },
    /// Neither a file nor a directory.
    Other { name: String, path: String },
    /// A directory, with what reading it gave.
    Directory { name: String, path: String, listing: Listing },
}

/// A list of nodes or an error message, as plain values.
pub open spec fn tree_result_view(r: Result<Vec<TreeDataItem>, String>) -> Result<
    Seq<TreeView>,
    Seq<char>,
> {
    match r {
        Ok(items) => Ok(items_view(items@)),
        Err(e) => Err(e@),
    }
}

/// The node for a file or folder inside a profile folder: it is identified
/// by the folder's path, a slash and its name.
pub open spec fn profile_node(
    dir_path: Seq<char>,
    name: Seq<char>,
    path: Seq<char>,
    children: Option<Seq<TreeView>>,
) -> TreeView {
    TreeView {
        id: dir_path + "/"@ + name,
        name,
        path,
        is_directory: children is Some,
        children,
    }
}

/// What the first `n` entries of a profile folder at `dir_path` contribute:
/// every file, and every folder that holds a file somewhere below it. The
/// first entry or folder that cannot be read fails the whole.
pub open spec fn gsx_contents(dir_path: Seq<char>, entries: Seq<Entry>, n: nat) -> Result<
    Seq<TreeView>,
    Seq<char>,
>
    decreases entries, n,
{
    if n == 0 || n > entries.len() {
        Ok(Seq::empty())
    } else {
        match gsx_contents(dir_path, entries, (n - 1) as nat) {
            Err(e) => Err(e),
            Ok(items) => match entries[n - 1] {
                Entry::Unreadable { message } => Err(message@),
                Entry::File { name, path } => Ok(
                    items.push(profile_node(dir_path, name@, path@, None)),
                ),
                Entry::Other { .. } => Ok(items),
                Entry::Directory { name, path, listing } => match gsx_listing(path@, listing) {
                    Err(e) => Err(e),
                    Ok(children) => if children.len() > 0 {
                        Ok(items.push(profile_node(dir_path, name@, path@, Some(children))))
                    } else {
                        Ok(items)
                    },
                },
            },
        }
    }
}

/// What a profile folder at `dir_path` holds, given what reading it gave.
pub open spec fn gsx_listing(dir_path: Seq<char>, listing: Listing) -> Result<
    Seq<TreeView>,
    Seq<char>,
>
    decreases listing, 0nat,
{
    match listing {
        Listing::Failed { message, .. } => Err(message@),
        Listing::Entries(v) => gsx_contents(dir_path, v@, v@.len()),
    }
}

/// A failure among the first entries of a profile folder is the failure of
/// the whole folder.
pub proof fn lemma_gsx_failure_stays(dir_path: Seq<char>, entries: Seq<Entry>, n: nat, m: nat)
    requires
        n <= m <= entries.len(),
        gsx_contents(dir_path, entries, n) is Err,
    ensures
        gsx_contents(dir_path, entries, m) == gsx_contents(dir_path, entries, n),
    decreases m,
{
    if n < m {
        lemma_gsx_failure_stays(dir_path, entries, n, (m - 1) as nat);
    }
}

/// A profile folder's listing shows no empty folder: every node that is a
/// directory has a child.
pub proof fn lemma_gsx_folders_hold_files(dir_path: Seq<char>, entries: Seq<Entry>, n: nat)
    requires
        gsx_contents(dir_path, entries, n) is Ok,
    ensures
        forall|k: int|
            0 <= k < gsx_contents(dir_path, entries, n)->Ok_0.len() ==> {
                let node = #[trigger] gsx_contents(dir_path, entries, n)->Ok_0[k];
                node.is_directory ==> node.children is Some && node.children->0.len() > 0
            },
    decreases n,
{
    if n > 0 && n <= entries.len() {
        lemma_gsx_folders_hold_files(dir_path, entries, (n - 1) as nat);
        let before = gsx_contents(dir_path, entries, (n - 1) as nat)->Ok_0;
        let all = gsx_contents(dir_path, entries, n)->Ok_0;
        assert forall|k: int| 0 <= k < all.len() implies {
            let node = #[trigger] all[k];
            node.is_directory ==> node.children is Some && node.children->0.len() > 0
        } by {
            if k < before.len() {
                assert(all[k] == before[k]);
            }
        }
    }
}

/// `dir_path`, a slash and `name`.
fn child_id(dir_path: &str, name: &str) -> (r: String)
    ensures
        r@ == dir_path@ + "/"@ + name@,
{
    let mut id = String::from_str(dir_path);
    id.append("/");
    id.append(name);
    id
}

/// Lists what a profile folder holds: its files, and its folders as far as
/// they hold files; a folder that holds none is left out.
pub fn read_gsx_profile_contents(dir_path: &str, listing: &Listing) -> (r: Result<
    Vec<TreeDataItem>,
    String,
>)
    ensures
        tree_result_view(r) == gsx_listing(dir_path@, *listing),
    decreases *listing,
{
    match listing {
        Listing::Failed { message, .. } => Err(message.clone()),
        Listing::Entries(entries) => {
            let mut items: Vec<TreeDataItem> = Vec::new();
            assert(items_view(items@) =~= Seq::empty());
            let mut i: usize = 0;
            while i < entries.len()
                invariant
                    i <= entries.len(),
                    *listing == Listing::Entries(*entries),
                    Ok::<Seq<TreeView>, Seq<char>>(items_view(items@)) == gsx_contents(
                        dir_path@,
                        entries@,
                        i as nat,
                    ),
                decreases entries.len() - i,
            {
                let ghost before = items_view(items@);
                match &entries[i] {
                    Entry::Unreadable { message } => {
                        proof {
                            lemma_gsx_failure_stays(
                                dir_path@,
                                entries@,
                                (i + 1) as nat,
                                entries@.len(),
                            );
                        }
                        return Err(message.clone());
                    },
                    Entry::File { name, path } => {
                        let item = TreeDataItem {
                            id: child_id(dir_path, name.as_str()),
                            name: name.clone(),
                            path: path.clone(),
                            is_directory: false,
                            children: None,
                        };
                        items.push(item);
                        assert(items_view(items@) =~= before.push(
                            profile_node(dir_path@, name@, path@, None),
                        ));
                    },
                    Entry::Other { .. } => {},
                    Entry::Directory { name, path, listing: inner } => {
                        let children = match read_gsx_profile_contents(path.as_str(), inner) {
                            Ok(children) => children,
                            Err(e) => {
                                proof {
                                    lemma_gsx_failure_stays(
                                        dir_path@,
                                        entries@,
                                        (i + 1) as nat,
                                        entries@.len(),
                                    );
                                }
                                return Err(e);
                            },
                        };
                        if children.len() > 0 {
                            let ghost shown = items_view(children@);
                            let item = TreeDataItem {
                                id: child_id(dir_path, name.as_str()),
                                name: name.clone(),
                                path: path.clone(),
                                is_directory: true,
                                children: Some(children),
                            };
                            items.push(item);
                            assert(items_view(items@) =~= before.push(
                                profile_node(dir_path@, name@, path@, Some(shown)),
                            ));
                        }
                    },
                }
                i = i + 1;
            }
            Ok(items)
        },
    }
}

/// The node for a folder that leads to profiles: it is identified by its
/// name.
pub open spec fn folder_node(name: Seq<char>, path: Seq<char>, children: Seq<TreeView>) -> TreeView {
    TreeView { id: name, name, path, is_directory: true, children: Some(children) }
}

/// What the first `n` entries of a folder contribute to the tree of
/// relevant folders: every folder named `GSX Profile`, with what it holds,
/// and every other folder that leads to one. Files are passed over. The
/// first entry or folder that cannot be read fails the whole.
pub open spec fn relevant_contents(entries: Seq<Entry>, n: nat) -> Result<Seq<TreeView>, Seq<char>>
    decreases entries, n,
{
    if n == 0 || n > entries.len() {
        Ok(Seq::empty())
    } else {
        match relevant_contents(entries, (n - 1) as nat) {
            Err(e) => Err(e),
            Ok(items) => match entries[n - 1] {
                Entry::Unreadable { message } => Err(message@),
                Entry::File { .. } => Ok(items),
                Entry::Other { .. } => Ok(items),
                Entry::Directory { name, path, listing } => if name@ == "GSX Profile"@ {
                    match gsx_listing(path@, listing) {
                        Err(e) => Err(e),
                        Ok(files) => Ok(items.push(folder_node(name@, path@, files))),
                    }
                } else {
                    match relevant_listing(listing) {
                        Err(e) => Err(e),
                        Ok(children) => if children.len() > 0 {
                            Ok(items.push(folder_node(name@, path@, children)))
                        } else {
                            Ok(items)
                        },
                    }
                },
            },
        }
    }
}

/// The tree of relevant folders below a folder, given what reading it gave.
pub open spec fn relevant_listing(listing: Listing) -> Result<Seq<TreeView>, Seq<char>>
    decreases listing, 0nat,
{
    match listing {
        Listing::Failed { message, .. } => Err(message@),
        Listing::Entries(v) => relevant_contents(v@, v@.len()),
    }
}

/// A failure among the first entries of a folder is the failure of the
/// whole folder.
pub proof fn lemma_relevant_failure_stays(entries: Seq<Entry>, n: nat, m: nat)
    requires
        n <= m <= entries.len(),
        relevant_contents(entries, n) is Err,
    ensures
        relevant_contents(entries, m) == relevant_contents(entries, n),
    decreases m,
{
    if n < m {
        lemma_relevant_failure_stays(entries, n, (m - 1) as nat);
    }
}

/// Builds the tree of relevant folders below a folder: the folders named
/// `GSX Profile` with what they hold, and the folders that lead to one.
pub fn read_relevant_folders(listing: &Listing) -> (r: Result<Vec<TreeDataItem>, String>)
    ensures
        tree_result_view(r) == relevant_listing(*listing),
    decreases *listing,
{
    match listing {
        Listing::Failed { message, .. } => Err(message.clone()),
        Listing::Entries(entries) => {
            let mut items: Vec<TreeDataItem> = Vec::new();
            assert(items_view(items@) =~= Seq::empty());
            let mut i: usize = 0;
            while i < entries.len()
                invariant
                    i <= entries.len(),
                    *listing == Listing::Entries(*entries),
                    Ok::<Seq<TreeView>, Seq<char>>(items_view(items@)) == relevant_contents(
                        entries@,
                        i as nat,
                    ),
                decreases entries.len() - i,
            {
                let ghost before = items_view(items@);
                match &entries[i] {
                    Entry::Unreadable { message } => {
                        proof {
                            lemma_relevant_failure_stays(
                                entries@,
                                (i + 1) as nat,
                                entries@.len(),
                            );
                        }
                        return Err(message.clone());
                    },
                    Entry::File { .. } => {},
                    Entry::Other { .. } => {},
                    Entry::Directory { name, path, listing: inner } => {
                        let profile_folder = same_text(name.as_str(), "GSX Profile");
                        let found = if profile_folder {
                            read_gsx_profile_contents(path.as_str(), inner)
                        } else {
                            read_relevant_folders(inner)
                        };
                        match found {
                            Err(e) => {
                                proof {
                                    lemma_relevant_failure_stays(
                                        entries@,
                                        (i + 1) as nat,
                                        entries@.len(),
                                    );
                                }
                                return Err(e);
                            },
                            Ok(children) => {
                                if profile_folder || children.len() > 0 {
                                    let ghost shown = items_view(children@);
                                    let item = TreeDataItem {
                                        id: name.clone(),
                                        name: name.clone(),
                                        path: path.clone(),
                                        is_directory: true,
                                        children: Some(children),
                                    };
                                    items.push(item);
                                    assert(items_view(items@) =~= before.push(
                                        folder_node(name@, path@, shown),
                                    ));
                                }
                            },
                        }
                    },
                }
                i = i + 1;
            }
            Ok(items)
        },
    }
}

/// The name of an entry, where it was read.
pub open spec fn entry_name(entry: Entry) -> Option<Seq<char>> {
    match entry {
        Entry::Unreadable { .. } => None,
        Entry::File { name, .. } => Some(name@),
        Entry::Other { name, .. } => Some(name@),
        Entry::Directory { name, .. } => Some(name@),
    }
}

/// Whether one of the first `n` entries is a directory that is or holds a
/// profile folder.
pub open spec fn profile_folder_among(entries: Seq<Entry>, n: nat) -> bool
    decreases entries, n,
{
    if n == 0 || n > entries.len() {
        false
    } else {
        profile_folder_among(entries, (n - 1) as nat) || (entries[n - 1] is Directory
            && holds_profile_folder(entries[n - 1]))
    }
}

/// Whether the entry is a profile folder or holds one: it is named
/// `GSX Profile`, or it is a directory that could be read and one of the
/// directories in it is or holds a profile folder.
pub open spec fn holds_profile_folder(entry: Entry) -> bool
    decreases entry, 0nat,
{
    entry_name(entry) == Some("GSX Profile"@) || match entry {
        Entry::Directory { listing: Listing::Entries(v), .. } => profile_folder_among(
            v@,
            v@.len(),
        ),
        _ => false,
    }
}

/// Once a profile folder is found among the first entries, it is found
/// among all.
pub proof fn lemma_profile_folder_found(entries: Seq<Entry>, n: nat, m: nat)
    requires
        n <= m <= entries.len(),
        profile_folder_among(entries, n),
    ensures
        profile_folder_among(entries, m),
    decreases m,
{
    if n < m {
        lemma_profile_folder_found(entries, n, (m - 1) as nat);
    }
}

/// Tests whether the entry is a profile folder or holds one.
pub fn contains_gsx_profile(entry: &Entry) -> (r: bool)
    ensures
        r == holds_profile_folder(*entry),
    decreases *entry,
{
    match entry {
        Entry::Unreadable { .. } => false,
        Entry::File { name, .. } => same_text(name.as_str(), "GSX Profile"),
        Entry::Other { name, .. } => same_text(name.as_str(), "GSX Profile"),
        Entry::Directory { name, listing, .. } => {
            if same_text(name.as_str(), "GSX Profile") {
                return true;
            }
            match listing {
                Listing::Failed { .. } => false,
                Listing::Entries(entries) => {
                    let mut i: usize = 0;
                    while i < entries.len()
                        invariant
                            i <= entries.len(),
                            *listing == Listing::Entries(*entries),
                            entry is Directory,
                            entry->Directory_listing == *listing,
                            !profile_folder_among(entries@, i as nat),
                        decreases entries.len() - i,
                    {
                        proof {
                            assert(decreases_to!(*entry => entry->Directory_listing));
                            assert(decreases_to!(*listing => listing->Entries_0));
                            assert(decreases_to!(*entries => entries[i as int]));
                        }
                        let found = match &entries[i] {
                            Entry::Directory { .. } => contains_gsx_profile(&entries[i]),
                            _ => false,
                        };
                        if found {
                            proof {
                                lemma_profile_folder_found(
                                    entries@,
                                    (i + 1) as nat,
                                    entries@.len(),
                                );
                            }
                            return true;
                        }
                        i = i + 1;
                    }
                    false
                },
            }
        },
    }
}

/// Whether the path lies in the store edition's package folder, which the
/// system protects.
pub open spec fn is_protected_path(path: Seq<char>) -> bool {
    occurs_in(path, "Microsoft.Limitless_8wekyb3d8bbwe"@)
}

/// The message with which a folder is refused, if it is: only a protected
/// folder that could not be read is refused.
pub open spec fn path_refusal(path: Seq<char>, listing: Listing) -> Option<Seq<char>> {
    match listing {
        Listing::Failed { message, permission_denied } => if !is_protected_path(path) {
            None
        } else if permission_denied {
            Some(
                "Cannot access the Microsoft Flight Simulator folder due to permission restrictions. Try running the app as administrator."@,
            )
        } else {
            Some("Error accessing path: "@ + message@)
        },
        Listing::Entries(_) => None,
    }
}

/// Tests the access to a folder before it is shown.
pub fn safely_check_path(path: &str, listing: &Listing) -> (r: Result<(), String>)
    ensures
        match path_refusal(path@, *listing) {
            Some(message) => r is Err && r->Err_0@ == message,
            None => r is Ok,
        },
{
    let path_chars = chars_of(path);
    let marker = chars_of("Microsoft.Limitless_8wekyb3d8bbwe");
    if !contains(&path_chars, &marker) {
        return Ok(());
    }
    match listing {
        Listing::Entries(_) => Ok(()),
        Listing::Failed { message, permission_denied } => {
            if *permission_denied {
                Err(
                    String::from_str(
                        "Cannot access the Microsoft Flight Simulator folder due to permission restrictions. Try running the app as administrator.",
                    ),
                )
            } else {
                Err(prefixed("Error accessing path: ", message.as_str()))
            }
        },
    }
}

/// What was found at the folder that the user chose.
pub struct RootFolder {
    pub exists: bool,
    pub is_dir: bool,
    /// What reading the folder gave.
    pub listing: Listing,
}

/// The node for a folder directly below the chosen folder: it is identified
/// by the hash of its path.
pub open spec fn top_node(name: Seq<char>, path: Seq<char>, children: Seq<TreeView>) -> TreeView {
    TreeView { id: path_id(path), name, path, is_directory: true, children: Some(children) }
}

/// Whether a message tells of a lack of permission.
pub open spec fn is_access_error(message: Seq<char>) -> bool {
    occurs_in(message, "Access is denied"@) || occurs_in(message, "Permission denied"@)
}

/// What the first `n` entries of the chosen folder contribute: every
/// directory that leads to profiles, with its tree of relevant folders.
/// Entries that could not be read, and directories to which access is
/// denied, are passed over; any other failure below a directory fails the
/// whole.
pub open spec fn shown_contents(entries: Seq<Entry>, n: nat) -> Result<Seq<TreeView>, Seq<char>>
    decreases n,
{
    if n == 0 || n > entries.len() {
        Ok(Seq::empty())
    } else {
        match shown_contents(entries, (n - 1) as nat) {
            Err(e) => Err(e),
            Ok(items) => match entries[n - 1] {
                Entry::Directory { name, path, listing } => match relevant_listing(listing) {
                    Ok(children) => if children.len() > 0 || holds_profile_folder(entries[n - 1]) {
                        Ok(items.push(top_node(name@, path@, children)))
                    } else {
                        Ok(items)
                    },
                    Err(e) => if is_access_error(e) {
                        Ok(items)
                    } else {
                        Err(e)
                    },
                },
                _ => Ok(items),
            },
        }
    }
}

/// The tree that is shown for the chosen folder, or the message with which
/// the folder is refused.
pub open spec fn folder_contents(folder_path: Seq<char>, root: RootFolder) -> Result<
    Seq<TreeView>,
    Seq<char>,
> {
    if !root.exists {
        Err("Folder not found: "@ + folder_path)
    } else if !root.is_dir {
        Err("Not a directory: "@ + folder_path)
    } else if path_refusal(folder_path, root.listing) is Some {
        Err(path_refusal(folder_path, root.listing)->0)
    } else {
        match root.listing {
            Listing::Failed { message, permission_denied } => if permission_denied {
                Err("Access denied: You don't have permission to read this folder"@)
            } else {
                Err("Error reading folder: "@ + message@)
            },
            Listing::Entries(v) => shown_contents(v@, v@.len()),
        }
    }
}

/// A failure among the first entries of the chosen folder is the failure of
/// the whole folder.
pub proof fn lemma_shown_failure_stays(entries: Seq<Entry>, n: nat, m: nat)
    requires
        n <= m <= entries.len(),
        shown_contents(entries, n) is Err,
    ensures
        shown_contents(entries, m) == shown_contents(entries, n),
    decreases m,
{
    if n < m {
        lemma_shown_failure_stays(entries, n, (m - 1) as nat);
    }
}

/// Tests whether a message tells of a lack of permission.
pub fn access_denied(message: &str) -> (r: bool)
    ensures
        r == is_access_error(message@),
{
    let text = chars_of(message);
    let windows = chars_of("Access is denied");
    let unix = chars_of("Permission denied");
    contains(&text, &windows) || contains(&text, &unix)
}

/// Builds the tree that is shown for the folder the user chose: the
/// directories in it that lead to profiles.
pub fn read_folder_contents(folder_path: &str, root: &RootFolder) -> (r: Result<
    Vec<TreeDataItem>,
    String,
>)
    ensures
        tree_result_view(r) == folder_contents(folder_path@, *root),
{
    if !root.exists {
        return Err(prefixed("Folder not found: ", folder_path));
    }
    if !root.is_dir {
        return Err(prefixed("Not a directory: ", folder_path));
    }
    match safely_check_path(folder_path, &root.listing) {
        Err(e) => {
            return Err(e);
        },
        Ok(_) => {},
    }
    match &root.listing {
        Listing::Failed { message: description, permission_denied } => {
            if *permission_denied {
                Err(
                    String::from_str(
                        "Access denied: You don't have permission to read this folder",
                    ),
                )
            } else {
                Err(prefixed("Error reading folder: ", description.as_str()))
            }
        },
        Listing::Entries(entries) => {
            let mut items: Vec<TreeDataItem> = Vec::new();
            assert(items_view(items@) =~= Seq::empty());
            let mut i: usize = 0;
            while i < entries.len()
                invariant
                    i <= entries.len(),
                    root.exists,
                    root.is_dir,
                    root.listing == Listing::Entries(*entries),
                    Ok::<Seq<TreeView>, Seq<char>>(items_view(items@)) == shown_contents(
                        entries@,
                        i as nat,
                    ),
                decreases entries.len() - i,
            {
                let ghost before = items_view(items@);
                match &entries[i] {
                    Entry::Directory { name, path, listing } => {
                        match read_relevant_folders(listing) {
                            Ok(children) => {
                                if children.len() > 0 || contains_gsx_profile(&entries[i]) {
                                    let ghost shown = items_view(children@);
                                    let item = TreeDataItem::new(
                                        name.clone(),
                                        path.clone(),
                                        true,
                                        Some(children),
                                    );
                                    items.push(item);
                                    assert(items_view(items@) =~= before.push(
                                        top_node(name@, path@, shown),
                                    ));
                                }
                            },
                            Err(e) => {
                                if !access_denied(e.as_str()) {
                                    proof {
                                        lemma_shown_failure_stays(
                                            entries@,
                                            (i + 1) as nat,
                                            entries@.len(),
                                        );
                                    }
                                    return Err(e);
                                }
                            },
                        }
                    },
                    _ => {},
                }
                i = i + 1;
            }
            Ok(items)
        },
    }
}

/// The folder that the user picked, or the message that none was picked.
pub fn select_folder(picked: Option<String>) -> (r: Result<String, String>)
    ensures
        match picked {
            Some(path) => r == Ok::<String, String>(path),
            None => r is Err && r->Err_0@ == "No folder selected"@,
        },
{
    match picked {
        Some(path) => Ok(path),
        None => Err(String::from_str("No folder selected")),
    }
}

/// Whether a folder is there: something exists at the path, and it is a
/// directory.
pub fn check_folder_exists(exists: bool, is_dir: bool) -> (r: bool)
    ensures
        r == (exists && is_dir),
{
    exists && is_dir
}

} // verus!
