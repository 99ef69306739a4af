//! The user's own folders of profiles, kept below the application's data
//! directory.

use crate::file_system::{Entry, Listing};
use crate::text::{prefixed, same_text, texts};
use crate::tree_data::{items_view, path_id, TreeDataItem, TreeView};
use vstd::prelude::*;

verus! {

/// The directory names that lead to the user's folders: the data directory,
/// the application's directory in it, and `user_folders` in that.
pub open spec fn user_folders_path_of(data_dir: Seq<char>) -> Seq<Seq<char>> {
    seq![data_dir, "gsx-profile-manager"@, "user_folders"@]
}

/// The directory names that lead to the user's folders, given the user's
/// data directory. Fails where the system knows no data directory.
pub fn get_user_folders_path(data_dir: Option<&str>) -> (r: Result<Vec<String>, String>)
    ensures
        match data_dir {
            Some(dir) => r is Ok && texts(r->Ok_0@) == user_folders_path_of(dir@),
            None => r is Err && r->Err_0@ == "Failed to get app data directory"@,
        },
{
    match data_dir {
        None => Err(String::from_str("Failed to get app data directory")),
        Some(dir) => {
            let mut path: Vec<String> = Vec::new();
            path.push(String::from_str(dir));
            path.push(String::from_str("gsx-profile-manager"));
            path.push(String::from_str("user_folders"));
            assert(texts(path@) =~= user_folders_path_of(dir@));
            Ok(path)
        },
    }
}

/// The node for an entry of the user's folders: it is identified by the
/// hash of its path, and has children exactly where it is a directory.
pub open spec fn user_node(name: Seq<char>, path: Seq<char>, children: Option<Seq<TreeView>>) -> TreeView {
    TreeView { id: path_id(path), name, path, is_directory: children is Some, children }
}

/// The nodes for the first `n` entries of a directory: one for each entry
/// that could be read, directories with all that is below them.
pub open spec fn directory_nodes(entries: Seq<Entry>, n: nat) -> Seq<TreeView>
    decreases entries, n,
{
    if n == 0 || n > entries.len() {
        Seq::empty()
    } else {
        let before = directory_nodes(entries, (n - 1) as nat);
        match entries[n - 1] {
            Entry::Unreadable { .. } => before,
            Entry::File { name, path } => before.push(user_node(name@, path@, None)),
            Entry::Other { name, path } => before.push(user_node(name@, path@, None)),
            Entry::Directory { name, path, listing } => before.push(
                user_node(name@, path@, Some(listing_nodes(listing))),
            ),
        }
    }
}

/// The nodes for a directory, given what reading it gave: a directory that
/// could not be read shows as empty.
pub open spec fn listing_nodes(listing: Listing) -> Seq<TreeView>
    decreases listing, 0nat,
{
    match listing {
        Listing::Failed { .. } => Seq::empty(),
        Listing::Entries(v) => directory_nodes(v@, v@.len()),
    }
}

/// Builds the tree of all that is below a directory.
pub fn read_directory_contents(listing: &Listing) -> (r: Result<Vec<TreeDataItem>, String>)
    ensures
        r is Ok,
        items_view(r->Ok_0@) == listing_nodes(*listing),
    decreases *listing,
{
    let mut items: Vec<TreeDataItem> = Vec::new();
    assert(items_view(items@) =~= Seq::empty());
    match listing {
        Listing::Failed { .. } => {},
        Listing::Entries(entries) => {
            let mut i: usize = 0;
            while i < entries.len()
                invariant
                    i <= entries.len(),
                    *listing == Listing::Entries(*entries),
                    items_view(items@) == directory_nodes(entries@, i as nat),
                decreases entries.len() - i,
            {
                let ghost before = items_view(items@);
                match &entries[i] {
                    Entry::Unreadable { .. } => {},
                    Entry::File { name, path } => {
                        items.push(TreeDataItem::new(name.clone(), path.clone(), false, None));
                        assert(items_view(items@) =~= before.push(user_node(name@, path@, None)));
                    },
                    Entry::Other { name, path } => {
                        items.push(TreeDataItem::new(name.clone(), path.clone(), false, None));
                        assert(items_view(items@) =~= before.push(user_node(name@, path@, None)));
                    },
                    Entry::Directory { name, path, listing: inner } => {
                        proof {
                            assert(decreases_to!(*listing => listing->Entries_0));
                            assert(decreases_to!(*entries => entries[i as int]));
                        }
                        let children = match read_directory_contents(inner) {
                            Ok(children) => children,
                            Err(e) => {
                                return Err(e);
                            },
                        };
                        let ghost shown = items_view(children@);
                        items.push(
                            TreeDataItem::new(name.clone(), path.clone(), true, Some(children)),
                        );
                        assert(items_view(items@) =~= before.push(
                            user_node(name@, path@, Some(shown)),
                        ));
                    },
                }
                i = i + 1;
            }
        },
    }
    Ok(items)
}

/// Builds the tree of the user's folders, given what reading their
/// directory gave.
pub fn read_user_folders_tree(listing: &Listing) -> (r: Result<Vec<TreeDataItem>, String>)
    ensures
        r is Ok,
        items_view(r->Ok_0@) == listing_nodes(*listing),
{
    read_directory_contents(listing)
}

/// A folder named by the user interface: the directory of the user's
/// folders itself, or a folder at a path.
pub enum FolderRef {
    Root,
    Path(String),
}

/// A `FolderRef` as plain values.
pub enum FolderRefView {
    Root,
    Path(Seq<char>),
}

impl View for FolderRef {
    type V = FolderRefView;

    open spec fn view(&self) -> FolderRefView {
        match *self {
            FolderRef::Root => FolderRefView::Root,
            FolderRef::Path(p) => FolderRefView::Path(p@),
        }
    }
}

/// The folder that an identifier names: `root` names the directory of the
/// user's folders, anything else is a path.
pub open spec fn folder_of(folder_id: Seq<char>) -> FolderRefView {
    if folder_id == "root"@ {
        FolderRefView::Root
    } else {
        FolderRefView::Path(folder_id)
    }
}

/// Finds the folder that an identifier names.
pub fn resolve_folder(folder_id: &str) -> (r: FolderRef)
    ensures
        r@ == folder_of(folder_id@),
{
    if same_text(folder_id, "root") {
        FolderRef::Root
    } else {
        FolderRef::Path(String::from_str(folder_id))
    }
}

/// What is known of a file that is to be imported.
pub struct SourceFile {
    pub exists: bool,
    pub is_file: bool,
    /// The last component of its path, where it has one.
    pub file_name: Option<String>,
}

/// An import that is to be made: the folder to copy into, which is created
/// where it is missing, and the name of the copy.
pub struct ImportPlan {
    pub target: FolderRef,
    pub file_name: String,
}

/// The import of a file into a folder, or the message with which it is
/// refused: the source must be an existing file, and its path must have a
/// last component.
pub open spec fn import_of(source: SourceFile, target_folder_id: Seq<char>) -> Result<
    (FolderRefView, Seq<char>),
    Seq<char>,
> {
    if !source.exists || !source.is_file {
        Err("Source file does not exist"@)
    } else if source.file_name is None {
        Err("Invalid source file path"@)
    } else {
        Ok((folder_of(target_folder_id), source.file_name->0@))
    }
}

/// An import plan or a message, as plain values.
pub open spec fn import_view(r: Result<ImportPlan, String>) -> Result<
    (FolderRefView, Seq<char>),
    Seq<char>,
> {
    match r {
        Ok(plan) => Ok((plan.target@, plan.file_name@)),
        Err(e) => Err(e@),
    }
}

/// Plans the import of a file into one of the user's folders.
pub fn import_file_to_user_folder(source: &SourceFile, target_folder_id: &str) -> (r: Result<
    ImportPlan,
    String,
>)
    ensures
        import_view(r) == import_of(*source, target_folder_id@),
{
    if !source.exists || !source.is_file {
        return Err(String::from_str("Source file does not exist"));
    }
    match &source.file_name {
        None => Err(String::from_str("Invalid source file path")),
        Some(name) => Ok(
            ImportPlan { target: resolve_folder(target_folder_id), file_name: name.clone() },
        ),
    }
}

/// Plans the copy of a file into one of the user's folders, which goes by
/// the same rules as an import.
pub fn copy_file_to_user_folder(source: &SourceFile, target_folder_id: &str) -> (r: Result<
    ImportPlan,
    String,
>)
    ensures
        import_view(r) == import_of(*source, target_folder_id@),
{
    import_file_to_user_folder(source, target_folder_id)
}

/// The files that the user picked for an import; none where the dialog was
/// dismissed.
pub fn select_files_for_import(picked: Option<Vec<String>>) -> (r: Vec<String>)
    ensures
        match picked {
            Some(paths) => r == paths,
            None => r@.len() == 0,
        },
{
    match picked {
        Some(paths) => paths,
        None => Vec::new(),
    }
}

/// A folder that is to be created: its parent, which is created where it is
/// missing, and its name.
pub struct SubfolderPlan {
    pub parent: FolderRef,
    pub folder_name: String,
}

/// Plans the creation of a folder below one of the user's folders.
pub fn create_subfolder(parent_folder_id: &str, folder_name: &str) -> (r: SubfolderPlan)
    ensures
        r.parent@ == folder_of(parent_folder_id@),
        r.folder_name@ == folder_name@,
{
    SubfolderPlan {
        parent: resolve_folder(parent_folder_id),
        folder_name: String::from_str(folder_name),
    }
}

/// The message with which the deletion of an item is refused before the
/// user's folders are looked at, if it is: the root cannot be deleted, and
/// the item must exist.
pub open spec fn deletion_refusal(item_path: Seq<char>, exists: bool) -> Option<Seq<char>> {
    if item_path == "root"@ {
        Some("Cannot delete the root folder"@)
    } else if !exists {
        Some("Item does not exist"@)
    } else {
        None
    }
}

/// Tests whether an item may be deleted at all.
pub fn delete_user_folder_item(item_path: &str, exists: bool) -> (r: Result<(), String>)
    ensures
        match deletion_refusal(item_path@, exists) {
            Some(message) => r is Err && r->Err_0@ == message,
            None => r is Ok,
        },
{
    if same_text(item_path, "root") {
        Err(String::from_str("Cannot delete the root folder"))
    } else if !exists {
        Err(String::from_str("Item does not exist"))
    } else {
        Ok(())
    }
}

/// Tests whether a path lies inside a folder, both given as their
/// components: the folder's components are the first of the path's.
pub fn is_inside(path: &Vec<String>, base: &Vec<String>) -> (r: bool)
    ensures
        r == texts(base@).is_prefix_of(texts(path@)),
{
    if base.len() > path.len() {
        return false;
    }
    let mut i: usize = 0;
    while i < base.len()
        invariant
            i <= base.len(),
            base.len() <= path.len(),
            forall|j: int| 0 <= j < i ==> base@[j]@ == path@[j]@,
        decreases base.len() - i,
    {
        if !same_text(base[i].as_str(), path[i].as_str()) {
            assert(texts(path@).subrange(0, base@.len() as int)[i as int] == path@[i as int]@);
            assert(texts(base@)[i as int] == base@[i as int]@);
            return false;
        }
        i = i + 1;
    }
    assert(texts(base@) =~= texts(path@).subrange(0, base@.len() as int));
    true
}

/// How an item is removed.
#[derive(Clone, Copy, Debug, PartialEq, Eq, Structural)]
pub enum Removal {
    /// A directory, with all that is in it.
    Directory,
    /// A single file.
    File,
}

/// Decides how an existing item is removed. Nothing outside the user's
/// folders is ever removed.
pub fn removal_of(inside_user_folders: bool, is_dir: bool) -> (r: Result<Removal, String>)
    ensures
        !inside_user_folders ==> r is Err && r->Err_0@
            == "Cannot delete files outside of user folders directory"@,
        inside_user_folders ==> r == Ok::<Removal, String>(
            if is_dir {
                Removal::Directory
            } else {
                Removal::File
            },
        ),
{
    if !inside_user_folders {
        Err(String::from_str("Cannot delete files outside of user folders directory"))
    } else if is_dir {
        Ok(Removal::Directory)
    } else {
        Ok(Removal::File)
    }
}

/// An operation on the user's folders that can fail.
#[derive(Clone, Copy, Debug, PartialEq, Eq, Structural)]
pub enum FolderFailure {
    CreateUserFolders,
    CreateCustomFolder,
    CreateTargetDirectory,
    CopyFile,
    CreateParentDirectory,
    CreateSubfolder,
    DeleteDirectory,
    DeleteFile,
}

/// The words with which the message of a failed operation begins; the
/// system's description of the failure follows.
pub open spec fn folder_failure_prefix(failure: FolderFailure) -> Seq<char> {
    match failure {
        FolderFailure::CreateUserFolders => "Failed to create user folders directory: "@,
        FolderFailure::CreateCustomFolder => "Failed to create custom folder: "@,
        FolderFailure::CreateTargetDirectory => "Failed to create target directory: "@,
        FolderFailure::CopyFile => "Failed to copy file: "@,
        FolderFailure::CreateParentDirectory => "Failed to create parent directory: "@,
        FolderFailure::CreateSubfolder => "Failed to create subfolder: "@,
        FolderFailure::DeleteDirectory => "Failed to delete directory: "@,
        FolderFailure::DeleteFile => "Failed to delete file: "@,
    }
}

/// The message for a failed operation, given the system's description.
pub fn folder_failure_message(failure: FolderFailure, detail: &str) -> (r: String)
    ensures
        r@ == folder_failure_prefix(failure) + detail@,
{
    let prefix = match failure {
        FolderFailure::CreateUserFolders => "Failed to create user folders directory: ",
        FolderFailure::CreateCustomFolder => "Failed to create custom folder: ",
        FolderFailure::CreateTargetDirectory => "Failed to create target directory: ",
        FolderFailure::CopyFile => "Failed to copy file: ",
        FolderFailure::CreateParentDirectory => "Failed to create parent directory: ",
        FolderFailure::CreateSubfolder => "Failed to create subfolder: ",
        FolderFailure::DeleteDirectory => "Failed to delete directory: ",
        FolderFailure::DeleteFile => "Failed to delete file: ",
    };
    prefixed(prefix, detail)
}

} // verus!
