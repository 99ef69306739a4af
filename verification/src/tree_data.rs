//! The tree of folders and files that is shown to the user.

use crate::digits::{digits_of, render};
use crate::text::string_of;
use std::collections::hash_map::DefaultHasher;
use std::hash::Hasher;
use vstd::prelude::*;
use vstd::std_specs::hash::DefaultHasherAdditionalSpecFns;
use vstd::string::StringSliceAdditionalSpecFns;

verus! {

/// One node of the tree: a folder with its children, or a file.
pub struct TreeDataItem {
    pub id: String,
    pub name: String,
    pub path: String,
    pub is_directory: bool,
    pub children: Option<Vec<TreeDataItem>>,
}

/// A `TreeDataItem` as plain values.
pub struct TreeView {
    pub id: Seq<char>,
    pub name: Seq<char>,
    pub path: Seq<char>,
    pub is_directory: bool,
    pub children: Option<Seq<TreeView>>,
}

/// The views of a list of nodes.
pub open spec fn items_view(items: Seq<TreeDataItem>) -> Seq<TreeView>
    decreases items,
{
    Seq::new(
        items.len(),
        |i: int|
            if 0 <= i < items.len() {
                item_view(items[i])
            } else {
                arbitrary()
            },
    )
}

/// The view of a node: its texts, and the views of its children.
pub open spec fn item_view(item: TreeDataItem) -> TreeView
    decreases item,
{
    TreeView {
        id: item.id@,
        name: item.name@,
        path: item.path@,
        is_directory: item.is_directory,
        children: match item.children {
            Some(v) => Some(items_view(v@)),
            None => None,
        },
    }
}

/// The writes that hashing a string feeds to the hasher: its UTF-8 bytes,
/// then one byte `0xff` that closes the string.
pub open spec fn hashed_writes(path: Seq<char>) -> Seq<Seq<u8>> {
    seq![vstd::utf8::encode_utf8(path), seq![0xffu8]]
}

/// The identifier of a path: the hash of the path by the standard library's
/// default hasher, in lower-case hexadecimal without leading zeros.
pub open spec fn path_id(path: Seq<char>) -> Seq<char> {
    digits_of(DefaultHasher::spec_finish(hashed_writes(path)) as nat, 16)
}

impl TreeDataItem {
    /// A node whose identifier is derived from its path, so that the same
    /// path always gets the same identifier.
    pub fn new(
        name: String,
        path: String,
        is_directory: bool,
        children: Option<Vec<TreeDataItem>>,
    ) -> (r: Self)
        ensures
            r.id@ == path_id(path@),
            r.name == name,
            r.path == path,
            r.is_directory == is_directory,
            r.children == children,
    {
        let id = Self::hash_path(path.as_str());
        TreeDataItem { id, name, path, is_directory, children }
    }

    /// The identifier of `path`.
    pub fn hash_path(path: &str) -> (r: String)
        ensures
            r@ == path_id(path@),
    {
        let mut hasher = DefaultHasher::new();
        hasher.write(path.as_bytes());
        let mut end: Vec<u8> = Vec::new();
        end.push(0xffu8);
        assert(end@ =~= seq![0xffu8]);
        hasher.write(end.as_slice());
        assert(hasher@ =~= hashed_writes(path@));
        let h: u64 = hasher.finish();
        let hex = render(h, 16);
        string_of(&hex)
    }
}

} // verus!
