//! The directory tree as the presentation layer sees it: the children of one
//! directory, each classified as file or directory.

use crate::failure::{io_failure, Failure};
use vstd::prelude::*;

verus! {

/// One child of a listed directory.
#[derive(Clone, Debug, PartialEq, Eq)]
pub struct FileNode {
    /// The child's own name, without the directory.
    pub name: String,
    /// The child's full path.
    pub path: String,
    /// Whether the child is a directory.
    pub is_dir: bool,
}

/// A `FileNode` as a mathematical value.
pub struct FileNodeView {
    pub name: Seq<char>,
    pub path: Seq<char>,
    pub is_dir: bool,
}

impl View for FileNode {
    type V = FileNodeView;

    open spec fn view(&self) -> FileNodeView {
        FileNodeView { name: self.name@, path: self.path@, is_dir: self.is_dir }
    }
}

/// What the operating system told of one entry of a directory.
#[derive(Debug, PartialEq, Eq)]
pub struct DirEntryInfo {
    /// The entry's full path.
    pub path: String,
    /// The entry's file name, where it is valid Unicode.
    pub name: Option<String>,
    /// Whether the path, followed through symbolic links, is a directory
    /// now. The host asks the file system; the type that the directory
    /// entry itself carries is not enough.
    pub is_dir: bool,
}

/// Which call removes a node.
#[derive(Clone, Copy, PartialEq, Eq, Debug, Structural)]
pub enum Removal {
    /// Remove a directory with all that is below it.
    Tree,
    /// Remove a single file.
    File,
}

/// The node that stands for `entry`. An entry whose name is not valid
/// Unicode is shown with an empty name; its path is kept.
pub open spec fn node_of(entry: DirEntryInfo) -> FileNodeView {
    FileNodeView {
        name: match entry.name {
            Some(n) => n@,
            None => Seq::empty(),
        },
        path: entry.path@,
        is_dir: entry.is_dir,
    }
}

/// Every entry of `items` was read.
pub open spec fn all_read(items: Seq<Result<DirEntryInfo, String>>) -> bool {
    forall|i: int| 0 <= i < items.len() ==> (#[trigger] items[i]) is Ok
}

/// `i` is the place of the first entry of `items` that could not be read.
pub open spec fn is_first_unread(items: Seq<Result<DirEntryInfo, String>>, i: int) -> bool {
    &&& 0 <= i < items.len()
    &&& items[i] is Err
    &&& forall|j: int| 0 <= j < i ==> (#[trigger] items[j]) is Ok
}

impl FileNode {
    /// Makes the node that stands for `entry`.
    pub fn from_entry(entry: &DirEntryInfo) -> (node: FileNode)
        ensures
            node@ == node_of(*entry),
    {
        let name = match &entry.name {
            Some(n) => n.clone(),
            None => String::new(),
        };
        FileNode { name, path: entry.path.clone(), is_dir: entry.is_dir }
    }
}

/// Turns what was read of a directory into its listing.
///
/// `read` is what opening the directory gave: the operating system's words
/// where it could not be opened, else one item per entry, in the order in
/// which the operating system gave them, each the entry or the words with
/// which reading it failed.
///
/// The listing is all or nothing. It has one node per entry, in the same
/// order, where every entry was read. Where the directory could not be
/// opened, or an entry could not be read, the result is an I/O failure with
/// the operating system's words as they came, those of the first such entry,
/// and no node at all.
pub fn open_directory(read: Result<Vec<Result<DirEntryInfo, String>>, String>) -> (r: Result<
    Vec<FileNode>,
    Failure,
>)
    ensures
        match read {
            Err(words) => r matches Err(f) && f@ == io_failure(words@),
            Ok(items) => if all_read(items@) {
                &&& r matches Ok(nodes)
                &&& nodes@.len() == items@.len()
                &&& forall|i: int|
                    0 <= i < items@.len() ==> (#[trigger] nodes@[i])@ == node_of(items@[i]->Ok_0)
            } else {
                &&& r matches Err(f)
                &&& exists|i: int|
                    is_first_unread(items@, i) && f@ == io_failure((#[trigger] items@[i])->Err_0@)
            },
        },
{
    match read {
        Err(words) => Err(Failure::io(words)),
        Ok(items) => {
            let mut nodes: Vec<FileNode> = Vec::new();
            let mut i: usize = 0;
            while i < items.len()
                invariant
                    read == Ok::<Vec<Result<DirEntryInfo, String>>, String>(items),
                    i <= items.len(),
                    nodes@.len() == i,
                    forall|j: int| 0 <= j < i ==> (#[trigger] items@[j]) is Ok,
                    forall|j: int| 0 <= j < i ==> (#[trigger] nodes@[j])@ == node_of(items@[j]->Ok_0),
                decreases items.len() - i,
            {
                match &items[i] {
                    Ok(entry) => {
                        nodes.push(FileNode::from_entry(entry));
                    },
                    Err(words) => {
                        assert(is_first_unread(items@, i as int));
                        return Err(Failure::io(words.clone()));
                    },
                }
                i = i + 1;
            }
            Ok(nodes)
        },
    }
}

/// Chooses how a node is removed: a directory goes with all that is below
/// it, anything else as a single file.
pub fn removal_for(is_dir: bool) -> (removal: Removal)
    ensures
        removal == (if is_dir {
            Removal::Tree
        } else {
            Removal::File
        }),
{
    if is_dir {
        Removal::Tree
    } else {
        Removal::File
    }
}

} // verus!
