use texdesk::failure::{Failure, FailureKind};
use texdesk::file_tree::{open_directory, removal_for, DirEntryInfo, FileNode, Removal};

fn entry(path: &str, name: &str, is_dir: bool) -> Result<DirEntryInfo, String> {
    Ok(DirEntryInfo { path: path.to_string(), name: Some(name.to_string()), is_dir })
}

#[test]
fn listing_of_two_files_has_both_paths() {
    let read = Ok(vec![entry("/d/a", "a", false), entry("/d/b", "b", false)]);
    let nodes = open_directory(read).unwrap();
    assert_eq!(nodes.len(), 2);
    let mut paths: Vec<&str> = nodes.iter().map(|n| n.path.as_str()).collect();
    paths.sort();
    assert_eq!(paths, vec!["/d/a", "/d/b"]);
    assert!(nodes.iter().all(|n| !n.is_dir));
}

#[test]
fn listing_keeps_the_order_in_which_entries_came() {
    let read = Ok(vec![
        entry("/d/zeta", "zeta", false),
        entry("/d/alpha", "alpha", true),
        entry("/d/mid.tex", "mid.tex", false),
    ]);
    assert_eq!(
        open_directory(read),
        Ok(vec![
            FileNode { name: "zeta".to_string(), path: "/d/zeta".to_string(), is_dir: false },
            FileNode { name: "alpha".to_string(), path: "/d/alpha".to_string(), is_dir: true },
            FileNode { name: "mid.tex".to_string(), path: "/d/mid.tex".to_string(), is_dir: false },
        ])
    );
}

#[test]
fn listing_of_an_empty_directory_is_empty() {
    assert_eq!(open_directory(Ok(Vec::new())), Ok(Vec::new()));
}

#[test]
fn missing_directory_is_an_error_not_an_empty_listing() {
    let r = open_directory(Err("No such file or directory (os error 2)".to_string()));
    assert_eq!(
        r,
        Err(Failure {
            kind: FailureKind::IoFailure,
            message: "No such file or directory (os error 2)".to_string(),
        })
    );
}

#[test]
fn file_in_place_of_a_directory_is_an_error() {
    let r = open_directory(Err("Not a directory (os error 20)".to_string()));
    let f = r.unwrap_err();
    assert_eq!(f.kind, FailureKind::IoFailure);
    assert_eq!(f.message, "Not a directory (os error 20)");
    assert!(!f.message.is_empty());
}

#[test]
fn one_unread_entry_fails_the_whole_listing() {
    let read = Ok(vec![
        entry("/d/a", "a", false),
        Err("Input/output error (os error 5)".to_string()),
        entry("/d/c", "c", false),
    ]);
    assert_eq!(
        open_directory(read),
        Err(Failure {
            kind: FailureKind::IoFailure,
            message: "Input/output error (os error 5)".to_string(),
        })
    );
}

#[test]
fn the_first_unread_entry_is_the_one_reported() {
    let read = Ok(vec![
        entry("/d/a", "a", false),
        Err("first".to_string()),
        Err("second".to_string()),
    ]);
    assert_eq!(open_directory(read).unwrap_err().message, "first");
    let only = Ok(vec![Err("alone".to_string())]);
    assert_eq!(open_directory(only).unwrap_err().message, "alone");
}

#[test]
fn entry_without_a_unicode_name_has_an_empty_name() {
    let info = DirEntryInfo { path: "/d/\u{FFFD}".to_string(), name: None, is_dir: false };
    let node = FileNode::from_entry(&info);
    assert_eq!(
        node,
        FileNode { name: String::new(), path: "/d/\u{FFFD}".to_string(), is_dir: false }
    );
}

#[test]
fn node_is_taken_from_the_entry() {
    let info = DirEntryInfo {
        path: "/home/u/project/chapters".to_string(),
        name: Some("chapters".to_string()),
        is_dir: true,
    };
    let node = FileNode::from_entry(&info);
    assert_eq!(node.name, "chapters");
    assert_eq!(node.path, "/home/u/project/chapters");
    assert!(node.is_dir);
    let copy = node.clone();
    assert_eq!(copy, node);
}

#[test]
fn directory_is_removed_as_a_tree_and_a_file_alone() {
    assert_eq!(removal_for(true), Removal::Tree);
    assert_eq!(removal_for(false), Removal::File);
}

#[test]
fn failure_constructors() {
    assert_eq!(
        Failure::io("Permission denied (os error 13)".to_string()),
        Failure {
            kind: FailureKind::IoFailure,
            message: "Permission denied (os error 13)".to_string(),
        }
    );
    assert_eq!(
        Failure::new(FailureKind::WatchSetupFailure, "limit".to_string()),
        Failure { kind: FailureKind::WatchSetupFailure, message: "limit".to_string() }
    );
}
