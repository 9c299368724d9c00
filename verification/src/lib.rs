//! Decision logic of a desktop document editor's back end.
//!
//! The crate holds the rules by which a source document is turned into a
//! rendered preview through one of several interchangeable compiler back
//! ends, the rules by which a directory listing and a stream of file-system
//! events are turned into what the presentation layer sees, and nothing that
//! touches the operating system itself: the host performs each action that
//! the library asks for and hands the outcome back as plain values.

pub mod backend;
pub mod compile;
pub mod diagnostics;
pub mod failure;
pub mod file_tree;
pub mod paths;
pub mod watch;
