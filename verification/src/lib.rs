//! Facts about a working directory, computed from what was read of it: the
//! size of its tree, the branch it has checked out and the kind of project
//! it holds, and the one line that shows them.
//!
//! The library reads nothing itself. Its caller lists the directory, looks
//! at its head and probes for marker files, and hands over what it found.

pub mod branch;
pub mod format;
pub mod project;
pub mod report;
pub mod size;
pub mod summary;

pub use branch::{get_git_branch, Head};
pub use format::format_size;
pub use project::detect_project_type;
pub use report::describe;
pub use size::{calculate_folder_size, checked_folder_size, Entry};
