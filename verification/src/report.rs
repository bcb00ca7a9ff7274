//! The whole report on a directory, from what was read of it.

use crate::branch::{branch_label, get_git_branch, Head};
use crate::format::{format_size, formatted_size};
use crate::project::{detect_project_type, project_type};
use crate::size::{checked_folder_size, folder_size, Entry};
use crate::summary::{colored_summary_line, is_summary};
use vstd::prelude::*;

verus! {

/// The summary line of a directory: its path, the size of its tree, its
/// branch and the kind of project in it. There is none where the size does
/// not fit in 64 bits.
///
/// `listing` is what the directory holds, `head` what a look at it as a
/// working tree found, and `names` the marker files that lie in it.
pub fn describe(
    dir: &str,
    listing: &Option<Vec<Entry>>,
    head: &Head,
    names: &Vec<String>,
) -> (line: Option<String>)
    ensures
        match line {
            Some(line) => {
                &&& folder_size(*listing) <= u64::MAX
                &&& is_summary(
                    line@,
                    dir@,
                    formatted_size(folder_size(*listing)),
                    branch_label(*head),
                    project_type(names.deep_view()),
                )
            },
            None => folder_size(*listing) > u64::MAX,
        },
{
    match checked_folder_size(listing) {
        Some(bytes) => {
            let size = format_size(bytes);
            let branch = get_git_branch(head);
            let project = detect_project_type(names);
            Some(colored_summary_line(dir, size.as_str(), branch.as_str(), project.as_str()))
        },
        None => None,
    }
}

} // verus!
