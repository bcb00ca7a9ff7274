//! The branch that a working tree has checked out.

use vstd::prelude::*;

verus! {

/// What a look at a directory as a working tree under version control found.
#[derive(Debug)]
pub enum Head {
    /// The directory could not be opened as a working tree.
    NoRepository,
    /// The working tree was opened, and reading its head failed.
    Unreadable,
    /// The head was read. `is_branch` says whether it points at a local
    /// branch; where it does not, it points at a commit or at some other
    /// reference. `shorthand` is the short name of what it points at, or
    /// `None` where that name is not valid Unicode.
    Resolved { is_branch: bool, shorthand: Option<String> },
}

/// The label for a directory whose version control cannot be read: one that
/// is no working tree, or one whose head cannot be read.
pub open spec fn no_repository_label() -> Seq<char> {
    "Not a git repo"@
}

/// The label for a working tree whose head names no branch.
pub open spec fn detached_label() -> Seq<char> {
    "Detached HEAD"@
}

/// The branch label of a directory: the name of the branch that its head
/// points at; one fixed label where the head was read and gives no branch
/// name, and another where nothing could be read.
pub open spec fn branch_label(head: Head) -> Seq<char> {
    match head {
        Head::NoRepository => no_repository_label(),
        Head::Unreadable => no_repository_label(),
        Head::Resolved { is_branch: true, shorthand: Some(name) } => name@,
        Head::Resolved { is_branch: true, shorthand: None } => detached_label(),
        Head::Resolved { is_branch: false, shorthand } => detached_label(),
    }
}

/// A head that points at no branch gets the fixed label, whatever short name
/// it carries.
pub proof fn lemma_detached_head_has_the_fixed_label(shorthand: Option<String>)
    ensures
        branch_label(Head::Resolved { is_branch: false, shorthand }) == detached_label(),
{
}

/// Whatever fails, in opening the working tree or in reading its head, gives
/// the same label.
pub proof fn lemma_failures_share_a_label()
    ensures
        branch_label(Head::NoRepository) == no_repository_label(),
        branch_label(Head::Unreadable) == no_repository_label(),
{
}

/// The branch label of a directory, given what a look at it found.
pub fn get_git_branch(head: &Head) -> (label: String)
    ensures
        label@ == branch_label(*head),
{
    match head {
        Head::NoRepository => String::from_str("Not a git repo"),
        Head::Unreadable => String::from_str("Not a git repo"),
        Head::Resolved { is_branch: true, shorthand: Some(name) } => name.clone(),
        Head::Resolved { is_branch: true, shorthand: None } => String::from_str("Detached HEAD"),
        Head::Resolved { is_branch: false, shorthand: _ } => String::from_str("Detached HEAD"),
    }
}

} // verus!
