use dirinfo::branch::{get_git_branch, Head};

fn on_branch(name: &str) -> Head {
    Head::Resolved { is_branch: true, shorthand: Some(name.to_string()) }
}

#[test]
fn branch_of_a_directory_that_is_no_repository() {
    assert_eq!(get_git_branch(&Head::NoRepository), "Not a git repo");
}

#[test]
fn branch_of_a_repository_on_main() {
    assert_eq!(get_git_branch(&on_branch("main")), "main");
}

#[test]
fn branch_keeps_the_name_as_it_is() {
    assert_eq!(get_git_branch(&on_branch("feature/x-1")), "feature/x-1");
    assert_eq!(get_git_branch(&on_branch("HEAD")), "HEAD");
}

#[test]
fn branch_of_a_detached_head() {
    let head = Head::Resolved { is_branch: false, shorthand: Some("HEAD".to_string()) };
    assert_eq!(get_git_branch(&head), "Detached HEAD");
}

#[test]
fn branch_of_a_head_that_points_at_no_branch() {
    let tag = Head::Resolved { is_branch: false, shorthand: Some("v1.0".to_string()) };
    assert_eq!(get_git_branch(&tag), "Detached HEAD");
    let nameless = Head::Resolved { is_branch: false, shorthand: None };
    assert_eq!(get_git_branch(&nameless), "Detached HEAD");
}

#[test]
fn branch_of_a_head_that_cannot_be_read() {
    assert_eq!(get_git_branch(&Head::Unreadable), "Not a git repo");
}

#[test]
fn branch_whose_name_is_not_unicode() {
    let head = Head::Resolved { is_branch: true, shorthand: None };
    assert_eq!(get_git_branch(&head), "Detached HEAD");
}
