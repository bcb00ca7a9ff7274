use dirinfo::branch::Head;
use dirinfo::report::describe;
use dirinfo::size::Entry;

fn plain(line: &str) -> String {
    let mut text = line.to_string();
    for code in ["\u{1b}[92m", "\u{1b}[96m", "\u{1b}[93m", "\u{1b}[95m", "\u{1b}[0m"] {
        text = text.replace(code, "");
    }
    text
}

#[test]
fn describes_a_go_project_outside_version_control() {
    let listing = Some(vec![
        Entry::File { len: Some(1024) },
        Entry::Dir {
            name: b"cmd".to_vec(),
            listing: Some(vec![Entry::File { len: Some(1000) }, Entry::File { len: Some(24) }]),
        },
    ]);
    let names = vec!["go.mod".to_string()];
    let line = describe("/work/svc", &listing, &Head::NoRepository, &names).unwrap();
    assert!(plain(&line).ends_with("| 2.00 KB | Not a git repo | Go"));
    assert_eq!(plain(&line), "/work/svc | 2.00 KB | Not a git repo | Go");
}

#[test]
fn describes_a_rust_project_on_a_branch() {
    let listing = Some(vec![
        Entry::File { len: Some(3 * 1024 * 1024) },
        Entry::Dir {
            name: b".git".to_vec(),
            listing: Some(vec![Entry::File { len: Some(999_999) }]),
        },
    ]);
    let names = vec!["Makefile".to_string(), "Cargo.toml".to_string()];
    let head = Head::Resolved { is_branch: true, shorthand: Some("main".to_string()) };
    let line = describe("/work/tool", &listing, &head, &names).unwrap();
    assert_eq!(plain(&line), "/work/tool | 3.00 MB | main | Rust");
}

#[test]
fn describes_an_empty_directory_on_a_detached_head() {
    let head = Head::Resolved { is_branch: false, shorthand: Some("HEAD".to_string()) };
    let line = describe("/tmp/e", &Some(vec![]), &head, &vec![]).unwrap();
    assert_eq!(plain(&line), "/tmp/e | 0 B | Detached HEAD | Unknown");
}

#[test]
fn describes_a_directory_whose_head_cannot_be_read() {
    let line = describe("/tmp/e", &None, &Head::Unreadable, &vec![]).unwrap();
    assert_eq!(plain(&line), "/tmp/e | 0 B | Not a git repo | Unknown");
}

#[test]
fn describes_a_directory_with_a_hidden_directory_of_any_name() {
    let listing = Some(vec![
        Entry::File { len: Some(1536) },
        Entry::Dir { name: vec![b'.', 0xff], listing: Some(vec![Entry::File { len: Some(9) }]) },
    ]);
    let names = vec!["package.json".to_string()];
    let line = describe("/w", &listing, &Head::NoRepository, &names).unwrap();
    assert_eq!(plain(&line), "/w | 1.50 KB | Not a git repo | Node.js");
}

#[test]
fn describes_nothing_where_the_size_does_not_fit() {
    let listing = Some(vec![Entry::File { len: Some(u64::MAX) }, Entry::File { len: Some(1) }]);
    assert_eq!(describe("/big", &listing, &Head::NoRepository, &vec![]), None);
}
