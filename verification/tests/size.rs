use dirinfo::size::{calculate_folder_size, checked_folder_size, is_hidden_name, Entry};

fn file(len: u64) -> Entry {
    Entry::File { len: Some(len) }
}

fn dir(name: &str, entries: Vec<Entry>) -> Entry {
    Entry::Dir { name: name.as_bytes().to_vec(), listing: Some(entries) }
}

#[test]
fn size_of_an_empty_directory_is_zero() {
    assert_eq!(calculate_folder_size(&Some(vec![])), 0);
}

#[test]
fn size_of_an_unreadable_directory_is_zero() {
    assert_eq!(calculate_folder_size(&None), 0);
    assert_eq!(checked_folder_size(&None), Some(0));
}

#[test]
fn size_is_the_sum_of_the_files() {
    let tree = Some(vec![file(10), file(200), file(3000)]);
    assert_eq!(calculate_folder_size(&tree), 3210);
}

#[test]
fn size_counts_files_at_every_depth() {
    let tree = Some(vec![
        file(1),
        dir("a", vec![file(2), dir("b", vec![file(4), dir("c", vec![file(8)])])]),
        dir("d", vec![]),
        file(16),
    ]);
    assert_eq!(calculate_folder_size(&tree), 31);
}

#[test]
fn size_leaves_out_hidden_directories() {
    let tree = Some(vec![
        file(100),
        dir(".git", vec![file(5000), dir("objects", vec![file(70000)])]),
        dir("src", vec![file(20), dir(".cache", vec![file(900)])]),
    ]);
    assert_eq!(calculate_folder_size(&tree), 120);
}

#[test]
fn size_is_the_same_without_the_hidden_directory() {
    let with = Some(vec![file(100), dir(".git", vec![file(5000)]), file(7)]);
    let without = Some(vec![file(100), file(7)]);
    assert_eq!(calculate_folder_size(&with), calculate_folder_size(&without));
}

#[test]
fn size_does_not_depend_on_the_order() {
    let one = Some(vec![file(1), dir("a", vec![file(2), file(3)]), file(4)]);
    let other = Some(vec![file(4), file(1), dir("a", vec![file(3), file(2)])]);
    assert_eq!(calculate_folder_size(&one), 10);
    assert_eq!(calculate_folder_size(&other), 10);
}

#[test]
fn size_counts_what_could_not_be_read_as_nothing() {
    let tree = Some(vec![
        file(50),
        Entry::File { len: None },
        Entry::Dir { name: b"locked".to_vec(), listing: None },
        dir("open", vec![Entry::File { len: None }, file(5)]),
    ]);
    assert_eq!(calculate_folder_size(&tree), 55);
}

#[test]
fn size_leaves_out_a_hidden_directory_whose_name_is_not_unicode() {
    let tree = Some(vec![Entry::Dir {
        name: vec![b'.', 0xff, 0xfe],
        listing: Some(vec![file(9)]),
    }]);
    assert_eq!(calculate_folder_size(&tree), 0);
    assert_eq!(checked_folder_size(&tree), Some(0));
}

#[test]
fn size_descends_into_a_directory_whose_name_is_not_unicode() {
    let tree = Some(vec![Entry::Dir {
        name: vec![0xff, b'.', b'a'],
        listing: Some(vec![file(9)]),
    }]);
    assert_eq!(calculate_folder_size(&tree), 9);
}

#[test]
fn size_descends_into_a_directory_with_a_dot_inside_its_name() {
    let tree = Some(vec![dir("a.b", vec![file(3)]), dir("", vec![file(4)])]);
    assert_eq!(calculate_folder_size(&tree), 7);
}

#[test]
fn checked_size_is_the_size_where_it_fits() {
    let tree = Some(vec![file(u64::MAX - 1), dir("a", vec![file(1)])]);
    assert_eq!(checked_folder_size(&tree), Some(u64::MAX));
    assert_eq!(calculate_folder_size(&tree), u64::MAX);
}

#[test]
fn checked_size_is_none_where_it_does_not_fit() {
    let tree = Some(vec![file(u64::MAX), dir("a", vec![file(1)])]);
    assert_eq!(checked_folder_size(&tree), None);
    let deep = Some(vec![dir("a", vec![file(u64::MAX), file(u64::MAX)]), file(0)]);
    assert_eq!(checked_folder_size(&deep), None);
}

#[test]
fn checked_size_fits_where_the_excess_is_hidden() {
    let tree = Some(vec![file(u64::MAX), dir(".big", vec![file(u64::MAX)])]);
    assert_eq!(checked_folder_size(&tree), Some(u64::MAX));
}

#[test]
fn hidden_names_start_with_a_dot() {
    assert!(is_hidden_name(&b".git".to_vec()));
    assert!(is_hidden_name(&b".".to_vec()));
    assert!(is_hidden_name(&vec![b'.', 0xc3, 0x28]));
    assert!(!is_hidden_name(&b"git".to_vec()));
    assert!(!is_hidden_name(&b"a.b".to_vec()));
    assert!(!is_hidden_name(&vec![0xff, b'.']));
    assert!(!is_hidden_name(&Vec::new()));
}

#[test]
fn size_is_the_same_whether_a_hidden_directory_was_read_or_not() {
    let read = Some(vec![file(8), dir(".git", vec![file(4096), dir("refs", vec![file(41)])])]);
    let not_read = Some(vec![
        file(8),
        Entry::Dir { name: b".git".to_vec(), listing: None },
    ]);
    assert_eq!(calculate_folder_size(&read), 8);
    assert_eq!(calculate_folder_size(&not_read), 8);
}
