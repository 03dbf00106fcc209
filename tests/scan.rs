use filersmanager::scan::{filesize_collect, serach_file, EntryType, FsNode, Stat, Timestamp};

fn file(path: &str, len: u64) -> FsNode {
    FsNode {
        path: path.to_string(),
        stat: Some(Stat { is_file: true, is_dir: false, len, readonly: false, accessed: None }),
        children: vec![],
    }
}

fn dir(path: &str, children: Vec<FsNode>) -> FsNode {
    FsNode {
        path: path.to_string(),
        stat: Some(Stat { is_file: false, is_dir: true, len: 4096, readonly: false, accessed: None }),
        children,
    }
}

fn unreadable(path: &str) -> FsNode {
    FsNode { path: path.to_string(), stat: None, children: vec![] }
}

fn other(path: &str) -> FsNode {
    FsNode {
        path: path.to_string(),
        stat: Some(Stat { is_file: false, is_dir: false, len: 77, readonly: false, accessed: None }),
        children: vec![],
    }
}

#[test]
fn files_only_sum_to_their_lengths() {
    let d = dir("/d", vec![file("/d/a", 10), file("/d/b", 20), file("/d/c", 30)]);
    assert_eq!(serach_file(&d), Some(60));
}

#[test]
fn empty_directory_holds_nothing() {
    assert_eq!(serach_file(&dir("/d", vec![])), Some(0));
}

#[test]
fn empty_subdirectory_adds_nothing() {
    let with = dir("/d", vec![file("/d/a", 10), dir("/d/e", vec![]), file("/d/b", 5)]);
    let without = dir("/d", vec![file("/d/a", 10), file("/d/b", 5)]);
    assert_eq!(serach_file(&with), serach_file(&without));
    assert_eq!(serach_file(&with), Some(15));
}

#[test]
fn nested_directories_are_summed() {
    let d = dir(
        "/d",
        vec![file("/d/a", 1), dir("/d/s", vec![file("/d/s/b", 2), dir("/d/s/t", vec![file("/d/s/t/c", 4)])])],
    );
    assert_eq!(serach_file(&d), Some(7));
}

#[test]
fn unreadable_and_special_entries_add_nothing() {
    let d = dir("/d", vec![file("/d/a", 3), unreadable("/d/x"), other("/d/fifo")]);
    assert_eq!(serach_file(&d), Some(3));
}

#[test]
fn subtree_total_over_u64_is_none() {
    let d = dir("/d", vec![file("/d/a", u64::MAX), file("/d/b", 1)]);
    assert_eq!(serach_file(&d), None);
}

#[test]
fn listing_keeps_files_and_directories_in_order() {
    let stamp = Timestamp { secs: 1_700_000_000, nanos: 5 };
    let mut a = file("/r/a", 9);
    a.stat = Some(Stat { is_file: true, is_dir: false, len: 9, readonly: true, accessed: Some(stamp) });
    let root = dir(
        "/r",
        vec![a, unreadable("/r/x"), dir("/r/s", vec![file("/r/s/f", 40), file("/r/s/g", 2)]), other("/r/o")],
    );
    let infos = filesize_collect(&root).unwrap();
    assert_eq!(infos.len(), 2);
    assert_eq!(infos[0].path, "/r/a");
    assert_eq!(infos[0].size, 9);
    assert_eq!(infos[0].entry_type, EntryType::File);
    assert!(infos[0].readonly);
    assert_eq!(infos[0].accessed, Some(stamp));
    assert_eq!(infos[1].path, "/r/s");
    assert_eq!(infos[1].size, 42);
    assert_eq!(infos[1].entry_type, EntryType::Dir);
    assert!(!infos[1].readonly);
    assert_eq!(infos[1].accessed, None);
}

#[test]
fn listing_of_unlistable_root_is_empty() {
    let root = FsNode { path: "/locked".to_string(), stat: None, children: vec![] };
    assert_eq!(filesize_collect(&root).unwrap().len(), 0);
}

#[test]
fn listing_with_oversized_directory_is_none() {
    let root = dir("/r", vec![file("/r/a", 1), dir("/r/s", vec![file("/r/s/f", u64::MAX), file("/r/s/g", 1)])]);
    assert!(filesize_collect(&root).is_none());
}

#[test]
fn scanning_twice_gives_same_sizes() {
    let root = dir("/r", vec![file("/r/a", 5), dir("/r/s", vec![file("/r/s/f", 6)]), unreadable("/r/u")]);
    let first = filesize_collect(&root).unwrap();
    let second = filesize_collect(&root).unwrap();
    let sizes = |v: &Vec<filersmanager::scan::FileInfo>| v.iter().map(|i| i.size).collect::<Vec<u64>>();
    assert_eq!(sizes(&first), sizes(&second));
    assert_eq!(sizes(&first), vec![5, 6]);
}
