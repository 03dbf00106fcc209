use std::cmp::Ordering;

use filersmanager::order::{sort_by_size, CmpExtension};
use filersmanager::report::{conv_fileinfovec_to_strvec, sort_and_total};
use filersmanager::scan::{filesize_collect, EntryType, FileInfo, FsNode, Stat};

fn info(path: &str, size: u64) -> FileInfo {
    FileInfo { path: path.to_string(), size, entry_type: EntryType::File, readonly: false, accessed: None }
}

#[test]
fn larger_counts_order_first() {
    assert_eq!(1u64.ancestor_cmp(&2), Ordering::Greater);
    assert_eq!(2u64.ancestor_cmp(&2), Ordering::Equal);
    assert_eq!(3u64.ancestor_cmp(&2), Ordering::Less);
}

#[test]
fn sorts_largest_first_with_ties_adjacent() {
    let v = vec![info("a", 10), info("b", 5000), info("c", 5000), info("d", 1)];
    let sorted = sort_by_size(v);
    let sizes: Vec<u64> = sorted.iter().map(|i| i.size).collect();
    assert_eq!(sizes, vec![5000, 5000, 10, 1]);
    let mut tied: Vec<&str> = sorted[..2].iter().map(|i| i.path.as_str()).collect();
    tied.sort();
    assert_eq!(tied, vec!["b", "c"]);
    assert_eq!(sorted[2].path, "a");
    assert_eq!(sorted[3].path, "d");
}

#[test]
fn sorting_nothing_gives_nothing() {
    assert!(sort_by_size(vec![]).is_empty());
}

#[test]
fn sort_and_total_sums_every_entry() {
    let v = vec![info("a", 10), info("b", 5000), info("c", 5000), info("d", 1)];
    let (sorted, rows, total) = sort_and_total(v).unwrap();
    assert_eq!(total, "9.78kb");
    let sizes: Vec<u64> = sorted.iter().map(|i| i.size).collect();
    assert_eq!(sizes, vec![5000, 5000, 10, 1]);
    let shown: Vec<&str> = rows.iter().map(|r| r.size.as_str()).collect();
    assert_eq!(shown, vec!["4.88kb", "4.88kb", "0.01kb", "0.00kb"]);
    for (row, entry) in rows.iter().zip(sorted.iter()) {
        assert_eq!(row.filename, entry.path);
        assert_eq!(row.time, "");
    }
}

#[test]
fn total_is_the_same_in_any_order() {
    let a = conv_fileinfovec_to_strvec(&vec![info("a", 10), info("b", 5000), info("c", 5000), info("d", 1)]).unwrap();
    let b = conv_fileinfovec_to_strvec(&vec![info("d", 1), info("c", 5000), info("a", 10), info("b", 5000)]).unwrap();
    assert_eq!(a.1, b.1);
}

#[test]
fn converts_each_entry_in_order() {
    let (rows, total) = conv_fileinfovec_to_strvec(&vec![info("/x/a.txt", 100), info("/x/b", 2_000_000)]).unwrap();
    assert_eq!(rows.len(), 2);
    assert_eq!(rows[0].filename, "/x/a.txt");
    assert_eq!(rows[0].size, "0.10kb");
    assert_eq!(rows[1].filename, "/x/b");
    assert_eq!(rows[1].size, "1.91MB");
    assert_eq!(total, "1.91MB");
}

#[test]
fn empty_listing_totals_zero() {
    let (rows, total) = conv_fileinfovec_to_strvec(&vec![]).unwrap();
    assert!(rows.is_empty());
    assert_eq!(total, "0.00kb");
}

#[test]
fn grand_total_over_u64_is_none() {
    assert!(conv_fileinfovec_to_strvec(&vec![info("a", u64::MAX), info("b", 1)]).is_none());
    assert!(sort_and_total(vec![info("a", u64::MAX), info("b", 1)]).is_none());
}

fn node(path: &str, stat: Option<(bool, u64)>, children: Vec<FsNode>) -> FsNode {
    FsNode {
        path: path.to_string(),
        stat: stat.map(|(is_file, len)| Stat { is_file, is_dir: !is_file, len, readonly: false, accessed: None }),
        children,
    }
}

#[test]
fn scans_folder_with_unreadable_subdirectory() {
    let root = node(
        "/root",
        None,
        vec![
            node("/root/a.txt", Some((true, 100)), vec![]),
            node(
                "/root/b",
                Some((false, 4096)),
                vec![node("/root/b/c.txt", Some((true, 2_000_000)), vec![]), node("/root/b/locked", Some((false, 4096)), vec![])],
            ),
        ],
    );
    let listing = filesize_collect(&root).unwrap();
    assert_eq!(listing.len(), 2);
    let (sorted, rows, total) = sort_and_total(listing).unwrap();
    assert_eq!(sorted[0].path, "/root/b");
    assert_eq!(sorted[0].size, 2_000_000);
    assert_eq!(sorted[1].path, "/root/a.txt");
    assert_eq!(sorted[1].size, 100);
    assert_eq!(rows[0].size, "1.91MB");
    assert_eq!(rows[1].size, "0.10kb");
    assert_eq!(total, "1.91MB");
}
