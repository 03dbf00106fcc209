//! A directory tree as it was read from disk, the byte total of each
//! subtree, and the listing of a directory's children with their sizes.
//!
//! Reading is best effort: an entry whose metadata could not be read, or that
//! is neither a regular file nor a directory, adds nothing to any total and is
//! left out of a listing; a directory that could not be listed has no
//! children.
use vstd::prelude::*;

verus! {

/// A point in time: whole seconds since the Unix epoch, and nanoseconds past
/// that second.
#[derive(Debug, Clone, Copy, PartialEq, Eq)]
pub struct Timestamp {
    pub secs: i64,
    pub nanos: u32,
}

/// Whether a listed entry is shown as a file or as a folder.
#[derive(Debug, Clone, Copy, PartialEq, Eq)]
pub enum EntryType {
    File,
    Dir,
}

/// What the metadata of an entry told at the time it was read.
#[derive(Debug, Clone, Copy)]
pub struct Stat {
    pub is_file: bool,
    pub is_dir: bool,
    /// The length in bytes that the metadata reports.
    pub len: u64,
    pub readonly: bool,
    /// The last access, where the platform reports one.
    pub accessed: Option<Timestamp>,
}

/// One entry of a directory tree. `stat` is `None` where the entry's metadata
/// could not be read. `children` holds the entries of a directory whose
/// listing succeeded, and is empty for anything else.
#[derive(Debug)]
pub struct FsNode {
    pub path: String,
    pub stat: Option<Stat>,
    pub children: Vec<FsNode>,
}

/// One child of a scanned directory with the bytes it holds.
#[derive(Debug, Clone)]
pub struct FileInfo {
    pub path: String,
    pub size: u64,
    pub entry_type: EntryType,
    pub readonly: bool,
    pub accessed: Option<Timestamp>,
}

/// A regular file, as its metadata says.
pub open spec fn is_regular_file(e: FsNode) -> bool {
    e.stat matches Some(st) && st.is_file
}

/// An entry that a listing shows: a regular file or a directory.
pub open spec fn is_listed(e: FsNode) -> bool {
    e.stat matches Some(st) && (st.is_file || st.is_dir)
}

/// The bytes below directory `n`: the sum over its children.
pub open spec fn subtree_size(n: FsNode) -> nat
    decreases n, 0nat, 0int,
{
    prefix_size(n.children@, n.children@.len() as int)
}

/// The bytes held by the first `k` entries of `s`.
pub open spec fn prefix_size(s: Seq<FsNode>, k: int) -> nat
    decreases s, 1nat, k,
{
    if k <= 0 || k > s.len() {
        0
    } else {
        prefix_size(s, k - 1) + entry_size(s[k - 1])
    }
}

/// The bytes that entry `e` adds to the directory holding it: a regular
/// file's length, a directory's subtree total, and nothing for any other entry.
pub open spec fn entry_size(e: FsNode) -> nat
    decreases e, 2nat, 0int,
{
    match e.stat {
        Some(st) => if st.is_file {
            st.len as nat
        } else if st.is_dir {
            subtree_size(e)
        } else {
            0
        },
        None => 0,
    }
}

/// The bytes held by all the entries of `s`.
pub open spec fn children_total(s: Seq<FsNode>) -> nat {
    prefix_size(s, s.len() as int)
}

/// `n` as a `u64`, where it fits.
pub open spec fn fit_u64(n: nat) -> Option<u64> {
    if n <= u64::MAX {
        Some(n as u64)
    } else {
        None
    }
}

/// The entries of `s` that a listing shows, in their order.
pub open spec fn listed(s: Seq<FsNode>) -> Seq<FsNode>
    decreases s.len(),
{
    if s.len() == 0 {
        seq![]
    } else if is_listed(s.last()) {
        listed(s.drop_last()).push(s.last())
    } else {
        listed(s.drop_last())
    }
}

/// `info` reports listed entry `e`: its path, its metadata, and its bytes.
pub open spec fn describes(info: FileInfo, e: FsNode) -> bool {
    &&& e.stat matches Some(st)
    &&& info.path == e.path
    &&& info.size == entry_size(e)
    &&& info.entry_type == (if st.is_file { EntryType::File } else { EntryType::Dir })
    &&& info.readonly == st.readonly
    &&& info.accessed == st.accessed
}

/// `infos` is the listing of directory `root`: one report for each entry that
/// a listing shows, in the order of the directory's entries.
pub open spec fn lists(root: FsNode, infos: Seq<FileInfo>) -> bool {
    &&& infos.len() == listed(root.children@).len()
    &&& forall|j: int| 0 <= j < infos.len() ==> describes(#[trigger] infos[j], listed(root.children@)[j])
}

proof fn lemma_prefix_size_grows(s: Seq<FsNode>, j: int, k: int)
    requires
        0 <= j <= k <= s.len(),
    ensures
        prefix_size(s, j) <= prefix_size(s, k),
    decreases k - j,
{
    if j < k {
        lemma_prefix_size_grows(s, j, k - 1);
    }
}

/// The bytes below directory `node`, summed over its whole subtree; `None`
/// where the total does not fit in a `u64`.
pub fn serach_file(node: &FsNode) -> (r: Option<u64>)
    ensures
        r == fit_u64(subtree_size(*node)),
    decreases node,
{
    let mut fsize: u64 = 0;
    let mut i: usize = 0;
    while i < node.children.len()
        invariant
            i <= node.children@.len(),
            fsize == prefix_size(node.children@, i as int),
        decreases node.children@.len() - i,
    {
        let child = &node.children[i];
        let add: u64 = match child.stat {
            Some(st) => if st.is_file {
                st.len
            } else if st.is_dir {
                match serach_file(child) {
                    Some(n) => n,
                    None => {
                        proof {
                            assert(prefix_size(node.children@, i + 1) == fsize + entry_size(*child));
                            lemma_prefix_size_grows(node.children@, i + 1, node.children@.len() as int);
                        }
                        return None;
                    },
                }
            } else {
                0
            },
            None => 0,
        };
        proof {
            assert(prefix_size(node.children@, i + 1) == fsize + add);
            lemma_prefix_size_grows(node.children@, i + 1, node.children@.len() as int);
        }
        if add > u64::MAX - fsize {
            return None;
        }
        fsize = fsize + add;
        i = i + 1;
    }
    Some(fsize)
}

/// Lists the children of directory `root` that are regular files or
/// directories, in their order, each with its bytes: a file's length, a
/// directory's subtree total. `None` where one of those totals does not fit
/// in a `u64`.
pub fn filesize_collect(root: &FsNode) -> (r: Option<Vec<FileInfo>>)
    ensures
        r is None <==> exists|j: int|
            0 <= j < root.children@.len() && is_listed(#[trigger] root.children@[j])
                && entry_size(root.children@[j]) > u64::MAX,
        r matches Some(v) ==> lists(*root, v@),
{
    let mut file_info_vec: Vec<FileInfo> = Vec::new();
    let mut i: usize = 0;
    while i < root.children.len()
        invariant
            i <= root.children@.len(),
            file_info_vec@.len() == listed(root.children@.subrange(0, i as int)).len(),
            forall|j: int|
                0 <= j < file_info_vec@.len() ==> describes(
                    #[trigger] file_info_vec@[j],
                    listed(root.children@.subrange(0, i as int))[j],
                ),
            forall|j: int|
                0 <= j < i && is_listed(#[trigger] root.children@[j]) ==> entry_size(
                    root.children@[j],
                ) <= u64::MAX,
        decreases root.children@.len() - i,
    {
        let entry = &root.children[i];
        proof {
            assert(root.children@.subrange(0, i + 1).drop_last() =~= root.children@.subrange(0, i as int));
        }
        match entry.stat {
            Some(meta) => {
                if meta.is_file || meta.is_dir {
                    let size: u64 = if meta.is_file {
                        meta.len
                    } else {
                        match serach_file(entry) {
                            Some(n) => n,
                            None => {
                                return None;
                            },
                        }
                    };
                    let entry_type = if meta.is_file {
                        EntryType::File
                    } else {
                        EntryType::Dir
                    };
                    file_info_vec.push(
                        FileInfo {
                            path: entry.path.clone(),
                            size,
                            entry_type,
                            readonly: meta.readonly,
                            accessed: meta.accessed,
                        },
                    );
                }
            },
            None => {},
        }
        i = i + 1;
    }
    proof {
        assert(root.children@.subrange(0, i as int) =~= root.children@);
    }
    Some(file_info_vec)
}

/// The sum of the lengths that the metadata of the entries of `s` reports.
pub open spec fn file_lengths(s: Seq<FsNode>) -> nat
    decreases s.len(),
{
    if s.len() == 0 {
        0
    } else {
        file_lengths(s.drop_last()) + (s.last().stat->Some_0.len as nat)
    }
}

/// A directory whose entries are all regular files holds the sum of their
/// lengths.
pub proof fn lemma_files_only_sum(d: FsNode)
    requires
        forall|i: int| 0 <= i < d.children@.len() ==> is_regular_file(#[trigger] d.children@[i]),
    ensures
        subtree_size(d) == file_lengths(d.children@),
{
    let s = d.children@;
    lemma_files_prefix(s, s.len() as int);
    assert(s.subrange(0, s.len() as int) =~= s);
}

proof fn lemma_files_prefix(s: Seq<FsNode>, k: int)
    requires
        0 <= k <= s.len(),
        forall|i: int| 0 <= i < s.len() ==> is_regular_file(#[trigger] s[i]),
    ensures
        prefix_size(s, k) == file_lengths(s.subrange(0, k)),
    decreases k,
{
    if k > 0 {
        lemma_files_prefix(s, k - 1);
        assert(s.subrange(0, k).drop_last() =~= s.subrange(0, k - 1));
        assert(s.subrange(0, k).last() == s[k - 1]);
        assert(is_regular_file(s[k - 1]));
        assert(entry_size(s[k - 1]) == s[k - 1].stat->Some_0.len);
    } else {
        assert(s.subrange(0, k).len() == 0);
    }
}

/// Leaving out entry `k` of `s` takes away exactly the bytes it adds.
pub proof fn lemma_remove_entry(s: Seq<FsNode>, k: int)
    requires
        0 <= k < s.len(),
    ensures
        children_total(s) == children_total(s.remove(k)) + entry_size(s[k]),
{
    lemma_remove_prefix(s, k, s.len() as int);
}

proof fn lemma_remove_prefix(s: Seq<FsNode>, k: int, m: int)
    requires
        0 <= k < s.len(),
        0 <= m <= s.len(),
    ensures
        m <= k ==> prefix_size(s, m) == prefix_size(s.remove(k), m),
        m > k ==> prefix_size(s, m) == prefix_size(s.remove(k), m - 1) + entry_size(s[k]),
    decreases m,
{
    if m > 0 {
        lemma_remove_prefix(s, k, m - 1);
    }
}

/// A directory holding one empty subdirectory holds as many bytes as it
/// would without it.
pub proof fn lemma_empty_subdir_adds_nothing(d: FsNode, k: int)
    requires
        0 <= k < d.children@.len(),
        d.children@[k].stat matches Some(st) && st.is_dir && !st.is_file,
        d.children@[k].children@.len() == 0,
    ensures
        subtree_size(d) == children_total(d.children@.remove(k)),
{
    lemma_remove_entry(d.children@, k);
}

/// Two listings of one unchanged directory report the same sizes, entry by
/// entry.
pub proof fn lemma_rescan_same_sizes(root: FsNode, a: Seq<FileInfo>, b: Seq<FileInfo>)
    requires
        lists(root, a),
        lists(root, b),
    ensures
        a.len() == b.len(),
        forall|j: int| 0 <= j < a.len() ==> (#[trigger] a[j]).size == b[j].size,
{
    assert forall|j: int| 0 <= j < a.len() implies (#[trigger] a[j]).size == b[j].size by {
        assert(describes(a[j], listed(root.children@)[j]));
        assert(describes(b[j], listed(root.children@)[j]));
    }
}

} // verus!
