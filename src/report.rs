//! A listing turned into table rows with scaled sizes and a grand total.
use vstd::prelude::*;

use crate::clock::shows_access;
use crate::order::{sort_by_size, sorted_by_size};
use crate::scan::FileInfo;
use crate::units::{calc_unit, size_text};
use crate::widget::FileTableRow;

verus! {

broadcast use vstd::seq_lib::group_to_multiset_ensures;

/// The bytes of all the entries of `s`.
pub open spec fn sizes_sum(s: Seq<FileInfo>) -> nat
    decreases s.len(),
{
    if s.len() == 0 {
        0
    } else {
        sizes_sum(s.drop_last()) + s.last().size as nat
    }
}

/// `row` shows entry `info`: its path, its size in scaled units, its last
/// access, and whether it is a file or a folder.
pub open spec fn shows(row: FileTableRow, info: FileInfo) -> bool {
    &&& row.filename == info.path
    &&& row.size@ == size_text(info.size)
    &&& shows_access(row.time@, info.accessed)
    &&& row.entry_type == info.entry_type
}

/// `rows` show `infos`, one row per entry, in their order.
pub open spec fn shows_all(rows: Seq<FileTableRow>, infos: Seq<FileInfo>) -> bool {
    &&& rows.len() == infos.len()
    &&& forall|i: int| 0 <= i < rows.len() ==> shows(#[trigger] rows[i], infos[i])
}

proof fn lemma_sizes_sum_grows(s: Seq<FileInfo>, j: int, k: int)
    requires
        0 <= j <= k <= s.len(),
    ensures
        sizes_sum(s.subrange(0, j)) <= sizes_sum(s.subrange(0, k)),
    decreases k - j,
{
    if j < k {
        lemma_sizes_sum_grows(s, j, k - 1);
        assert(s.subrange(0, k).drop_last() =~= s.subrange(0, k - 1));
    }
}

proof fn lemma_sizes_sum_remove(s: Seq<FileInfo>, i: int)
    requires
        0 <= i < s.len(),
    ensures
        sizes_sum(s) == sizes_sum(s.remove(i)) + s[i].size,
    decreases s.len(),
{
    if i < s.len() - 1 {
        lemma_sizes_sum_remove(s.drop_last(), i);
        assert(s.remove(i).drop_last() =~= s.drop_last().remove(i));
        assert(s.remove(i).last() == s.last());
    } else {
        assert(s.remove(i) =~= s.drop_last());
    }
}

/// The total of a listing does not depend on the order of its entries.
pub proof fn lemma_total_ignores_order(a: Seq<FileInfo>, b: Seq<FileInfo>)
    requires
        a.to_multiset() == b.to_multiset(),
    ensures
        sizes_sum(a) == sizes_sum(b),
    decreases a.len(),
{
    if a.len() == 0 {
        assert(b.to_multiset().len() == 0);
    } else {
        let x = a.last();
        assert(a =~= a.drop_last().push(x));
        assert(a.to_multiset().count(x) > 0);
        assert(b.contains(x));
        let i = choose|i: int| 0 <= i < b.len() && b[i] == x;
        assert(b.remove(i).to_multiset() =~= a.drop_last().to_multiset());
        lemma_total_ignores_order(a.drop_last(), b.remove(i));
        lemma_sizes_sum_remove(b, i);
    }
}

/// Turns a listing into table rows, each size in scaled units, together
/// with the grand total in scaled units. `None` where the grand total does
/// not fit in a `u64`.
pub fn conv_fileinfovec_to_strvec(vec: &Vec<FileInfo>) -> (r: Option<(Vec<FileTableRow>, String)>)
    ensures
        r is None <==> sizes_sum(vec@) > u64::MAX,
        r matches Some((rows, total)) ==> shows_all(rows@, vec@) && total@ == size_text(
            sizes_sum(vec@) as u64,
        ),
{
    let mut total_size: u64 = 0;
    let mut fileinfo_str_vec: Vec<FileTableRow> = Vec::new();
    let mut i: usize = 0;
    while i < vec.len()
        invariant
            i <= vec@.len(),
            total_size == sizes_sum(vec@.subrange(0, i as int)),
            shows_all(fileinfo_str_vec@, vec@.subrange(0, i as int)),
        decreases vec@.len() - i,
    {
        let info = &vec[i];
        proof {
            assert(vec@.subrange(0, i + 1).drop_last() =~= vec@.subrange(0, i as int));
            lemma_sizes_sum_grows(vec@, i + 1, vec@.len() as int);
            assert(vec@.subrange(0, vec@.len() as int) =~= vec@);
        }
        if info.size > u64::MAX - total_size {
            return None;
        }
        total_size = total_size + info.size;
        let size_str = calc_unit(info.size);
        let row = FileTableRow::generate(info.path.clone(), size_str, info.accessed, info.entry_type);
        fileinfo_str_vec.push(row);
        i = i + 1;
    }
    proof {
        assert(vec@.subrange(0, i as int) =~= vec@);
    }
    Some((fileinfo_str_vec, calc_unit(total_size)))
}

/// Orders a listing largest first and turns it into table rows with a grand
/// total, handing back the ordered entries too. `None` where the grand total
/// does not fit in a `u64`.
pub fn sort_and_total(entries: Vec<FileInfo>) -> (r: Option<(Vec<FileInfo>, Vec<FileTableRow>, String)>)
    ensures
        r is None <==> sizes_sum(entries@) > u64::MAX,
        r matches Some((sorted, rows, total)) ==> {
            &&& sorted_by_size(sorted@)
            &&& sorted@.to_multiset() == entries@.to_multiset()
            &&& shows_all(rows@, sorted@)
            &&& total@ == size_text(sizes_sum(entries@) as u64)
        },
{
    let sorted = sort_by_size(entries);
    proof {
        lemma_total_ignores_order(sorted@, entries@);
    }
    match conv_fileinfovec_to_strvec(&sorted) {
        Some((rows, total)) => Some((sorted, rows, total)),
        None => None,
    }
}

} // verus!
