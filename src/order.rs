//! Ordering of listed entries, largest first.
use std::cmp::Ordering;
use vstd::prelude::*;

use crate::scan::FileInfo;

verus! {

broadcast use vstd::seq_lib::group_to_multiset_ensures;

/// A comparison of byte counts that puts the larger first.
pub trait CmpExtension {
    fn ancestor_cmp(&self, other: &u64) -> Ordering;
}

/// The order in which `a` stands to `b` when larger counts come first.
pub open spec fn descending(a: u64, b: u64) -> Ordering {
    if a < b {
        Ordering::Greater
    } else if a == b {
        Ordering::Equal
    } else {
        Ordering::Less
    }
}

impl CmpExtension for u64 {
    fn ancestor_cmp(&self, other: &u64) -> (r: Ordering)
        ensures
            r == descending(*self, *other),
    {
        if *self < *other {
            Ordering::Greater
        } else if *self == *other {
            Ordering::Equal
        } else {
            Ordering::Less
        }
    }
}

/// No entry of `s` is larger than one before it.
pub open spec fn sorted_by_size(s: Seq<FileInfo>) -> bool {
    forall|a: int, b: int| 0 <= a < b < s.len() ==> #[trigger] s[a].size >= #[trigger] s[b].size
}

/// Orders `entries` by size, largest first. Entries of equal size keep the
/// order they came in.
pub fn sort_by_size(entries: Vec<FileInfo>) -> (r: Vec<FileInfo>)
    ensures
        sorted_by_size(r@),
        r@.to_multiset() == entries@.to_multiset(),
{
    let mut rest = entries;
    let mut sorted: Vec<FileInfo> = Vec::new();
    while rest.len() > 0
        invariant
            sorted_by_size(sorted@),
            rest@.to_multiset().add(sorted@.to_multiset()) == entries@.to_multiset(),
        decreases rest@.len(),
    {
        let ghost before = rest@;
        let item = rest.pop().unwrap();
        proof {
            assert(before =~= rest@.push(item));
        }
        let mut j: usize = 0;
        while j < sorted.len() && matches!(sorted[j].size.ancestor_cmp(&item.size), Ordering::Less)
            invariant
                j <= sorted@.len(),
                forall|t: int| 0 <= t < j ==> (#[trigger] sorted@[t]).size > item.size,
            decreases sorted@.len() - j,
        {
            j = j + 1;
        }
        let ghost old_sorted = sorted@;
        sorted.insert(j, item);
        proof {
            assert forall|a: int, b: int| 0 <= a < b < sorted@.len() implies #[trigger] sorted@[a].size
                >= #[trigger] sorted@[b].size by {
                if b < j {
                } else if b == j {
                } else if a < j {
                    assert(sorted@[b] == old_sorted[b - 1]);
                    if j < old_sorted.len() {
                        assert(old_sorted[j as int].size <= item.size);
                    }
                } else if a == j {
                    assert(sorted@[b] == old_sorted[b - 1]);
                    assert(old_sorted[j as int].size <= item.size);
                    if b - 1 > j {
                        assert(old_sorted[j as int].size >= old_sorted[b - 1].size);
                    }
                } else {
                    assert(sorted@[a] == old_sorted[a - 1]);
                    assert(sorted@[b] == old_sorted[b - 1]);
                }
            }
            assert(rest@.to_multiset().add(sorted@.to_multiset()) =~= entries@.to_multiset());
        }
    }
    sorted
}

} // verus!
