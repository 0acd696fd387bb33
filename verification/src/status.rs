//! Reduction of a repository's file status table to a single indicator.
//!
//! Each file's status is a word of flag bits as the repository reader
//! reports it. The table of all words collapses into one of three
//! indicator values: working-tree changes dominate, then staged (index)
//! changes, then clean.

use vstd::prelude::*;

verus! {

/// Flag bits that mark a change in the working tree:
/// new, modified, deleted, typechange, renamed.
pub const WT_CHANGE_BITS: u32 = 0xF80;

/// Flag bits that mark a change staged in the index:
/// new, modified, deleted, renamed, typechange.
pub const INDEX_CHANGE_BITS: u32 = 0x1F;

/// The status word carries at least one working-tree change flag.
pub open spec fn wt_changed(bits: u32) -> bool {
    bits & WT_CHANGE_BITS != 0
}

/// The status word carries at least one index change flag.
pub open spec fn index_changed(bits: u32) -> bool {
    bits & INDEX_CHANGE_BITS != 0
}

/// The visible summary of a whole status table.
#[derive(Clone, Copy, PartialEq, Eq, Structural, Debug)]
pub enum StatusIndicator {
    Clean,
    IndexModified,
    WorkTreeModified,
}

/// How the table is reduced: `Priority` classifies by the dominance
/// order working-tree > index > clean, independent of table order;
/// `ScanOrder` reproduces the historical scan in which a later
/// clean entry overwrites an earlier index entry.
#[derive(Clone, Copy, PartialEq, Eq, Structural, Debug)]
pub enum ReduceMode {
    Priority,
    ScanOrder,
}

/// Some entry of the table carries a working-tree change flag.
pub open spec fn any_wt(s: Seq<u32>) -> bool {
    exists|i: int| 0 <= i < s.len() && wt_changed(s[i])
}

/// Some entry of the table carries an index change flag.
pub open spec fn any_index(s: Seq<u32>) -> bool {
    exists|i: int| 0 <= i < s.len() && index_changed(s[i])
}

/// Order-independent reduction: the strongest class present wins.
pub open spec fn priority_indicator(s: Seq<u32>) -> StatusIndicator {
    if any_wt(s) {
        StatusIndicator::WorkTreeModified
    } else if any_index(s) {
        StatusIndicator::IndexModified
    } else {
        StatusIndicator::Clean
    }
}

/// How a single entry classifies when no working-tree flag is set.
pub open spec fn entry_overwrite(bits: u32) -> StatusIndicator {
    if index_changed(bits) {
        StatusIndicator::IndexModified
    } else {
        StatusIndicator::Clean
    }
}

/// The historical scan: a working-tree entry decides at once; any other
/// entry overwrites the accumulator with its own class.
pub open spec fn scan_fold(s: Seq<u32>, acc: StatusIndicator) -> StatusIndicator
    decreases s.len(),
{
    if s.len() == 0 {
        acc
    } else if wt_changed(s[0]) {
        StatusIndicator::WorkTreeModified
    } else {
        scan_fold(s.skip(1), entry_overwrite(s[0]))
    }
}

/// Scan-order reduction of a whole table, starting from clean.
pub open spec fn scan_indicator(s: Seq<u32>) -> StatusIndicator {
    scan_fold(s, StatusIndicator::Clean)
}

/// What `reduce` returns for a table and a mode.
pub open spec fn reduce_spec(s: Seq<u32>, mode: ReduceMode) -> StatusIndicator {
    match mode {
        ReduceMode::Priority => priority_indicator(s),
        ReduceMode::ScanOrder => scan_indicator(s),
    }
}

/// Reduce a status table to its indicator under the chosen mode.
/// An empty table is clean in either mode.
pub fn reduce(entries: &Vec<u32>, mode: ReduceMode) -> (r: StatusIndicator)
    ensures
        r == reduce_spec(entries@, mode),
{
    match mode {
        ReduceMode::Priority => reduce_priority(entries),
        ReduceMode::ScanOrder => reduce_scan(entries),
    }
}

fn reduce_priority(entries: &Vec<u32>) -> (r: StatusIndicator)
    ensures
        r == priority_indicator(entries@),
{
    let mut found_index = false;
    let mut i: usize = 0;
    while i < entries.len()
        invariant
            0 <= i <= entries.len(),
            !any_wt(entries@.take(i as int)),
            found_index == any_index(entries@.take(i as int)),
        decreases entries.len() - i,
    {
        let bits = entries[i];
        proof {
            assert(entries@.take(i + 1)[i as int] == entries@[i as int]);
            assert forall|j: int| 0 <= j < i + 1 && #[trigger] wt_changed(
                entries@.take(i + 1)[j],
            ) implies wt_changed(entries@[i as int]) by {
                if j < i {
                    assert(entries@.take(i + 1)[j] == entries@.take(i as int)[j]);
                    assert(wt_changed(entries@.take(i as int)[j]));
                }
            }
            assert forall|j: int| 0 <= j < i && #[trigger] index_changed(
                entries@.take(i as int)[j],
            ) implies index_changed(entries@.take(i + 1)[j]) by {
                assert(entries@.take(i + 1)[j] == entries@.take(i as int)[j]);
            }
        }
        if bits & WT_CHANGE_BITS != 0 {
            proof {
                assert(wt_changed(entries@[i as int]));
            }
            return StatusIndicator::WorkTreeModified;
        }
        if bits & INDEX_CHANGE_BITS != 0 {
            found_index = true;
            proof {
                assert(index_changed(entries@.take(i + 1)[i as int]));
            }
        } else {
            proof {
                assert forall|j: int| 0 <= j < i + 1 && #[trigger] index_changed(
                    entries@.take(i + 1)[j],
                ) implies index_changed(entries@.take(i as int)[j]) by {
                    assert(entries@.take(i + 1)[j] == entries@[j]);
                    if j == i {
                        assert(!index_changed(entries@[i as int]));
                    } else {
                        assert(entries@.take(i as int)[j] == entries@[j]);
                    }
                }
            }
        }
        i = i + 1;
    }
    proof {
        assert(entries@.take(entries@.len() as int) =~= entries@);
    }
    if found_index {
        StatusIndicator::IndexModified
    } else {
        StatusIndicator::Clean
    }
}

fn reduce_scan(entries: &Vec<u32>) -> (r: StatusIndicator)
    ensures
        r == scan_indicator(entries@),
{
    let mut acc = StatusIndicator::Clean;
    let mut i: usize = 0;
    proof {
        assert(entries@.skip(0) =~= entries@);
    }
    while i < entries.len()
        invariant
            0 <= i <= entries.len(),
            scan_indicator(entries@) == scan_fold(entries@.skip(i as int), acc),
        decreases entries.len() - i,
    {
        let bits = entries[i];
        let ghost pre = entries@.skip(i as int);
        let ghost acc0 = acc;
        proof {
            assert(pre[0] == entries@[i as int]);
        }
        if bits & WT_CHANGE_BITS != 0 {
            return StatusIndicator::WorkTreeModified;
        }
        if bits & INDEX_CHANGE_BITS != 0 {
            acc = StatusIndicator::IndexModified;
        } else {
            acc = StatusIndicator::Clean;
        }
        proof {
            assert(!wt_changed(pre[0]));
            assert(scan_fold(pre, acc0) == scan_fold(pre.skip(1), entry_overwrite(pre[0])));
            assert(pre.skip(1) =~= entries@.skip(i + 1));
            assert(entry_overwrite(pre[0]) == acc);
        }
        i = i + 1;
    }
    proof {
        assert(entries@.skip(entries@.len() as int) =~= Seq::<u32>::empty());
    }
    acc
}

proof fn lemma_scan_fold_wt(s: Seq<u32>, acc: StatusIndicator)
    requires
        any_wt(s),
    ensures
        scan_fold(s, acc) == StatusIndicator::WorkTreeModified,
    decreases s.len(),
{
    if !wt_changed(s[0]) {
        let i = choose|i: int| 0 <= i < s.len() && wt_changed(s[i]);
        assert(s.skip(1)[i - 1] == s[i]);
        lemma_scan_fold_wt(s.skip(1), entry_overwrite(s[0]));
    }
}

/// A table with any working-tree entry reduces to `WorkTreeModified`
/// in either mode, whatever the order of its entries.
pub proof fn lemma_worktree_dominates(s: Seq<u32>, mode: ReduceMode)
    requires
        any_wt(s),
    ensures
        reduce_spec(s, mode) == StatusIndicator::WorkTreeModified,
{
    match mode {
        ReduceMode::Priority => {
        },
        ReduceMode::ScanOrder => {
            lemma_scan_fold_wt(s, StatusIndicator::Clean);
        },
    }
}

proof fn lemma_scan_fold_last(s: Seq<u32>, acc: StatusIndicator)
    requires
        !any_wt(s),
        s.len() > 0,
    ensures
        scan_fold(s, acc) == entry_overwrite(s.last()),
    decreases s.len(),
{
    assert(!wt_changed(s[0]));
    if s.len() == 1 {
        assert(s.skip(1).len() == 0);
        assert(scan_fold(s, acc) == scan_fold(s.skip(1), entry_overwrite(s[0])));
        assert(scan_fold(s.skip(1), entry_overwrite(s[0])) == entry_overwrite(s[0]));
        assert(s.last() == s[0]);
    } else {
        assert forall|i: int| 0 <= i < s.skip(1).len() implies !wt_changed(
            #[trigger] s.skip(1)[i],
        ) by {
            assert(s.skip(1)[i] == s[i + 1]);
            assert(!wt_changed(s[i + 1]));
        }
        lemma_scan_fold_last(s.skip(1), entry_overwrite(s[0]));
        assert(s.skip(1).last() == s.last());
    }
}

/// In scan order, when no entry carries a working-tree flag, the last
/// entry alone decides: a clean entry that follows an index entry
/// overwrites it back to clean.
pub proof fn lemma_scan_last_decides(s: Seq<u32>)
    requires
        !any_wt(s),
        s.len() > 0,
    ensures
        scan_indicator(s) == entry_overwrite(s.last()),
{
    lemma_scan_fold_last(s, StatusIndicator::Clean);
}

proof fn lemma_any_wt_multiset(s1: Seq<u32>, s2: Seq<u32>)
    requires
        s1.to_multiset() == s2.to_multiset(),
    ensures
        any_wt(s1) == any_wt(s2),
{
    s1.to_multiset_ensures();
    s2.to_multiset_ensures();
    if any_wt(s1) {
        let i = choose|i: int| 0 <= i < s1.len() && wt_changed(s1[i]);
        assert(s1.contains(s1[i]));
        assert(s2.to_multiset().count(s1[i]) > 0);
        let j = choose|j: int| 0 <= j < s2.len() && s2[j] == s1[i];
        assert(wt_changed(s2[j]));
    }
    if any_wt(s2) {
        let i = choose|i: int| 0 <= i < s2.len() && wt_changed(s2[i]);
        assert(s2.contains(s2[i]));
        assert(s1.to_multiset().count(s2[i]) > 0);
        let j = choose|j: int| 0 <= j < s1.len() && s1[j] == s2[i];
        assert(wt_changed(s1[j]));
    }
}

proof fn lemma_any_index_multiset(s1: Seq<u32>, s2: Seq<u32>)
    requires
        s1.to_multiset() == s2.to_multiset(),
    ensures
        any_index(s1) == any_index(s2),
{
    s1.to_multiset_ensures();
    s2.to_multiset_ensures();
    if any_index(s1) {
        let i = choose|i: int| 0 <= i < s1.len() && index_changed(s1[i]);
        assert(s1.contains(s1[i]));
        assert(s2.to_multiset().count(s1[i]) > 0);
        let j = choose|j: int| 0 <= j < s2.len() && s2[j] == s1[i];
        assert(index_changed(s2[j]));
    }
    if any_index(s2) {
        let i = choose|i: int| 0 <= i < s2.len() && index_changed(s2[i]);
        assert(s2.contains(s2[i]));
        assert(s1.to_multiset().count(s2[i]) > 0);
        let j = choose|j: int| 0 <= j < s1.len() && s1[j] == s2[i];
        assert(index_changed(s1[j]));
    }
}

/// The priority reduction is deterministic in the multiset of status
/// words alone: two tables with the same entries in any two orders
/// reduce to the same indicator.
pub proof fn lemma_priority_order_blind(s1: Seq<u32>, s2: Seq<u32>)
    requires
        s1.to_multiset() == s2.to_multiset(),
    ensures
        priority_indicator(s1) == priority_indicator(s2),
{
    lemma_any_wt_multiset(s1, s2);
    lemma_any_index_multiset(s1, s2);
}

/// Under priority reduction, an index entry is never overwritten: with
/// no working-tree entry present, any index entry decides the result.
pub proof fn lemma_priority_index_kept(s: Seq<u32>)
    requires
        !any_wt(s),
        any_index(s),
    ensures
        priority_indicator(s) == StatusIndicator::IndexModified,
{
}

} // verus!
