use promptline::status::{reduce, ReduceMode, StatusIndicator, INDEX_CHANGE_BITS, WT_CHANGE_BITS};

const WT_NEW: u32 = 1 << 7;
const WT_MODIFIED: u32 = 1 << 8;
const INDEX_NEW: u32 = 1 << 0;
const INDEX_MODIFIED: u32 = 1 << 1;
const CURRENT: u32 = 0;

#[test]
fn masks_cover_the_flag_words() {
    assert_eq!(WT_CHANGE_BITS, (1 << 7) | (1 << 8) | (1 << 9) | (1 << 10) | (1 << 11));
    assert_eq!(INDEX_CHANGE_BITS, 1 | 2 | 4 | 8 | 16);
}

#[test]
fn empty_table_is_clean() {
    assert_eq!(reduce(&vec![], ReduceMode::Priority), StatusIndicator::Clean);
    assert_eq!(reduce(&vec![], ReduceMode::ScanOrder), StatusIndicator::Clean);
}

#[test]
fn one_worktree_entry_dominates_in_any_order() {
    // one working-tree-modified entry among nine clean ones, at every
    // position, in both modes
    for pos in 0..10 {
        let mut table = vec![CURRENT; 10];
        table[pos] = WT_MODIFIED;
        assert_eq!(
            reduce(&table, ReduceMode::Priority),
            StatusIndicator::WorkTreeModified,
            "position {pos}"
        );
        assert_eq!(
            reduce(&table, ReduceMode::ScanOrder),
            StatusIndicator::WorkTreeModified,
            "position {pos}"
        );
    }
}

#[test]
fn clean_after_index_overwrites_in_scan_order() {
    let table = vec![INDEX_MODIFIED, CURRENT];
    assert_eq!(reduce(&table, ReduceMode::ScanOrder), StatusIndicator::Clean);
    assert_eq!(reduce(&table, ReduceMode::Priority), StatusIndicator::IndexModified);
}

#[test]
fn index_entry_decides_without_worktree_entries() {
    let table = vec![CURRENT, INDEX_NEW, CURRENT, INDEX_MODIFIED];
    assert_eq!(reduce(&table, ReduceMode::Priority), StatusIndicator::IndexModified);
    // in scan order the last entry decides here too
    assert_eq!(
        reduce(&vec![CURRENT, INDEX_NEW], ReduceMode::ScanOrder),
        StatusIndicator::IndexModified
    );
}

#[test]
fn worktree_beats_index_whatever_comes_first() {
    let table = vec![INDEX_NEW, WT_NEW];
    assert_eq!(reduce(&table, ReduceMode::Priority), StatusIndicator::WorkTreeModified);
    assert_eq!(reduce(&table, ReduceMode::ScanOrder), StatusIndicator::WorkTreeModified);
    let table = vec![WT_NEW, INDEX_NEW];
    assert_eq!(reduce(&table, ReduceMode::ScanOrder), StatusIndicator::WorkTreeModified);
}

#[test]
fn combined_flag_word_counts_as_worktree() {
    // a file both staged and edited again carries flags of both kinds
    let table = vec![INDEX_MODIFIED | WT_MODIFIED];
    assert_eq!(reduce(&table, ReduceMode::Priority), StatusIndicator::WorkTreeModified);
    assert_eq!(reduce(&table, ReduceMode::ScanOrder), StatusIndicator::WorkTreeModified);
}

#[test]
fn masks_match_the_repository_reader() {
    assert_eq!(WT_CHANGE_BITS, (git2::Status::WT_NEW
        | git2::Status::WT_MODIFIED
        | git2::Status::WT_DELETED
        | git2::Status::WT_TYPECHANGE
        | git2::Status::WT_RENAMED)
        .bits());
    assert_eq!(INDEX_CHANGE_BITS, (git2::Status::INDEX_NEW
        | git2::Status::INDEX_MODIFIED
        | git2::Status::INDEX_DELETED
        | git2::Status::INDEX_TYPECHANGE
        | git2::Status::INDEX_RENAMED)
        .bits());
}
