use etcd_workbench::history::{HistoryWalk, RevisionLookup};

fn lookup(spans: &[(i64, i64)], revision: i64, compacted_below: i64) -> RevisionLookup {
    if revision < compacted_below {
        return RevisionLookup::Failed;
    }
    let mut found = RevisionLookup::Missing;
    for &(c, m) in spans {
        if c <= revision && revision <= m {
            return RevisionLookup::Found { create_revision: c, mod_revision: m };
        }
        if m <= revision {
            found = RevisionLookup::Found { create_revision: c, mod_revision: m };
        }
    }
    found
}

fn walk(spans: &[(i64, i64)], start: i64, end: i64, compacted_below: i64) -> (Vec<i64>, usize) {
    let mut w = HistoryWalk::new(start, end);
    let mut asks = 0;
    while let Some(r) = w.next_revision() {
        asks += 1;
        w.on_lookup(lookup(spans, r, compacted_below));
    }
    (w.history().clone(), asks)
}

#[test]
fn walk_records_each_live_revision_once() {
    let (h, _) = walk(&[(3, 3), (5, 7), (10, 10)], 1, 10, 0);
    assert_eq!(h, vec![10, 7, 6, 5, 3]);
}

#[test]
fn walk_stops_early_at_compaction() {
    let (full, _) = walk(&[(3, 3), (5, 7), (10, 10)], 1, 10, 0);
    let (cut, _) = walk(&[(3, 3), (5, 7), (10, 10)], 1, 10, 5);
    assert_eq!(cut, vec![10, 7, 6, 5]);
    assert!(cut.len() < full.len());
    assert_eq!(&full[..cut.len()], &cut[..]);
}

#[test]
fn walk_respects_lower_bound() {
    let (h, _) = walk(&[(3, 3), (5, 7), (10, 10)], 6, 10, 0);
    assert_eq!(h, vec![10, 7, 6]);
}

#[test]
fn empty_range_asks_nothing() {
    let (h, asks) = walk(&[(1, 1)], 5, 4, 0);
    assert!(h.is_empty());
    assert_eq!(asks, 0);
}

#[test]
fn inconsistent_answer_ends_walk() {
    let mut w = HistoryWalk::new(1, 10);
    assert_eq!(w.next_revision(), Some(10));
    w.on_lookup(RevisionLookup::Found { create_revision: 12, mod_revision: 15 });
    assert!(w.is_finished());
    assert_eq!(w.next_revision(), None);
}

#[test]
fn missing_key_ends_walk_without_error() {
    let mut w = HistoryWalk::new(1, 10);
    w.on_lookup(RevisionLookup::Missing);
    assert!(w.is_finished());
    assert!(w.history().is_empty());
}
