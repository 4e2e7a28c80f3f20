use evtxview::filter::FilterSet;
use evtxview::record::{Record, RecordStore};
use evtxview::table::EventTable;

fn rec(id: u64, user: Option<&str>) -> Record {
    Record::new(id, user.map(|u| u.to_string()), format!("event {}", id), 0)
}

fn view_of(t: &EventTable) -> Vec<usize> {
    (0..t.len()).map(|row| t.store_index(row)).collect()
}

fn table_with_ids(ids: &[u64]) -> EventTable {
    let mut t = EventTable::new();
    for &id in ids {
        t.append(rec(id, None));
    }
    t
}

#[test]
fn record_store_appends_in_order() {
    let mut s = RecordStore::new();
    assert_eq!(s.len(), 0);
    assert_eq!(s.append(rec(7, None)), 0);
    assert_eq!(s.append(rec(8, Some("bob"))), 1);
    assert_eq!(s.len(), 2);
    assert_eq!(s.get(0).event_id, 7);
    assert_eq!(s.get(1).user.as_deref(), Some("bob"));
}

#[test]
fn empty_filter_passes_everything() {
    let f = FilterSet::new();
    assert!(f.evaluate(&rec(1, None)));
    assert!(f.evaluate(&rec(99, Some("alice"))));
}

#[test]
fn excluded_value_never_passes() {
    let mut f = FilterSet::new();
    f.exclude_event_id(4624);
    assert!(!f.evaluate(&rec(4624, Some("alice"))));
    assert!(f.evaluate(&rec(4625, Some("alice"))));
    f.exclude_user(Some("alice".to_string()));
    assert!(!f.evaluate(&rec(4625, Some("alice"))));
    assert!(f.evaluate(&rec(4625, Some("bob"))));
}

#[test]
fn non_empty_include_set_rejects_other_values() {
    let mut f = FilterSet::new();
    f.include_event_id(1);
    assert!(f.evaluate(&rec(1, None)));
    assert!(!f.evaluate(&rec(2, None)));
    f.include_event_id(2);
    assert!(f.evaluate(&rec(2, None)));
    assert!(!f.evaluate(&rec(3, None)));
}

#[test]
fn absent_user_fails_a_user_include_set() {
    let mut f = FilterSet::new();
    f.include_user(Some("alice".to_string()));
    assert!(!f.evaluate(&rec(1, None)));
    assert!(f.evaluate(&rec(1, Some("alice"))));
}

#[test]
fn absent_user_is_excluded_only_by_the_absent_value() {
    let mut f = FilterSet::new();
    f.exclude_user(Some("alice".to_string()));
    assert!(f.evaluate(&rec(1, None)));
    f.exclude_user(None);
    assert!(!f.evaluate(&rec(1, None)));
    assert!(f.evaluate(&rec(1, Some("bob"))));
}

#[test]
fn exclude_then_include_moves_the_value() {
    let mut f = FilterSet::new();
    f.exclude_event_id(5);
    f.include_event_id(5);
    // 5 is now only included: it passes, and other identifiers do not.
    assert!(f.evaluate(&rec(5, None)));
    assert!(!f.evaluate(&rec(6, None)));
    f.exclude_event_id(5);
    // 5 is now only excluded: the include set is empty again.
    assert!(!f.evaluate(&rec(5, None)));
    assert!(f.evaluate(&rec(6, None)));
}

#[test]
fn include_then_exclude_user_moves_the_value() {
    let mut f = FilterSet::new();
    f.include_user(Some("alice".to_string()));
    f.exclude_user(Some("alice".to_string()));
    assert!(!f.evaluate(&rec(1, Some("alice"))));
    assert!(f.evaluate(&rec(1, Some("bob"))));
    f.include_user(Some("alice".to_string()));
    assert!(f.evaluate(&rec(1, Some("alice"))));
    assert!(!f.evaluate(&rec(1, Some("bob"))));
}

#[test]
fn reset_passes_everything_and_twice_is_once() {
    let mut f = FilterSet::new();
    f.exclude_event_id(1);
    f.include_event_id(2);
    f.exclude_user(None);
    f.include_user(Some("carol".to_string()));
    f.reset();
    let records = [rec(1, None), rec(2, Some("dave")), rec(3, Some("carol"))];
    for r in records.iter() {
        assert!(f.evaluate(r));
    }
    f.reset();
    for r in records.iter() {
        assert!(f.evaluate(r));
    }
}

#[test]
fn exclude_event_id_scenario_view() {
    let mut t = table_with_ids(&[1, 2, 1, 3, 2]);
    assert_eq!(view_of(&t), vec![0, 1, 2, 3, 4]);
    t.exclude_event_id(2);
    assert_eq!(view_of(&t), vec![0, 2, 3]);
    assert_eq!(t.record(2).event_id, 3);
    t.reset_filter();
    assert_eq!(view_of(&t), vec![0, 1, 2, 3, 4]);
}

#[test]
fn include_after_exclude_restricts_to_the_value() {
    let mut t = table_with_ids(&[1, 2, 1, 3, 2]);
    t.exclude_event_id(2);
    t.include_event_id(2);
    assert_eq!(view_of(&t), vec![1, 4]);
}

#[test]
fn appending_extends_view_in_order() {
    let mut t = table_with_ids(&[1, 2, 1]);
    t.exclude_event_id(2);
    let before = view_of(&t);
    assert_eq!(before, vec![0, 2]);
    assert_eq!(t.append(rec(2, None)), 3);
    assert_eq!(t.append(rec(5, None)), 4);
    assert_eq!(t.append(rec(1, None)), 5);
    let after = view_of(&t);
    assert_eq!(after, vec![0, 2, 4, 5]);
    assert_eq!(&after[..before.len()], &before[..]);
    assert_eq!(t.record_count(), 6);
}

#[test]
fn incremental_view_matches_full_rescan() {
    let mut t = EventTable::new();
    t.exclude_event_id(3);
    for &id in [3u64, 1, 3, 2, 4, 3].iter() {
        t.append(rec(id, None));
    }
    let incremental = view_of(&t);
    t.reset_filter();
    t.exclude_event_id(3);
    assert_eq!(view_of(&t), incremental);
    assert_eq!(incremental, vec![1, 3, 4]);
}

#[test]
fn content_of_rows() {
    let mut t = table_with_ids(&[10, 20]);
    assert_eq!(t.content(1).map(|s| s.as_str()), Some("event 20"));
    assert_eq!(t.content(2), None);
    t.exclude_event_id(10);
    assert_eq!(t.content(0).map(|s| s.as_str()), Some("event 20"));
    assert_eq!(t.content(1), None);
    assert!(!t.is_empty());
    t.include_event_id(30);
    assert!(t.is_empty());
}
