use zeptodo::domain::api_key::{self, ExpiryChoice, DAY_MICROS};
use zeptodo::domain::task::{self, Status, StoredSlot};

#[test]
fn expiry_choice_round_trips_through_str() {
    for c in [
        ExpiryChoice::Days30,
        ExpiryChoice::Days90,
        ExpiryChoice::Days180,
        ExpiryChoice::Year1,
        ExpiryChoice::Never,
    ] {
        assert_eq!(ExpiryChoice::parse(c.as_str()).unwrap(), c);
    }
    assert!(ExpiryChoice::parse("nope").is_err());
}

#[test]
fn status_round_trips_through_each_variant() {
    for s in [Status::Todo, Status::InProgress, Status::Done, Status::Cancelled] {
        assert_eq!(Status::parse(s.as_str()).unwrap(), s);
    }
    assert_eq!(Status::parse("DONE").unwrap_err().value, "DONE");
}

#[test]
fn hash_is_deterministic_and_hex() {
    let h1 = api_key::hash("hello");
    let h2 = api_key::hash("hello");
    assert_eq!(h1, h2);
    assert_eq!(h1.len(), 64);
    assert!(h1.chars().all(|c| c.is_ascii_hexdigit()));
    assert_ne!(api_key::hash("hello"), api_key::hash("world"));
}

#[test]
fn hash_matches_known_sha256() {
    assert_eq!(
        api_key::hash("hello"),
        "2cf24dba5fb0a30e26e83b2ac5b9e29e1b161e5c1fa7425e73043362938b9824"
    );
}

#[test]
fn to_expires_at_adds_whole_days() {
    let now = 1_700_000_000_000_000i64;
    assert_eq!(ExpiryChoice::Days30.to_expires_at(now), Some(now + 30 * DAY_MICROS));
    assert_eq!(ExpiryChoice::Year1.to_expires_at(now), Some(now + 365 * DAY_MICROS));
    assert_eq!(ExpiryChoice::Never.to_expires_at(now), None);
}

#[test]
fn prepared_key_stores_hash_and_prefix_of_its_plaintext() {
    let k = api_key::prepare(0, Some("ci runner".to_string()), ExpiryChoice::Days30);
    assert_eq!(k.key_hash, api_key::hash(&k.plaintext));
    assert_eq!(k.key_prefix, k.plaintext.chars().take(8).collect::<String>());
    assert_eq!(k.description.as_deref(), Some("ci runner"));
    assert_eq!(k.expires_at, Some(30 * DAY_MICROS));
    assert_eq!(k.plaintext.len(), 43);
    let never = api_key::prepare(0, None, ExpiryChoice::Never);
    assert!(never.expires_at.is_none());
    assert_ne!(k.plaintext, never.plaintext);
}

#[test]
fn key_prefix_of_short_text_is_whole_text() {
    assert_eq!(api_key::key_prefix("abc"), "abc");
    assert_eq!(api_key::key_prefix("abcdefghij"), "abcdefgh");
}

fn slot(position: i64, status: &str) -> Option<StoredSlot> {
    Some(StoredSlot { position, status: status.to_string() })
}

#[test]
fn reorder_rewrites_visible_ids_only() {
    // a=1, b=2 (done), c=3, d=4; request d, a, c
    let plan = task::reorder(&[4, 1, 3], &[slot(4, "todo"), slot(1, "todo"), slot(3, "todo")]).unwrap();
    assert_eq!(plan.rewritten(), 3);
    assert_eq!(plan.ids, vec![4, 1, 3]);
    assert_eq!(plan.positions, vec![1, 3, 4]);
    assert_eq!(plan.parking, vec![-1, -2, -3]);
}

#[test]
fn reorder_ignores_unknown_ids() {
    // a at 1, b at 2; request b, 9999, a
    let plan = task::reorder(&[2, 9999, 1], &[slot(2, "todo"), None, slot(1, "todo")]).unwrap();
    assert_eq!(plan.rewritten(), 2);
    assert_eq!(plan.ids, vec![2, 1]);
    assert_eq!(plan.positions, vec![1, 2]);
}

#[test]
fn reorder_skips_terminal_rows() {
    // a at 1 (todo), b at 2 (done), c at 3 (cancelled); request c, b, a
    let plan = task::reorder(&[3, 2, 1], &[slot(3, "cancelled"), slot(2, "done"), slot(1, "todo")]).unwrap();
    assert_eq!(plan.rewritten(), 1);
    assert_eq!(plan.ids, vec![1]);
    assert_eq!(plan.positions, vec![1]);
}

#[test]
fn reorder_keeps_position_uniqueness() {
    // a at 1, b at 2, c at 3; request c, b, a
    let plan = task::reorder(&[3, 2, 1], &[slot(3, "todo"), slot(2, "todo"), slot(1, "todo")]).unwrap();
    let mut positions = plan.positions.clone();
    positions.sort_unstable();
    positions.dedup();
    assert_eq!(positions.len(), 3);
    let mut parking = plan.parking.clone();
    parking.sort_unstable();
    parking.dedup();
    assert_eq!(parking.len(), 3);
    assert!(plan.parking.iter().all(|p| *p < 0));
}

#[test]
fn create_assigns_increasing_positions() {
    let a = task::next_position(0);
    let b = task::next_position(a);
    let c = task::next_position(b);
    assert_eq!((a, b, c), (1, 2, 3));
    assert_eq!(task::initial_status(), Status::Todo);
}

#[test]
fn list_filters_by_status_set() {
    assert_eq!(task::visible_statuses(false), vec![Status::Todo, Status::InProgress]);
    assert_eq!(
        task::visible_statuses(true),
        vec![Status::Todo, Status::InProgress, Status::Done, Status::Cancelled]
    );
    assert_eq!(
        task::list_query(&[Status::Done]).unwrap(),
        "SELECT id, title, description, status, position, created_at, updated_at FROM tasks WHERE status IN (?) ORDER BY position ASC"
    );
    assert!(task::list_query(&[]).is_none());
}

#[test]
fn create_persists_hash_only() {
    let created = api_key::prepare(0, Some("ci runner".to_owned()), ExpiryChoice::Days30);
    assert_eq!(created.key_hash, api_key::hash(&created.plaintext));
    assert_eq!(created.key_prefix, created.plaintext.chars().take(8).collect::<String>());
    assert_eq!(created.description.as_deref(), Some("ci runner"));
    assert!(created.expires_at.is_some());
    assert!(created.plaintext.len() >= 32);
}

#[test]
fn create_never_expiration_is_null() {
    let created = api_key::prepare(0, None, ExpiryChoice::Never);
    assert!(created.expires_at.is_none());
}

#[test]
fn create_minted_plaintexts_are_unique() {
    let a = api_key::prepare(0, None, ExpiryChoice::Never);
    let b = api_key::prepare(0, None, ExpiryChoice::Never);
    assert_ne!(a.plaintext, b.plaintext);
    assert_ne!(a.key_hash, b.key_hash);
}

#[test]
fn update_expiry_switches_between_bounded_and_never() {
    let now = 1_700_000_000_000_000;
    assert!(ExpiryChoice::Never.to_expires_at(now).is_none());
    assert_eq!(ExpiryChoice::Year1.to_expires_at(now), Some(now + 365 * DAY_MICROS));
}

#[test]
fn reorder_of_nothing_rewrites_nothing() {
    let plan = task::reorder(&[], &[]).unwrap();
    assert_eq!(plan.rewritten(), 0);
}

#[test]
fn reorder_rejects_corrupt_stored_status() {
    let err = task::reorder(&[1, 2], &[slot(1, "done"), slot(2, "bogus")]).unwrap_err();
    assert_eq!(err.value, "bogus");
}

#[test]
fn list_query_has_one_marker_per_status() {
    assert!(task::list_query(&[]).is_none());
    assert_eq!(
        task::list_query(&[Status::Todo, Status::InProgress]).unwrap(),
        "SELECT id, title, description, status, position, created_at, updated_at FROM tasks WHERE status IN (?, ?) ORDER BY position ASC"
    );
    assert_eq!(task::visible_statuses(false), vec![Status::Todo, Status::InProgress]);
    assert_eq!(task::visible_statuses(true).len(), 4);
}

#[test]
fn next_position_follows_max() {
    assert_eq!(task::next_position(0), 1);
    assert_eq!(task::next_position(41), 42);
    assert_eq!(task::initial_status(), Status::Todo);
}

#[test]
fn task_from_row_decodes_status() {
    let t = task::Task::from_row(7, "t".into(), None, "in_progress", 3, 10, 11).unwrap();
    assert_eq!(t.status, Status::InProgress);
    assert_eq!(t.position, 3);
    assert!(task::Task::from_row(7, "t".into(), None, "later", 3, 10, 11).is_err());
}
