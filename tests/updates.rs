use std::collections::HashMap;
use tfb_updates::messages::{Messages, Severity};
use tfb_updates::updates::{classify_updates, count_updated_rows, Updates, UpdatesVerdict};

fn updates() -> Updates<()> {
    Updates { concurrency_levels: vec![8, 16, 32], database_verifier: () }
}

fn snapshot(rows: &[(i32, &[u8])]) -> HashMap<i32, Vec<u8>> {
    rows.iter().map(|(k, v)| (*k, v.to_vec())).collect()
}

fn rank(v: UpdatesVerdict) -> u32 {
    match v {
        UpdatesVerdict::NoUpdates => 0,
        UpdatesVerdict::TooFewUpdates => 1,
        UpdatesVerdict::PossiblyTooFewUpdates => 2,
        UpdatesVerdict::Enough => 3,
    }
}

#[test]
fn count_check_passes_when_delta_reaches_expected() {
    let mut m = Messages::new("http://host/updates?queries=");
    updates().verify_updates_count(100, 100 + 1280, 1280, &mut m);
    assert_eq!(m.len(), 0);
    updates().verify_updates_count(100, 100 + 5000, 1280, &mut m);
    assert_eq!(m.len(), 0);
}

#[test]
fn count_check_reports_too_few_rows() {
    let mut m = Messages::new("u");
    updates().verify_updates_count(100, 100 + 1279, 1280, &mut m);
    assert_eq!(m.len(), 1);
    assert_eq!(m.entries[0].severity, Severity::Error);
    assert_eq!(m.entries[0].label, "Too Few Rows");
    assert_eq!(
        m.entries[0].text,
        "Only 1279 executed rows updated in the database out of roughly 1280 expected."
    );
}

#[test]
fn count_check_uses_distance_between_readings() {
    let mut m = Messages::new("u");
    updates().verify_updates_count(2000, 500, 1280, &mut m);
    assert_eq!(m.len(), 0);
    updates().verify_updates_count(500, 400, 1280, &mut m);
    assert_eq!(m.len(), 1);
    assert_eq!(
        m.entries[0].text,
        "Only 100 executed rows updated in the database out of roughly 1280 expected."
    );
}

#[test]
fn classify_tiers_at_boundaries() {
    assert_eq!(classify_updates(0, 100), UpdatesVerdict::NoUpdates);
    assert_eq!(classify_updates(1, 100), UpdatesVerdict::TooFewUpdates);
    assert_eq!(classify_updates(90, 100), UpdatesVerdict::TooFewUpdates);
    assert_eq!(classify_updates(91, 100), UpdatesVerdict::PossiblyTooFewUpdates);
    assert_eq!(classify_updates(95, 100), UpdatesVerdict::PossiblyTooFewUpdates);
    assert_eq!(classify_updates(96, 100), UpdatesVerdict::Enough);
    assert_eq!(classify_updates(64, 64), UpdatesVerdict::Enough);
    // floor(0.9 * 64) = 57, floor(0.95 * 64) = 60
    assert_eq!(classify_updates(57, 64), UpdatesVerdict::TooFewUpdates);
    assert_eq!(classify_updates(58, 64), UpdatesVerdict::PossiblyTooFewUpdates);
    assert_eq!(classify_updates(60, 64), UpdatesVerdict::PossiblyTooFewUpdates);
    assert_eq!(classify_updates(61, 64), UpdatesVerdict::Enough);
    assert_eq!(classify_updates(1, 1), UpdatesVerdict::Enough);
    assert_eq!(classify_updates(0, 0), UpdatesVerdict::NoUpdates);
    assert_eq!(classify_updates(u64::MAX, u64::MAX), UpdatesVerdict::Enough);
}

#[test]
fn classify_is_monotonic_in_updates() {
    for expected in [1u64, 7, 20, 64, 100, 1280] {
        let mut last = 0;
        for u in 0..=expected + 5 {
            let r = rank(classify_updates(u, expected));
            assert!(r >= last);
            last = r;
        }
    }
}

fn changed_snapshots(n: i32, changed: i32) -> (HashMap<i32, Vec<u8>>, HashMap<i32, Vec<u8>>) {
    let mut before = HashMap::new();
    let mut after = HashMap::new();
    for id in 0..n {
        before.insert(id, vec![1, (id % 200) as u8]);
        let v = if id < changed { vec![2, (id % 200) as u8] } else { vec![1, (id % 200) as u8] };
        after.insert(id, v);
    }
    (before, after)
}

#[test]
fn verify_updates_reports_each_tier() {
    // concurrency 50, repetitions 2: 100 updates expected
    let cases: [(i32, Option<(Severity, &str, &str)>); 5] = [
        (0, Some((Severity::Error, "No Updates", "No items were updated in the database."))),
        (
            90,
            Some((
                Severity::Error,
                "Too Few Updates",
                "Only 90 items were updated in the database out of roughly 100 expected.",
            )),
        ),
        (
            91,
            Some((
                Severity::Warning,
                "Too Few Updates",
                "There may have been an error updating the database. Only 91 items were updated in the database out of the roughly 100 expected.",
            )),
        ),
        (
            95,
            Some((
                Severity::Warning,
                "Too Few Updates",
                "There may have been an error updating the database. Only 95 items were updated in the database out of the roughly 100 expected.",
            )),
        ),
        (96, None),
    ];
    for (changed, expected) in cases {
        let (before, after) = changed_snapshots(200, changed);
        let mut m = Messages::new("u");
        updates().verify_updates(&before, &after, 50, 2, &mut m);
        match expected {
            None => assert_eq!(m.len(), 0),
            Some((severity, label, text)) => {
                assert_eq!(m.len(), 1);
                assert_eq!(m.entries[0].severity, severity);
                assert_eq!(m.entries[0].label, label);
                assert_eq!(m.entries[0].text, text);
            }
        }
    }
}

#[test]
fn identical_snapshots_give_exactly_no_updates() {
    let (before, _) = changed_snapshots(50, 0);
    let after = before.clone();
    let mut m = Messages::new("u");
    updates().verify_updates(&before, &after, 32, 2, &mut m);
    assert_eq!(m.len(), 1);
    assert_eq!(m.entries[0].severity, Severity::Error);
    assert_eq!(m.entries[0].label, "No Updates");
    assert_eq!(m.entries[0].text, "No items were updated in the database.");
}

#[test]
fn counts_only_rows_in_both_snapshots_below_row_count() {
    let before = snapshot(&[(0, b"a"), (1, b"b"), (2, b"c"), (3, b"d"), (7, b"e")]);
    let after = snapshot(&[(0, b"A"), (1, b"b"), (3, b"D"), (4, b"x"), (7, b"E")]);
    // identifiers 0..5: 0 changed, 1 same, 2 missing after, 3 changed, 4 missing before;
    // 7 lies outside the range and is not counted
    assert_eq!(count_updated_rows(&before, &after), 2);
    let empty: HashMap<i32, Vec<u8>> = HashMap::new();
    assert_eq!(count_updated_rows(&empty, &after), 0);
    let longer = snapshot(&[(0, b"a"), (1, b"bb")]);
    let shorter = snapshot(&[(0, b"a"), (1, b"b")]);
    assert_eq!(count_updated_rows(&longer, &shorter), 1);
}

#[test]
fn messages_keep_order_and_capture() {
    let mut m = Messages::new("http://h/");
    assert_eq!(m.url, "http://h/");
    m.error("first".to_string(), "A");
    m.warning("second".to_string(), "B");
    m.headers(vec![("content-type".to_string(), "application/json".to_string())]);
    m.body("[]".to_string());
    assert_eq!(m.len(), 2);
    assert_eq!(m.entries[0].severity, Severity::Error);
    assert_eq!(m.entries[1].severity, Severity::Warning);
    assert_eq!(m.entries[1].text, "second");
    assert_eq!(m.entries[1].label, "B");
    assert_eq!(m.response_headers.len(), 1);
    assert_eq!(m.response_body, "[]");
}
