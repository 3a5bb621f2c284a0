use rssdownloader_rs::FetchedItem;
use rssdownloader_rs::SavedState;

fn item(name: &str, url: &str) -> FetchedItem {
    FetchedItem { name: name.to_string(), url: url.to_string() }
}

#[test]
fn record_then_seen_reports_true() {
    let mut store = SavedState::open_in_memory().unwrap();
    let first = item("Episode 1", "https://example.com/ep1");

    assert_eq!(false, store.fetched_before(&first).unwrap());
    store.save(&first).unwrap();
    assert_eq!(true, store.fetched_before(&first).unwrap());
}

#[test]
fn never_recorded_url_is_never_seen() {
    let mut store = SavedState::open_in_memory().unwrap();
    let recorded = item("Episode 1", "https://example.com/ep1");
    let unrecorded = item("Episode 2", "https://example.com/ep2");

    store.save(&recorded).unwrap();
    assert_eq!(true, store.fetched_before(&recorded).unwrap());
    assert_eq!(false, store.fetched_before(&unrecorded).unwrap());
}

#[test]
fn lookups_are_keyed_by_url_not_name() {
    let mut store = SavedState::open_in_memory().unwrap();
    let first = item("Same Name", "https://example.com/a");
    let second = item("Same Name", "https://example.com/b");

    store.save(&first).unwrap();
    assert_eq!(true, store.fetched_before(&first).unwrap());
    assert_eq!(false, store.fetched_before(&second).unwrap());
}
