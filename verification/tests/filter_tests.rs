use rssdownloader_rs::FeedConfig;
use rssdownloader_rs::should_download;

fn feed(accept: Option<&str>, exclude: Option<&str>, triggers: &[&str]) -> FeedConfig {
    FeedConfig {
        name: "test".to_string(),
        url: "https://example.com/feed.xml".to_string(),
        global_include_filter: accept.map(String::from),
        global_exclude_filter: exclude.map(String::from),
        download_filter: triggers.iter().map(|s| s.to_string()).collect(),
    }
}

#[test]
fn decision_is_deterministic() {
    let f = feed(Some("Show"), Some("720p"), &["E0[0-9]"]);
    let first = should_download("Show E05 1080p", &f);
    let second = should_download("Show E05 1080p", &f);
    assert_eq!(first, second);
    assert!(first);

    let g = feed(Some("Show"), Some("720p"), &["E0[0-9]"]);
    assert_eq!(should_download("Show E05 1080p", &g), first);
}

#[test]
fn include_failure_rejects_despite_matching_trigger() {
    let f = feed(Some("^Alpha"), None, &["Beta"]);
    assert!(!should_download("Beta release", &f));
    assert!(should_download("Alpha Beta", &f));
}

#[test]
fn exclude_match_rejects_despite_matching_trigger() {
    let f = feed(None, Some("720p"), &["."]);
    assert!(!should_download("Show E05 720p", &f));
    assert!(should_download("Show E05 1080p", &f));
}

#[test]
fn no_trigger_match_rejects() {
    let f = feed(None, None, &["E1[0-9]"]);
    assert!(!should_download("Show E05", &f));
}

#[test]
fn empty_trigger_set_downloads_nothing() {
    let f = feed(None, None, &[]);
    assert!(!should_download("anything at all", &f));
}

#[test]
fn any_one_matching_trigger_suffices() {
    let f = feed(None, None, &["E1[0-9]", "Special"]);
    assert!(should_download("Show Special Edition", &f));
    assert!(should_download("Show E12", &f));
    assert!(!should_download("Show E05", &f));
}

#[test]
fn empty_title_matches_no_dot_trigger() {
    let f = feed(None, None, &["."]);
    assert!(!should_download("", &f));
}
