use rssdownloader_rs::Config;
use rssdownloader_rs::FeedConfig;
use rssdownloader_rs::FeedError;
use rssdownloader_rs::ItemDecision;
use rssdownloader_rs::RssItem;
use rssdownloader_rs::SavedState;
use rssdownloader_rs::feed_from_response;

fn feed_with_trigger(trigger: &str) -> FeedConfig {
    FeedConfig {
        name: "test".to_string(),
        url: "https://example.com/feed.xml".to_string(),
        global_include_filter: None,
        global_exclude_filter: None,
        download_filter: vec![trigger.to_string()],
    }
}

fn rss_item(title: Option<&str>, link: Option<&str>) -> RssItem {
    RssItem { title: title.map(String::from), link: link.map(String::from) }
}

#[test]
fn new_matching_item_is_fetched_and_recorded_once() {
    let feed = feed_with_trigger(".");
    let mut store = SavedState::open_in_memory().unwrap();
    let item = rss_item(Some("Great Show E01"), Some("https://example.com/ep1"));

    let fetched = match store.evaluate_item(&feed, &item) {
        ItemDecision::Fetch(fi) => fi,
        other => panic!("expected a fetch decision, got {:?}", other),
    };
    assert_eq!("Great Show E01", fetched.name);
    assert_eq!("https://example.com/ep1", fetched.url);

    store.commit_fetch(&fetched, true).unwrap();
    assert_eq!(true, store.fetched_before(&fetched).unwrap());

    match store.evaluate_item(&feed, &item) {
        ItemDecision::AlreadySeen => {},
        other => panic!("expected the item to be seen, got {:?}", other),
    }
}

#[test]
fn failed_download_is_not_recorded_and_retried() {
    let feed = feed_with_trigger(".");
    let mut store = SavedState::open_in_memory().unwrap();
    let item = rss_item(Some("Great Show E02"), Some("https://example.com/ep2"));

    let fetched = match store.evaluate_item(&feed, &item) {
        ItemDecision::Fetch(fi) => fi,
        other => panic!("expected a fetch decision, got {:?}", other),
    };
    store.commit_fetch(&fetched, false).unwrap();
    assert_eq!(false, store.fetched_before(&fetched).unwrap());

    match store.evaluate_item(&feed, &item) {
        ItemDecision::Fetch(_) => {},
        other => panic!("expected a retry, got {:?}", other),
    }
}

#[test]
fn items_without_title_or_link_are_skipped() {
    let feed = feed_with_trigger(".");
    let mut store = SavedState::open_in_memory().unwrap();

    match store.evaluate_item(&feed, &rss_item(None, Some("https://example.com/x"))) {
        ItemDecision::NoTitle => {},
        other => panic!("expected no-title, got {:?}", other),
    }
    match store.evaluate_item(&feed, &rss_item(Some("Matching"), None)) {
        ItemDecision::NoLink => {},
        other => panic!("expected no-link, got {:?}", other),
    }
}

#[test]
fn filtered_item_is_not_looked_up() {
    let feed = feed_with_trigger("E1[0-9]");
    let mut store = SavedState::open_in_memory().unwrap();

    match store.evaluate_item(&feed, &rss_item(Some("Show E05"), Some("https://example.com/e5"))) {
        ItemDecision::Filtered => {},
        other => panic!("expected filtered, got {:?}", other),
    }
}

#[test]
fn feed_document_is_parsed_into_items() {
    let xml = "<rss version=\"2.0\"><channel>\
        <title>Channel</title><link>https://example.com</link><description>d</description>\
        <item><title>Item One</title><link>https://example.com/1</link></item>\
        <item><title>Item Two</title></item>\
        </channel></rss>";
    let items = feed_from_response(200, xml).unwrap();
    assert_eq!(2, items.len());
    assert_eq!(Some("Item One".to_string()), items[0].title);
    assert_eq!(Some("https://example.com/1".to_string()), items[0].link);
    assert_eq!(Some("Item Two".to_string()), items[1].title);
    assert_eq!(None, items[1].link);
}

#[test]
fn non_success_status_abandons_the_feed() {
    assert_eq!(Err(FeedError::BadStatus), feed_from_response(404, "<rss></rss>").map(|_| ()));
    assert_eq!(Err(FeedError::BadStatus), feed_from_response(500, "").map(|_| ()));
}

#[test]
fn one_cycle_processes_a_feed_end_to_end() {
    let config_text = "
        download_dir=\"/tmp/d\"

        [feeds]
          [feeds.shows]
          feedurl=\"https://example.com/feed.xml\"
          feed_skip_regex=\"720p\"
          download_regex_list = ['E0[0-9]']
        ";
    let config = Config::construct_from_string(config_text).unwrap();
    assert_eq!(1, config.feeds.len());
    let feed = &config.feeds[0];

    let xml = "<rss version=\"2.0\"><channel>\
        <title>Channel</title><link>https://example.com</link><description>d</description>\
        <item><title>Show E01 1080p</title><link>https://example.com/1</link></item>\
        <item><title>Show E02 720p</title><link>https://example.com/2</link></item>\
        <item><title>Show Special</title><link>https://example.com/3</link></item>\
        </channel></rss>";
    let items = feed_from_response(200, xml).unwrap();
    let mut store = SavedState::open_in_memory().unwrap();

    let mut fetched: Vec<String> = Vec::new();
    for item in &items {
        if let ItemDecision::Fetch(fi) = store.evaluate_item(feed, item) {
            fetched.push(fi.url.clone());
            store.commit_fetch(&fi, true).unwrap();
        }
    }
    assert_eq!(vec!["https://example.com/1".to_string()], fetched);

    let mut second_cycle_fetches = 0;
    for item in &items {
        if let ItemDecision::Fetch(_) = store.evaluate_item(feed, item) {
            second_cycle_fetches += 1;
        }
    }
    assert_eq!(0, second_cycle_fetches);
}

#[test]
fn unparseable_feed_document_is_an_error() {
    assert_eq!(
        Err(FeedError::ParseFailed),
        feed_from_response(200, "this is no feed document").map(|_| ())
    );
}
