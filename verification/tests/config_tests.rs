use rssdownloader_rs::Config;
use rssdownloader_rs::ConfigError;
use rssdownloader_rs::LogLevel;

#[test]
fn invalid_config() {
    let mut result;

    result = Config::construct_from_string("jibberish");
    assert_eq!(result.err(), Some(ConfigError::ParseError));
    assert_eq!(ConfigError::ParseError.message(), "Error parsing config file");

    result = Config::construct_from_string("");
    assert_eq!(result.err(), Some(ConfigError::MissingFeeds));
    assert_eq!(ConfigError::MissingFeeds.message(), "Feed list not found");

    result = Config::construct_from_string("download_dir = \"/home/user/download\"\n\n");
    assert_eq!(result.err(), Some(ConfigError::MissingFeeds));
}

#[test]
fn config_is_parsed_correctly() {
    let valid_config = "
        download_dir=\"/tmp/rssdownload/\"
        refresh_interval_mins = 30
        log_dir=\"\"
        log_level_stdout=\"Debug\"

        [feeds]
          [feeds.feed_name]
          feedurl=\"https://example.com/feed.xml\"
          download_regex_list = [
            '.'
          ]
        ";

    let result = Config::construct_from_string(valid_config);
    assert!(result.is_ok());
    let parsed_config = result.unwrap();
    assert_eq!("/tmp/rssdownload/", parsed_config.global_download_dir);
    assert_eq!(30 * 60, parsed_config.refresh_interval_secs);
    assert!(parsed_config.log_file_path.is_some());
    assert_eq!(parsed_config.log_level_stdout, Some(LogLevel::Debug));
    assert_eq!(parsed_config.log_level_file, None);
    assert_eq!("rss.log", parsed_config.log_file_path.unwrap());
    assert_eq!(1, parsed_config.feeds.len());

    let parsed_feed = &parsed_config.feeds[0];
    assert_eq!("https://example.com/feed.xml", parsed_feed.url);
    assert_eq!(1, parsed_feed.download_filter.len())
}

#[test]
fn bad_feed_is_skipped_and_good_feed_kept() {
    let config_text = "
        download_dir=\"/tmp/rssdownload/\"

        [feeds]
          [feeds.broken]
          feed_regex=\"whatever\"

          [feeds.working]
          feedurl=\"https://example.com/feed.xml\"
          download_regex_list = ['.']
        ";
    let parsed = Config::construct_from_string(config_text).unwrap();
    assert_eq!(1, parsed.feeds.len());
    assert_eq!("working", parsed.feeds[0].name);
    assert_eq!("https://example.com/feed.xml", parsed.feeds[0].url);
}

#[test]
fn refresh_interval_and_trigger_scenario() {
    let config_text = "
        download_dir=\"/tmp/x\"
        refresh_interval_mins = 30

        [feeds]
          [feeds.one]
          feedurl=\"https://example.com/a.xml\"
          download_regex_list = ['.']
        ";
    let parsed = Config::construct_from_string(config_text).unwrap();
    assert_eq!("/tmp/x", parsed.global_download_dir);
    assert_eq!(30 * 60, parsed.refresh_interval_secs);
    assert_eq!(1, parsed.feeds.len());
    assert_eq!(1, parsed.feeds[0].download_filter.len());
}

#[test]
fn missing_feeds_and_parse_errors() {
    assert_eq!(Config::construct_from_string("").err(), Some(ConfigError::MissingFeeds));
    assert_eq!(
        Config::construct_from_string("download_dir = \"/tmp/d\"\n").err(),
        Some(ConfigError::MissingFeeds)
    );
    assert_eq!(
        Config::construct_from_string("not even = [ toml").err(),
        Some(ConfigError::ParseError)
    );
}

#[test]
fn feeds_value_that_is_no_table_is_missing_feeds() {
    let config_text = "
        download_dir=\"/tmp/d\"
        feeds = 3
        ";
    assert_eq!(
        Config::construct_from_string(config_text).err(),
        Some(ConfigError::MissingFeeds)
    );
}

#[test]
fn download_dir_must_be_a_string() {
    let config_text = "
        download_dir = 5

        [feeds]
          [feeds.one]
          feedurl=\"https://example.com/a.xml\"
        ";
    assert_eq!(
        Config::construct_from_string(config_text).err(),
        Some(ConfigError::MissingDownloadDir)
    );
    assert_eq!(
        ConfigError::MissingDownloadDir.message(),
        "Download directory must be specified"
    );
}

#[test]
fn nonpositive_refresh_interval_keeps_default() {
    let zero = "
        download_dir=\"/tmp/d\"
        refresh_interval_mins = 0

        [feeds]
          [feeds.one]
          feedurl=\"https://example.com/a.xml\"
        ";
    let negative = "
        download_dir=\"/tmp/d\"
        refresh_interval_mins = -5

        [feeds]
          [feeds.one]
          feedurl=\"https://example.com/a.xml\"
        ";
    assert_eq!(43200, Config::construct_from_string(zero).unwrap().refresh_interval_secs);
    assert_eq!(43200, Config::construct_from_string(negative).unwrap().refresh_interval_secs);
}

#[test]
fn malformed_patterns_never_abort_the_load() {
    let config_text = "
        download_dir=\"/tmp/d\"

        [feeds]
          [feeds.one]
          feedurl=\"https://example.com/a.xml\"
          feed_regex=\"(\"
          feed_skip_regex=\"[\"
          download_regex_list = ['(', 5, 'a.*']
        ";
    let parsed = Config::construct_from_string(config_text).unwrap();
    assert_eq!(1, parsed.feeds.len());
    let feed = &parsed.feeds[0];
    assert_eq!(None, feed.global_include_filter);
    assert_eq!(None, feed.global_exclude_filter);
    assert_eq!(vec!["a.*".to_string()], feed.download_filter);
}

#[test]
fn log_levels_are_parsed_by_name() {
    let config_text = "
        download_dir=\"/tmp/d\"
        log_level_stdout=\"Trace\"
        log_level_file=\"Nonsense\"

        [feeds]
          [feeds.one]
          feedurl=\"https://example.com/a.xml\"
        ";
    let parsed = Config::construct_from_string(config_text).unwrap();
    assert_eq!(Some(LogLevel::Trace), parsed.log_level_stdout);
    assert_eq!(None, parsed.log_level_file);
}

#[test]
fn log_dir_is_joined_with_log_file_name() {
    let config_text = "
        download_dir=\"/tmp/d\"
        log_dir=\"/var/log/rss\"

        [feeds]
          [feeds.one]
          feedurl=\"https://example.com/a.xml\"
        ";
    let parsed = Config::construct_from_string(config_text).unwrap();
    assert_eq!(Some("/var/log/rss/rss.log".to_string()), parsed.log_file_path);
}
