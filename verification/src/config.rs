//! Configuration: per-feed filter settings and process-wide settings, loaded
//! from a structured document with per-feed partial failure.
use vstd::prelude::*;

use crate::doc::DocValue;
use crate::doc::entries_of;
use crate::doc::parse_document;
use crate::doc::tbl_get;
use crate::doc::toml_doc;
use crate::doc::value_get;
use crate::patterns::valid_pattern;
use crate::patterns::pattern_compiles;
use crate::text::join_path;
use crate::text::spec_join_path;
use crate::text::str_eq;

verus! {

/// The default poll interval: twelve hours, in seconds.
pub const DEFAULT_REFRESH_SECS: u64 = 43200;

/// The largest positive minute count whose value in seconds still fits in u64.
pub const MAX_REFRESH_MINS: i64 = 307445734561825860;

/// A fatal error while loading the configuration document.
#[derive(Clone, Copy, Debug, PartialEq, Eq, Structural)]
pub enum ConfigError {
    /// The document is not well-formed.
    ParseError,
    /// The document has no `feeds` table.
    MissingFeeds,
    /// The document has no `download_dir` string.
    MissingDownloadDir,
}

impl ConfigError {
    /// The human-readable description of this error.
    pub fn message(&self) -> (r: &'static str)
        ensures
            *self == ConfigError::ParseError ==> r@ == "Error parsing config file"@,
            *self == ConfigError::MissingFeeds ==> r@ == "Feed list not found"@,
            *self == ConfigError::MissingDownloadDir ==> r@
                == "Download directory must be specified"@,
    {
        match self {
            ConfigError::ParseError => "Error parsing config file",
            ConfigError::MissingFeeds => "Feed list not found",
            ConfigError::MissingDownloadDir => "Download directory must be specified",
        }
    }
}

/// Why one feed entry of the `feeds` table was rejected and skipped.
#[derive(Clone, Copy, Debug, PartialEq, Eq, Structural)]
pub enum FeedEntryError {
    /// The entry has no `feedurl` string.
    MissingFeedUrl,
}

/// A logging verbosity level named by the configuration document.
#[derive(Clone, Copy, Debug, PartialEq, Eq, Structural)]
pub enum LogLevel {
    Error,
    Info,
    Debug,
    Trace,
}

/// One monitored feed: its name, endpoint, and title-filter policy.
pub struct FeedConfig {
    /// Unique, stable identifier of the feed.
    pub name: String,
    /// The feed endpoint.
    pub url: String,
    /// If present, a title must match this pattern to proceed.
    pub global_include_filter: Option<String>,
    /// If present and matching a title, the title is rejected.
    pub global_exclude_filter: Option<String>,
    /// A title matching any one of these patterns triggers download.
    pub download_filter: Vec<String>,
}

/// The mathematical content of a `FeedConfig`.
#[verifier::ext_equal]
pub struct FeedModel {
    pub name: Seq<char>,
    pub url: Seq<char>,
    pub accept: Option<Seq<char>>,
    pub exclude: Option<Seq<char>>,
    pub triggers: Seq<Seq<char>>,
}

impl View for FeedConfig {
    type V = FeedModel;

    open spec fn view(&self) -> FeedModel {
        FeedModel {
            name: self.name@,
            url: self.url@,
            accept: match self.global_include_filter {
                Some(p) => Some(p@),
                None => None,
            },
            exclude: match self.global_exclude_filter {
                Some(p) => Some(p@),
                None => None,
            },
            triggers: self.download_filter.deep_view(),
        }
    }
}

/// An optional single filter: the value under the key, when it is a string
/// whose pattern compiles; anything else means no filter.
pub open spec fn spec_opt_pattern(entries: Seq<(String, DocValue)>, key: Seq<char>) -> Option<
    Seq<char>,
> {
    match tbl_get(entries, key) {
        Some(DocValue::Text(p)) => if valid_pattern(p@) {
            Some(p@)
        } else {
            None
        },
        _ => None,
    }
}

/// The trigger patterns of a list value: its string elements whose patterns
/// compile, in order; other elements are skipped.
pub open spec fn spec_trigger_list(vs: Seq<DocValue>) -> Seq<Seq<char>>
    decreases vs.len(),
{
    if vs.len() == 0 {
        Seq::empty()
    } else {
        let rest = spec_trigger_list(vs.drop_last());
        match vs.last() {
            DocValue::Text(t) => if valid_pattern(t@) {
                rest.push(t@)
            } else {
                rest
            },
            _ => rest,
        }
    }
}

/// The trigger patterns under `download_regex_list`: empty unless the value is
/// a list.
pub open spec fn spec_triggers(v: Option<DocValue>) -> Seq<Seq<char>> {
    match v {
        Some(DocValue::List(vs)) => spec_trigger_list(vs@),
        _ => Seq::empty(),
    }
}

/// The feed a table entry describes: `None` exactly when the entry has no
/// `feedurl` string, in which case the entry is skipped.
pub open spec fn spec_feed(name: Seq<char>, v: DocValue) -> Option<FeedModel> {
    let entries = entries_of(v);
    match tbl_get(entries, "feedurl"@) {
        Some(DocValue::Text(u)) => Some(
            FeedModel {
                name: name,
                url: u@,
                accept: spec_opt_pattern(entries, "feed_regex"@),
                exclude: spec_opt_pattern(entries, "feed_skip_regex"@),
                triggers: spec_triggers(tbl_get(entries, "download_regex_list"@)),
            },
        ),
        _ => None,
    }
}

impl FeedConfig {
    /// Builds one feed's configuration from its entry in the `feeds` table.
    /// Fails exactly when the entry has no `feedurl` string; a non-string or
    /// uncompilable single filter means no filter, and non-string or
    /// uncompilable trigger patterns are skipped.
    pub fn new(name: &str, values: &DocValue) -> (r: Result<FeedConfig, FeedEntryError>)
        ensures
            match spec_feed(name@, *values) {
                Some(m) => r matches Ok(f) && f@ == m,
                None => r == Err::<FeedConfig, FeedEntryError>(FeedEntryError::MissingFeedUrl),
            },
    {
        let url: String = match value_get(values, "feedurl") {
            Some(DocValue::Text(u)) => u.clone(),
            _ => {
                return Err(FeedEntryError::MissingFeedUrl);
            },
        };
        let accept: Option<String> = match value_get(values, "feed_regex") {
            Some(DocValue::Text(p)) => if pattern_compiles(p.as_str()) {
                Some(p.clone())
            } else {
                None
            },
            _ => None,
        };
        let exclude: Option<String> = match value_get(values, "feed_skip_regex") {
            Some(DocValue::Text(p)) => if pattern_compiles(p.as_str()) {
                Some(p.clone())
            } else {
                None
            },
            _ => None,
        };
        let mut triggers: Vec<String> = Vec::new();
        match value_get(values, "download_regex_list") {
            Some(DocValue::List(vs)) => {
                let mut i: usize = 0;
                proof {
                    assert(vs@.take(0) =~= Seq::<DocValue>::empty());
                    assert(triggers.deep_view() =~= spec_trigger_list(vs@.take(0)));
                }
                while i < vs.len()
                    invariant
                        i <= vs@.len(),
                        triggers.deep_view() == spec_trigger_list(vs@.take(i as int)),
                    decreases vs@.len() - i,
                {
                    let ghost pre = triggers.deep_view();
                    match &vs[i] {
                        DocValue::Text(t) => {
                            if pattern_compiles(t.as_str()) {
                                triggers.push(t.clone());
                                proof {
                                    assert(triggers.deep_view() =~= pre.push(t@));
                                }
                            }
                        },
                        _ => {},
                    }
                    proof {
                        assert(vs@.take(i + 1).drop_last() =~= vs@.take(i as int));
                        assert(vs@.take(i + 1).last() == vs@[i as int]);
                    }
                    i = i + 1;
                }
                proof {
                    assert(vs@.take(vs@.len() as int) =~= vs@);
                }
            },
            _ => {},
        }
        let f = FeedConfig {
            name: name.to_owned(),
            url: url,
            global_include_filter: accept,
            global_exclude_filter: exclude,
            download_filter: triggers,
        };
        proof {
            let m = spec_feed(name@, *values)->Some_0;
            assert(f@ =~= m);
        }
        Ok(f)
    }
}

/// Process-wide settings, immutable once loaded.
pub struct Config {
    /// Destination root for downloaded items.
    pub global_download_dir: String,
    /// Seconds between poll cycles.
    pub refresh_interval_secs: u64,
    /// The monitored feeds; their order is the polling order.
    pub feeds: Vec<FeedConfig>,
    /// Where the log file goes, when a log directory is configured.
    pub log_file_path: Option<String>,
    /// Verbosity of the log file.
    pub log_level_file: Option<LogLevel>,
    /// Verbosity of the standard-output log.
    pub log_level_stdout: Option<LogLevel>,
}

/// The mathematical content of a `Config`.
#[verifier::ext_equal]
pub struct ConfigModel {
    pub download_dir: Seq<char>,
    pub refresh_secs: u64,
    pub feeds: Seq<FeedModel>,
    pub log_file: Option<Seq<char>>,
    pub level_file: Option<LogLevel>,
    pub level_stdout: Option<LogLevel>,
}

/// The models of a sequence of feed configurations.
pub open spec fn feeds_view(s: Seq<FeedConfig>) -> Seq<FeedModel> {
    s.map_values(|f: FeedConfig| f@)
}

impl View for Config {
    type V = ConfigModel;

    open spec fn view(&self) -> ConfigModel {
        ConfigModel {
            download_dir: self.global_download_dir@,
            refresh_secs: self.refresh_interval_secs,
            feeds: feeds_view(self.feeds@),
            log_file: match self.log_file_path {
                Some(p) => Some(p@),
                None => None,
            },
            level_file: self.log_level_file,
            level_stdout: self.log_level_stdout,
        }
    }
}

/// The feeds of the `feeds` table, in order, skipping entries without a
/// `feedurl` string: the partial-failure policy of the loader.
pub open spec fn spec_feeds(fs: Seq<(String, DocValue)>) -> Seq<FeedModel>
    decreases fs.len(),
{
    if fs.len() == 0 {
        Seq::empty()
    } else {
        let rest = spec_feeds(fs.drop_last());
        match spec_feed(fs.last().0@, fs.last().1) {
            Some(m) => rest.push(m),
            None => rest,
        }
    }
}

/// Law: one bad feed entry is never fatal; an entry that describes no feed (no
/// `feedurl` string) contributes nothing, and the loaded feeds are exactly
/// those of the table without it.
pub proof fn lemma_bad_feed_entry_skipped(fs: Seq<(String, DocValue)>, i: int)
    requires
        0 <= i < fs.len(),
        spec_feed(fs[i].0@, fs[i].1) is None,
    ensures
        spec_feeds(fs) == spec_feeds(fs.remove(i)),
    decreases fs.len(),
{
    if i == fs.len() - 1 {
        assert(fs.remove(i) =~= fs.drop_last());
    } else {
        let d = fs.drop_last();
        assert(d[i] == fs[i]);
        lemma_bad_feed_entry_skipped(d, i);
        assert(fs.remove(i).drop_last() =~= d.remove(i));
        assert(fs.remove(i).last() == fs.last());
        assert(fs.remove(i).len() != 0);
    }
}

/// The poll interval in seconds: a positive `refresh_interval_mins` integer
/// overrides the default; zero, negative, missing or non-integer values keep
/// the default. A value too large for u64 seconds saturates.
pub open spec fn spec_refresh(v: Option<DocValue>) -> u64 {
    match v {
        Some(DocValue::Int(m)) => if 0 < m {
            if m <= MAX_REFRESH_MINS {
                (m * 60) as u64
            } else {
                u64::MAX
            }
        } else {
            DEFAULT_REFRESH_SECS
        },
        _ => DEFAULT_REFRESH_SECS,
    }
}

/// The log file path: the configured `log_dir` string joined with `rss.log`.
pub open spec fn spec_log_path(v: Option<DocValue>) -> Option<Seq<char>> {
    match v {
        Some(DocValue::Text(d)) => Some(spec_join_path(d@, "rss.log"@)),
        _ => None,
    }
}

/// The level a name denotes, if any.
pub open spec fn spec_level_of(l: Seq<char>) -> Option<LogLevel> {
    if l == "Info"@ {
        Some(LogLevel::Info)
    } else if l == "Error"@ {
        Some(LogLevel::Error)
    } else if l == "Debug"@ {
        Some(LogLevel::Debug)
    } else if l == "Trace"@ {
        Some(LogLevel::Trace)
    } else {
        None
    }
}

/// The level configured under a key: the value must be a string naming a level.
pub open spec fn spec_level(v: Option<DocValue>) -> Option<LogLevel> {
    match v {
        Some(DocValue::Text(l)) => spec_level_of(l@),
        _ => None,
    }
}

/// What loading a parsed document yields: the `feeds` table is required, then a
/// `download_dir` string; each well-formed feed entry is kept and the rest are
/// skipped.
pub open spec fn spec_load(doc: DocValue) -> Result<ConfigModel, ConfigError> {
    let es = entries_of(doc);
    match tbl_get(es, "feeds"@) {
        Some(DocValue::Table(fs)) => match tbl_get(es, "download_dir"@) {
            Some(DocValue::Text(dd)) => Ok(
                ConfigModel {
                    download_dir: dd@,
                    refresh_secs: spec_refresh(tbl_get(es, "refresh_interval_mins"@)),
                    feeds: spec_feeds(fs@),
                    log_file: spec_log_path(tbl_get(es, "log_dir"@)),
                    level_file: spec_level(tbl_get(es, "log_level_file"@)),
                    level_stdout: spec_level(tbl_get(es, "log_level_stdout"@)),
                },
            ),
            _ => Err(ConfigError::MissingDownloadDir),
        },
        _ => Err(ConfigError::MissingFeeds),
    }
}

impl Config {
    /// Builds the configuration from a parsed document, per `spec_load`:
    /// feed entries without a `feedurl` are skipped, never fatal.
    pub fn from_document(doc: &DocValue) -> (r: Result<Config, ConfigError>)
        ensures
            match spec_load(*doc) {
                Ok(m) => r matches Ok(c) && c@ == m,
                Err(e) => r == Err::<Config, ConfigError>(e),
            },
    {
        let feeds_entries: &Vec<(String, DocValue)> = match value_get(doc, "feeds") {
            Some(DocValue::Table(fs)) => fs,
            _ => {
                return Err(ConfigError::MissingFeeds);
            },
        };
        let mut feeds: Vec<FeedConfig> = Vec::new();
        let mut i: usize = 0;
        proof {
            assert(feeds_entries@.take(0) =~= Seq::<(String, DocValue)>::empty());
            assert(feeds_view(feeds@) =~= spec_feeds(feeds_entries@.take(0)));
        }
        while i < feeds_entries.len()
            invariant
                i <= feeds_entries@.len(),
                feeds_view(feeds@) == spec_feeds(feeds_entries@.take(i as int)),
            decreases feeds_entries@.len() - i,
        {
            let ghost pre = feeds_view(feeds@);
            let entry = &feeds_entries[i];
            match FeedConfig::new(entry.0.as_str(), &entry.1) {
                Ok(f) => {
                    let ghost fm = f@;
                    feeds.push(f);
                    proof {
                        assert(feeds_view(feeds@) =~= pre.push(fm));
                    }
                },
                Err(_) => {
                    // The entry is malformed: skipped, the rest of the load goes on.
                },
            }
            proof {
                assert(feeds_entries@.take(i + 1).drop_last() =~= feeds_entries@.take(i as int));
                assert(feeds_entries@.take(i + 1).last() == feeds_entries@[i as int]);
            }
            i = i + 1;
        }
        proof {
            assert(feeds_entries@.take(feeds_entries@.len() as int) =~= feeds_entries@);
        }
        let download_dir: String = match value_get(doc, "download_dir") {
            Some(DocValue::Text(d)) => d.clone(),
            _ => {
                return Err(ConfigError::MissingDownloadDir);
            },
        };
        let refresh_interval_secs: u64 = match value_get(doc, "refresh_interval_mins") {
            Some(DocValue::Int(m)) => {
                let mins = *m;
                if 0 < mins {
                    if mins <= MAX_REFRESH_MINS {
                        (mins as u64) * 60
                    } else {
                        u64::MAX
                    }
                } else {
                    DEFAULT_REFRESH_SECS
                }
            },
            _ => DEFAULT_REFRESH_SECS,
        };
        let log_file_path: Option<String> = match value_get(doc, "log_dir") {
            Some(DocValue::Text(d)) => Some(join_path(d.as_str(), "rss.log")),
            _ => None,
        };
        let log_level_stdout: Option<LogLevel> = match value_get(doc, "log_level_stdout") {
            Some(DocValue::Text(l)) => Config::convert_string_to_levelfilter(l.as_str()),
            _ => None,
        };
        let log_level_file: Option<LogLevel> = match value_get(doc, "log_level_file") {
            Some(DocValue::Text(l)) => Config::convert_string_to_levelfilter(l.as_str()),
            _ => None,
        };
        let c = Config {
            global_download_dir: download_dir,
            refresh_interval_secs: refresh_interval_secs,
            feeds: feeds,
            log_file_path: log_file_path,
            log_level_file: log_level_file,
            log_level_stdout: log_level_stdout,
        };
        proof {
            let m = spec_load(*doc)->Ok_0;
            assert(c@ =~= m);
        }
        Ok(c)
    }

    /// Loads the configuration from document text: a text that does not parse
    /// is `ParseError`; otherwise the load proceeds per `spec_load`.
    pub fn construct_from_string(properties: &str) -> (r: Result<Config, ConfigError>)
        ensures
            match toml_doc(properties@) {
                None => r == Err::<Config, ConfigError>(ConfigError::ParseError),
                Some(d) => match spec_load(d) {
                    Ok(m) => r matches Ok(c) && c@ == m,
                    Err(e) => r == Err::<Config, ConfigError>(e),
                },
            },
    {
        match parse_document(properties) {
            Some(doc) => Config::from_document(&doc),
            None => Err(ConfigError::ParseError),
        }
    }

    /// The level a name denotes, if any.
    fn convert_string_to_levelfilter(level: &str) -> (r: Option<LogLevel>)
        ensures
            r == spec_level_of(level@),
    {
        if str_eq(level, "Info") {
            Some(LogLevel::Info)
        } else if str_eq(level, "Error") {
            Some(LogLevel::Error)
        } else if str_eq(level, "Debug") {
            Some(LogLevel::Debug)
        } else if str_eq(level, "Trace") {
            Some(LogLevel::Trace)
        } else {
            None
        }
    }
}

} // verus!
