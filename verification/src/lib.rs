//! Polls RSS feeds, filters item titles against per-feed patterns, downloads
//! matching items exactly once, and keeps a durable record of what was fetched.
use vstd::prelude::*;

pub mod config;
pub mod doc;
pub mod download;
pub mod feed;
pub mod filter;
pub mod patterns;
pub mod store;
pub mod text;

pub use config::Config;
pub use config::ConfigError;
pub use config::FeedConfig;
pub use config::FeedEntryError;
pub use config::LogLevel;
pub use doc::DocValue;
pub use doc::parse_document;
pub use download::WritePlan;
pub use download::derive_filename;
pub use download::download_destination;
pub use download::plan_write;
pub use feed::FeedError;
pub use feed::ItemDecision;
pub use feed::RssItem;
pub use feed::feed_from_response;
pub use filter::should_download;
pub use store::SavedState;
pub use store::StoreError;

verus! {

/// One candidate download: an item's title and its link.
#[derive(Clone, Debug)]
pub struct FetchedItem {
    pub name: String,
    pub url: String,
}

} // verus!
