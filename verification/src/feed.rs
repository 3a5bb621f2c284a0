//! The per-feed pipeline: parse the feed document, then decide per item whether
//! to fetch it, and commit the record once a fetch succeeded.
use vstd::prelude::*;
use vstd::set::axiom_set_insert_len;

use crate::FetchedItem;
use crate::config::FeedConfig;
use crate::filter::should_download;
use crate::filter::spec_should_download;
use crate::store::SavedState;
use crate::store::StoreError;

verus! {

/// One entry of a feed document: its title and its link, either possibly absent.
pub struct RssItem {
    pub title: Option<String>,
    pub link: Option<String>,
}

/// What parsing a text as a feed document yields: `None` when the text is not a
/// well-formed feed, otherwise its items' titles and links in document order.
/// A function of the text alone.
pub uninterp spec fn rss_items(s: Seq<char>) -> Option<Seq<RssItem>>;

/// Relies on rss::Channel::read_from: whether a feed document parses, and its
/// items' titles and links, depend on the text alone.
#[verifier::external_body]
fn channel_items(text: &str) -> (r: Option<Vec<RssItem>>)
    ensures
        r is Some <==> rss_items(text@) is Some,
        r matches Some(v) ==> rss_items(text@) == Some(v@),
{
    match rss::Channel::read_from(text.as_bytes()) {
        Ok(channel) => Some(
            channel.into_items().into_iter().map(
                |i| RssItem { title: i.title, link: i.link },
            ).collect(),
        ),
        Err(_) => None,
    }
}

/// Why one feed's poll cycle was abandoned.
#[derive(Clone, Copy, Debug, PartialEq, Eq, Structural)]
pub enum FeedError {
    /// The feed endpoint answered with a non-success status.
    BadStatus,
    /// The feed document did not parse.
    ParseFailed,
}

/// A response status that carries a feed document.
pub open spec fn is_success_status(status: u16) -> bool {
    200 <= status < 300
}

/// The items of a fetched feed document: a non-success response or an
/// unparseable body abandons the feed for this cycle.
pub fn feed_from_response(status: u16, body: &str) -> (r: Result<Vec<RssItem>, FeedError>)
    ensures
        match r {
            Ok(items) => is_success_status(status) && rss_items(body@) == Some(items@),
            Err(e) => (e == FeedError::BadStatus && !is_success_status(status)) || (e
                == FeedError::ParseFailed && is_success_status(status) && rss_items(body@) is None),
        },
{
    if !(200 <= status && status < 300) {
        return Err(FeedError::BadStatus);
    }
    match channel_items(body) {
        Some(items) => Ok(items),
        None => Err(FeedError::ParseFailed),
    }
}

/// What the orchestrator decided for one item of a feed.
#[derive(Debug)]
pub enum ItemDecision {
    /// The item has no title: skipped.
    NoTitle,
    /// The title fails the feed's filter policy: skipped.
    Filtered,
    /// The title passes but the item has no link: skipped as an upstream defect.
    NoLink,
    /// The item's URL was recorded before: skipped, never fetched twice.
    AlreadySeen,
    /// The item is to be fetched, then committed once the fetch succeeded.
    Fetch(FetchedItem),
}

impl SavedState {
    /// Runs one item through the filter gate and the dedup gate, without
    /// changing the store. An item whose title passes the policy, that has a
    /// link, and whose URL is not yet recorded, is always handed out as
    /// `Fetch`; when the dedup lookup itself fails, the item counts as not yet
    /// fetched rather than being lost.
    pub fn evaluate_item(&mut self, feed: &FeedConfig, item: &RssItem) -> (r: ItemDecision)
        ensures
            final(self)@ == old(self)@,
            (match r {
                ItemDecision::NoTitle => item.title is None,
                ItemDecision::Filtered => {
                    &&& item.title matches Some(t)
                    &&& !spec_should_download(feed@, t@)
                },
                ItemDecision::NoLink => {
                    &&& item.title matches Some(t)
                    &&& spec_should_download(feed@, t@)
                    &&& item.link is None
                },
                ItemDecision::AlreadySeen => {
                    &&& item.title matches Some(t)
                    &&& spec_should_download(feed@, t@)
                    &&& item.link matches Some(u)
                    &&& old(self)@.contains(u@)
                },
                ItemDecision::Fetch(fi) => {
                    &&& item.title matches Some(t)
                    &&& spec_should_download(feed@, t@)
                    &&& item.link matches Some(u)
                    &&& fi.name@ == t@
                    &&& fi.url@ == u@
                },
            }),
            ({
                &&& item.title matches Some(t)
                &&& spec_should_download(feed@, t@)
                &&& item.link matches Some(u)
                &&& !old(self)@.contains(u@)
            }) ==> r is Fetch,
    {
        let title = match &item.title {
            Some(t) => t,
            None => {
                return ItemDecision::NoTitle;
            },
        };
        if !should_download(title.as_str(), feed) {
            return ItemDecision::Filtered;
        }
        let link = match &item.link {
            Some(u) => u,
            None => {
                return ItemDecision::NoLink;
            },
        };
        let fetched = FetchedItem { name: title.clone(), url: link.clone() };
        match self.fetched_before(&fetched) {
            Ok(true) => ItemDecision::AlreadySeen,
            Ok(false) => ItemDecision::Fetch(fetched),
            Err(_) => {
                // A failed lookup counts as not yet fetched, at the price of a
                // possible duplicate download, rather than losing the item.
                ItemDecision::Fetch(fetched)
            },
        }
    }

    /// Commits the outcome of one fetch: a successful download records exactly
    /// the item's URL; a failed one records nothing, so a later cycle retries it.
    pub fn commit_fetch(&mut self, item: &FetchedItem, downloaded: bool) -> (r: Result<
        (),
        StoreError,
    >)
        ensures
            downloaded && r is Ok ==> final(self)@ == old(self)@.insert(item.url@),
            !downloaded ==> r is Ok && final(self)@ == old(self)@,
            r is Err ==> final(self)@ == old(self)@,
    {
        if downloaded {
            self.save(item)
        } else {
            Ok(())
        }
    }
}

/// Law: an item whose URL was never seen and whose title passes the policy is
/// fetched, and committing that fetch grows the store by exactly that one URL.
pub proof fn lemma_new_match_fetched_once(urls: Set<Seq<char>>, url: Seq<char>)
    requires
        urls.finite(),
        !urls.contains(url),
    ensures
        urls.insert(url) == urls.union(set![url]),
        urls.insert(url).len() == urls.len() + 1,
        urls.insert(url).contains(url),
{
    assert(urls.insert(url) =~= urls.union(set![url]));
    axiom_set_insert_len(urls, url);
}

} // verus!
