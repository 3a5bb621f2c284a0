//! The filter engine: a title passes a feed's three-stage policy exactly when
//! the include gate, the exclude gate, and the trigger set all agree.
use vstd::prelude::*;

use crate::config::FeedConfig;
use crate::config::FeedModel;
use crate::patterns::matches_text;
use crate::patterns::pattern_matches;

verus! {

/// Whether a title should be downloaded under a feed's policy: when the include
/// filter is set the title must match it; when the exclude filter is set the
/// title must not match it; and some trigger pattern must match the title.
pub open spec fn spec_should_download(feed: FeedModel, title: Seq<char>) -> bool {
    &&& match feed.accept {
        Some(p) => matches_text(p, title),
        None => true,
    }
    &&& match feed.exclude {
        Some(p) => !matches_text(p, title),
        None => true,
    }
    &&& exists|i: int| 0 <= i < feed.triggers.len() && matches_text(feed.triggers[i], title)
}

/// Decides whether a title should be downloaded under a feed's policy, in the
/// fixed order: include gate first, then exclude gate, then the triggers.
pub fn should_download(title: &str, feed: &FeedConfig) -> (r: bool)
    ensures
        r == spec_should_download(feed@, title@),
{
    match &feed.global_include_filter {
        Some(p) => {
            if !pattern_matches(p.as_str(), title) {
                return false;
            }
        },
        None => {},
    }
    match &feed.global_exclude_filter {
        Some(p) => {
            if pattern_matches(p.as_str(), title) {
                return false;
            }
        },
        None => {},
    }
    let mut i: usize = 0;
    while i < feed.download_filter.len()
        invariant
            i <= feed.download_filter@.len(),
            feed@.triggers == feed.download_filter.deep_view(),
            forall|j: int| 0 <= j < i ==> !matches_text(feed@.triggers[j], title@),
            match feed@.accept {
                Some(p) => matches_text(p, title@),
                None => true,
            },
            match feed@.exclude {
                Some(p) => !matches_text(p, title@),
                None => true,
            },
        decreases feed.download_filter@.len() - i,
    {
        if pattern_matches(feed.download_filter[i].as_str(), title) {
            proof {
                assert(feed@.triggers[i as int] == feed.download_filter@[i as int]@);
                assert(matches_text(feed@.triggers[i as int], title@));
            }
            return true;
        }
        proof {
            assert(feed@.triggers[i as int] == feed.download_filter@[i as int]@);
        }
        i = i + 1;
    }
    false
}

/// Law: the decision is a pure function of the title and the feed's policy;
/// the same title and policy always yield the same decision.
pub proof fn lemma_decision_deterministic(a: FeedModel, b: FeedModel, ta: Seq<char>, tb: Seq<char>)
    requires
        a == b,
        ta == tb,
    ensures
        spec_should_download(a, ta) == spec_should_download(b, tb),
{
}

/// Law: a title failing the include filter is rejected, regardless of the
/// triggers and of the exclude filter.
pub proof fn lemma_include_gate_rejects(feed: FeedModel, title: Seq<char>)
    requires
        feed.accept matches Some(p) && !matches_text(p, title),
    ensures
        !spec_should_download(feed, title),
{
}

/// Law: a title matching the exclude filter is rejected, even when it also
/// matches a trigger and the include filter.
pub proof fn lemma_exclude_gate_rejects(feed: FeedModel, title: Seq<char>)
    requires
        feed.exclude matches Some(p) && matches_text(p, title),
    ensures
        !spec_should_download(feed, title),
{
}

/// Law: without a matching trigger nothing is downloaded, whatever the two
/// gates say.
pub proof fn lemma_no_trigger_no_download(feed: FeedModel, title: Seq<char>)
    requires
        forall|i: int| 0 <= i < feed.triggers.len() ==> !matches_text(feed.triggers[i], title),
    ensures
        !spec_should_download(feed, title),
{
}

} // verus!
