//! The feed pager: pagination state for one feed subscription, threaded as an
//! explicit immutable query value from each page to the next.
//!
//! The pager never fetches. It says what request the next page needs
//! (`request_of`) and, given the fetched page, returns its posts and the
//! query for the page after it (`advance`). A page without a continuation
//! token ends the feed: a recoverable outcome, not an error.

use vstd::prelude::*;
use vstd::string::*;

verus! {

/// The ranking window a feed is ranked over.
#[derive(Clone, Copy, Debug, PartialEq, Eq, Structural)]
pub enum RankingWindow {
    Now,
    Today,
    ThisWeek,
    ThisMonth,
    ThisYear,
    AllTime,
}

/// One feed subscription's pagination state: the subject, the ranking
/// window, and the continuation token of the page to fetch next (absent on
/// the first page).
#[derive(Debug, Clone)]
pub struct FeedQuery {
    pub subject: String,
    pub window: RankingWindow,
    pub token: Option<String>,
}

impl FeedQuery {
    /// A query is well formed when its subject is non-empty.
    pub open spec fn wf(self) -> bool {
        self.subject@.len() > 0
    }

    /// The first-page query for a subject.
    pub fn new(subject: String, window: RankingWindow) -> (q: FeedQuery)
        requires
            subject@.len() > 0,
        ensures
            q == (FeedQuery { subject, window, token: None }),
            q.wf(),
    {
        FeedQuery { subject, window, token: None }
    }

    /// A fresh first-page query for the same subscription, used to start over
    /// after the feed ends.
    pub fn restarted(&self) -> (q: FeedQuery)
        ensures
            q == (FeedQuery { subject: self.subject, window: self.window, token: None }),
            self.wf() ==> q.wf(),
    {
        FeedQuery { subject: self.subject.clone(), window: self.window, token: None }
    }
}

/// One raw post descriptor; only the URL is consumed by the core.
#[derive(Debug, Clone)]
pub struct Post {
    pub url: Option<String>,
}

/// One fetched feed page: its posts in feed order and the trailing
/// continuation token, absent at the end of the feed.
#[derive(Debug, Clone)]
pub struct FeedPage {
    pub posts: Vec<Post>,
    pub after: Option<String>,
}

/// How many posts one page requests.
pub const PAGE_LIMIT: u32 = 25;

/// Everything a fetch of the next page needs.
#[derive(Debug, Clone)]
pub struct FeedRequest {
    pub subject: String,
    pub window: RankingWindow,
    pub token: Option<String>,
    pub limit: u32,
}

/// The request that fetches the page `q` stands before.
pub open spec fn spec_request_of(q: FeedQuery) -> FeedRequest {
    FeedRequest { subject: q.subject, window: q.window, token: q.token, limit: PAGE_LIMIT }
}

/// Builds the fetch request for the page `q` stands before.
pub fn request_of(q: &FeedQuery) -> (r: FeedRequest)
    requires
        q.wf(),
    ensures
        r == spec_request_of(*q),
{
    let token = match &q.token {
        Some(t) => Some(t.clone()),
        None => None,
    };
    FeedRequest { subject: q.subject.clone(), window: q.window, token, limit: PAGE_LIMIT }
}

/// What a consumed page leads to: the query of the following page, or the
/// end of the feed when the page carried no continuation token.
#[derive(Debug, Clone)]
pub enum PageEnd {
    NextQuery(FeedQuery),
    EndOfFeed,
}

/// The outcome after a page: token chaining on `Some`, end of feed on
/// `None`. The subject and the window never change.
pub open spec fn spec_next_query(q: FeedQuery, after: Option<String>) -> PageEnd {
    match after {
        Some(t) => PageEnd::NextQuery(
            FeedQuery { subject: q.subject, window: q.window, token: Some(t) },
        ),
        None => PageEnd::EndOfFeed,
    }
}

/// Consumes one fetched page: hands back its posts unchanged and in order,
/// and the pagination outcome — the next query carrying the page's token, or
/// the end of the feed when the token is absent.
pub fn advance(q: &FeedQuery, page: FeedPage) -> (r: (Vec<Post>, PageEnd))
    requires
        q.wf(),
    ensures
        r.0 == page.posts,
        r.1 == spec_next_query(*q, page.after),
        r.1 matches PageEnd::NextQuery(nq) ==> nq.wf(),
{
    let FeedPage { posts, after } = page;
    let outcome = match after {
        Some(t) => PageEnd::NextQuery(
            FeedQuery { subject: q.subject.clone(), window: q.window, token: Some(t) },
        ),
        None => PageEnd::EndOfFeed,
    };
    (posts, outcome)
}

/// Token chaining: the request for the page after a page that returned token
/// `t` carries exactly `t`, with the subject and the window unchanged.
pub proof fn lemma_token_chaining(q: FeedQuery, t: String)
    ensures
        spec_next_query(q, Some(t)) matches PageEnd::NextQuery(nq) && spec_request_of(nq).token
            == Some(t) && nq.subject == q.subject && nq.window == q.window,
{
}

} // verus!
