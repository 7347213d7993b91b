use reddit_browser::pager::{
    advance, request_of, FeedPage, FeedQuery, PageEnd, Post, RankingWindow, PAGE_LIMIT,
};

fn page(urls: &[&str], after: Option<&str>) -> FeedPage {
    FeedPage {
        posts: urls
            .iter()
            .map(|u| Post {
                url: Some((*u).to_string()),
            })
            .collect(),
        after: after.map(|t| t.to_string()),
    }
}

fn next_query(outcome: PageEnd) -> FeedQuery {
    match outcome {
        PageEnd::NextQuery(q) => q,
        PageEnd::EndOfFeed => panic!("expected a next query, got end of feed"),
    }
}

#[test]
fn three_pages_chain_their_tokens() {
    let q0 = FeedQuery::new("demo".to_string(), RankingWindow::ThisYear);
    let r0 = request_of(&q0);
    assert_eq!(r0.token, None);
    assert_eq!(r0.subject, "demo");
    assert_eq!(r0.limit, PAGE_LIMIT);

    let (_, outcome1) = advance(&q0, page(&[], Some("token1")));
    let q1 = next_query(outcome1);
    let r1 = request_of(&q1);
    assert_eq!(r1.token, Some("token1".to_string()));
    assert_eq!(r1.subject, "demo");

    let (_, outcome2) = advance(&q1, page(&[], Some("token2")));
    let q2 = next_query(outcome2);
    let r2 = request_of(&q2);
    assert_eq!(r2.token, Some("token2".to_string()));
    assert_eq!(r2.subject, "demo");
}

#[test]
fn post_order_within_a_page_is_preserved() {
    let q = FeedQuery::new("demo".to_string(), RankingWindow::ThisYear);
    let (posts, _) = advance(&q, page(&["u1", "u2", "u3"], Some("t")));
    let urls: Vec<String> = posts.into_iter().map(|p| p.url.unwrap()).collect();
    assert_eq!(
        urls,
        vec!["u1".to_string(), "u2".to_string(), "u3".to_string()]
    );
}

#[test]
fn missing_token_is_end_of_feed_not_a_crash() {
    let q = FeedQuery::new("demo".to_string(), RankingWindow::ThisYear);
    let (posts, outcome) = advance(&q, page(&["u1"], None));
    assert_eq!(posts.len(), 1);
    assert!(matches!(outcome, PageEnd::EndOfFeed));
}

#[test]
fn restart_drops_the_token_and_keeps_the_subscription() {
    let q0 = FeedQuery::new("demo".to_string(), RankingWindow::ThisYear);
    let (_, outcome) = advance(&q0, page(&[], Some("token1")));
    let q1 = next_query(outcome);
    let fresh = q1.restarted();
    assert_eq!(fresh.subject, "demo");
    assert!(matches!(fresh.window, RankingWindow::ThisYear));
    assert_eq!(fresh.token, None);
}
