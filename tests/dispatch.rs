use things_rss::{
    articles_from_items, message_for, Action, Article, Dispatch, Event, Exit, FeedItem, Phase,
    SeenStore, Site, StoreError, MAX_MAILS,
};

struct Outcome {
    exit: Exit,
    notified: Vec<(String, String)>,
    fetched: Vec<String>,
}

fn site(title: &str, url: &str) -> Site {
    Site::new(title.to_string(), url.to_string())
}

fn article(title: &str, url: &str) -> Article {
    Article::new(title.to_string(), url.to_string())
}

/// Runs the machine against an in-memory store and feeds; the notifier fails
/// on send number `fail_on` (counting from one), if any.
fn drive(
    sites: Vec<Site>,
    feeds: &Vec<(String, Vec<(String, String)>)>,
    store: &mut SeenStore,
    fail_on: Option<usize>,
) -> Outcome {
    let mut d = Dispatch::new(sites);
    let mut notified = Vec::new();
    let mut fetched = Vec::new();
    let mut attempts = 0;
    loop {
        let event = match d.action() {
            Action::Fetch { url, .. } => {
                fetched.push(url.clone());
                match feeds.iter().find(|(u, _)| *u == url) {
                    Some((_, items)) => Event::Fetched(
                        items.iter().map(|(t, l)| article(t, l)).collect(),
                    ),
                    None => Event::FetchFailed,
                }
            }
            Action::Check { url } => Event::Checked(store.is_recorded(&url)),
            Action::Notify { message } => {
                attempts += 1;
                if Some(attempts) == fail_on {
                    Event::SendFailed
                } else {
                    notified.push((message.subject, message.body));
                    Event::Sent
                }
            }
            Action::Record { site, url } => match store.record(&site, &url) {
                Ok(()) => Event::Recorded,
                Err(_) => Event::RecordFailed,
            },
            Action::Exit(exit) => {
                return Outcome { exit, notified, fetched };
            }
        };
        d.step(event);
    }
}

fn feed(url: &str, n: usize, prefix: &str) -> (String, Vec<(String, String)>) {
    let items = (0..n)
        .map(|i| (format!("{} {}", prefix, i), format!("{}/{}", url, i)))
        .collect();
    (url.to_string(), items)
}

#[test]
fn rerun_over_unchanged_feeds_sends_nothing() {
    let feeds = vec![feed("http://a", 3, "a"), feed("http://b", 2, "b")];
    let sites = || vec![site("A", "http://a"), site("B", "http://b")];
    let mut store = SeenStore::new();
    let first = drive(sites(), &feeds, &mut store, None);
    assert_eq!(first.exit, Exit::Completed);
    assert_eq!(first.notified.len(), 5);
    assert_eq!(store.len(), 5);
    let second = drive(sites(), &feeds, &mut store, None);
    assert_eq!(second.exit, Exit::Completed);
    assert_eq!(second.notified.len(), 0);
    assert_eq!(store.len(), 5);
}

#[test]
fn cap_stops_the_run_after_one_hundred_sends() {
    let feeds = vec![
        feed("http://a", 60, "a"),
        feed("http://b", 50, "b"),
        feed("http://c", 40, "c"),
    ];
    let sites = vec![site("A", "http://a"), site("B", "http://b"), site("C", "http://c")];
    let mut store = SeenStore::new();
    let out = drive(sites, &feeds, &mut store, None);
    assert_eq!(MAX_MAILS, 100);
    assert_eq!(out.notified.len(), 100);
    assert_eq!(store.len(), 100);
    assert_eq!(out.exit, Exit::CapReached);
    assert_eq!(out.exit.exit_code(), 0);
    assert_eq!(out.fetched, vec!["http://a".to_string(), "http://b".to_string()]);
    assert_eq!(out.notified[99].1, "http://b/39");
}

#[test]
fn exactly_one_hundred_new_articles_complete_the_run() {
    let feeds = vec![feed("http://a", 100, "a")];
    let mut store = SeenStore::new();
    let out = drive(vec![site("A", "http://a")], &feeds, &mut store, None);
    assert_eq!(out.notified.len(), 100);
    assert_eq!(out.exit, Exit::Completed);
}

#[test]
fn duplicate_url_is_refused() {
    let mut store = SeenStore::new();
    assert!(!store.is_recorded("http://a/1"));
    assert_eq!(store.record("A", "http://a/1"), Ok(()));
    assert!(store.is_recorded("http://a/1"));
    assert_eq!(store.record("B", "http://a/1"), Err(StoreError::DuplicateKey));
    assert_eq!(store.len(), 1);
    assert_eq!(store.record("B", "http://a/2"), Ok(()));
    assert_eq!(store.len(), 2);
}

#[test]
fn repeated_link_in_one_feed_is_notified_once() {
    let feeds = vec![(
        "http://a".to_string(),
        vec![
            ("one".to_string(), "http://a/x".to_string()),
            ("again".to_string(), "http://a/x".to_string()),
        ],
    )];
    let mut store = SeenStore::new();
    let out = drive(vec![site("A", "http://a")], &feeds, &mut store, None);
    assert_eq!(out.notified, vec![("A: one".to_string(), "http://a/x".to_string())]);
    assert_eq!(store.len(), 1);
}

#[test]
fn malformed_items_are_dropped() {
    let items = vec![
        FeedItem::new(Some("t1".to_string()), Some("http://x/1".to_string())),
        FeedItem::new(None, Some("http://x/2".to_string())),
        FeedItem::new(Some("t3".to_string()), None),
        FeedItem::new(None, None),
        FeedItem::new(Some("t5".to_string()), Some("http://x/5".to_string())),
    ];
    let arts = articles_from_items(&items);
    assert_eq!(arts.len(), 2);
    assert_eq!(arts[0].title, "t1");
    assert_eq!(arts[0].url, "http://x/1");
    assert_eq!(arts[1].title, "t5");
    assert_eq!(arts[1].url, "http://x/5");
    assert!(items[1].to_article().is_none());
    assert!(articles_from_items(&Vec::new()).is_empty());
}

#[test]
fn first_site_is_done_before_second() {
    let feeds = vec![feed("http://a", 2, "a"), feed("http://b", 2, "b")];
    let sites = vec![site("A", "http://a"), site("B", "http://b")];
    let mut store = SeenStore::new();
    store.record("B", "http://b/0").unwrap();
    let out = drive(sites, &feeds, &mut store, None);
    let subjects: Vec<&str> = out.notified.iter().map(|(s, _)| s.as_str()).collect();
    assert_eq!(subjects, vec!["A: a 0", "A: a 1", "B: b 1"]);
}

#[test]
fn send_failure_on_third_article_is_fatal() {
    let feeds = vec![feed("http://a", 5, "a")];
    let mut store = SeenStore::new();
    let out = drive(vec![site("A", "http://a")], &feeds, &mut store, Some(3));
    assert_eq!(out.notified.len(), 2);
    assert_eq!(store.len(), 2);
    assert_eq!(out.exit, Exit::NotifyFailed);
    assert_ne!(out.exit.exit_code(), 0);
    assert!(!store.is_recorded("http://a/2"));
    let again = drive(vec![site("A", "http://a")], &feeds, &mut store, None);
    let urls: Vec<&str> = again.notified.iter().map(|(_, b)| b.as_str()).collect();
    assert_eq!(urls, vec!["http://a/2", "http://a/3", "http://a/4"]);
}

#[test]
fn failure_later_in_run_stops_further_sites() {
    let feeds = vec![feed("http://a", 2, "a"), feed("http://b", 2, "b")];
    let sites = vec![site("A", "http://a"), site("B", "http://b")];
    let mut store = SeenStore::new();
    let out = drive(sites, &feeds, &mut store, Some(1));
    assert_eq!(out.exit, Exit::NotifyFailed);
    assert_eq!(out.fetched, vec!["http://a".to_string()]);
    assert_eq!(store.len(), 0);
}

#[test]
fn fetch_failure_ends_the_run() {
    let feeds = vec![feed("http://a", 1, "a")];
    let sites = vec![site("A", "http://a"), site("B", "http://missing")];
    let mut store = SeenStore::new();
    let out = drive(sites, &feeds, &mut store, None);
    assert_eq!(out.exit, Exit::FetchFailed);
    assert_eq!(out.exit.exit_code(), 1);
    assert_eq!(out.notified.len(), 1);
}

#[test]
fn store_failures_end_the_run() {
    let mut d = Dispatch::new(vec![site("A", "http://a")]);
    d.step(Event::Fetched(vec![article("t", "http://a/1")]));
    assert_eq!(d.phase(), Phase::Check);
    d.step(Event::CheckFailed);
    assert_eq!(d.exit(), Some(Exit::StoreFailed));

    let mut d = Dispatch::new(vec![site("A", "http://a")]);
    d.step(Event::Fetched(vec![article("t", "http://a/1")]));
    d.step(Event::Checked(false));
    assert_eq!(d.phase(), Phase::Send);
    d.step(Event::Sent);
    assert_eq!(d.sent(), 1);
    assert_eq!(d.phase(), Phase::Record);
    match d.action() {
        Action::Record { site, url } => {
            assert_eq!(site, "A");
            assert_eq!(url, "http://a/1");
        }
        _ => panic!("expected a record action"),
    }
    d.step(Event::RecordFailed);
    assert_eq!(d.exit(), Some(Exit::StoreFailed));
}

#[test]
fn no_sites_completes_at_once() {
    let d = Dispatch::new(Vec::new());
    assert_eq!(d.exit(), Some(Exit::Completed));
    assert!(matches!(d.action(), Action::Exit(Exit::Completed)));
}

#[test]
fn unexpected_event_changes_nothing() {
    let mut d = Dispatch::new(vec![site("A", "http://a")]);
    d.step(Event::Sent);
    assert_eq!(d.phase(), Phase::Fetch);
    assert_eq!(d.sent(), 0);
}

#[test]
fn message_names_site_and_article() {
    let m = message_for(&site("Blog", "http://blog"), &article("Hello", "http://blog/hello"));
    assert_eq!(m.subject, "Blog: Hello");
    assert_eq!(m.body, "http://blog/hello");
}
