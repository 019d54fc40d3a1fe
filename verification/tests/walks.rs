use gasconade::errors::{ResolveError, UpstreamError};
use gasconade::protocol::{Action, Event};
use gasconade::resolver::ThreadResolver;
use gasconade::store::TweetStore;
use gasconade::tweet::{Author, Tweet};

fn author(id: i64, handle: &str) -> Author {
    Author {
        id,
        handle: handle.to_string(),
        display_name: format!("{} (name)", handle),
        avatar_url: format!("https://img.example/{}.png", handle),
    }
}

fn tweet(id: i64, by: &Author, parent: Option<(i64, i64)>) -> Tweet {
    Tweet {
        id,
        author: by.clone(),
        text: format!("tweet {}", id),
        parent_tweet_id: parent.map(|p| p.0),
        parent_author_id: parent.map(|p| p.1),
        rendered_content: String::new(),
    }
}

fn rendered(mut t: Tweet) -> Tweet {
    t.rendered_content = format!("<blockquote>{}</blockquote>", t.id);
    t
}

fn ids(thread: &[Tweet]) -> Vec<i64> {
    thread.iter().map(|t| t.id).collect()
}

/// A remote service that answers from tables, and counts what it was asked.
struct Remote {
    tweets: Vec<Tweet>,
    failures: Vec<(i64, UpstreamError)>,
    unrenderable: Vec<i64>,
    pages: Vec<(i64, Vec<Tweet>)>,
    fetched: Vec<i64>,
    rendered: Vec<i64>,
    searched: Vec<(String, i64)>,
}

impl Remote {
    fn new(tweets: Vec<Tweet>) -> Remote {
        Remote {
            tweets,
            failures: Vec::new(),
            unrenderable: Vec::new(),
            pages: Vec::new(),
            fetched: Vec::new(),
            rendered: Vec::new(),
            searched: Vec::new(),
        }
    }

    fn calls(&self) -> usize {
        self.fetched.len() + self.rendered.len() + self.searched.len()
    }

    fn answer(&mut self, action: Action) -> Event {
        match action {
            Action::FetchTweet { id } => {
                self.fetched.push(id);
                if let Some(at) = self.failures.iter().position(|f| f.0 == id) {
                    let f = &self.failures[at].1;
                    return Event::Fetched {
                        fetched: Err(UpstreamError {
                            code: f.code,
                            message: f.message.clone(),
                            client_error: f.client_error,
                        }),
                    };
                }
                match self.tweets.iter().find(|t| t.id == id) {
                    Some(t) => Event::Fetched { fetched: Ok(t.clone()) },
                    None => Event::Fetched {
                        fetched: Err(UpstreamError {
                            code: 144,
                            message: "No status found with that ID.".to_string(),
                            client_error: true,
                        }),
                    },
                }
            }
            Action::FetchRendered { handle: _, id } => {
                self.rendered.push(id);
                if self.unrenderable.contains(&id) {
                    Event::Rendered {
                        rendered: Err(UpstreamError {
                            code: 0,
                            message: "connection reset".to_string(),
                            client_error: false,
                        }),
                    }
                } else {
                    Event::Rendered { rendered: Ok(format!("<blockquote>{}</blockquote>", id)) }
                }
            }
            Action::SearchReplies { handle, since_id } => {
                self.searched.push((handle, since_id));
                let page = match self.pages.iter().find(|p| p.0 == since_id) {
                    Some(p) => p.1.clone(),
                    None => Vec::new(),
                };
                Event::Page { page: Ok(page) }
            }
            other => panic!("not a call to the remote service: {:?}", other),
        }
    }
}

struct Run {
    outcome: Result<Vec<Tweet>, ResolveError>,
    puts: usize,
    store_lookups: usize,
}

fn resolve(store: &mut TweetStore, remote: &mut Remote, handle: &str, id: i64, forward: bool) -> Run {
    let (mut resolver, mut action) = ThreadResolver::start(handle.to_string(), id, forward);
    let mut puts = 0;
    let mut store_lookups = 0;
    for _ in 0..10_000 {
        let event = match action {
            Action::Done { thread } => {
                assert!(resolver.is_finished());
                return Run { outcome: Ok(thread), puts, store_lookups };
            }
            Action::Fail { error } => {
                assert!(resolver.is_finished());
                return Run { outcome: Err(error), puts, store_lookups };
            }
            other => {
                assert!(!resolver.is_finished());
                if matches!(other, Action::PutTweet { .. }) {
                    puts += 1;
                }
                if matches!(other, Action::LookupTweet { .. } | Action::LookupReply { .. }) {
                    store_lookups += 1;
                }
                assert_ne!(other.asks_store(), other.asks_upstream());
                match store.serve(other) {
                    Ok(event) => event,
                    Err(back) => remote.answer(back),
                }
            }
        };
        let next = resolver.step(event);
        resolver = next.0;
        action = next.1;
    }
    panic!("the walk did not end");
}

#[test]
fn lone_tweet_is_fetched_and_stored() {
    let ann = author(1, "ann");
    let mut store = TweetStore::new();
    let mut remote = Remote::new(vec![tweet(100, &ann, None)]);
    let run = resolve(&mut store, &mut remote, "ann", 100, false);
    let thread = run.outcome.unwrap();
    assert_eq!(thread, vec![rendered(tweet(100, &ann, None))]);
    assert_eq!(store.get_tweet(100), Some(rendered(tweet(100, &ann, None))));
    assert_eq!(store.get_author(1), Some(author(1, "ann")));
    assert_eq!(remote.fetched, vec![100]);
    assert_eq!(remote.rendered, vec![100]);
    assert!(remote.searched.is_empty());
}

#[test]
fn self_thread_of_three_comes_root_first() {
    let ann = author(1, "ann");
    let mut store = TweetStore::new();
    let mut remote = Remote::new(vec![
        tweet(98, &ann, None),
        tweet(99, &ann, Some((98, 1))),
        tweet(100, &ann, Some((99, 1))),
    ]);
    let run = resolve(&mut store, &mut remote, "ann", 100, false);
    let thread = run.outcome.unwrap();
    assert_eq!(ids(&thread), vec![98, 99, 100]);
    assert_eq!(remote.fetched, vec![100, 99, 98]);
    assert_eq!(run.puts, 3);
    assert_eq!(store.tweet_count(), 3);
    assert_eq!(store.author_count(), 1);
    assert_eq!(thread[0].rendered_content, "<blockquote>98</blockquote>");
}

#[test]
fn missing_tweet_is_reported_and_nothing_is_stored() {
    let mut store = TweetStore::new();
    let mut remote = Remote::new(Vec::new());
    remote.failures.push((
        200,
        UpstreamError { code: 144, message: "No status found with that ID.".to_string(), client_error: true },
    ));
    let run = resolve(&mut store, &mut remote, "ann", 200, false);
    assert_eq!(run.outcome, Err(ResolveError::NoSuchTweet { id: 200 }));
    assert_eq!(store.get_tweet(200), None);
    assert_eq!(store.tweet_count(), 0);
    assert_eq!(store.author_count(), 0);
    assert_eq!(run.puts, 0);
}

#[test]
fn stored_reply_is_followed_without_a_search() {
    let ann = author(1, "ann");
    let mut store = TweetStore::new();
    store.put_tweet(rendered(tweet(100, &ann, None)));
    store.put_tweet(rendered(tweet(101, &ann, Some((100, 1)))));
    let mut remote = Remote::new(Vec::new());

    let (resolver, action) = ThreadResolver::start("ann".to_string(), 100, true);
    assert_eq!(action, Action::LookupTweet { id: 100 });
    let event = store.serve(action).unwrap();
    let (resolver, action) = resolver.step(event);
    assert_eq!(action, Action::LookupReply { parent_id: 100 });
    let event = store.serve(action).unwrap();
    assert_eq!(event, Event::Tweet { tweet: Some(rendered(tweet(101, &ann, Some((100, 1))))) });
    let (_, action) = resolver.step(event);
    assert_eq!(action, Action::LookupReply { parent_id: 101 });

    let run = resolve(&mut store, &mut remote, "ann", 100, true);
    assert_eq!(ids(&run.outcome.unwrap()), vec![100, 101]);
    assert!(remote.fetched.is_empty());
    assert!(remote.rendered.is_empty());
    assert_eq!(remote.searched, vec![("ann".to_string(), 101)]);
}

#[test]
fn stored_tweet_is_never_fetched() {
    let ann = author(1, "ann");
    let mut store = TweetStore::new();
    store.put_tweet(rendered(tweet(98, &ann, None)));
    store.put_tweet(rendered(tweet(99, &ann, Some((98, 1)))));
    let mut remote = Remote::new(vec![tweet(98, &ann, None), tweet(99, &ann, Some((98, 1)))]);
    let run = resolve(&mut store, &mut remote, "ann", 99, false);
    assert_eq!(ids(&run.outcome.unwrap()), vec![98, 99]);
    assert_eq!(remote.calls(), 0);
    assert_eq!(run.puts, 0);
    assert_eq!(run.store_lookups, 2);
    assert_eq!(store.tweet_count(), 2);
}

#[test]
fn stored_tweet_comes_with_the_stored_author() {
    let old = author(1, "ann");
    let mut new = author(1, "ann");
    new.display_name = "Ann, renamed".to_string();
    let mut store = TweetStore::new();
    store.put_tweet(rendered(tweet(98, &old, None)));
    let mut remote = Remote::new(vec![tweet(99, &new, Some((98, 1)))]);
    let run = resolve(&mut store, &mut remote, "ann", 99, false);
    let thread = run.outcome.unwrap();
    assert_eq!(ids(&thread), vec![98, 99]);
    assert_eq!(thread[0].author, old);
    assert_eq!(thread[1].author, new);
    assert_eq!(store.get_tweet(99).unwrap().author, old);
}

#[test]
fn walk_stops_at_a_reply_to_another_author() {
    let ann = author(1, "ann");
    let bob = author(2, "bob");
    let a = tweet(10, &ann, None);
    let b = tweet(11, &ann, Some((10, 1)));
    let c = tweet(12, &bob, Some((11, 1)));
    let mut store = TweetStore::new();
    let mut remote = Remote::new(vec![a, b, c]);
    let run = resolve(&mut store, &mut remote, "bob", 12, false);
    assert_eq!(ids(&run.outcome.unwrap()), vec![12]);
    assert_eq!(remote.fetched, vec![12]);
    assert_eq!(store.get_tweet(11), None);
}

#[test]
fn walk_keeps_the_last_tweet_that_replies_to_its_own_author() {
    let ann = author(1, "ann");
    let bob = author(2, "bob");
    let a = tweet(10, &bob, None);
    let b = tweet(11, &ann, Some((10, 2)));
    let c = tweet(12, &ann, Some((11, 1)));
    let mut store = TweetStore::new();
    let mut remote = Remote::new(vec![a, b, c]);
    let run = resolve(&mut store, &mut remote, "ann", 12, false);
    assert_eq!(ids(&run.outcome.unwrap()), vec![11, 12]);
    assert_eq!(remote.fetched, vec![12, 11]);
    assert_eq!(store.get_tweet(10), None);
    assert_eq!(store.author_count(), 1);
}

#[test]
fn reply_to_own_author_without_a_parent_tweet_ends_the_walk() {
    let ann = author(1, "ann");
    let mut mention = tweet(12, &ann, None);
    mention.parent_author_id = Some(1);
    let mut store = TweetStore::new();
    let mut remote = Remote::new(vec![mention]);
    let run = resolve(&mut store, &mut remote, "ann", 12, false);
    assert_eq!(ids(&run.outcome.unwrap()), vec![12]);
}

#[test]
fn forward_walk_stops_after_one_page_without_a_reply() {
    let ann = author(1, "ann");
    let bob = author(2, "bob");
    let mut store = TweetStore::new();
    let mut remote = Remote::new(vec![tweet(100, &ann, None)]);
    remote.pages.push((100, vec![tweet(150, &bob, Some((77, 1))), tweet(151, &ann, None)]));
    let run = resolve(&mut store, &mut remote, "ann", 100, true);
    assert_eq!(ids(&run.outcome.unwrap()), vec![100]);
    assert_eq!(remote.searched, vec![("ann".to_string(), 100)]);
    assert_eq!(store.tweet_count(), 1);
}

#[test]
fn forward_walk_takes_replies_from_the_page_in_turn() {
    let ann = author(1, "ann");
    let bob = author(2, "bob");
    let mut store = TweetStore::new();
    let mut remote = Remote::new(vec![tweet(100, &ann, None)]);
    remote.pages.push((
        100,
        vec![
            tweet(103, &ann, Some((102, 2))),
            tweet(101, &ann, Some((100, 1))),
            tweet(104, &bob, Some((100, 1))),
            tweet(102, &bob, Some((101, 1))),
            tweet(105, &ann, Some((102, 2))),
        ],
    ));
    remote.pages.push((105, vec![tweet(106, &ann, Some((9, 9)))]));
    let run = resolve(&mut store, &mut remote, "ann", 100, true);
    let thread = run.outcome.unwrap();
    assert_eq!(ids(&thread), vec![100, 101, 102, 105]);
    assert_eq!(remote.searched, vec![("ann".to_string(), 100), ("ann".to_string(), 105)]);
    assert_eq!(remote.rendered, vec![100, 101, 102, 105]);
    assert_eq!(remote.fetched, vec![100]);
    assert_eq!(store.tweet_count(), 4);
    assert_eq!(store.author_count(), 2);
    assert_eq!(store.get_tweet(104), None);
    assert_eq!(store.get_tweet(102), Some(rendered(tweet(102, &bob, Some((101, 1))))));
    for pair in thread.windows(2) {
        assert_eq!(pair[1].parent_tweet_id, Some(pair[0].id));
    }
}

#[test]
fn forward_walk_includes_a_reply_by_another_author() {
    let ann = author(1, "ann");
    let bob = author(2, "bob");
    let mut store = TweetStore::new();
    store.put_tweet(rendered(tweet(100, &ann, None)));
    store.put_tweet(rendered(tweet(101, &bob, Some((100, 1)))));
    let mut remote = Remote::new(Vec::new());
    let run = resolve(&mut store, &mut remote, "ann", 100, true);
    assert_eq!(ids(&run.outcome.unwrap()), vec![100, 101]);
    assert_eq!(remote.searched, vec![("bob".to_string(), 101)]);
}

#[test]
fn backward_walk_comes_before_the_forward_walk() {
    let ann = author(1, "ann");
    let mut store = TweetStore::new();
    let mut remote = Remote::new(vec![tweet(98, &ann, None), tweet(99, &ann, Some((98, 1)))]);
    remote.pages.push((99, vec![tweet(100, &ann, Some((99, 1)))]));
    let run = resolve(&mut store, &mut remote, "ann", 99, true);
    assert_eq!(ids(&run.outcome.unwrap()), vec![98, 99, 100]);
    assert_eq!(remote.searched, vec![("ann".to_string(), 99), ("ann".to_string(), 100)]);
}

#[test]
fn other_refusal_carries_code_message_and_address() {
    let mut store = TweetStore::new();
    let mut remote = Remote::new(Vec::new());
    remote.failures.push((
        200,
        UpstreamError { code: 179, message: "Sorry, you are not authorized to see this status.".to_string(), client_error: true },
    ));
    let run = resolve(&mut store, &mut remote, "ann", 200, true);
    assert_eq!(
        run.outcome,
        Err(ResolveError::OtherUpstreamError {
            code: 179,
            message: "Sorry, you are not authorized to see this status.".to_string(),
            original_url: "https://twitter.com/ann/status/200".to_string(),
        })
    );
    assert_eq!(store.tweet_count(), 0);
}

#[test]
fn error_names_the_tweet_that_failed_not_the_one_requested() {
    let ann = author(1, "ann");
    let mut store = TweetStore::new();
    let mut remote = Remote::new(vec![tweet(100, &ann, Some((99, 1)))]);
    let run = resolve(&mut store, &mut remote, "ann", 100, false);
    assert_eq!(run.outcome, Err(ResolveError::NoSuchTweet { id: 99 }));
    assert_eq!(store.get_tweet(100), Some(rendered(tweet(100, &ann, Some((99, 1))))));
}

#[test]
fn transport_failure_is_handed_on() {
    let mut store = TweetStore::new();
    let mut remote = Remote::new(Vec::new());
    remote.failures.push((
        200,
        UpstreamError { code: 144, message: "timed out".to_string(), client_error: false },
    ));
    let run = resolve(&mut store, &mut remote, "ann", 200, false);
    assert_eq!(run.outcome, Err(ResolveError::TransportFailure { cause: "timed out".to_string() }));
}

#[test]
fn tweet_without_rendering_is_not_stored() {
    let ann = author(1, "ann");
    let mut store = TweetStore::new();
    let mut remote = Remote::new(vec![tweet(100, &ann, None)]);
    remote.unrenderable.push(100);
    let run = resolve(&mut store, &mut remote, "ann", 100, false);
    assert_eq!(
        run.outcome,
        Err(ResolveError::TransportFailure { cause: "connection reset".to_string() })
    );
    assert_eq!(store.tweet_count(), 0);
    assert_eq!(store.author_count(), 0);
    assert_eq!(run.puts, 0);
}

#[test]
fn failed_search_fails_the_walk() {
    let ann = author(1, "ann");
    let mut store = TweetStore::new();
    store.put_tweet(rendered(tweet(100, &ann, None)));
    let (resolver, action) = ThreadResolver::start("ann".to_string(), 100, true);
    let (resolver, action) = resolver.step(store.serve(action).unwrap());
    let (resolver, action) = resolver.step(store.serve(action).unwrap());
    assert_eq!(action, Action::SearchReplies { handle: "ann".to_string(), since_id: 100 });
    let (resolver, action) = resolver.step(Event::Page {
        page: Err(UpstreamError { code: 88, message: "Rate limit exceeded".to_string(), client_error: true }),
    });
    assert_eq!(
        action,
        Action::Fail {
            error: ResolveError::OtherUpstreamError {
                code: 88,
                message: "Rate limit exceeded".to_string(),
                original_url: "https://twitter.com/ann/status/100".to_string(),
            }
        }
    );
    assert!(resolver.is_finished());
}

#[test]
fn store_failure_fails_the_walk() {
    let (resolver, _) = ThreadResolver::start("ann".to_string(), 100, false);
    let (resolver, action) = resolver.step(Event::StoreFailed { cause: "connection lost".to_string() });
    assert_eq!(
        action,
        Action::Fail { error: ResolveError::StoreFailure { cause: "connection lost".to_string() } }
    );
    assert!(resolver.is_finished());
}

#[test]
fn answer_that_was_not_asked_for_fails_the_walk() {
    let (resolver, _) = ThreadResolver::start("ann".to_string(), 100, false);
    let (resolver, action) = resolver.step(Event::Rendered { rendered: Ok("<p/>".to_string()) });
    assert_eq!(
        action,
        Action::Fail {
            error: ResolveError::TransportFailure {
                cause: "unexpected answer from the remote service".to_string()
            }
        }
    );
    let (resolver, action) = resolver.step(Event::Stored);
    assert_eq!(
        action,
        Action::Fail {
            error: ResolveError::StoreFailure { cause: "unexpected answer from the store".to_string() }
        }
    );
    assert!(resolver.is_finished());
}

#[test]
fn steps_of_one_fetch_come_in_order() {
    let ann = author(1, "ann");
    let (resolver, action) = ThreadResolver::start("ann".to_string(), 100, false);
    assert_eq!(action, Action::LookupTweet { id: 100 });
    let (resolver, action) = resolver.step(Event::Tweet { tweet: None });
    assert_eq!(action, Action::FetchTweet { id: 100 });
    let (resolver, action) = resolver.step(Event::Fetched { fetched: Ok(tweet(100, &ann, None)) });
    assert_eq!(action, Action::FetchRendered { handle: "ann".to_string(), id: 100 });
    let (resolver, action) = resolver.step(Event::Rendered { rendered: Ok("<b>100</b>".to_string()) });
    assert_eq!(action, Action::PutAuthor { author: author(1, "ann") });
    let (resolver, action) = resolver.step(Event::Stored);
    let mut expected = tweet(100, &ann, None);
    expected.rendered_content = "<b>100</b>".to_string();
    assert_eq!(action, Action::PutTweet { tweet: expected.clone() });
    assert!(!resolver.is_finished());
    let (resolver, action) = resolver.step(Event::Stored);
    assert_eq!(action, Action::Done { thread: vec![expected] });
    assert!(resolver.is_finished());
}

#[test]
fn only_what_the_store_lacks_is_fetched() {
    let ann = author(1, "ann");
    let mut store = TweetStore::new();
    store.put_tweet(rendered(tweet(99, &ann, Some((98, 1)))));
    let mut remote = Remote::new(vec![
        tweet(98, &ann, None),
        tweet(99, &ann, Some((98, 1))),
        tweet(100, &ann, Some((99, 1))),
    ]);
    let run = resolve(&mut store, &mut remote, "ann", 100, false);
    assert_eq!(
        run.outcome,
        Ok(vec![
            rendered(tweet(98, &ann, None)),
            rendered(tweet(99, &ann, Some((98, 1)))),
            rendered(tweet(100, &ann, Some((99, 1)))),
        ])
    );
    assert_eq!(remote.fetched, vec![100, 98]);
    assert_eq!(remote.rendered, vec![100, 98]);
    assert_eq!(run.puts, 2);
    assert_eq!(store.tweet_count(), 3);

    let again = resolve(&mut store, &mut remote, "ann", 100, false);
    assert_eq!(ids(&again.outcome.unwrap()), vec![98, 99, 100]);
    assert_eq!(remote.fetched, vec![100, 98]);
    assert_eq!(again.puts, 0);
}
