use gasconade::protocol::{Action, Event};
use gasconade::store::TweetStore;
use gasconade::tweet::{Author, Tweet};

fn author(id: i64, handle: &str, name: &str) -> Author {
    Author {
        id,
        handle: handle.to_string(),
        display_name: name.to_string(),
        avatar_url: format!("https://img.example/{}.png", handle),
    }
}

fn tweet(id: i64, by: &Author, text: &str, parent: Option<(i64, i64)>) -> Tweet {
    Tweet {
        id,
        author: by.clone(),
        text: text.to_string(),
        parent_tweet_id: parent.map(|p| p.0),
        parent_author_id: parent.map(|p| p.1),
        rendered_content: format!("<p>{}</p>", text),
    }
}

#[test]
fn new_store_holds_nothing() {
    let store = TweetStore::new();
    assert_eq!(store.tweet_count(), 0);
    assert_eq!(store.author_count(), 0);
    assert_eq!(store.get_tweet(1), None);
    assert_eq!(store.get_author(1), None);
    assert_eq!(store.get_replies_to(1), None);
}

#[test]
fn author_put_twice_is_held_once() {
    let mut store = TweetStore::new();
    store.put_author(author(1, "ann", "Ann"));
    let once = (store.author_count(), store.get_author(1));
    store.put_author(author(1, "ann", "Ann"));
    assert_eq!((store.author_count(), store.get_author(1)), once);
    assert_eq!(store.author_count(), 1);
}

#[test]
fn author_is_not_overwritten() {
    let mut store = TweetStore::new();
    store.put_author(author(1, "ann", "Ann"));
    store.put_author(author(1, "ann2", "Ann the Second"));
    assert_eq!(store.get_author(1), Some(author(1, "ann", "Ann")));
    assert_eq!(store.author_count(), 1);
}

#[test]
fn tweet_put_twice_is_held_once() {
    let ann = author(1, "ann", "Ann");
    let mut store = TweetStore::new();
    store.put_tweet(tweet(10, &ann, "first", None));
    let once = (store.tweet_count(), store.author_count(), store.get_tweet(10));
    store.put_tweet(tweet(10, &ann, "first", None));
    assert_eq!((store.tweet_count(), store.author_count(), store.get_tweet(10)), once);
    assert_eq!(store.tweet_count(), 1);
    assert_eq!(store.author_count(), 1);
}

#[test]
fn tweet_is_not_overwritten() {
    let ann = author(1, "ann", "Ann");
    let bob = author(2, "bob", "Bob");
    let mut store = TweetStore::new();
    store.put_tweet(tweet(10, &ann, "first", None));
    store.put_tweet(tweet(10, &bob, "second", Some((9, 9))));
    assert_eq!(store.get_tweet(10), Some(tweet(10, &ann, "first", None)));
    assert_eq!(store.get_author(2), None);
}

#[test]
fn putting_a_tweet_stores_its_author() {
    let ann = author(1, "ann", "Ann");
    let mut store = TweetStore::new();
    store.put_tweet(tweet(10, &ann, "first", None));
    assert_eq!(store.get_author(1), Some(ann));
}

#[test]
fn tweet_is_held_with_the_author_as_stored() {
    let ann = author(1, "ann", "Ann");
    let renamed = author(1, "ann", "Ann, renamed");
    let mut store = TweetStore::new();
    store.put_author(ann.clone());
    store.put_tweet(tweet(10, &renamed, "first", None));
    assert_eq!(store.get_tweet(10), Some(tweet(10, &ann, "first", None)));
}

#[test]
fn reply_is_found_by_its_parent() {
    let ann = author(1, "ann", "Ann");
    let mut store = TweetStore::new();
    store.put_tweet(tweet(10, &ann, "first", None));
    store.put_tweet(tweet(11, &ann, "second", Some((10, 1))));
    assert_eq!(store.get_replies_to(10), Some(tweet(11, &ann, "second", Some((10, 1)))));
    assert_eq!(store.get_replies_to(11), None);
}

#[test]
fn of_two_replies_the_one_stored_first_is_given() {
    let ann = author(1, "ann", "Ann");
    let bob = author(2, "bob", "Bob");
    let mut store = TweetStore::new();
    store.put_tweet(tweet(30, &bob, "late id, stored first", Some((10, 1))));
    store.put_tweet(tweet(20, &ann, "early id, stored second", Some((10, 1))));
    assert_eq!(store.get_replies_to(10).map(|t| t.id), Some(30));
}

#[test]
fn store_answers_its_own_actions() {
    let ann = author(1, "ann", "Ann");
    let mut store = TweetStore::new();
    assert_eq!(store.serve(Action::PutAuthor { author: ann.clone() }), Ok(Event::Stored));
    assert_eq!(
        store.serve(Action::PutTweet { tweet: tweet(10, &ann, "first", None) }),
        Ok(Event::Stored)
    );
    assert_eq!(
        store.serve(Action::LookupTweet { id: 10 }),
        Ok(Event::Tweet { tweet: Some(tweet(10, &ann, "first", None)) })
    );
    assert_eq!(store.serve(Action::LookupTweet { id: 11 }), Ok(Event::Tweet { tweet: None }));
    assert_eq!(store.serve(Action::LookupReply { parent_id: 10 }), Ok(Event::Tweet { tweet: None }));
}

#[test]
fn store_hands_back_what_is_not_for_it() {
    let mut store = TweetStore::new();
    assert_eq!(store.serve(Action::FetchTweet { id: 10 }), Err(Action::FetchTweet { id: 10 }));
    assert_eq!(
        store.serve(Action::SearchReplies { handle: "ann".to_string(), since_id: 10 }),
        Err(Action::SearchReplies { handle: "ann".to_string(), since_id: 10 })
    );
    assert_eq!(store.serve(Action::Done { thread: Vec::new() }), Err(Action::Done { thread: Vec::new() }));
    assert_eq!(store.tweet_count(), 0);
}

#[test]
fn every_action_is_for_the_store_the_remote_service_or_nobody() {
    let ann = author(1, "ann", "Ann");
    let for_store = vec![
        Action::LookupTweet { id: 1 },
        Action::LookupReply { parent_id: 1 },
        Action::PutAuthor { author: ann.clone() },
        Action::PutTweet { tweet: tweet(10, &ann, "first", None) },
    ];
    let for_remote = vec![
        Action::FetchTweet { id: 1 },
        Action::FetchRendered { handle: "ann".to_string(), id: 1 },
        Action::SearchReplies { handle: "ann".to_string(), since_id: 1 },
    ];
    let for_nobody = vec![
        Action::Done { thread: Vec::new() },
        Action::Fail { error: gasconade::errors::ResolveError::NoSuchTweet { id: 1 } },
    ];
    for action in &for_store {
        assert!(action.asks_store() && !action.asks_upstream(), "{:?}", action);
    }
    for action in &for_remote {
        assert!(!action.asks_store() && action.asks_upstream(), "{:?}", action);
    }
    for action in &for_nobody {
        assert!(!action.asks_store() && !action.asks_upstream(), "{:?}", action);
    }
}
