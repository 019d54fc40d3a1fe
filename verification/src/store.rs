//! The store: what is known locally of tweets and their authors.
//!
//! A store holds each author and each tweet once, under its id. What is stored
//! stays as it is: putting an id again changes nothing, and nothing is ever
//! removed. A tweet is stored with its author as the store knows them.

use crate::protocol::{Action, ActionView, Event, EventView};
use crate::tweet::{
    find_reply, first_reply, first_reply_found, first_reply_is, tweet_option_view, tweet_views,
    Author, AuthorView, Tweet, TweetView,
};
use vstd::prelude::*;

verus! {

/// The value of a [`TweetStore`]: its authors and its tweets, each in the order in
/// which they were stored.
pub struct StoreView {
    pub authors: Seq<AuthorView>,
    pub tweets: Seq<TweetView>,
}

/// Whether `i` is a place in `authors` that holds the author `id`.
pub open spec fn is_author_at(authors: Seq<AuthorView>, id: i64, i: int) -> bool {
    0 <= i < authors.len() && authors[i].id == id
}

/// Whether `i` is a place in `tweets` that holds the tweet `id`.
pub open spec fn is_tweet_at(tweets: Seq<TweetView>, id: i64, i: int) -> bool {
    0 <= i < tweets.len() && tweets[i].id == id
}

impl StoreView {
    /// The store that holds nothing.
    pub open spec fn empty() -> StoreView {
        StoreView { authors: Seq::empty(), tweets: Seq::empty() }
    }

    /// The author `id`, if the store has them.
    pub open spec fn author(self, id: i64) -> Option<AuthorView> {
        if exists|i: int| is_author_at(self.authors, id, i) {
            Some(self.authors[choose|i: int| is_author_at(self.authors, id, i)])
        } else {
            None
        }
    }

    /// The tweet `id`, if the store has it.
    pub open spec fn tweet(self, id: i64) -> Option<TweetView> {
        if exists|i: int| is_tweet_at(self.tweets, id, i) {
            Some(self.tweets[choose|i: int| is_tweet_at(self.tweets, id, i)])
        } else {
            None
        }
    }

    /// The direct reply to the tweet `parent_id` that was stored first, if the store
    /// has any.
    pub open spec fn reply_to(self, parent_id: i64) -> Option<TweetView> {
        match first_reply(self.tweets, parent_id) {
            Some(i) => Some(self.tweets[i]),
            None => None,
        }
    }

    /// No id is held twice, and every tweet is held with its author as the store
    /// holds them.
    pub open spec fn wf(self) -> bool {
        &&& forall|i: int, j: int|
            0 <= i < j < self.authors.len() ==> self.authors[i].id != self.authors[j].id
        &&& forall|i: int, j: int|
            0 <= i < j < self.tweets.len() ==> self.tweets[i].id != self.tweets[j].id
        &&& forall|i: int|
            0 <= i < self.tweets.len() ==> self.author(#[trigger] self.tweets[i].author.id)
                == Some(self.tweets[i].author)
    }

    /// The store after `author` was put: unchanged if it has an author with this
    /// id, else with `author` behind the others.
    pub open spec fn put_author(self, author: AuthorView) -> StoreView {
        if self.author(author.id) is Some {
            self
        } else {
            StoreView { authors: self.authors.push(author), ..self }
        }
    }

    /// The store after `tweet` was put: unchanged if it has a tweet with this id.
    /// Else the tweet's author is put first, and then the tweet, behind the others
    /// and with its author as the store holds them.
    pub open spec fn put_tweet(self, tweet: TweetView) -> StoreView {
        if self.tweet(tweet.id) is Some {
            self
        } else {
            let with_author = self.put_author(tweet.author);
            StoreView {
                tweets: with_author.tweets.push(
                    TweetView { author: with_author.author(tweet.author.id).unwrap(), ..tweet },
                ),
                ..with_author
            }
        }
    }

    /// What the store answers to `action`, and the store after it. An action that
    /// is not for the store gets no answer and changes nothing.
    pub open spec fn serve(self, action: ActionView) -> (StoreView, Option<EventView>) {
        match action {
            ActionView::LookupTweet { id } => (
                self,
                Some(EventView::Tweet { tweet: self.tweet(id) }),
            ),
            ActionView::LookupReply { parent_id } => (
                self,
                Some(EventView::Tweet { tweet: self.reply_to(parent_id) }),
            ),
            ActionView::PutAuthor { author } => (self.put_author(author), Some(EventView::Stored)),
            ActionView::PutTweet { tweet } => (self.put_tweet(tweet), Some(EventView::Stored)),
            _ => (self, None),
        }
    }
}

/// In a store that holds no id twice, the author at a place is the author that
/// the store has under that id.
pub proof fn author_at_place(store: StoreView, i: int)
    requires
        store.wf(),
        0 <= i < store.authors.len(),
    ensures
        store.author(store.authors[i].id) == Some(store.authors[i]),
{
    let id = store.authors[i].id;
    assert(is_author_at(store.authors, id, i));
    let chosen = choose|k: int| is_author_at(store.authors, id, k);
    assert(chosen == i);
}

/// In a store that holds no id twice, the tweet at a place is the tweet that the
/// store has under that id.
pub proof fn tweet_at_place(store: StoreView, i: int)
    requires
        store.wf(),
        0 <= i < store.tweets.len(),
    ensures
        store.tweet(store.tweets[i].id) == Some(store.tweets[i]),
{
    let id = store.tweets[i].id;
    assert(is_tweet_at(store.tweets, id, i));
    let chosen = choose|k: int| is_tweet_at(store.tweets, id, k);
    assert(chosen == i);
}

/// Putting an author keeps the store well formed, keeps every author that it had,
/// and leaves the author in it.
pub proof fn put_author_keeps(store: StoreView, author: AuthorView)
    requires
        store.wf(),
    ensures
        store.put_author(author).wf(),
        store.put_author(author).author(author.id) is Some,
        forall|id: i64|
            store.author(id) is Some ==> store.put_author(author).author(id) == store.author(id),
        forall|id: i64| id != author.id ==> store.put_author(author).author(id) == store.author(id),
{
    let after = store.put_author(author);
    if store.author(author.id) is None {
        let n = store.authors.len() as int;
        assert(after.authors[n] == author);
        assert(is_author_at(after.authors, author.id, n));
        assert forall|i: int, j: int| 0 <= i < j < after.authors.len() implies after.authors[i].id
            != after.authors[j].id by {
            if j == n {
                assert(!is_author_at(store.authors, author.id, i));
            }
        }
        assert forall|id: i64| id != author.id implies after.author(id) == store.author(id) by {
            if exists|i: int| is_author_at(after.authors, id, i) {
                let k = choose|i: int| is_author_at(after.authors, id, i);
                assert(k < n);
                assert(is_author_at(store.authors, id, k));
                let c = choose|i: int| is_author_at(store.authors, id, i);
                assert(is_author_at(after.authors, id, c));
                assert(c == k);
            } else {
                if exists|i: int| is_author_at(store.authors, id, i) {
                    let c = choose|i: int| is_author_at(store.authors, id, i);
                    assert(is_author_at(after.authors, id, c));
                }
            }
        }
        assert forall|i: int| 0 <= i < after.tweets.len() implies after.author(
            #[trigger] after.tweets[i].author.id,
        ) == Some(after.tweets[i].author) by {
            assert(store.author(store.tweets[i].author.id) == Some(store.tweets[i].author));
        }
    }
}

/// Putting a tweet keeps the store well formed, keeps every tweet and author that
/// it had, and leaves the tweet in it.
pub proof fn put_tweet_keeps(store: StoreView, tweet: TweetView)
    requires
        store.wf(),
    ensures
        store.put_tweet(tweet).wf(),
        store.put_tweet(tweet).tweet(tweet.id) is Some,
        forall|id: i64|
            store.tweet(id) is Some ==> store.put_tweet(tweet).tweet(id) == store.tweet(id),
        forall|id: i64| id != tweet.id ==> store.put_tweet(tweet).tweet(id) == store.tweet(id),
        forall|id: i64|
            store.author(id) is Some ==> store.put_tweet(tweet).author(id) == store.author(id),
{
    let after = store.put_tweet(tweet);
    if store.tweet(tweet.id) is None {
        let with_author = store.put_author(tweet.author);
        put_author_keeps(store, tweet.author);
        let n = store.tweets.len() as int;
        let stored = TweetView { author: with_author.author(tweet.author.id).unwrap(), ..tweet };
        assert(after.tweets[n] == stored);
        assert(after.authors == with_author.authors);
        assert(is_tweet_at(after.tweets, tweet.id, n));
        assert forall|i: int, j: int| 0 <= i < j < after.tweets.len() implies after.tweets[i].id
            != after.tweets[j].id by {
            if j == n {
                assert(!is_tweet_at(store.tweets, tweet.id, i));
            }
        }
        assert forall|id: i64| id != tweet.id implies after.tweet(id) == store.tweet(id) by {
            if exists|i: int| is_tweet_at(after.tweets, id, i) {
                let k = choose|i: int| is_tweet_at(after.tweets, id, i);
                assert(k < n);
                assert(is_tweet_at(store.tweets, id, k));
                let c = choose|i: int| is_tweet_at(store.tweets, id, i);
                assert(is_tweet_at(after.tweets, id, c));
                assert(c == k);
            } else {
                if exists|i: int| is_tweet_at(store.tweets, id, i) {
                    let c = choose|i: int| is_tweet_at(store.tweets, id, i);
                    assert(is_tweet_at(after.tweets, id, c));
                }
            }
        }
        assert forall|id: i64| after.author(id) == with_author.author(id) by {
            assert(after.authors == with_author.authors);
        }
        assert forall|i: int| 0 <= i < after.tweets.len() implies after.author(
            #[trigger] after.tweets[i].author.id,
        ) == Some(after.tweets[i].author) by {
            if i < n {
                assert(with_author.author(with_author.tweets[i].author.id) == Some(
                    with_author.tweets[i].author,
                ));
            } else {
                let held = with_author.author(tweet.author.id).unwrap();
                let k = choose|k: int| is_author_at(with_author.authors, tweet.author.id, k);
                assert(held.id == tweet.author.id);
            }
        }
    }
}

/// Putting a tweet does not change which reply the store gives for a tweet that it
/// has a reply to: the reply that was stored first stays the one that is given.
pub proof fn put_tweet_keeps_replies(store: StoreView, tweet: TweetView, parent_id: i64)
    requires
        store.reply_to(parent_id) is Some,
    ensures
        store.put_tweet(tweet).reply_to(parent_id) == store.reply_to(parent_id),
{
    let after = store.put_tweet(tweet);
    if store.tweet(tweet.id) is None {
        first_reply_found(store.tweets, parent_id);
        let i = first_reply(store.tweets, parent_id).unwrap();
        assert(after.tweets[i] == store.tweets[i]);
        assert forall|j: int| 0 <= j < i implies !crate::tweet::replies_to(
            #[trigger] after.tweets[j],
            parent_id,
        ) by {
            assert(after.tweets[j] == store.tweets[j]);
        }
        first_reply_is(after.tweets, parent_id, i);
    }
}

/// Storing an author twice leaves the store as storing them once does.
pub proof fn put_author_is_idempotent(store: StoreView, author: AuthorView)
    ensures
        store.put_author(author).put_author(author) == store.put_author(author),
{
    let after = store.put_author(author);
    if store.author(author.id) is None {
        assert(is_author_at(after.authors, author.id, store.authors.len() as int));
    }
}

/// Storing a tweet twice leaves the store as storing it once does.
pub proof fn put_tweet_is_idempotent(store: StoreView, tweet: TweetView)
    ensures
        store.put_tweet(tweet).put_tweet(tweet) == store.put_tweet(tweet),
{
    let after = store.put_tweet(tweet);
    if store.tweet(tweet.id) is None {
        assert(is_tweet_at(after.tweets, tweet.id, store.tweets.len() as int));
    }
}

/// What was put can be got. After a tweet was put under an id that the store did
/// not have, the store has the tweet under that id, with its author as the store
/// holds them; and if the store did not have the author, it now has them as the
/// tweet gave them.
pub proof fn put_tweet_can_be_got(store: StoreView, tweet: TweetView)
    requires
        store.wf(),
        store.tweet(tweet.id) is None,
    ensures
        store.put_tweet(tweet).author(tweet.author.id) is Some,
        store.put_tweet(tweet).tweet(tweet.id) == Some(
            TweetView {
                author: store.put_tweet(tweet).author(tweet.author.id).unwrap(),
                ..tweet
            },
        ),
        store.author(tweet.author.id) is None ==> store.put_tweet(tweet).author(tweet.author.id)
            == Some(tweet.author),
{
    let after = store.put_tweet(tweet);
    put_tweet_keeps(store, tweet);
    put_author_keeps(store, tweet.author);
    tweet_at_place(after, store.tweets.len() as int);
    if store.author(tweet.author.id) is None {
        author_at_place(after, store.authors.len() as int);
    }
}

/// The value of an author who may be absent.
pub open spec fn author_option_view(author: Option<Author>) -> Option<AuthorView> {
    match author {
        Some(a) => Some(a@),
        None => None,
    }
}

/// The value of what [`TweetStore::serve`] returns: the store's answer, or no answer
/// where the action was handed back.
pub open spec fn served_view(served: Result<Event, Action>) -> Option<EventView> {
    match served {
        Ok(event) => Some(event@),
        Err(_) => None,
    }
}

/// The values of a list of authors, in order.
pub open spec fn author_views(authors: Seq<Author>) -> Seq<AuthorView> {
    Seq::new(authors.len(), |i: int| authors[i]@)
}

/// A store in memory. Every store that the library hands out is well formed
/// (`wf` of its value), and its functions keep it so.
pub struct TweetStore {
    authors: Vec<Author>,
    tweets: Vec<Tweet>,
}

impl View for TweetStore {
    type V = StoreView;

    closed spec fn view(&self) -> StoreView {
        StoreView { authors: author_views(self.authors@), tweets: tweet_views(self.tweets@) }
    }
}

impl TweetStore {
    /// A store that holds nothing.
    pub fn new() -> (store: TweetStore)
        ensures
            store@ == StoreView::empty(),
            store@.wf(),
    {
        let store = TweetStore { authors: Vec::new(), tweets: Vec::new() };
        assert(store@.authors =~= Seq::empty());
        assert(store@.tweets =~= Seq::empty());
        store
    }

    fn author_place(&self, id: i64) -> (place: Option<usize>)
        ensures
            match place {
                Some(i) => is_author_at(self@.authors, id, i as int),
                None => self@.author(id) is None,
            },
    {
        let mut at: usize = 0;
        while at < self.authors.len()
            invariant
                at <= self.authors.len(),
                forall|j: int| 0 <= j < at ==> !is_author_at(self@.authors, id, j),
            decreases self.authors.len() - at,
        {
            if self.authors[at].id == id {
                return Some(at);
            }
            at = at + 1;
        }
        None
    }

    fn tweet_place(&self, id: i64) -> (place: Option<usize>)
        ensures
            match place {
                Some(i) => is_tweet_at(self@.tweets, id, i as int),
                None => self@.tweet(id) is None,
            },
    {
        let mut at: usize = 0;
        while at < self.tweets.len()
            invariant
                at <= self.tweets.len(),
                forall|j: int| 0 <= j < at ==> !is_tweet_at(self@.tweets, id, j),
            decreases self.tweets.len() - at,
        {
            if self.tweets[at].id == id {
                return Some(at);
            }
            at = at + 1;
        }
        None
    }

    /// The author `id`, if the store has them.
    pub fn get_author(&self, id: i64) -> (author: Option<Author>)
        requires
            self@.wf(),
        ensures
            author_option_view(author) == self@.author(id),
    {
        match self.author_place(id) {
            Some(at) => {
                proof {
                    author_at_place(self@, at as int);
                }
                Some(self.authors[at].clone())
            },
            None => None,
        }
    }

    /// The tweet `id` with its author, if the store has it. Nothing but the store is
    /// asked.
    pub fn get_tweet(&self, id: i64) -> (tweet: Option<Tweet>)
        requires
            self@.wf(),
        ensures
            tweet_option_view(tweet) == self@.tweet(id),
    {
        match self.tweet_place(id) {
            Some(at) => {
                proof {
                    tweet_at_place(self@, at as int);
                }
                Some(self.tweets[at].clone())
            },
            None => None,
        }
    }

    /// A direct reply to the tweet `parent_id`, if the store has one: of several, the
    /// one that was stored first.
    pub fn get_replies_to(&self, parent_id: i64) -> (reply: Option<Tweet>)
        requires
            self@.wf(),
        ensures
            tweet_option_view(reply) == self@.reply_to(parent_id),
    {
        proof {
            assert(tweet_views(self.tweets@).skip(0) =~= tweet_views(self.tweets@));
        }
        match find_reply(&self.tweets, 0, parent_id) {
            Some(at) => {
                assert(self@.tweets[at as int] == self.tweets[at as int]@);
                Some(self.tweets[at].clone())
            },
            None => None,
        }
    }

    /// Stores `author`, unless the store has an author with this id.
    pub fn put_author(&mut self, author: Author)
        requires
            old(self)@.wf(),
        ensures
            final(self)@ == old(self)@.put_author(author@),
            final(self)@.wf(),
    {
        proof {
            put_author_keeps(self@, author@);
        }
        match self.author_place(author.id) {
            Some(_) => {},
            None => {
                let ghost before = self@;
                self.authors.push(author);
                assert(self@.authors =~= before.authors.push(author@));
            },
        }
    }

    /// Stores `tweet`, unless the store has a tweet with this id: first its author,
    /// unless the store has them, then the tweet, with its author as the store
    /// holds them.
    pub fn put_tweet(&mut self, tweet: Tweet)
        requires
            old(self)@.wf(),
        ensures
            final(self)@ == old(self)@.put_tweet(tweet@),
            final(self)@.wf(),
    {
        proof {
            put_tweet_keeps(self@, tweet@);
            put_author_keeps(self@, tweet@.author);
        }
        match self.tweet_place(tweet.id) {
            Some(_) => {},
            None => {
                let ghost before = self@;
                let Tweet { id, author, text, parent_tweet_id, parent_author_id, rendered_content } =
                    tweet;
                let author_id = author.id;
                self.put_author(author);
                let held = match self.get_author(author_id) {
                    Some(held) => held,
                    None => {
                        assert(false);
                        return ;
                    },
                };
                let stored = Tweet {
                    id,
                    author: held,
                    text,
                    parent_tweet_id,
                    parent_author_id,
                    rendered_content,
                };
                let ghost with_author = self@;
                self.tweets.push(stored);
                assert(self@.tweets =~= with_author.tweets.push(stored@));
                assert(self@.authors == with_author.authors);
            },
        }
    }

    /// Carries out `action` if it is for the store, and answers it. Any other action
    /// is handed back, and the store stays as it is.
    pub fn serve(&mut self, action: Action) -> (served: Result<Event, Action>)
        requires
            old(self)@.wf(),
        ensures
            (final(self)@, served_view(served)) == old(self)@.serve(action@),
            served matches Err(back) ==> back == action,
            final(self)@.wf(),
    {
        match action {
            Action::LookupTweet { id } => Ok(Event::Tweet { tweet: self.get_tweet(id) }),
            Action::LookupReply { parent_id } => Ok(
                Event::Tweet { tweet: self.get_replies_to(parent_id) },
            ),
            Action::PutAuthor { author } => {
                self.put_author(author);
                Ok(Event::Stored)
            },
            Action::PutTweet { tweet } => {
                self.put_tweet(tweet);
                Ok(Event::Stored)
            },
            other => Err(other),
        }
    }

    /// How many tweets the store holds.
    pub fn tweet_count(&self) -> (count: usize)
        ensures
            count == self@.tweets.len(),
    {
        self.tweets.len()
    }

    /// How many authors the store holds.
    pub fn author_count(&self) -> (count: usize)
        ensures
            count == self@.authors.len(),
    {
        self.authors.len()
    }
}

} // verus!
