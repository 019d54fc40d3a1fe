//! Authors, tweets and threads, with the mathematical values that contracts speak of.

use vstd::prelude::*;

verus! {

/// Who wrote a tweet. Two authors are the same author when their ids agree.
#[derive(Debug, PartialEq, Eq)]
pub struct Author {
    pub id: i64,
    pub handle: String,
    pub display_name: String,
    pub avatar_url: String,
}

/// The value of an [`Author`].
pub struct AuthorView {
    pub id: i64,
    pub handle: Seq<char>,
    pub display_name: Seq<char>,
    pub avatar_url: Seq<char>,
}

impl View for Author {
    type V = AuthorView;

    open spec fn view(&self) -> AuthorView {
        AuthorView {
            id: self.id,
            handle: self.handle@,
            display_name: self.display_name@,
            avatar_url: self.avatar_url@,
        }
    }
}

impl Clone for Author {
    fn clone(&self) -> (copy: Self)
        ensures
            copy == *self,
    {
        Author {
            id: self.id,
            handle: self.handle.clone(),
            display_name: self.display_name.clone(),
            avatar_url: self.avatar_url.clone(),
        }
    }
}

/// One tweet. `parent_tweet_id` and `parent_author_id` say what it replies to, if
/// anything. `rendered_content` comes from the rendering endpoint, not from the
/// tweet's own payload, and is empty until that call has succeeded.
#[derive(Debug, PartialEq, Eq)]
pub struct Tweet {
    pub id: i64,
    pub author: Author,
    pub text: String,
    pub parent_tweet_id: Option<i64>,
    pub parent_author_id: Option<i64>,
    pub rendered_content: String,
}

/// The value of a [`Tweet`].
pub struct TweetView {
    pub id: i64,
    pub author: AuthorView,
    pub text: Seq<char>,
    pub parent_tweet_id: Option<i64>,
    pub parent_author_id: Option<i64>,
    pub rendered_content: Seq<char>,
}

impl View for Tweet {
    type V = TweetView;

    open spec fn view(&self) -> TweetView {
        TweetView {
            id: self.id,
            author: self.author@,
            text: self.text@,
            parent_tweet_id: self.parent_tweet_id,
            parent_author_id: self.parent_author_id,
            rendered_content: self.rendered_content@,
        }
    }
}

impl Clone for Tweet {
    fn clone(&self) -> (copy: Self)
        ensures
            copy == *self,
    {
        Tweet {
            id: self.id,
            author: self.author.clone(),
            text: self.text.clone(),
            parent_tweet_id: self.parent_tweet_id,
            parent_author_id: self.parent_author_id,
            rendered_content: self.rendered_content.clone(),
        }
    }
}

/// The values of a list of tweets, in order.
pub open spec fn tweet_views(tweets: Seq<Tweet>) -> Seq<TweetView> {
    Seq::new(tweets.len(), |i: int| tweets[i]@)
}

/// The value of a tweet that may be absent.
pub open spec fn tweet_option_view(tweet: Option<Tweet>) -> Option<TweetView> {
    match tweet {
        Some(t) => Some(t@),
        None => None,
    }
}

/// The parent that the backward walk goes on to: the tweet that `tweet` replies
/// to, provided `tweet` replies to its own author. A reply to somebody else, or a
/// tweet that replies to nothing, has none.
pub open spec fn self_parent(tweet: TweetView) -> Option<i64> {
    if tweet.parent_author_id == Some(tweet.author.id) {
        tweet.parent_tweet_id
    } else {
        None
    }
}

/// Whether `child` is a direct reply to the tweet with id `parent_id`.
pub open spec fn replies_to(child: TweetView, parent_id: i64) -> bool {
    child.parent_tweet_id == Some(parent_id)
}

/// A thread is linked when each tweet but the first replies to the one before it.
pub open spec fn is_linked(thread: Seq<TweetView>) -> bool {
    forall|i: int| 0 < i < thread.len() ==> replies_to(#[trigger] thread[i], thread[i - 1].id)
}

/// A self-thread: a linked thread in which every tweet but the first replies to
/// its own author.
pub open spec fn is_self_thread(thread: Seq<TweetView>) -> bool {
    forall|i: int|
        0 < i < thread.len() ==> self_parent(#[trigger] thread[i]) == Some(thread[i - 1].id)
}

impl Tweet {
    /// The id to continue the backward walk with, if the walk continues.
    pub fn self_parent(&self) -> (parent: Option<i64>)
        ensures
            parent == self_parent(self@),
    {
        match self.parent_author_id {
            Some(author_id) => {
                if author_id == self.author.id {
                    self.parent_tweet_id
                } else {
                    None
                }
            },
            None => None,
        }
    }

    /// Whether this tweet is a direct reply to the tweet with id `parent_id`.
    pub fn replies_to(&self, parent_id: i64) -> (yes: bool)
        ensures
            yes == replies_to(self@, parent_id),
    {
        match self.parent_tweet_id {
            Some(id) => id == parent_id,
            None => false,
        }
    }
}

/// Whether `i` is the place of the first tweet in `tweets` that replies directly to
/// the tweet with id `parent_id`.
pub open spec fn is_first_reply(tweets: Seq<TweetView>, parent_id: i64, i: int) -> bool {
    &&& 0 <= i < tweets.len()
    &&& replies_to(tweets[i], parent_id)
    &&& forall|j: int| 0 <= j < i ==> !replies_to(#[trigger] tweets[j], parent_id)
}

/// The place of the first tweet in `tweets` that replies directly to the tweet with
/// id `parent_id`, if there is one.
pub open spec fn first_reply(tweets: Seq<TweetView>, parent_id: i64) -> Option<int> {
    if exists|i: int| is_first_reply(tweets, parent_id, i) {
        Some(choose|i: int| is_first_reply(tweets, parent_id, i))
    } else {
        None
    }
}

/// There is only one first reply: a place of which `is_first_reply` holds is the one that
/// `first_reply` names.
pub proof fn first_reply_is(tweets: Seq<TweetView>, parent_id: i64, i: int)
    requires
        is_first_reply(tweets, parent_id, i),
    ensures
        first_reply(tweets, parent_id) == Some(i),
{
    let chosen = choose|k: int| is_first_reply(tweets, parent_id, k);
    assert(is_first_reply(tweets, parent_id, chosen));
    if chosen < i {
        assert(!replies_to(tweets[chosen], parent_id));
    } else if i < chosen {
        assert(!replies_to(tweets[i], parent_id));
    }
}

/// Where no tweet replies to `parent_id`, `first_reply` names none.
pub proof fn first_reply_is_none(tweets: Seq<TweetView>, parent_id: i64)
    requires
        forall|j: int| 0 <= j < tweets.len() ==> !replies_to(#[trigger] tweets[j], parent_id),
    ensures
        first_reply(tweets, parent_id) is None,
{
}

/// What `first_reply` names is a reply, and nothing before it is one. Where it
/// names none, there is no reply at all.
pub proof fn first_reply_found(tweets: Seq<TweetView>, parent_id: i64)
    ensures
        match first_reply(tweets, parent_id) {
            Some(i) => is_first_reply(tweets, parent_id, i),
            None => forall|j: int|
                0 <= j < tweets.len() ==> !replies_to(#[trigger] tweets[j], parent_id),
        },
    decreases tweets.len(),
{
    if first_reply(tweets, parent_id) is None {
        if exists|j: int| 0 <= j < tweets.len() && replies_to(#[trigger] tweets[j], parent_id) {
            let j = choose|j: int| 0 <= j < tweets.len() && replies_to(#[trigger] tweets[j], parent_id);
            let shorter = tweets.take(j);
            first_reply_found(shorter, parent_id);
            match first_reply(shorter, parent_id) {
                Some(i) => {
                    assert(is_first_reply(shorter, parent_id, i));
                    assert(tweets[i] == shorter[i]);
                    assert forall|k: int| 0 <= k < i implies !replies_to(
                        #[trigger] tweets[k],
                        parent_id,
                    ) by {
                        assert(tweets[k] == shorter[k]);
                    }
                    assert(is_first_reply(tweets, parent_id, i));
                },
                None => {
                    assert forall|k: int| 0 <= k < j implies !replies_to(
                        #[trigger] tweets[k],
                        parent_id,
                    ) by {
                        assert(tweets[k] == shorter[k]);
                    }
                    assert(is_first_reply(tweets, parent_id, j));
                },
            }
        }
    }
}

/// Looks in `tweets`, from the place `start` on, for the first direct reply to the
/// tweet with id `parent_id`.
pub fn find_reply(tweets: &Vec<Tweet>, start: usize, parent_id: i64) -> (found: Option<usize>)
    requires
        start <= tweets.len(),
    ensures
        match found {
            Some(at) => start <= at < tweets.len() && first_reply(
                tweet_views(tweets@).skip(start as int),
                parent_id,
            ) == Some(at - start),
            None => first_reply(tweet_views(tweets@).skip(start as int), parent_id) is None,
        },
{
    let ghost rest = tweet_views(tweets@).skip(start as int);
    let mut at: usize = start;
    while at < tweets.len()
        invariant
            start <= at <= tweets.len(),
            rest == tweet_views(tweets@).skip(start as int),
            forall|j: int| 0 <= j < at - start ==> !replies_to(#[trigger] rest[j], parent_id),
        decreases tweets.len() - at,
    {
        if tweets[at].replies_to(parent_id) {
            proof {
                assert(rest[at - start] == tweets[at as int]@);
                first_reply_is(rest, parent_id, at - start);
            }
            return Some(at);
        }
        assert(rest[at - start] == tweets[at as int]@);
        at = at + 1;
    }
    proof {
        first_reply_is_none(rest, parent_id);
    }
    None
}

} // verus!
