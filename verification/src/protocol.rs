//! What the resolver asks for, and what it is answered.
//!
//! The resolver performs nothing itself. It hands out an [`Action`]; whoever drives
//! it carries the action out, against the store or against the remote service,
//! and hands back the [`Event`] that says how it went.

use crate::errors::{ResolveError, ResolveErrorView, UpstreamError, UpstreamErrorView};
use crate::tweet::{tweet_option_view, tweet_views, Author, AuthorView, Tweet, TweetView};
use vstd::prelude::*;

verus! {

/// The next thing to do for a resolver.
#[derive(Debug, PartialEq, Eq)]
pub enum Action {
    /// Ask the store for the tweet `id`, with its author.
    LookupTweet { id: i64 },
    /// Ask the remote service for the tweet `id`.
    FetchTweet { id: i64 },
    /// Ask the remote service for the rendering of the tweet `id` by `handle`.
    FetchRendered { handle: String, id: i64 },
    /// Store the author, unless the store has one with this id.
    PutAuthor { author: Author },
    /// Store the tweet, unless the store has one with this id.
    PutTweet { tweet: Tweet },
    /// Ask the store for a direct reply to the tweet `parent_id`.
    LookupReply { parent_id: i64 },
    /// Ask the remote service for one page of the tweets to and from `handle` that
    /// came after the tweet `since_id`.
    SearchReplies { handle: String, since_id: i64 },
    /// Nothing is left to do: this is the thread, root first.
    Done { thread: Vec<Tweet> },
    /// Nothing is left to do: the thread could not be rebuilt.
    Fail { error: ResolveError },
}

/// The value of an [`Action`].
pub enum ActionView {
    LookupTweet { id: i64 },
    FetchTweet { id: i64 },
    FetchRendered { handle: Seq<char>, id: i64 },
    PutAuthor { author: AuthorView },
    PutTweet { tweet: TweetView },
    LookupReply { parent_id: i64 },
    SearchReplies { handle: Seq<char>, since_id: i64 },
    Done { thread: Seq<TweetView> },
    Fail { error: ResolveErrorView },
}

impl View for Action {
    type V = ActionView;

    open spec fn view(&self) -> ActionView {
        match self {
            Action::LookupTweet { id } => ActionView::LookupTweet { id: *id },
            Action::FetchTweet { id } => ActionView::FetchTweet { id: *id },
            Action::FetchRendered { handle, id } => ActionView::FetchRendered {
                handle: handle@,
                id: *id,
            },
            Action::PutAuthor { author } => ActionView::PutAuthor { author: author@ },
            Action::PutTweet { tweet } => ActionView::PutTweet { tweet: tweet@ },
            Action::LookupReply { parent_id } => ActionView::LookupReply { parent_id: *parent_id },
            Action::SearchReplies { handle, since_id } => ActionView::SearchReplies {
                handle: handle@,
                since_id: *since_id,
            },
            Action::Done { thread } => ActionView::Done { thread: tweet_views(thread@) },
            Action::Fail { error } => ActionView::Fail { error: error@ },
        }
    }
}

impl ActionView {
    /// Whether the action is a call to the remote service.
    pub open spec fn asks_upstream(self) -> bool {
        self is FetchTweet || self is FetchRendered || self is SearchReplies
    }

    /// Whether the action is a call to the store.
    pub open spec fn asks_store(self) -> bool {
        self is LookupTweet || self is LookupReply || self is PutAuthor || self is PutTweet
    }

    /// Whether the action ends the work.
    pub open spec fn is_final(self) -> bool {
        self is Done || self is Fail
    }
}

impl Action {
    /// Whether the action is a call to the remote service.
    pub fn asks_upstream(&self) -> (yes: bool)
        ensures
            yes == self@.asks_upstream(),
    {
        match self {
            Action::FetchTweet { .. } => true,
            Action::FetchRendered { .. } => true,
            Action::SearchReplies { .. } => true,
            _ => false,
        }
    }

    /// Whether the action is a call to the store.
    pub fn asks_store(&self) -> (yes: bool)
        ensures
            yes == self@.asks_store(),
    {
        match self {
            Action::LookupTweet { .. } => true,
            Action::LookupReply { .. } => true,
            Action::PutAuthor { .. } => true,
            Action::PutTweet { .. } => true,
            _ => false,
        }
    }
}

/// How an action went.
#[derive(Debug, PartialEq, Eq)]
pub enum Event {
    /// The store's answer to a lookup: the tweet with its author, or none.
    Tweet { tweet: Option<Tweet> },
    /// The store has done what `PutAuthor` or `PutTweet` asked.
    Stored,
    /// The store failed.
    StoreFailed { cause: String },
    /// The remote service's answer to `FetchTweet`.
    Fetched { fetched: Result<Tweet, UpstreamError> },
    /// The remote service's answer to `FetchRendered`.
    Rendered { rendered: Result<String, UpstreamError> },
    /// The remote service's answer to `SearchReplies`: one page, in its order.
    Page { page: Result<Vec<Tweet>, UpstreamError> },
}

/// The value of an [`Event`].
pub enum EventView {
    Tweet { tweet: Option<TweetView> },
    Stored,
    StoreFailed { cause: Seq<char> },
    Fetched { fetched: Result<TweetView, UpstreamErrorView> },
    Rendered { rendered: Result<Seq<char>, UpstreamErrorView> },
    Page { page: Result<Seq<TweetView>, UpstreamErrorView> },
}

impl View for Event {
    type V = EventView;

    open spec fn view(&self) -> EventView {
        match self {
            Event::Tweet { tweet } => EventView::Tweet { tweet: tweet_option_view(*tweet) },
            Event::Stored => EventView::Stored,
            Event::StoreFailed { cause } => EventView::StoreFailed { cause: cause@ },
            Event::Fetched { fetched } => EventView::Fetched {
                fetched: match fetched {
                    Ok(tweet) => Ok(tweet@),
                    Err(error) => Err(error@),
                },
            },
            Event::Rendered { rendered } => EventView::Rendered {
                rendered: match rendered {
                    Ok(content) => Ok(content@),
                    Err(error) => Err(error@),
                },
            },
            Event::Page { page } => EventView::Page {
                page: match page {
                    Ok(page) => Ok(tweet_views(page@)),
                    Err(error) => Err(error@),
                },
            },
        }
    }
}

} // verus!
