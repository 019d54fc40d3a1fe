//! The walk along a thread, as a machine that is driven from outside.
//!
//! A [`ThreadResolver`] rebuilds the thread around one tweet. It walks backwards
//! from the tweet for as long as each tweet replies to its own author, and then,
//! if it was asked to, forwards along direct replies. Every tweet is looked for in
//! the store first; one that the store lacks is fetched, rendered and stored. The
//! resolver performs none of this: each step hands out the next
//! [`Action`](crate::protocol::Action) and takes the
//! [`Event`](crate::protocol::Event) that answers the one before.

use crate::errors::{classify, spec_classify, ResolveError, ResolveErrorView};
use crate::protocol::{Action, ActionView, Event, EventView};
use crate::tweet::{
    find_reply, first_reply, first_reply_found, first_reply_is_none, is_linked, is_self_thread,
    replies_to, self_parent, tweet_views, Tweet, TweetView,
};
use vstd::prelude::*;
use vstd::string::*;

verus! {

/// What a walk knows whatever it is waiting for.
pub struct WalkView {
    /// The author's handle as the request gave it. It goes into the address that an
    /// error carries.
    pub handle: Seq<char>,
    /// The id that the walk started from.
    pub requested: i64,
    /// Whether the walk goes forwards too.
    pub include_descendants: bool,
    /// The thread as far as it is known, root first.
    pub thread: Seq<TweetView>,
}

/// Where a tweet that is being acquired came from.
pub enum OriginView {
    /// It was fetched by its id, as an ancestor.
    Ancestor,
    /// It stood on a page of search results; `rest` is what follows it there.
    Page { rest: Seq<TweetView> },
}

/// What a resolver is waiting for.
pub enum PhaseView {
    /// The store's answer to `LookupTweet { id }`.
    Lookup { id: i64 },
    /// The remote service's answer to `FetchTweet { id }`.
    Fetch { id: i64 },
    /// The rendering of `tweet`.
    Render { tweet: TweetView, origin: OriginView },
    /// The store's word that the author of `tweet` is stored.
    StoreAuthor { tweet: TweetView, origin: OriginView },
    /// The store's word that `tweet` is stored.
    StoreTweet { tweet: TweetView, origin: OriginView },
    /// The store's answer to `LookupReply` for the last tweet of the thread.
    ReplyLookup,
    /// The remote service's answer to `SearchReplies` for the last tweet of the thread.
    Search,
    /// Nothing: the work has ended.
    Finished,
}

/// The value of a [`ThreadResolver`].
pub struct ResolverView {
    pub walk: WalkView,
    pub phase: PhaseView,
}

/// What the caller is told when an event arrives that does not answer the action
/// that was handed out.
pub open spec fn spec_unexpected(event: EventView) -> ResolveErrorView {
    match event {
        EventView::StoreFailed { cause } => ResolveErrorView::StoreFailure { cause },
        EventView::Tweet { .. } | EventView::Stored => ResolveErrorView::StoreFailure {
            cause: "unexpected answer from the store"@,
        },
        _ => ResolveErrorView::TransportFailure {
            cause: "unexpected answer from the remote service"@,
        },
    }
}

impl WalkView {
    /// The walk with nothing left of its thread.
    pub open spec fn emptied(self) -> WalkView {
        WalkView { thread: Seq::empty(), ..self }
    }

    /// The walk with `tweet` before its thread.
    pub open spec fn with_ancestor(self, tweet: TweetView) -> WalkView {
        WalkView { thread: seq![tweet] + self.thread, ..self }
    }

    /// The walk with `tweet` behind its thread.
    pub open spec fn with_reply(self, tweet: TweetView) -> WalkView {
        WalkView { thread: self.thread.push(tweet), ..self }
    }

    /// The work ends with `error`, and the thread is dropped.
    pub open spec fn halt(self, error: ResolveErrorView) -> (ResolverView, ActionView) {
        (
            ResolverView { walk: self.emptied(), phase: PhaseView::Finished },
            ActionView::Fail { error },
        )
    }

    /// The work ends, and the thread is handed out.
    pub open spec fn finish(self) -> (ResolverView, ActionView) {
        (
            ResolverView { walk: self.emptied(), phase: PhaseView::Finished },
            ActionView::Done { thread: self.thread },
        )
    }

    /// The forward walk goes on from the last tweet of the thread: the store is
    /// asked for a reply to it.
    pub open spec fn descend(self) -> (ResolverView, ActionView) {
        (
            ResolverView { walk: self, phase: PhaseView::ReplyLookup },
            ActionView::LookupReply { parent_id: self.thread.last().id },
        )
    }

    /// An ancestor is there. It goes before the thread. If it replies to its own
    /// author, the walk goes on with the tweet that it replies to. If not, the
    /// backward walk has reached its root.
    pub open spec fn accept_ancestor(self, tweet: TweetView) -> (ResolverView, ActionView) {
        let grown = self.with_ancestor(tweet);
        match self_parent(tweet) {
            Some(parent) => (
                ResolverView { walk: grown, phase: PhaseView::Lookup { id: parent } },
                ActionView::LookupTweet { id: parent },
            ),
            None => if self.include_descendants {
                grown.descend()
            } else {
                grown.finish()
            },
        }
    }

    /// Goes through what is left of a page of search results. The first tweet on it
    /// that replies to the last tweet of the thread is acquired next. Where there
    /// is none: a page that gave nothing at all (`first`) ends the walk, one that
    /// gave something sends the walk back to the store.
    pub open spec fn scan(self, rest: Seq<TweetView>, first: bool) -> (ResolverView, ActionView) {
        match first_reply(rest, self.thread.last().id) {
            Some(i) => (
                ResolverView {
                    walk: self,
                    phase: PhaseView::Render {
                        tweet: rest[i],
                        origin: OriginView::Page { rest: rest.skip(i + 1) },
                    },
                },
                ActionView::FetchRendered { handle: rest[i].author.handle, id: rest[i].id },
            ),
            None => if first {
                self.finish()
            } else {
                self.descend()
            },
        }
    }

    /// A tweet has been rendered and stored: it joins the thread, at the end that
    /// it came for.
    pub open spec fn accept(self, tweet: TweetView, origin: OriginView) -> (
        ResolverView,
        ActionView,
    ) {
        match origin {
            OriginView::Ancestor => self.accept_ancestor(tweet),
            OriginView::Page { rest } => self.with_reply(tweet).scan(rest, false),
        }
    }
}

impl ResolverView {
    /// The resolver that has just asked the store for the tweet `id`.
    pub open spec fn initial(handle: Seq<char>, id: i64, include_descendants: bool)
        -> ResolverView {
        ResolverView {
            walk: WalkView { handle, requested: id, include_descendants, thread: Seq::empty() },
            phase: PhaseView::Lookup { id },
        }
    }

    /// A resolver on the forward walk has a thread to go on from.
    pub open spec fn wf(self) -> bool {
        match self.phase {
            PhaseView::Render { origin, .. }
            | PhaseView::StoreAuthor { origin, .. }
            | PhaseView::StoreTweet { origin, .. } => origin is Page ==> self.walk.thread.len() > 0,
            PhaseView::ReplyLookup | PhaseView::Search => self.walk.thread.len() > 0,
            _ => true,
        }
    }

    /// The action that the resolver is waiting for an answer to, if it waits.
    pub open spec fn pending(self) -> Option<ActionView> {
        match self.phase {
            PhaseView::Lookup { id } => Some(ActionView::LookupTweet { id }),
            PhaseView::Fetch { id } => Some(ActionView::FetchTweet { id }),
            PhaseView::Render { tweet, .. } => Some(
                ActionView::FetchRendered { handle: tweet.author.handle, id: tweet.id },
            ),
            PhaseView::StoreAuthor { tweet, .. } => Some(
                ActionView::PutAuthor { author: tweet.author },
            ),
            PhaseView::StoreTweet { tweet, .. } => Some(ActionView::PutTweet { tweet }),
            PhaseView::ReplyLookup => Some(
                ActionView::LookupReply { parent_id: self.walk.thread.last().id },
            ),
            PhaseView::Search => Some(
                ActionView::SearchReplies {
                    handle: self.walk.thread.last().author.handle,
                    since_id: self.walk.thread.last().id,
                },
            ),
            PhaseView::Finished => None,
        }
    }

    /// The resolver after `event`, and what it asks for next.
    ///
    /// An event that does not answer the pending action ends the work with a
    /// failure, and so does every event after the end.
    pub open spec fn step(self, event: EventView) -> (ResolverView, ActionView) {
        let walk = self.walk;
        match self.phase {
            PhaseView::Lookup { id } => match event {
                EventView::Tweet { tweet: Some(tweet) } => walk.accept_ancestor(tweet),
                EventView::Tweet { tweet: None } => (
                    ResolverView { walk, phase: PhaseView::Fetch { id } },
                    ActionView::FetchTweet { id },
                ),
                _ => walk.halt(spec_unexpected(event)),
            },
            PhaseView::Fetch { id } => match event {
                EventView::Fetched { fetched: Ok(tweet) } => (
                    ResolverView {
                        walk,
                        phase: PhaseView::Render { tweet, origin: OriginView::Ancestor },
                    },
                    ActionView::FetchRendered { handle: tweet.author.handle, id: tweet.id },
                ),
                EventView::Fetched { fetched: Err(error) } => walk.halt(
                    spec_classify(error, walk.handle, id),
                ),
                _ => walk.halt(spec_unexpected(event)),
            },
            PhaseView::Render { tweet, origin } => match event {
                EventView::Rendered { rendered: Ok(content) } => {
                    let rendered = TweetView { rendered_content: content, ..tweet };
                    (
                        ResolverView {
                            walk,
                            phase: PhaseView::StoreAuthor { tweet: rendered, origin },
                        },
                        ActionView::PutAuthor { author: rendered.author },
                    )
                },
                EventView::Rendered { rendered: Err(error) } => walk.halt(
                    spec_classify(error, walk.handle, tweet.id),
                ),
                _ => walk.halt(spec_unexpected(event)),
            },
            PhaseView::StoreAuthor { tweet, origin } => match event {
                EventView::Stored => (
                    ResolverView { walk, phase: PhaseView::StoreTweet { tweet, origin } },
                    ActionView::PutTweet { tweet },
                ),
                _ => walk.halt(spec_unexpected(event)),
            },
            PhaseView::StoreTweet { tweet, origin } => match event {
                EventView::Stored => walk.accept(tweet, origin),
                _ => walk.halt(spec_unexpected(event)),
            },
            PhaseView::ReplyLookup => match event {
                EventView::Tweet { tweet: Some(tweet) } => walk.with_reply(tweet).descend(),
                EventView::Tweet { tweet: None } => (
                    ResolverView { walk, phase: PhaseView::Search },
                    ActionView::SearchReplies {
                        handle: walk.thread.last().author.handle,
                        since_id: walk.thread.last().id,
                    },
                ),
                _ => walk.halt(spec_unexpected(event)),
            },
            PhaseView::Search => match event {
                EventView::Page { page: Ok(page) } => walk.scan(page, true),
                EventView::Page { page: Err(error) } => walk.halt(
                    spec_classify(error, walk.handle, walk.thread.last().id),
                ),
                _ => walk.halt(spec_unexpected(event)),
            },
            PhaseView::Finished => walk.halt(spec_unexpected(event)),
        }
    }
}

struct Walk {
    handle: String,
    requested: i64,
    include_descendants: bool,
    thread: Vec<Tweet>,
}

impl View for Walk {
    type V = WalkView;

    closed spec fn view(&self) -> WalkView {
        WalkView {
            handle: self.handle@,
            requested: self.requested,
            include_descendants: self.include_descendants,
            thread: tweet_views(self.thread@),
        }
    }
}

enum Origin {
    Ancestor,
    Page { page: Vec<Tweet>, next: usize },
}

impl View for Origin {
    type V = OriginView;

    closed spec fn view(&self) -> OriginView {
        match self {
            Origin::Ancestor => OriginView::Ancestor,
            Origin::Page { page, next } => OriginView::Page {
                rest: tweet_views(page@).skip(*next as int),
            },
        }
    }
}

impl Origin {
    spec fn bounded(&self) -> bool {
        match self {
            Origin::Ancestor => true,
            Origin::Page { page, next } => *next <= page.len(),
        }
    }
}

enum Phase {
    Lookup { id: i64 },
    Fetch { id: i64 },
    Render { tweet: Tweet, origin: Origin },
    StoreAuthor { tweet: Tweet, origin: Origin },
    StoreTweet { tweet: Tweet, origin: Origin },
    ReplyLookup,
    Search,
    Finished,
}

impl View for Phase {
    type V = PhaseView;

    closed spec fn view(&self) -> PhaseView {
        match self {
            Phase::Lookup { id } => PhaseView::Lookup { id: *id },
            Phase::Fetch { id } => PhaseView::Fetch { id: *id },
            Phase::Render { tweet, origin } => PhaseView::Render { tweet: tweet@, origin: origin@ },
            Phase::StoreAuthor { tweet, origin } => PhaseView::StoreAuthor {
                tweet: tweet@,
                origin: origin@,
            },
            Phase::StoreTweet { tweet, origin } => PhaseView::StoreTweet {
                tweet: tweet@,
                origin: origin@,
            },
            Phase::ReplyLookup => PhaseView::ReplyLookup,
            Phase::Search => PhaseView::Search,
            Phase::Finished => PhaseView::Finished,
        }
    }
}

impl Phase {
    spec fn bounded(&self) -> bool {
        match self {
            Phase::Render { origin, .. }
            | Phase::StoreAuthor { origin, .. }
            | Phase::StoreTweet { origin, .. } => origin.bounded(),
            _ => true,
        }
    }
}

/// The walk along the thread around one tweet. See the module's description.
pub struct ThreadResolver {
    walk: Walk,
    phase: Phase,
}

impl View for ThreadResolver {
    type V = ResolverView;

    closed spec fn view(&self) -> ResolverView {
        ResolverView { walk: self.walk@, phase: self.phase@ }
    }
}

/// What the caller is told when `event` does not answer the pending action.
fn unexpected(event: Event) -> (error: ResolveError)
    ensures
        error@ == spec_unexpected(event@),
{
    match event {
        Event::StoreFailed { cause } => ResolveError::StoreFailure { cause },
        Event::Tweet { .. } => ResolveError::StoreFailure {
            cause: String::from_str("unexpected answer from the store"),
        },
        Event::Stored => ResolveError::StoreFailure {
            cause: String::from_str("unexpected answer from the store"),
        },
        _ => ResolveError::TransportFailure {
            cause: String::from_str("unexpected answer from the remote service"),
        },
    }
}

impl Walk {
    fn halt(self, error: ResolveError) -> (next: (ThreadResolver, Action))
        ensures
            (next.0@, next.1@) == self@.halt(error@),
    {
        let Walk { handle, requested, include_descendants, thread: _ } = self;
        let walk = Walk { handle, requested, include_descendants, thread: Vec::new() };
        assert(walk@.thread =~= Seq::empty());
        (ThreadResolver { walk, phase: Phase::Finished }, Action::Fail { error })
    }

    fn finish(self) -> (next: (ThreadResolver, Action))
        ensures
            (next.0@, next.1@) == self@.finish(),
    {
        let Walk { handle, requested, include_descendants, thread } = self;
        let walk = Walk { handle, requested, include_descendants, thread: Vec::new() };
        assert(walk@.thread =~= Seq::empty());
        (ThreadResolver { walk, phase: Phase::Finished }, Action::Done { thread })
    }

    fn descend(self) -> (next: (ThreadResolver, Action))
        requires
            self.thread.len() > 0,
        ensures
            (next.0@, next.1@) == self@.descend(),
    {
        let parent_id = self.thread[self.thread.len() - 1].id;
        (ThreadResolver { walk: self, phase: Phase::ReplyLookup }, Action::LookupReply { parent_id })
    }

    fn accept_ancestor(self, tweet: Tweet) -> (next: (ThreadResolver, Action))
        ensures
            (next.0@, next.1@) == self@.accept_ancestor(tweet@),
    {
        let parent = tweet.self_parent();
        let Walk { handle, requested, include_descendants, mut thread } = self;
        thread.insert(0, tweet);
        let grown = Walk { handle, requested, include_descendants, thread };
        assert(grown@.thread =~= seq![tweet@] + self@.thread);
        match parent {
            Some(id) => (
                ThreadResolver { walk: grown, phase: Phase::Lookup { id } },
                Action::LookupTweet { id },
            ),
            None => if include_descendants {
                grown.descend()
            } else {
                grown.finish()
            },
        }
    }

    fn with_reply(self, tweet: Tweet) -> (grown: Walk)
        ensures
            grown@ == self@.with_reply(tweet@),
            grown.thread.len() > 0,
    {
        let Walk { handle, requested, include_descendants, mut thread } = self;
        thread.push(tweet);
        let grown = Walk { handle, requested, include_descendants, thread };
        assert(grown@.thread =~= self@.thread.push(tweet@));
        grown
    }

    fn scan(self, page: Vec<Tweet>, start: usize, first: bool) -> (next: (ThreadResolver, Action))
        requires
            self.thread.len() > 0,
            start <= page.len(),
        ensures
            (next.0@, next.1@) == self@.scan(tweet_views(page@).skip(start as int), first),
    {
        let last_id = self.thread[self.thread.len() - 1].id;
        let ghost rest = tweet_views(page@).skip(start as int);
        match find_reply(&page, start, last_id) {
            Some(at) => {
                let tweet = page[at].clone();
                let action = Action::FetchRendered {
                    handle: tweet.author.handle.clone(),
                    id: tweet.id,
                };
                proof {
                    assert(rest[at - start] == page[at as int]@);
                    assert(rest.skip(at - start + 1) =~= tweet_views(page@).skip(at + 1));
                }
                (
                    ThreadResolver {
                        walk: self,
                        phase: Phase::Render { tweet, origin: Origin::Page { page, next: at + 1 } },
                    },
                    action,
                )
            },
            None => if first {
                self.finish()
            } else {
                self.descend()
            },
        }
    }

    fn accept(self, tweet: Tweet, origin: Origin) -> (next: (ThreadResolver, Action))
        requires
            origin.bounded(),
            origin is Page ==> self.thread.len() > 0,
        ensures
            (next.0@, next.1@) == self@.accept(tweet@, origin@),
    {
        match origin {
            Origin::Ancestor => self.accept_ancestor(tweet),
            Origin::Page { page, next } => self.with_reply(tweet).scan(page, next, false),
        }
    }
}

impl ThreadResolver {
    #[verifier::type_invariant]
    spec fn inv(&self) -> bool {
        self@.wf() && self.phase.bounded()
    }

    /// A resolver for the thread around the tweet `id`, and its first action: to ask
    /// the store for that tweet. `handle` is the author's handle as the request
    /// names it; it is used only in the address that an error carries.
    pub fn start(handle: String, id: i64, include_descendants: bool) -> (next: (
        ThreadResolver,
        Action,
    ))
        ensures
            next.0@ == ResolverView::initial(handle@, id, include_descendants),
            next.1@ == (ActionView::LookupTweet { id }),
    {
        let walk = Walk { handle, requested: id, include_descendants, thread: Vec::new() };
        assert(walk@.thread =~= Seq::empty());
        (ThreadResolver { walk, phase: Phase::Lookup { id } }, Action::LookupTweet { id })
    }

    /// Takes the answer to the action that was handed out last, and hands out the
    /// next one.
    pub fn step(self, event: Event) -> (next: (ThreadResolver, Action))
        ensures
            (next.0@, next.1@) == self@.step(event@),
            next.0@.wf(),
    {
        proof {
            use_type_invariant(&self);
        }
        let ThreadResolver { walk, phase } = self;
        let next = match phase {
            Phase::Lookup { id } => match event {
                Event::Tweet { tweet: Some(tweet) } => walk.accept_ancestor(tweet),
                Event::Tweet { tweet: None } => (
                    ThreadResolver { walk, phase: Phase::Fetch { id } },
                    Action::FetchTweet { id },
                ),
                other => walk.halt(unexpected(other)),
            },
            Phase::Fetch { id } => match event {
                Event::Fetched { fetched: Ok(tweet) } => {
                    let action = Action::FetchRendered {
                        handle: tweet.author.handle.clone(),
                        id: tweet.id,
                    };
                    (
                        ThreadResolver {
                            walk,
                            phase: Phase::Render { tweet, origin: Origin::Ancestor },
                        },
                        action,
                    )
                },
                Event::Fetched { fetched: Err(error) } => {
                    let outcome = classify(error, walk.handle.as_str(), id);
                    walk.halt(outcome)
                },
                other => walk.halt(unexpected(other)),
            },
            Phase::Render { tweet, origin } => match event {
                Event::Rendered { rendered: Ok(content) } => {
                    let Tweet { id, author, text, parent_tweet_id, parent_author_id, .. } = tweet;
                    let action = Action::PutAuthor { author: author.clone() };
                    let rendered = Tweet {
                        id,
                        author,
                        text,
                        parent_tweet_id,
                        parent_author_id,
                        rendered_content: content,
                    };
                    (
                        ThreadResolver {
                            walk,
                            phase: Phase::StoreAuthor { tweet: rendered, origin },
                        },
                        action,
                    )
                },
                Event::Rendered { rendered: Err(error) } => {
                    let outcome = classify(error, walk.handle.as_str(), tweet.id);
                    walk.halt(outcome)
                },
                other => walk.halt(unexpected(other)),
            },
            Phase::StoreAuthor { tweet, origin } => match event {
                Event::Stored => {
                    let action = Action::PutTweet { tweet: tweet.clone() };
                    (ThreadResolver { walk, phase: Phase::StoreTweet { tweet, origin } }, action)
                },
                other => walk.halt(unexpected(other)),
            },
            Phase::StoreTweet { tweet, origin } => match event {
                Event::Stored => walk.accept(tweet, origin),
                other => walk.halt(unexpected(other)),
            },
            Phase::ReplyLookup => match event {
                Event::Tweet { tweet: Some(tweet) } => walk.with_reply(tweet).descend(),
                Event::Tweet { tweet: None } => {
                    let last = &walk.thread[walk.thread.len() - 1];
                    let action = Action::SearchReplies {
                        handle: last.author.handle.clone(),
                        since_id: last.id,
                    };
                    (ThreadResolver { walk, phase: Phase::Search }, action)
                },
                other => walk.halt(unexpected(other)),
            },
            Phase::Search => match event {
                Event::Page { page: Ok(page) } => {
                    assert(tweet_views(page@).skip(0) =~= tweet_views(page@));
                    walk.scan(page, 0, true)
                },
                Event::Page { page: Err(error) } => {
                    let last_id = walk.thread[walk.thread.len() - 1].id;
                    let outcome = classify(error, walk.handle.as_str(), last_id);
                    walk.halt(outcome)
                },
                other => walk.halt(unexpected(other)),
            },
            Phase::Finished => walk.halt(unexpected(event)),
        };
        proof {
            use_type_invariant(&next.0);
        }
        next
    }

    /// Whether the work has ended, so that no event is waited for.
    pub fn is_finished(&self) -> (yes: bool)
        ensures
            yes == (self@.phase is Finished),
    {
        match self.phase {
            Phase::Finished => true,
            _ => false,
        }
    }
}

/// Whether `thread` is what the backward walk from the tweet `requested` yields: a
/// self-thread that ends with that tweet and whose first tweet does not reply to
/// its own author, so that the walk stops there.
pub open spec fn is_ancestry(thread: Seq<TweetView>, requested: i64) -> bool {
    &&& thread.len() > 0
    &&& is_self_thread(thread)
    &&& self_parent(thread[0]) is None
    &&& thread.last().id == requested
}

/// Whether `thread` begins with what the backward walk from the tweet `requested`
/// yields, and goes on from there, if at all, by direct replies.
pub open spec fn is_resolution(thread: Seq<TweetView>, requested: i64) -> bool {
    &&& is_linked(thread)
    &&& exists|k: int| 0 < k <= thread.len() && is_ancestry(#[trigger] thread.take(k), requested)
}

impl ResolverView {
    /// Whether `event` is an answer to what was asked: a tweet that was asked for by
    /// its id has that id, and a tweet that was asked for as a reply is a reply to
    /// the tweet that was named. Nothing is asked of the other events.
    pub open spec fn answered_by(self, event: EventView) -> bool {
        match self.phase {
            PhaseView::Lookup { id } => event matches EventView::Tweet { tweet: Some(tweet) }
                ==> tweet.id == id,
            PhaseView::Fetch { id } => event matches EventView::Fetched { fetched: Ok(tweet) }
                ==> tweet.id == id,
            PhaseView::ReplyLookup => event matches EventView::Tweet { tweet: Some(tweet) }
                ==> replies_to(tweet, self.walk.thread.last().id),
            _ => true,
        }
    }

    /// The resolver after the events of `events`, one after the other.
    pub open spec fn after(self, events: Seq<EventView>) -> ResolverView
        decreases events.len(),
    {
        if events.len() == 0 {
            self
        } else {
            self.after(events.drop_last()).step(events.last()).0
        }
    }

    /// Whether each event of `events` answers what the resolver asked before it.
    pub open spec fn answered_throughout(self, events: Seq<EventView>) -> bool {
        forall|i: int|
            0 <= i < events.len() ==> (#[trigger] self.after(events.take(i))).answered_by(
                events[i],
            )
    }

    /// Whether the resolver is on the backward walk.
    pub open spec fn walks_back(self) -> bool {
        match self.phase {
            PhaseView::Lookup { .. } | PhaseView::Fetch { .. } => true,
            PhaseView::Render { origin, .. }
            | PhaseView::StoreAuthor { origin, .. }
            | PhaseView::StoreTweet { origin, .. } => origin is Ancestor,
            _ => false,
        }
    }

    /// On the backward walk, while the tweet `id` is being acquired: the thread so
    /// far is a self-thread that ends with the requested tweet, and `id` is what
    /// its first tweet replies to. Before the first tweet is there, `id` is the
    /// requested id.
    pub open spec fn awaits_ancestor(self, id: i64) -> bool {
        let thread = self.walk.thread;
        &&& is_self_thread(thread)
        &&& if thread.len() == 0 {
            id == self.walk.requested
        } else {
            self_parent(thread[0]) == Some(id) && thread.last().id == self.walk.requested
        }
    }

    /// What holds of a resolver at every step, as long as it is answered what it
    /// asked for.
    pub open spec fn coherent(self) -> bool {
        let thread = self.walk.thread;
        &&& self.wf()
        &&& self.walks_back() || self.phase is Finished || self.walk.include_descendants
        &&& match self.phase {
            PhaseView::Lookup { id } | PhaseView::Fetch { id } => self.awaits_ancestor(id),
            PhaseView::Render { tweet, origin }
            | PhaseView::StoreAuthor { tweet, origin }
            | PhaseView::StoreTweet { tweet, origin } => match origin {
                OriginView::Ancestor => self.awaits_ancestor(tweet.id),
                OriginView::Page { .. } => is_resolution(thread, self.walk.requested) && replies_to(
                    tweet,
                    thread.last().id,
                ),
            },
            PhaseView::ReplyLookup | PhaseView::Search => is_resolution(
                thread,
                self.walk.requested,
            ),
            PhaseView::Finished => true,
        }
    }
}

/// A self-thread is linked.
pub proof fn self_thread_is_linked(thread: Seq<TweetView>)
    requires
        is_self_thread(thread),
    ensures
        is_linked(thread),
{
    assert forall|i: int| 0 < i < thread.len() implies replies_to(
        #[trigger] thread[i],
        thread[i - 1].id,
    ) by {
        assert(self_parent(thread[i]) == Some(thread[i - 1].id));
    }
}

/// A resolution stays one when a direct reply to its last tweet is put behind it.
pub proof fn resolution_grows(thread: Seq<TweetView>, requested: i64, reply: TweetView)
    requires
        is_resolution(thread, requested),
        replies_to(reply, thread.last().id),
    ensures
        is_resolution(thread.push(reply), requested),
{
    let grown = thread.push(reply);
    let k = choose|k: int| 0 < k <= thread.len() && is_ancestry(#[trigger] thread.take(k), requested);
    assert(grown.take(k) =~= thread.take(k));
    assert forall|i: int| 0 < i < grown.len() implies replies_to(
        #[trigger] grown[i],
        grown[i - 1].id,
    ) by {
        if i < thread.len() {
            assert(replies_to(thread[i], thread[i - 1].id));
        }
    }
}

/// The resolver that `start` returns is coherent.
pub proof fn initial_is_coherent(handle: Seq<char>, id: i64, include_descendants: bool)
    ensures
        ResolverView::initial(handle, id, include_descendants).coherent(),
{
}

/// A step keeps a resolver well formed, whatever the event.
pub proof fn step_keeps_wf(resolver: ResolverView, event: EventView)
    requires
        resolver.wf(),
    ensures
        resolver.step(event).0.wf(),
{
    match resolver.phase {
        PhaseView::StoreTweet { tweet, origin: OriginView::Page { rest } } => {
            let grown = resolver.walk.with_reply(tweet);
            first_reply_found(rest, grown.thread.last().id);
        },
        PhaseView::Search => {
            if let EventView::Page { page: Ok(page) } = event {
                first_reply_found(page, resolver.walk.thread.last().id);
            }
        },
        _ => {},
    }
}

/// A step keeps a resolver coherent, as long as the event answers what was asked.
/// The thread that is handed out at the end is then a resolution of the requested
/// tweet: first the self-thread that leads to the tweet, from the first tweet that
/// does not reply to its own author, then direct replies, each to the tweet before
/// it. A resolver that was not asked to walk forwards hands out that self-thread
/// and nothing behind it.
pub proof fn step_keeps_coherent(resolver: ResolverView, event: EventView)
    requires
        resolver.coherent(),
        resolver.answered_by(event),
    ensures
        resolver.step(event).0.coherent(),
        resolver.step(event).1 matches ActionView::Done { thread } ==> is_resolution(
            thread,
            resolver.walk.requested,
        ),
        resolver.step(event).1 matches ActionView::Done { thread } ==> (
            !resolver.walk.include_descendants ==> is_ancestry(thread, resolver.walk.requested)
        ),
{
    let walk = resolver.walk;
    let thread = walk.thread;
    let requested = walk.requested;
    step_keeps_wf(resolver, event);
    match resolver.phase {
        PhaseView::Lookup { id } => {
            if let EventView::Tweet { tweet: Some(tweet) } = event {
                ancestor_joins(resolver, tweet);
            }
        },
        PhaseView::StoreTweet { tweet, origin } => {
            if event is Stored {
                match origin {
                    OriginView::Ancestor => {
                        ancestor_joins(resolver, tweet);
                    },
                    OriginView::Page { rest } => {
                        resolution_grows(thread, requested, tweet);
                        let grown = walk.with_reply(tweet);
                        first_reply_found(rest, grown.thread.last().id);
                    },
                }
            }
        },
        PhaseView::ReplyLookup => {
            if let EventView::Tweet { tweet: Some(tweet) } = event {
                resolution_grows(thread, requested, tweet);
            }
        },
        PhaseView::Search => {
            if let EventView::Page { page: Ok(page) } = event {
                first_reply_found(page, thread.last().id);
            }
        },
        _ => {},
    }
}

/// A resolver stays coherent through any number of steps, as long as each event
/// answers what was asked before it.
pub proof fn run_keeps_coherent(resolver: ResolverView, events: Seq<EventView>)
    requires
        resolver.coherent(),
        resolver.answered_throughout(events),
    ensures
        resolver.after(events).coherent(),
        resolver.after(events).walk.requested == resolver.walk.requested,
        resolver.after(events).walk.include_descendants == resolver.walk.include_descendants,
    decreases events.len(),
{
    if events.len() > 0 {
        let earlier = events.drop_last();
        assert forall|i: int| 0 <= i < earlier.len() implies (#[trigger] resolver.after(
            earlier.take(i),
        )).answered_by(earlier[i]) by {
            assert(earlier.take(i) =~= events.take(i));
            assert(resolver.after(events.take(i)).answered_by(events[i]));
        }
        run_keeps_coherent(resolver, earlier);
        assert(events.take(events.len() - 1) =~= earlier);
        assert(resolver.after(events.take(events.len() - 1)).answered_by(events.last()));
        step_keeps_coherent(resolver.after(earlier), events.last());
    }
}

/// Whatever thread a resolver hands out is a resolution of the tweet that it was
/// started for. Take a resolver as `start` returns it, and any events, each of
/// which answers what was asked before it. If the last of them ends the work with a
/// thread, then that thread begins with the self-thread that leads to the requested
/// tweet, from the first tweet that does not reply to its own author; behind it
/// stand only direct replies, each to the tweet before it; and where the forward
/// walk was not asked for, nothing stands behind it.
pub proof fn thread_handed_out_is_a_resolution(
    handle: Seq<char>,
    id: i64,
    include_descendants: bool,
    events: Seq<EventView>,
)
    requires
        events.len() > 0,
        ResolverView::initial(handle, id, include_descendants).answered_throughout(events),
    ensures
        ({
            let started = ResolverView::initial(handle, id, include_descendants);
            started.after(events.drop_last()).step(events.last()).1 matches ActionView::Done {
                thread,
            } ==> is_resolution(thread, id) && (!include_descendants ==> is_ancestry(thread, id))
        }),
{
    let started = ResolverView::initial(handle, id, include_descendants);
    let earlier = events.drop_last();
    assert forall|i: int| 0 <= i < earlier.len() implies (#[trigger] started.after(
        earlier.take(i),
    )).answered_by(earlier[i]) by {
        assert(earlier.take(i) =~= events.take(i));
        assert(started.after(events.take(i)).answered_by(events[i]));
    }
    run_keeps_coherent(started, earlier);
    assert(events.take(events.len() - 1) =~= earlier);
    assert(started.after(events.take(events.len() - 1)).answered_by(events.last()));
    step_keeps_coherent(started.after(earlier), events.last());
}

/// What follows when an ancestor that was asked for joins the thread.
proof fn ancestor_joins(resolver: ResolverView, tweet: TweetView)
    requires
        resolver.wf(),
        resolver.awaits_ancestor(tweet.id),
    ensures
        resolver.walk.accept_ancestor(tweet).0.coherent(),
        resolver.walk.accept_ancestor(tweet).1 matches ActionView::Done { thread } ==> is_ancestry(
            thread,
            resolver.walk.requested,
        ) && is_resolution(thread, resolver.walk.requested),
        resolver.walk.accept_ancestor(tweet).1 is Done ==> !resolver.walk.include_descendants,
        resolver.walk.accept_ancestor(tweet).0.phase is ReplyLookup ==> is_ancestry(
            resolver.walk.accept_ancestor(tweet).0.walk.thread,
            resolver.walk.requested,
        ),
{
    let thread = resolver.walk.thread;
    let grown = resolver.walk.with_ancestor(tweet).thread;
    assert(grown[0] == tweet);
    assert(grown.last().id == resolver.walk.requested) by {
        if thread.len() > 0 {
            assert(grown.last() == thread.last());
        }
    }
    assert forall|i: int| 0 < i < grown.len() implies self_parent(#[trigger] grown[i]) == Some(
        grown[i - 1].id,
    ) by {
        assert(grown[i] == thread[i - 1]);
        if i > 1 {
            assert(grown[i - 1] == thread[i - 2]);
            assert(self_parent(thread[i - 1]) == Some(thread[i - 2].id));
        }
    }
    if self_parent(tweet) is None {
        self_thread_is_linked(grown);
        assert(grown.take(grown.len() as int) =~= grown);
        assert(is_ancestry(grown.take(grown.len() as int), resolver.walk.requested));
    }
}

/// The backward walk ends at the root of the self-thread. When a resolver on the
/// backward walk turns to the forward walk, or hands out its thread, the thread is
/// the self-thread that leads to the requested tweet, and its first tweet does not
/// reply to its own author.
pub proof fn backward_walk_ends_at_root(resolver: ResolverView, event: EventView)
    requires
        resolver.coherent(),
        resolver.answered_by(event),
        resolver.walks_back(),
    ensures
        resolver.step(event).1 matches ActionView::Done { thread } ==> is_ancestry(
            thread,
            resolver.walk.requested,
        ),
        resolver.step(event).0.phase is ReplyLookup ==> is_ancestry(
            resolver.step(event).0.walk.thread,
            resolver.walk.requested,
        ),
{
    match resolver.phase {
        PhaseView::Lookup { id } => {
            if let EventView::Tweet { tweet: Some(tweet) } = event {
                ancestor_joins(resolver, tweet);
            }
        },
        PhaseView::StoreTweet { tweet, origin: OriginView::Ancestor } => {
            if event is Stored {
                ancestor_joins(resolver, tweet);
            }
        },
        _ => {},
    }
}

/// What the store has is not fetched. When the store answers a lookup with a
/// tweet, the tweet joins the thread as it is, and the next action is no call to
/// the remote service.
pub proof fn found_tweet_is_not_fetched(resolver: ResolverView, tweet: TweetView)
    requires
        resolver.wf(),
        resolver.phase is Lookup || resolver.phase is ReplyLookup,
    ensures
        !resolver.step(EventView::Tweet { tweet: Some(tweet) }).1.asks_upstream(),
        resolver.phase is Lookup ==> resolver.step(EventView::Tweet { tweet: Some(tweet) })
            == resolver.walk.accept_ancestor(tweet),
        resolver.phase is ReplyLookup ==> resolver.step(EventView::Tweet { tweet: Some(tweet) })
            == (
            ResolverView { walk: resolver.walk.with_reply(tweet), phase: PhaseView::ReplyLookup },
            ActionView::LookupReply { parent_id: tweet.id },
        ),
{
    if resolver.phase is ReplyLookup {
        assert(resolver.walk.with_reply(tweet).thread.last() == tweet);
    }
}

/// The remote service is asked for a tweet only after the store said that it does
/// not have it, and for replies only after the store said that it has none.
pub proof fn upstream_is_asked_after_a_miss(resolver: ResolverView, event: EventView)
    ensures
        resolver.step(event).1 matches ActionView::FetchTweet { id } ==> resolver.phase
            == (PhaseView::Lookup { id }) && event == (EventView::Tweet { tweet: None }),
        resolver.step(event).1 is SearchReplies ==> resolver.phase is ReplyLookup && event == (
            EventView::Tweet { tweet: None }
        ),
{
}

/// The forward walk asks for one page and no more. A page on which no tweet
/// replies to the last tweet of the thread ends the walk: the thread is handed out
/// as it is. Otherwise the first such tweet is acquired. Either way the answer to a
/// page is never another search.
pub proof fn page_decides_the_walk(resolver: ResolverView, page: Seq<TweetView>)
    requires
        resolver.phase is Search,
    ensures
        !(resolver.step(EventView::Page { page: Ok(page) }).1 is SearchReplies),
        (forall|j: int|
            0 <= j < page.len() ==> !replies_to(
                #[trigger] page[j],
                resolver.walk.thread.last().id,
            )) ==> resolver.step(EventView::Page { page: Ok(page) }) == resolver.walk.finish(),
        forall|i: int|
            crate::tweet::is_first_reply(page, resolver.walk.thread.last().id, i)
                ==> resolver.step(EventView::Page { page: Ok(page) }).1 == (
                ActionView::FetchRendered { handle: page[i].author.handle, id: page[i].id }
            ),
{
    let last_id = resolver.walk.thread.last().id;
    if forall|j: int| 0 <= j < page.len() ==> !replies_to(#[trigger] page[j], last_id) {
        first_reply_is_none(page, last_id);
    }
    assert forall|i: int| crate::tweet::is_first_reply(page, last_id, i) implies resolver.step(
        EventView::Page { page: Ok(page) },
    ).1 == (ActionView::FetchRendered { handle: page[i].author.handle, id: page[i].id }) by {
        crate::tweet::first_reply_is(page, last_id, i);
    }
}

/// Nothing is stored for a tweet that could not be fetched or rendered: when the
/// remote service fails, the step ends the work with the failure as
/// `spec_classify` states it, and asks the store for nothing.
pub proof fn upstream_failure_ends_the_work(resolver: ResolverView, event: EventView)
    requires
        resolver.wf(),
        match resolver.phase {
            PhaseView::Fetch { .. } => event matches EventView::Fetched { fetched: Err(_) },
            PhaseView::Render { .. } => event matches EventView::Rendered { rendered: Err(_) },
            PhaseView::Search => event matches EventView::Page { page: Err(_) },
            _ => false,
        },
    ensures
        resolver.step(event).1 is Fail,
        resolver.step(event).0.phase is Finished,
        resolver.phase matches PhaseView::Fetch { id } ==> (event matches EventView::Fetched {
            fetched: Err(error),
        } && resolver.step(event).1 == (ActionView::Fail {
            error: spec_classify(error, resolver.walk.handle, id),
        })),
{
}

} // verus!
