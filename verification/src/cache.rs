//! The store and the resolver together: what the store has is taken from the
//! store, and what it lacks is fetched once and stored.
//!
//! Nothing here runs. These are statements about whole walks, over the values of a
//! store and a resolver and over a model of the remote service.

use crate::errors::{spec_classify, UpstreamErrorView};
use crate::protocol::{ActionView, EventView};
use crate::resolver::{OriginView, PhaseView, ResolverView, WalkView};
use crate::store::{put_author_is_idempotent, put_author_keeps, put_tweet_keeps, StoreView};
use crate::tweet::{
    first_reply_found, first_reply_is_none, is_self_thread, replies_to, self_parent, TweetView,
};
use vstd::prelude::*;

verus! {

/// A well-formed store answers what it was asked: the tweet that it gives for an
/// id has that id, and the reply that it gives for a tweet replies to that tweet.
pub proof fn store_answers_what_was_asked(store: StoreView, resolver: ResolverView)
    requires
        store.wf(),
        resolver.pending() matches Some(action) && action.asks_store(),
    ensures
        store.serve(resolver.pending().unwrap()).1 matches Some(event) && resolver.answered_by(
            event,
        ),
{
    let action = resolver.pending().unwrap();
    match action {
        ActionView::LookupTweet { id } => {},
        ActionView::LookupReply { parent_id } => {
            first_reply_found(store.tweets, parent_id);
        },
        _ => {},
    }
}

/// A tweet that the store has is not fetched. When a resolver asks for a tweet
/// that the store has, the store gives it and stays as it is; the tweet is taken
/// as an ancestor, before the thread; and what the resolver asks for next is no
/// call to the remote service.
pub proof fn stored_tweet_is_not_fetched(store: StoreView, resolver: ResolverView, id: i64)
    requires
        store.wf(),
        resolver.wf(),
        resolver.phase == (PhaseView::Lookup { id }),
        store.tweet(id) is Some,
    ensures
        store.serve(resolver.pending().unwrap()) == (
            store,
            Some(EventView::Tweet { tweet: store.tweet(id) }),
        ),
        ({
            let next = resolver.step(EventView::Tweet { tweet: store.tweet(id) });
            &&& !next.1.asks_upstream()
            &&& next == resolver.walk.accept_ancestor(store.tweet(id).unwrap())
        }),
{
}

/// A reply that the store has is not searched for. When a resolver asks for a
/// reply to the last tweet of its thread and the store has one, the store gives
/// the one that was stored first and stays as it is; the reply goes behind the
/// thread; and the resolver asks the store for a reply to it in turn.
pub proof fn stored_reply_is_not_searched(store: StoreView, resolver: ResolverView)
    requires
        store.wf(),
        resolver.wf(),
        resolver.phase is ReplyLookup,
        store.reply_to(resolver.walk.thread.last().id) is Some,
    ensures
        store.serve(resolver.pending().unwrap()) == (
            store,
            Some(EventView::Tweet { tweet: store.reply_to(resolver.walk.thread.last().id) }),
        ),
        ({
            let reply = store.reply_to(resolver.walk.thread.last().id).unwrap();
            let next = resolver.step(EventView::Tweet { tweet: Some(reply) });
            &&& next.1 == (ActionView::LookupReply { parent_id: reply.id })
            &&& next.0.walk.thread == resolver.walk.thread.push(reply)
        }),
{
    let reply = store.reply_to(resolver.walk.thread.last().id).unwrap();
    assert(resolver.walk.with_reply(reply).thread.last() == reply);
}

/// The store's answer to what `resolver` asks for, the store after it, and the
/// resolver after the answer with what it asks for next.
pub open spec fn served(store: StoreView, resolver: ResolverView) -> (
    StoreView,
    ResolverView,
    ActionView,
) {
    let answer = store.serve(resolver.pending().unwrap());
    let next = resolver.step(answer.1.unwrap());
    (answer.0, next.0, next.1)
}

/// A tweet that the store lacks is fetched, rendered, stored and handed out. Take
/// a store without the tweet `tweet.id`, and a tweet that does not reply to its own
/// author. A resolver that is started for it, without the forward walk, asks the
/// store, which has nothing; asks the remote service for the tweet, and then for
/// its rendering; has the store put the author and then the tweet, with the
/// rendering in it; and hands out the thread of that one tweet. The store then
/// holds the tweet, and has changed in nothing else than these two puts.
pub proof fn missing_tweet_is_fetched_and_stored(
    store: StoreView,
    handle: Seq<char>,
    tweet: TweetView,
    content: Seq<char>,
)
    requires
        store.wf(),
        store.tweet(tweet.id) is None,
        self_parent(tweet) is None,
    ensures
        ({
            let rendered = TweetView { rendered_content: content, ..tweet };
            let started = ResolverView::initial(handle, tweet.id, false);
            let looked_up = served(store, started);
            let fetched = looked_up.1.step(EventView::Fetched { fetched: Ok(tweet) });
            let drawn = fetched.0.step(EventView::Rendered { rendered: Ok(content) });
            let author_put = served(looked_up.0, drawn.0);
            let tweet_put = served(author_put.0, author_put.1);
            &&& looked_up.0 == store
            &&& looked_up.2 == (ActionView::FetchTweet { id: tweet.id })
            &&& fetched.1 == (ActionView::FetchRendered {
                handle: tweet.author.handle,
                id: tweet.id,
            })
            &&& drawn.1 == (ActionView::PutAuthor { author: tweet.author })
            &&& author_put.2 == (ActionView::PutTweet { tweet: rendered })
            &&& tweet_put.2 == (ActionView::Done { thread: seq![rendered] })
            &&& tweet_put.0 == store.put_author(tweet.author).put_tweet(rendered)
            &&& tweet_put.0 == store.put_tweet(rendered)
            &&& tweet_put.0.wf()
            &&& tweet_put.0.tweet(tweet.id) is Some
            &&& tweet_put.0.author(tweet.author.id) is Some
        }),
{
    let rendered = TweetView { rendered_content: content, ..tweet };
    let with_author = store.put_author(tweet.author);
    put_author_keeps(store, tweet.author);
    put_author_is_idempotent(store, tweet.author);
    put_tweet_keeps(with_author, rendered);
    put_tweet_keeps(store, rendered);
    assert(with_author.tweets == store.tweets);
    assert(with_author.tweet(tweet.id) == store.tweet(tweet.id));
    let started = ResolverView::initial(handle, tweet.id, false);
    let looked_up = served(store, started);
    let fetched = looked_up.1.step(EventView::Fetched { fetched: Ok(tweet) });
    let drawn = fetched.0.step(EventView::Rendered { rendered: Ok(content) });
    let author_put = served(looked_up.0, drawn.0);
    let tweet_put = served(author_put.0, author_put.1);
    assert(tweet_put.2 == (ActionView::Done { thread: seq![rendered] })) by {
        assert(seq![rendered] + Seq::<TweetView>::empty() =~= seq![rendered]);
    }
}

/// A tweet that cannot be fetched leaves the store as it was. Take a store without
/// the tweet `id`. A resolver that is started for it asks the store, which has
/// nothing, and then the remote service; when that fails, the work ends with the
/// failure as `spec_classify` states it for the requested handle and id, and
/// nothing was put.
pub proof fn failed_fetch_stores_nothing(
    store: StoreView,
    handle: Seq<char>,
    id: i64,
    include_descendants: bool,
    error: UpstreamErrorView,
)
    requires
        store.tweet(id) is None,
    ensures
        ({
            let started = ResolverView::initial(handle, id, include_descendants);
            let looked_up = served(store, started);
            let failed = looked_up.1.step(EventView::Fetched { fetched: Err(error) });
            &&& looked_up.0 == store
            &&& looked_up.2 == (ActionView::FetchTweet { id })
            &&& failed.1 == (ActionView::Fail { error: spec_classify(error, handle, id) })
            &&& failed.0.phase is Finished
        }),
{
}

/// A remote service that answers each question in one way: a model, for saying
/// what a whole walk yields.
pub struct RemoteView {
    /// The answer to `FetchTweet`, by the tweet's id.
    pub tweets: Map<i64, Result<TweetView, UpstreamErrorView>>,
    /// The answer to `FetchRendered`, by the author's handle and the tweet's id.
    pub renderings: Map<(Seq<char>, i64), Result<Seq<char>, UpstreamErrorView>>,
    /// The answer to `SearchReplies`, by the author's handle and the tweet's id.
    pub pages: Map<(Seq<char>, i64), Result<Seq<TweetView>, UpstreamErrorView>>,
}

impl RemoteView {
    /// What the remote service answers to `action`; nothing, if the action is not
    /// for it.
    pub open spec fn answer(self, action: ActionView) -> Option<EventView> {
        match action {
            ActionView::FetchTweet { id } => Some(EventView::Fetched { fetched: self.tweets[id] }),
            ActionView::FetchRendered { handle, id } => Some(
                EventView::Rendered { rendered: self.renderings[(handle, id)] },
            ),
            ActionView::SearchReplies { handle, since_id } => Some(
                EventView::Page { page: self.pages[(handle, since_id)] },
            ),
            _ => None,
        }
    }

    /// The tweet `id` as a walk gets it from the remote service: fetched, and then
    /// rendered. There is none if either call fails.
    pub open spec fn rendered_tweet(self, id: i64) -> Option<TweetView> {
        match self.tweets[id] {
            Ok(tweet) => match self.renderings[(tweet.author.handle, tweet.id)] {
                Ok(content) => Some(TweetView { rendered_content: content, ..tweet }),
                Err(_) => None,
            },
            Err(_) => None,
        }
    }
}

/// The tweet `id` as a walk gets it: from the store if the store has it, else from
/// the remote service.
pub open spec fn known(store: StoreView, remote: RemoteView, id: i64) -> Option<TweetView> {
    match store.tweet(id) {
        Some(tweet) => Some(tweet),
        None => remote.rendered_tweet(id),
    }
}

/// Runs a resolver that has just asked for `action`, for `rounds` rounds at most:
/// each action is answered by the store or by the remote service, whichever it is
/// for, until the work ends. Gives the store, the resolver and the action at the
/// end.
pub open spec fn run(
    store: StoreView,
    remote: RemoteView,
    resolver: ResolverView,
    action: ActionView,
    rounds: nat,
) -> (StoreView, ResolverView, ActionView)
    decreases rounds,
{
    if rounds == 0 || action.is_final() {
        (store, resolver, action)
    } else if action.asks_store() {
        let answer = store.serve(action);
        let next = resolver.step(answer.1.unwrap());
        run(answer.0, remote, next.0, next.1, (rounds - 1) as nat)
    } else {
        let next = resolver.step(remote.answer(action).unwrap());
        run(store, remote, next.0, next.1, (rounds - 1) as nat)
    }
}

/// Whether `chain` is a self-thread from its root, of tweets with different ids,
/// each as store and remote service know it.
pub open spec fn is_known_chain(store: StoreView, remote: RemoteView, chain: Seq<TweetView>)
    -> bool {
    &&& chain.len() > 0
    &&& is_self_thread(chain)
    &&& self_parent(chain[0]) is None
    &&& forall|i: int, j: int| 0 <= i < j < chain.len() ==> chain[i].id != chain[j].id
    &&& forall|i: int|
        0 <= i < chain.len() ==> known(store, remote, (#[trigger] chain[i]).id) == Some(chain[i])
}

/// The backward walk yields the self-thread, root first, and stores what it
/// fetched. Take a self-thread from its root, of which the store has some tweets
/// and the remote service has the others. A resolver that is started for its last
/// tweet, without the forward walk, and is answered by this store and this remote
/// service, hands out exactly that thread, after no more than six rounds for each
/// tweet. The store then has every tweet of the thread, has kept every tweet that
/// it had, and is well formed.
pub proof fn backward_walk_yields_the_chain(
    store: StoreView,
    remote: RemoteView,
    handle: Seq<char>,
    chain: Seq<TweetView>,
    rounds: nat,
)
    requires
        store.wf(),
        is_known_chain(store, remote, chain),
        rounds >= 6 * chain.len(),
    ensures
        ({
            let id = chain.last().id;
            let end = run(
                store,
                remote,
                ResolverView::initial(handle, id, false),
                ActionView::LookupTweet { id },
                rounds,
            );
            &&& end.2 == (ActionView::Done { thread: chain })
            &&& end.0.wf()
            &&& forall|i: int|
                0 <= i < chain.len() ==> end.0.tweet((#[trigger] chain[i]).id) is Some
            &&& forall|id: i64| store.tweet(id) is Some ==> end.0.tweet(id) == store.tweet(id)
        }),
{
    let id = chain.last().id;
    let started = ResolverView::initial(handle, id, false);
    assert(chain.skip(chain.len() as int) =~= Seq::<TweetView>::empty());
    walk_back_from(store, remote, started.walk, chain, chain.len() - 1, rounds);
}

/// The backward walk from the place `k` of the chain on, when the tweets behind
/// that place are in the thread already.
proof fn walk_back_from(
    store: StoreView,
    remote: RemoteView,
    walk: WalkView,
    chain: Seq<TweetView>,
    k: int,
    rounds: nat,
)
    requires
        store.wf(),
        chain.len() > 0,
        is_self_thread(chain),
        self_parent(chain[0]) is None,
        forall|i: int, j: int| 0 <= i < j < chain.len() ==> chain[i].id != chain[j].id,
        0 <= k < chain.len(),
        forall|i: int|
            0 <= i <= k ==> known(store, remote, (#[trigger] chain[i]).id) == Some(chain[i]),
        forall|i: int| k < i < chain.len() ==> store.tweet((#[trigger] chain[i]).id) is Some,
        walk.thread == chain.skip(k + 1),
        !walk.include_descendants,
        rounds >= 6 * (k + 1),
    ensures
        ({
            let id = chain[k].id;
            let end = run(
                store,
                remote,
                ResolverView { walk, phase: PhaseView::Lookup { id } },
                ActionView::LookupTweet { id },
                rounds,
            );
            &&& end.2 == (ActionView::Done { thread: chain })
            &&& end.0.wf()
            &&& forall|i: int|
                0 <= i < chain.len() ==> end.0.tweet((#[trigger] chain[i]).id) is Some
            &&& forall|id: i64| store.tweet(id) is Some ==> end.0.tweet(id) == store.tweet(id)
        }),
    decreases k,
{
    let id = chain[k].id;
    let tweet = chain[k];
    let waiting = ResolverView { walk, phase: PhaseView::Lookup { id } };
    let asked = ActionView::LookupTweet { id };
    assert(known(store, remote, chain[k].id) == Some(chain[k]));
    assert(seq![tweet] + chain.skip(k + 1) =~= chain.skip(k));
    assert(chain.skip(0) =~= chain);
    if k > 0 {
        assert(self_parent(chain[k]) == Some(chain[k - 1].id));
    }
    if store.tweet(id) is Some {
        // One round: the store has the tweet.
        let accepted = walk.accept_ancestor(tweet);
        assert(run(store, remote, waiting, asked, rounds) == run(
            store,
            remote,
            accepted.0,
            accepted.1,
            (rounds - 1) as nat,
        ));
        if k > 0 {
            walk_back_from(store, remote, accepted.0.walk, chain, k - 1, (rounds - 1) as nat);
        }
    } else {
        // Five rounds: the store lacks the tweet, so it is fetched, rendered and stored.
        let raw = remote.tweets[id]->Ok_0;
        let content = remote.renderings[(raw.author.handle, raw.id)]->Ok_0;
        assert(tweet == TweetView { rendered_content: content, ..raw });
        let fetching = ResolverView { walk, phase: PhaseView::Fetch { id } };
        let rendering = ResolverView {
            walk,
            phase: PhaseView::Render { tweet: raw, origin: OriginView::Ancestor },
        };
        let putting_author = ResolverView {
            walk,
            phase: PhaseView::StoreAuthor { tweet, origin: OriginView::Ancestor },
        };
        let putting_tweet = ResolverView {
            walk,
            phase: PhaseView::StoreTweet { tweet, origin: OriginView::Ancestor },
        };
        let with_author = store.put_author(tweet.author);
        let with_tweet = with_author.put_tweet(tweet);
        let accepted = walk.accept_ancestor(tweet);
        put_author_keeps(store, tweet.author);
        put_tweet_keeps(with_author, tweet);
        assert(with_author.tweets == store.tweets);
        assert forall|other: i64| with_author.tweet(other) == store.tweet(other) by {}
        let r1 = (rounds - 1) as nat;
        let r2 = (rounds - 2) as nat;
        let r3 = (rounds - 3) as nat;
        let r4 = (rounds - 4) as nat;
        let r5 = (rounds - 5) as nat;
        assert(run(store, remote, waiting, asked, rounds) == run(
            store,
            remote,
            fetching,
            ActionView::FetchTweet { id },
            r1,
        ));
        assert(run(store, remote, fetching, ActionView::FetchTweet { id }, r1) == run(
            store,
            remote,
            rendering,
            ActionView::FetchRendered { handle: raw.author.handle, id: raw.id },
            r2,
        ));
        assert(run(
            store,
            remote,
            rendering,
            ActionView::FetchRendered { handle: raw.author.handle, id: raw.id },
            r2,
        ) == run(
            store,
            remote,
            putting_author,
            ActionView::PutAuthor { author: tweet.author },
            r3,
        ));
        assert(run(
            store,
            remote,
            putting_author,
            ActionView::PutAuthor { author: tweet.author },
            r3,
        ) == run(with_author, remote, putting_tweet, ActionView::PutTweet { tweet }, r4));
        assert(run(with_author, remote, putting_tweet, ActionView::PutTweet { tweet }, r4) == run(
            with_tweet,
            remote,
            accepted.0,
            accepted.1,
            r5,
        ));
        assert forall|other: i64| store.tweet(other) is Some implies with_tweet.tweet(other)
            == store.tweet(other) by {
            assert(with_author.tweet(other) == store.tweet(other));
        }
        if k > 0 {
            assert forall|i: int| 0 <= i <= k - 1 implies known(
                with_tweet,
                remote,
                (#[trigger] chain[i]).id,
            ) == Some(chain[i]) by {
                assert(chain[i].id != chain[k].id);
                assert(with_author.tweet(chain[i].id) == store.tweet(chain[i].id));
                assert(known(store, remote, chain[i].id) == Some(chain[i]));
            }
            assert forall|i: int| k - 1 < i < chain.len() implies with_tweet.tweet(
                (#[trigger] chain[i]).id,
            ) is Some by {
                if i > k {
                    assert(store.tweet(chain[i].id) is Some);
                }
            }
            walk_back_from(with_tweet, remote, accepted.0.walk, chain, k - 1, r5);
            let end = run(with_tweet, remote, accepted.0, accepted.1, r5);
            assert forall|other: i64| store.tweet(other) is Some implies end.0.tweet(other)
                == store.tweet(other) by {
                assert(with_tweet.tweet(other) == store.tweet(other));
            }
        } else {
            assert forall|i: int| 0 <= i < chain.len() implies with_tweet.tweet(
                (#[trigger] chain[i]).id,
            ) is Some by {
                if i > k {
                    assert(store.tweet(chain[i].id) is Some);
                }
            }
        }
    }
}

/// Whether the store has `replies` as the continuation of the tweet `last_id`: the
/// reply that it gives for that tweet is the first of them, and the reply that it
/// gives for each of them is the next.
pub open spec fn is_stored_continuation(store: StoreView, last_id: i64, replies: Seq<TweetView>)
    -> bool {
    forall|i: int|
        0 <= i < replies.len() ==> store.reply_to(
            if i == 0 {
                last_id
            } else {
                replies[i - 1].id
            },
        ) == Some(#[trigger] replies[i])
}

/// One round of the forward walk in which the store has a reply.
proof fn stored_reply_round(
    store: StoreView,
    remote: RemoteView,
    walk: WalkView,
    reply: TweetView,
    rounds: nat,
)
    requires
        walk.thread.len() > 0,
        store.reply_to(walk.thread.last().id) == Some(reply),
        rounds > 0,
    ensures
        run(
            store,
            remote,
            ResolverView { walk, phase: PhaseView::ReplyLookup },
            ActionView::LookupReply { parent_id: walk.thread.last().id },
            rounds,
        ) == run(
            store,
            remote,
            ResolverView { walk: walk.with_reply(reply), phase: PhaseView::ReplyLookup },
            ActionView::LookupReply { parent_id: reply.id },
            (rounds - 1) as nat,
        ),
{
    let waiting = ResolverView { walk, phase: PhaseView::ReplyLookup };
    let asked = ActionView::LookupReply { parent_id: walk.thread.last().id };
    let answer = store.serve(asked);
    assert(answer == (store, Some(EventView::Tweet { tweet: Some(reply) })));
    let next = waiting.step(EventView::Tweet { tweet: Some(reply) });
    assert(walk.with_reply(reply).thread.last() == reply);
    assert(next == walk.with_reply(reply).descend());
}

/// The last two rounds of the forward walk: the store has no reply, and the page
/// that is searched has none.
proof fn last_rounds(store: StoreView, remote: RemoteView, walk: WalkView, rounds: nat)
    requires
        walk.thread.len() > 0,
        store.reply_to(walk.thread.last().id) is None,
        remote.pages[(walk.thread.last().author.handle, walk.thread.last().id)] matches Ok(page)
            && forall|j: int|
            0 <= j < page.len() ==> !replies_to(#[trigger] page[j], walk.thread.last().id),
        rounds >= 2,
    ensures
        run(
            store,
            remote,
            ResolverView { walk, phase: PhaseView::ReplyLookup },
            ActionView::LookupReply { parent_id: walk.thread.last().id },
            rounds,
        ) == (store, walk.finish().0, ActionView::Done { thread: walk.thread }),
{
    let last = walk.thread.last();
    let page = remote.pages[(last.author.handle, last.id)]->Ok_0;
    first_reply_is_none(page, last.id);
    let waiting = ResolverView { walk, phase: PhaseView::ReplyLookup };
    let asked = ActionView::LookupReply { parent_id: last.id };
    let searching = ResolverView { walk, phase: PhaseView::Search };
    let search = ActionView::SearchReplies { handle: last.author.handle, since_id: last.id };
    let answer = store.serve(asked);
    assert(answer == (store, Some(EventView::Tweet { tweet: None })));
    assert(waiting.step(EventView::Tweet { tweet: None }) == (searching, search));
    assert(run(store, remote, waiting, asked, rounds) == run(
        store,
        remote,
        searching,
        search,
        (rounds - 1) as nat,
    ));
    assert(remote.answer(search) == Some(EventView::Page { page: Ok(page) }));
    assert(searching.step(EventView::Page { page: Ok(page) }) == walk.finish());
    let finished = walk.finish();
    assert(run(store, remote, searching, search, (rounds - 1) as nat) == run(
        store,
        remote,
        finished.0,
        finished.1,
        (rounds - 2) as nat,
    ));
}

/// The forward walk follows the replies that the store has, and searches once.
/// Take a resolver that asks the store for a reply to the last tweet of its
/// thread, and a store that has a continuation of that tweet but no reply to the
/// last tweet of the continuation. Let the one page that the remote service gives
/// for that last tweet hold no reply to it. Then the resolver, answered by this
/// store and this remote service, hands out its thread with the continuation
/// behind it, after one round for each reply and two at the end; and the store is
/// as it was.
pub proof fn forward_walk_follows_stored_replies(
    store: StoreView,
    remote: RemoteView,
    walk: WalkView,
    replies: Seq<TweetView>,
    rounds: nat,
)
    requires
        walk.thread.len() > 0,
        is_stored_continuation(store, walk.thread.last().id, replies),
        store.reply_to((walk.thread + replies).last().id) is None,
        remote.pages[(
            (walk.thread + replies).last().author.handle,
            (walk.thread + replies).last().id,
        )] matches Ok(page) && forall|j: int|
            0 <= j < page.len() ==> !replies_to(
                #[trigger] page[j],
                (walk.thread + replies).last().id,
            ),
        rounds >= replies.len() + 2,
    ensures
        ({
            let end = run(
                store,
                remote,
                ResolverView { walk, phase: PhaseView::ReplyLookup },
                ActionView::LookupReply { parent_id: walk.thread.last().id },
                rounds,
            );
            &&& end.2 == (ActionView::Done { thread: walk.thread + replies })
            &&& end.0 == store
        }),
    decreases replies.len(),
{
    if replies.len() == 0 {
        assert(walk.thread + replies =~= walk.thread);
        last_rounds(store, remote, walk, rounds);
    } else {
        let reply = replies[0];
        let rest = replies.skip(1);
        let grown = walk.with_reply(reply);
        assert(store.reply_to(walk.thread.last().id) == Some(replies[0]));
        assert(grown.thread.last() == reply);
        assert(grown.thread + rest =~= walk.thread + replies);
        assert forall|i: int| 0 <= i < rest.len() implies store.reply_to(
            if i == 0 {
                grown.thread.last().id
            } else {
                rest[i - 1].id
            },
        ) == Some(#[trigger] rest[i]) by {
            assert(rest[i] == replies[i + 1]);
            assert(store.reply_to(replies[i].id) == Some(replies[i + 1]));
            if i > 0 {
                assert(rest[i - 1] == replies[i]);
            }
        }
        stored_reply_round(store, remote, walk, reply, rounds);
        forward_walk_follows_stored_replies(store, remote, grown, rest, (rounds - 1) as nat);
    }
}

} // verus!
