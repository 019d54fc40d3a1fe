//! The addresses that the remote service is asked at, and the address at which a
//! tweet can be visited.

use crate::decimal::{decimal, push_decimal};
use vstd::prelude::*;
use vstd::string::*;

verus! {

/// Where the tweet `id` of the author `handle` can be visited.
pub open spec fn spec_tweet_url(handle: Seq<char>, id: i64) -> Seq<char> {
    "https://twitter.com/"@ + handle + "/status/"@ + decimal(id as int)
}

/// Where the tweet `id` is looked up by itself.
pub open spec fn spec_lookup_url(id: i64) -> Seq<char> {
    "https://api.twitter.com/1.1/statuses/show.json?id="@ + decimal(id as int)
}

/// Where the rendering of the tweet `id` of the author `handle` is asked for.
pub open spec fn spec_rendering_url(handle: Seq<char>, id: i64) -> Seq<char> {
    "https://publish.twitter.com/oembed?url="@ + spec_tweet_url(handle, id)
        + "&hide_thread=true&omit_script=true&dnt=true"@
}

/// Where tweets sent to and from `handle` after the tweet `since_id` are searched:
/// one page of at most a hundred.
pub open spec fn spec_search_url(handle: Seq<char>, since_id: i64) -> Seq<char> {
    "https://api.twitter.com/1.1/search/tweets.json?q=to%3A"@ + handle + "%20from%3A"@ + handle
        + "&since_id="@ + decimal(since_id as int) + "&include_entities=false&count=100"@
}

/// The address at which the tweet `id` of the author `handle` can be visited.
pub fn tweet_url(handle: &str, id: i64) -> (url: String)
    ensures
        url@ == spec_tweet_url(handle@, id),
{
    let mut url = String::from_str("https://twitter.com/");
    url.append(handle);
    url.append("/status/");
    push_decimal(&mut url, id);
    url
}

/// The address of the single-tweet lookup for `id`.
pub fn lookup_url(id: i64) -> (url: String)
    ensures
        url@ == spec_lookup_url(id),
{
    let mut url = String::from_str("https://api.twitter.com/1.1/statuses/show.json?id=");
    push_decimal(&mut url, id);
    url
}

/// The address of the rendering of the tweet `id` of the author `handle`.
pub fn rendering_url(handle: &str, id: i64) -> (url: String)
    ensures
        url@ == spec_rendering_url(handle@, id),
{
    let mut url = String::from_str("https://publish.twitter.com/oembed?url=");
    let visit = tweet_url(handle, id);
    url.append(visit.as_str());
    url.append("&hide_thread=true&omit_script=true&dnt=true");
    url
}

/// The address of the search for tweets to and from `handle` after `since_id`.
pub fn search_url(handle: &str, since_id: i64) -> (url: String)
    ensures
        url@ == spec_search_url(handle@, since_id),
{
    let mut url = String::from_str("https://api.twitter.com/1.1/search/tweets.json?q=to%3A");
    url.append(handle);
    url.append("%20from%3A");
    url.append(handle);
    url.append("&since_id=");
    push_decimal(&mut url, since_id);
    url.append("&include_entities=false&count=100");
    url
}

} // verus!
