//! What a web front asks of the library besides the thread itself: which tweet a
//! visitor means, which port to listen on, and what to call a page.

use crate::decimal::{decimal, parse_i64, parse_u16, push_decimal, spec_parse_i64, spec_parse_u16};
use crate::errors::option_text;
use crate::tweet::{tweet_views, Tweet, TweetView};
use vstd::prelude::*;
use vstd::string::*;

verus! {

/// The groups of the leftmost match of the regular expression `pattern` in `text`,
/// as the `regex` crate finds them: the whole match first, then each group in the
/// order of its opening bracket, with nothing for a group that took no part in the
/// match. There are none where `text` has no match, or where `pattern` is not a
/// regular expression that the crate accepts.
pub uninterp spec fn regex_groups(pattern: Seq<char>, text: Seq<char>) -> Option<
    Seq<Option<Seq<char>>>,
>;

/// The value of the groups of a match.
pub open spec fn groups_view(groups: Option<Vec<Option<String>>>) -> Option<
    Seq<Option<Seq<char>>>,
> {
    match groups {
        Some(found) => Some(Seq::new(found.len() as nat, |i: int| option_text(found[i]))),
        None => None,
    }
}

/// Matches `text` against `pattern` with `regex::Regex::new` and
/// `regex::Regex::captures`, and copies out what each group matched. The contract
/// claims only that the crate's answer depends on the pattern and the text alone;
/// what the answer is, is not stated.
#[verifier::external_body]
fn capture_groups(pattern: &str, text: &str) -> (groups: Option<Vec<Option<String>>>)
    ensures
        groups_view(groups) == regex_groups(pattern@, text@),
{
    let expression = regex::Regex::new(pattern).ok()?;
    let captures = expression.captures(text)?;
    Some(captures.iter().map(|group| group.map(|found| found.as_str().to_owned())).collect())
}

/// The pattern of an address that names a tweet: the site, the author's handle,
/// and the tweet's id in digits.
pub open spec fn tweet_url_pattern() -> Seq<char> {
    "twitter.com/([^/]+)/status/(\\d+)"@
}

/// What a visitor submitted.
#[derive(Debug, PartialEq, Eq)]
pub enum Submission {
    /// No address was submitted.
    Missing,
    /// What was submitted names no tweet.
    Malformed,
    /// The tweet `id` of the author `handle`.
    Tweet { handle: String, id: i64 },
}

/// The value of a [`Submission`].
pub enum SubmissionView {
    Missing,
    Malformed,
    Tweet { handle: Seq<char>, id: i64 },
}

impl View for Submission {
    type V = SubmissionView;

    open spec fn view(&self) -> SubmissionView {
        match self {
            Submission::Missing => SubmissionView::Missing,
            Submission::Malformed => SubmissionView::Malformed,
            Submission::Tweet { handle, id } => SubmissionView::Tweet { handle: handle@, id: *id },
        }
    }
}

/// The tweet that the groups of a match name: the first group is the handle, the
/// second the id. Where there is no match, where a group is missing, or where the
/// second group is no id that an `i64` can hold, they name none.
pub open spec fn spec_submission(groups: Option<Seq<Option<Seq<char>>>>) -> SubmissionView {
    match groups {
        Some(found) => {
            if found.len() == 3 && found[1] is Some && found[2] is Some {
                match spec_parse_i64(found[2].unwrap()) {
                    Some(id) => SubmissionView::Tweet { handle: found[1].unwrap(), id },
                    None => SubmissionView::Malformed,
                }
            } else {
                SubmissionView::Malformed
            }
        },
        None => SubmissionView::Malformed,
    }
}

/// Reads the tweet that the groups of a match name.
pub fn submission_from_groups(groups: Option<Vec<Option<String>>>) -> (submission: Submission)
    ensures
        submission@ == spec_submission(groups_view(groups)),
{
    match groups {
        Some(found) => {
            if found.len() != 3 {
                return Submission::Malformed;
            }
            match (&found[1], &found[2]) {
                (Some(handle), Some(digits)) => match parse_i64(digits.as_str()) {
                    Some(id) => Submission::Tweet { handle: handle.clone(), id },
                    None => Submission::Malformed,
                },
                _ => Submission::Malformed,
            }
        },
        None => Submission::Malformed,
    }
}

/// Reads what a visitor submitted as the address of a tweet. The address may stand
/// anywhere in the text.
pub fn read_submission(twitter_url: Option<&str>) -> (submission: Submission)
    ensures
        submission@ == match twitter_url {
            Some(url) => spec_submission(regex_groups(tweet_url_pattern(), url@)),
            None => SubmissionView::Missing,
        },
{
    match twitter_url {
        Some(url) => submission_from_groups(
            capture_groups("twitter.com/([^/]+)/status/(\\d+)", url),
        ),
        None => Submission::Missing,
    }
}

/// The path of the page that shows `thread` for a request that named the author
/// `handle`: it ends in the id of the last tweet.
pub open spec fn spec_thread_path(handle: Seq<char>, thread: Seq<TweetView>) -> Option<
    Seq<char>,
> {
    if thread.len() > 0 {
        Some("/tweet/"@ + handle + "/"@ + decimal(thread.last().id as int))
    } else {
        None
    }
}

/// The path to send a visitor to once `thread` is rebuilt. An empty thread has no
/// page.
pub fn thread_path(handle: &str, thread: &Vec<Tweet>) -> (path: Option<String>)
    ensures
        option_text(path) == spec_thread_path(handle@, tweet_views(thread@)),
{
    if thread.len() == 0 {
        return None;
    }
    let mut path = String::from_str("/tweet/");
    path.append(handle);
    path.append("/");
    push_decimal(&mut path, thread[thread.len() - 1].id);
    Some(path)
}

/// The title of the page that shows `thread`: the site's name and the name of the
/// author of the first tweet.
pub open spec fn spec_thread_title(thread: Seq<TweetView>) -> Option<Seq<char>> {
    if thread.len() > 0 {
        Some("Gasconade - "@ + thread[0].author.display_name)
    } else {
        None
    }
}

/// The title of the page that shows `thread`. An empty thread has no page.
pub fn thread_title(thread: &Vec<Tweet>) -> (title: Option<String>)
    ensures
        option_text(title) == spec_thread_title(tweet_views(thread@)),
{
    if thread.len() == 0 {
        return None;
    }
    let mut title = String::from_str("Gasconade - ");
    title.append(thread[0].author.display_name.as_str());
    Some(title)
}

/// The port to listen on: what `configured` says, or 8000 where nothing is
/// configured. A text that is no port number gives none.
pub open spec fn spec_server_port(configured: Option<Seq<char>>) -> Option<u16> {
    match configured {
        Some(text) => spec_parse_u16(text),
        None => Some(8000u16),
    }
}

/// The port to listen on.
pub fn server_port(configured: Option<&str>) -> (port: Option<u16>)
    ensures
        port == spec_server_port(
            match configured {
                Some(text) => Some(text@),
                None => None,
            },
        ),
{
    match configured {
        Some(text) => parse_u16(text),
        None => Some(8000),
    }
}

} // verus!
