//! What the remote service reports when it fails, and what a caller is told.

use crate::decimal::{decimal, decimal_nat, push_decimal, push_decimal_u64};
use crate::links::{spec_tweet_url, tweet_url};
use vstd::prelude::*;
use vstd::string::*;

verus! {

/// The code by which the remote service says that it has no such tweet.
pub const NO_SUCH_TWEET_CODE: u16 = 144;

/// A failed call to the remote service. `client_error` says that the HTTP layer
/// reported a client error, so that `code` and `message` come from the service's
/// own answer. Without it the call failed in transport, and `message` says how.
#[derive(Debug, PartialEq, Eq)]
pub struct UpstreamError {
    pub code: u16,
    pub message: String,
    pub client_error: bool,
}

/// The value of an [`UpstreamError`].
pub struct UpstreamErrorView {
    pub code: u16,
    pub message: Seq<char>,
    pub client_error: bool,
}

impl View for UpstreamError {
    type V = UpstreamErrorView;

    open spec fn view(&self) -> UpstreamErrorView {
        UpstreamErrorView {
            code: self.code,
            message: self.message@,
            client_error: self.client_error,
        }
    }
}

/// One entry of the list of errors that the remote service sends with a refusal.
#[derive(Debug, PartialEq, Eq)]
pub struct ServiceError {
    pub code: u16,
    pub message: String,
}

/// The refusal that a list of the service's errors stands for: its first entry
/// counts. An empty list stands for none.
pub open spec fn spec_first_refusal(errors: Seq<ServiceError>) -> Option<UpstreamErrorView> {
    if errors.len() > 0 {
        Some(
            UpstreamErrorView {
                code: errors[0].code,
                message: errors[0].message@,
                client_error: true,
            },
        )
    } else {
        None
    }
}

/// The value of a failure that may be absent.
pub open spec fn upstream_error_option_view(error: Option<UpstreamError>) -> Option<
    UpstreamErrorView,
> {
    match error {
        Some(e) => Some(e@),
        None => None,
    }
}

/// Reads the list of errors that came with a client error of the HTTP layer.
pub fn first_refusal(errors: &Vec<ServiceError>) -> (refusal: Option<UpstreamError>)
    ensures
        upstream_error_option_view(refusal) == spec_first_refusal(errors@),
{
    if errors.len() > 0 {
        Some(
            UpstreamError {
                code: errors[0].code,
                message: errors[0].message.clone(),
                client_error: true,
            },
        )
    } else {
        None
    }
}

/// Why a thread could not be rebuilt.
#[derive(Debug, PartialEq, Eq)]
pub enum ResolveError {
    /// The remote service has no tweet with this id.
    NoSuchTweet { id: i64 },
    /// The remote service refused for another reason. `original_url` is where the
    /// tweet can be visited directly.
    OtherUpstreamError { code: u16, message: String, original_url: String },
    /// The remote service could not be reached, or did not answer in its own terms.
    TransportFailure { cause: String },
    /// The store failed.
    StoreFailure { cause: String },
}

/// The value of a [`ResolveError`].
pub enum ResolveErrorView {
    NoSuchTweet { id: i64 },
    OtherUpstreamError { code: u16, message: Seq<char>, original_url: Seq<char> },
    TransportFailure { cause: Seq<char> },
    StoreFailure { cause: Seq<char> },
}

impl View for ResolveError {
    type V = ResolveErrorView;

    open spec fn view(&self) -> ResolveErrorView {
        match self {
            ResolveError::NoSuchTweet { id } => ResolveErrorView::NoSuchTweet { id: *id },
            ResolveError::OtherUpstreamError { code, message, original_url } => {
                ResolveErrorView::OtherUpstreamError {
                    code: *code,
                    message: message@,
                    original_url: original_url@,
                }
            },
            ResolveError::TransportFailure { cause } => ResolveErrorView::TransportFailure {
                cause: cause@,
            },
            ResolveError::StoreFailure { cause } => ResolveErrorView::StoreFailure {
                cause: cause@,
            },
        }
    }
}

/// What a caller is told when the remote service failed with `error` while the
/// tweet `id` was resolved for a request that named the author `handle`.
///
/// A failure in transport stays one. Of the service's own refusals, the code 144
/// means that there is no such tweet; every other code is handed on with its
/// message and with the address at which the tweet can be visited.
pub open spec fn spec_classify(error: UpstreamErrorView, handle: Seq<char>, id: i64)
    -> ResolveErrorView {
    if !error.client_error {
        ResolveErrorView::TransportFailure { cause: error.message }
    } else if error.code == 144 {
        ResolveErrorView::NoSuchTweet { id }
    } else {
        ResolveErrorView::OtherUpstreamError {
            code: error.code,
            message: error.message,
            original_url: spec_tweet_url(handle, id),
        }
    }
}

/// Turns a failure of the remote service into what the caller is told.
pub fn classify(error: UpstreamError, handle: &str, id: i64) -> (outcome: ResolveError)
    ensures
        outcome@ == spec_classify(error@, handle@, id),
{
    if !error.client_error {
        ResolveError::TransportFailure { cause: error.message }
    } else if error.code == NO_SUCH_TWEET_CODE {
        ResolveError::NoSuchTweet { id }
    } else {
        ResolveError::OtherUpstreamError {
            code: error.code,
            message: error.message,
            original_url: tweet_url(handle, id),
        }
    }
}

/// Where a visitor is sent with the message for `error`, if the error is one that
/// the front page explains.
pub open spec fn spec_redirect_target(error: ResolveErrorView) -> Option<Seq<char>> {
    match error {
        ResolveErrorView::NoSuchTweet { .. } => Some(
            "/?error=Can't%20find%20tweet%20with%20that%20URL"@,
        ),
        ResolveErrorView::OtherUpstreamError { code, message, original_url } => Some(
            "/?error=Got an error from Twitter. The tweet might have a new id. <a href=\""@
                + original_url + "\">Try visiting it?</a> (Code: "@ + decimal_nat(code as nat)
                + " Message: "@ + message + ")"@,
        ),
        _ => None,
    }
}

/// The error in words.
pub open spec fn spec_message(error: ResolveErrorView) -> Seq<char> {
    match error {
        ResolveErrorView::NoSuchTweet { id } => "Unable to read tweet `"@ + decimal(id as int)
            + "`"@,
        ResolveErrorView::OtherUpstreamError { .. } => "OtherTwitterError"@,
        ResolveErrorView::TransportFailure { cause } => cause,
        ResolveErrorView::StoreFailure { cause } => cause,
    }
}

impl ResolveError {
    /// The error in words, as it is written where an error is printed.
    pub fn message(&self) -> (text: String)
        ensures
            text@ == spec_message(self@),
    {
        match self {
            ResolveError::NoSuchTweet { id } => {
                let mut text = String::from_str("Unable to read tweet `");
                push_decimal(&mut text, *id);
                text.append("`");
                text
            },
            ResolveError::OtherUpstreamError { .. } => String::from_str("OtherTwitterError"),
            ResolveError::TransportFailure { cause } => cause.clone(),
            ResolveError::StoreFailure { cause } => cause.clone(),
        }
    }

    /// The address to send the visitor to: the front page with a message, for a
    /// tweet that does not exist and for a refusal of the remote service. The other
    /// failures have none and are reported as they are.
    pub fn redirect_target(&self) -> (target: Option<String>)
        ensures
            crate::errors::option_text(target) == spec_redirect_target(self@),
    {
        match self {
            ResolveError::NoSuchTweet { .. } => Some(
                String::from_str("/?error=Can't%20find%20tweet%20with%20that%20URL"),
            ),
            ResolveError::OtherUpstreamError { code, message, original_url } => {
                let mut target = String::from_str(
                    "/?error=Got an error from Twitter. The tweet might have a new id. <a href=\"",
                );
                target.append(original_url.as_str());
                target.append("\">Try visiting it?</a> (Code: ");
                push_decimal_u64(&mut target, *code as u64);
                target.append(" Message: ");
                target.append(message.as_str());
                target.append(")");
                Some(target)
            },
            _ => None,
        }
    }
}

/// The characters of a string that may be absent.
pub open spec fn option_text(text: Option<String>) -> Option<Seq<char>> {
    match text {
        Some(t) => Some(t@),
        None => None,
    }
}

} // verus!
