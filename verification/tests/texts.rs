use gasconade::decimal::{parse_i64, parse_u16, push_decimal, push_decimal_u64, to_decimal};
use gasconade::errors::{
    classify, first_refusal, ResolveError, ServiceError, UpstreamError, NO_SUCH_TWEET_CODE,
};
use gasconade::links::{lookup_url, rendering_url, search_url, tweet_url};
use gasconade::tweet::{find_reply, Author, Tweet};
use gasconade::web::{
    read_submission, server_port, submission_from_groups, thread_path, thread_title, Submission,
};

fn tweet(id: i64, name: &str, parent: Option<i64>) -> Tweet {
    Tweet {
        id,
        author: Author {
            id: 1,
            handle: "ann".to_string(),
            display_name: name.to_string(),
            avatar_url: String::new(),
        },
        text: String::new(),
        parent_tweet_id: parent,
        parent_author_id: parent.map(|_| 1),
        rendered_content: String::new(),
    }
}

#[test]
fn decimal_of_small_and_large_numbers() {
    assert_eq!(to_decimal(0), "0");
    assert_eq!(to_decimal(7), "7");
    assert_eq!(to_decimal(10), "10");
    assert_eq!(to_decimal(-1), "-1");
    assert_eq!(to_decimal(1050118621198921728), "1050118621198921728");
    assert_eq!(to_decimal(i64::MAX), "9223372036854775807");
    assert_eq!(to_decimal(i64::MIN), "-9223372036854775808");
}

#[test]
fn decimal_agrees_with_display() {
    for n in [0i64, 9, 10, 99, 100, 101, 12345, -12345, 1 << 40, -(1 << 40)] {
        assert_eq!(to_decimal(n), n.to_string());
    }
}

#[test]
fn decimal_is_appended() {
    let mut text = "id=".to_string();
    push_decimal(&mut text, -42);
    text.push(';');
    push_decimal_u64(&mut text, u64::MAX);
    assert_eq!(text, "id=-42;18446744073709551615");
}

#[test]
fn parse_i64_reads_signed_decimals() {
    assert_eq!(parse_i64("0"), Some(0));
    assert_eq!(parse_i64("20"), Some(20));
    assert_eq!(parse_i64("+20"), Some(20));
    assert_eq!(parse_i64("-20"), Some(-20));
    assert_eq!(parse_i64("-0"), Some(0));
    assert_eq!(parse_i64("007"), Some(7));
    assert_eq!(parse_i64("9223372036854775807"), Some(i64::MAX));
    assert_eq!(parse_i64("-9223372036854775808"), Some(i64::MIN));
    assert_eq!(parse_i64("00000000000000000000000000000000000123"), Some(123));
}

#[test]
fn parse_i64_refuses_what_is_no_number() {
    assert_eq!(parse_i64(""), None);
    assert_eq!(parse_i64("+"), None);
    assert_eq!(parse_i64("-"), None);
    assert_eq!(parse_i64("12a"), None);
    assert_eq!(parse_i64(" 12"), None);
    assert_eq!(parse_i64("12 "), None);
    assert_eq!(parse_i64("--12"), None);
    assert_eq!(parse_i64("1-2"), None);
    assert_eq!(parse_i64("\u{661}\u{662}"), None);
    assert_eq!(parse_i64("9223372036854775808"), None);
    assert_eq!(parse_i64("-9223372036854775809"), None);
    assert_eq!(parse_i64("99999999999999999999999999"), None);
    assert_eq!(parse_i64("99999999999999999999999999x"), None);
}

#[test]
fn parse_i64_agrees_with_std() {
    for text in ["", "+", "-", "0", "-0", "+0", "12", "-12", "+12", "1_000", "0x10", "9223372036854775807",
        "9223372036854775808", "-9223372036854775808", "-9223372036854775809", "18446744073709551616"]
    {
        assert_eq!(parse_i64(text), text.parse::<i64>().ok(), "{:?}", text);
    }
}

#[test]
fn parse_u16_reads_ports() {
    assert_eq!(parse_u16("8000"), Some(8000));
    assert_eq!(parse_u16("+80"), Some(80));
    assert_eq!(parse_u16("0"), Some(0));
    assert_eq!(parse_u16("65535"), Some(65535));
    assert_eq!(parse_u16("65536"), None);
    assert_eq!(parse_u16("-1"), None);
    assert_eq!(parse_u16("-0"), None);
    assert_eq!(parse_u16(""), None);
    assert_eq!(parse_u16("+"), None);
    assert_eq!(parse_u16("80a"), None);
    for text in ["", "+", "-0", "+0", "1", "65535", "65536", "000080", "8 0"] {
        assert_eq!(parse_u16(text), text.parse::<u16>().ok(), "{:?}", text);
    }
}

#[test]
fn server_port_defaults_to_8000() {
    assert_eq!(server_port(None), Some(8000));
    assert_eq!(server_port(Some("5000")), Some(5000));
    assert_eq!(server_port(Some("http")), None);
    assert_eq!(server_port(Some("70000")), None);
}

#[test]
fn addresses_are_spelled_out() {
    assert_eq!(tweet_url("jack", 20), "https://twitter.com/jack/status/20");
    assert_eq!(lookup_url(20), "https://api.twitter.com/1.1/statuses/show.json?id=20");
    assert_eq!(
        rendering_url("jack", 20),
        "https://publish.twitter.com/oembed?url=https://twitter.com/jack/status/20&hide_thread=true&omit_script=true&dnt=true"
    );
    assert_eq!(
        search_url("jack", 20),
        "https://api.twitter.com/1.1/search/tweets.json?q=to%3Ajack%20from%3Ajack&since_id=20&include_entities=false&count=100"
    );
    assert_eq!(tweet_url("", -5), "https://twitter.com//status/-5");
}

#[test]
fn code_144_means_no_such_tweet() {
    assert_eq!(NO_SUCH_TWEET_CODE, 144);
    let error = UpstreamError { code: 144, message: "No status found with that ID.".to_string(), client_error: true };
    assert_eq!(classify(error, "jack", 20), ResolveError::NoSuchTweet { id: 20 });
}

#[test]
fn other_codes_keep_their_code_and_message() {
    for code in [0u16, 34, 63, 88, 143, 145, 179, 65535] {
        let error = UpstreamError { code, message: format!("message {}", code), client_error: true };
        assert_eq!(
            classify(error, "jack", 20),
            ResolveError::OtherUpstreamError {
                code,
                message: format!("message {}", code),
                original_url: "https://twitter.com/jack/status/20".to_string(),
            }
        );
    }
}

#[test]
fn failure_in_transport_is_not_a_refusal() {
    let error = UpstreamError { code: 144, message: "broken pipe".to_string(), client_error: false };
    assert_eq!(
        classify(error, "jack", 20),
        ResolveError::TransportFailure { cause: "broken pipe".to_string() }
    );
}

#[test]
fn visitor_is_sent_to_the_front_page_with_a_message() {
    assert_eq!(
        ResolveError::NoSuchTweet { id: 20 }.redirect_target(),
        Some("/?error=Can't%20find%20tweet%20with%20that%20URL".to_string())
    );
    let other = ResolveError::OtherUpstreamError {
        code: 179,
        message: "Not authorized.".to_string(),
        original_url: "https://twitter.com/jack/status/20".to_string(),
    };
    assert_eq!(
        other.redirect_target(),
        Some(
            "/?error=Got an error from Twitter. The tweet might have a new id. <a href=\"https://twitter.com/jack/status/20\">Try visiting it?</a> (Code: 179 Message: Not authorized.)"
                .to_string()
        )
    );
    assert_eq!(ResolveError::TransportFailure { cause: "x".to_string() }.redirect_target(), None);
    assert_eq!(ResolveError::StoreFailure { cause: "x".to_string() }.redirect_target(), None);
}

#[test]
fn submitted_address_names_handle_and_id() {
    assert_eq!(
        read_submission(Some("https://twitter.com/jack/status/20")),
        Submission::Tweet { handle: "jack".to_string(), id: 20 }
    );
    assert_eq!(
        read_submission(Some("see twitter.com/some_one/status/1050118621198921728?s=20 please")),
        Submission::Tweet { handle: "some_one".to_string(), id: 1050118621198921728 }
    );
    assert_eq!(
        read_submission(Some("https://mobile.twitterXcom/a b/status/7seven")),
        Submission::Tweet { handle: "a b".to_string(), id: 7 }
    );
}

#[test]
fn submitted_text_without_a_tweet_is_malformed() {
    assert_eq!(read_submission(Some("")), Submission::Malformed);
    assert_eq!(read_submission(Some("https://twitter.com/jack")), Submission::Malformed);
    assert_eq!(read_submission(Some("https://twitter.com/jack/status/")), Submission::Malformed);
    assert_eq!(read_submission(Some("https://twitter.com//status/20")), Submission::Malformed);
    assert_eq!(read_submission(Some("https://example.com/jack/status/20")), Submission::Malformed);
    assert_eq!(
        read_submission(Some("https://twitter.com/jack/status/99999999999999999999")),
        Submission::Malformed
    );
    assert_eq!(
        read_submission(Some("https://twitter.com/jack/status/\u{661}\u{662}")),
        Submission::Malformed
    );
}

#[test]
fn nothing_submitted_is_missing() {
    assert_eq!(read_submission(None), Submission::Missing);
}

#[test]
fn groups_must_be_whole_match_handle_and_id() {
    let some = |s: &str| Some(s.to_string());
    assert_eq!(
        submission_from_groups(Some(vec![some("x"), some("jack"), some("20")])),
        Submission::Tweet { handle: "jack".to_string(), id: 20 }
    );
    assert_eq!(submission_from_groups(None), Submission::Malformed);
    assert_eq!(submission_from_groups(Some(vec![])), Submission::Malformed);
    assert_eq!(submission_from_groups(Some(vec![some("x"), some("jack")])), Submission::Malformed);
    assert_eq!(
        submission_from_groups(Some(vec![some("x"), None, some("20")])),
        Submission::Malformed
    );
    assert_eq!(
        submission_from_groups(Some(vec![some("x"), some("jack"), None])),
        Submission::Malformed
    );
    assert_eq!(
        submission_from_groups(Some(vec![some("x"), some("jack"), some("20"), some("y")])),
        Submission::Malformed
    );
    assert_eq!(
        submission_from_groups(Some(vec![some("x"), some("jack"), some("twenty")])),
        Submission::Malformed
    );
}

#[test]
fn thread_page_is_named_by_its_last_tweet() {
    let thread = vec![tweet(98, "Ann", None), tweet(99, "Ann", Some(98))];
    assert_eq!(thread_path("ann", &thread), Some("/tweet/ann/99".to_string()));
    assert_eq!(thread_title(&thread), Some("Gasconade - Ann".to_string()));
    assert_eq!(thread_path("ann", &Vec::new()), None);
    assert_eq!(thread_title(&Vec::new()), None);
}

#[test]
fn first_reply_is_found_from_a_place_on() {
    let page = vec![tweet(5, "a", Some(1)), tweet(6, "a", Some(2)), tweet(7, "a", Some(1)), tweet(8, "a", None)];
    assert_eq!(find_reply(&page, 0, 1), Some(0));
    assert_eq!(find_reply(&page, 1, 1), Some(2));
    assert_eq!(find_reply(&page, 3, 1), None);
    assert_eq!(find_reply(&page, 4, 1), None);
    assert_eq!(find_reply(&page, 0, 2), Some(1));
    assert_eq!(find_reply(&page, 0, 3), None);
    assert_eq!(page[0].self_parent(), Some(1));
    assert_eq!(page[3].self_parent(), None);
    assert!(page[1].replies_to(2));
    assert!(!page[3].replies_to(2));
}

#[test]
fn errors_are_put_in_words() {
    assert_eq!(ResolveError::NoSuchTweet { id: 20 }.message(), "Unable to read tweet `20`");
    assert_eq!(ResolveError::NoSuchTweet { id: -3 }.message(), "Unable to read tweet `-3`");
    let other = ResolveError::OtherUpstreamError {
        code: 179,
        message: "Not authorized.".to_string(),
        original_url: "https://twitter.com/jack/status/20".to_string(),
    };
    assert_eq!(other.message(), "OtherTwitterError");
    assert_eq!(ResolveError::TransportFailure { cause: "timed out".to_string() }.message(), "timed out");
    assert_eq!(ResolveError::StoreFailure { cause: "disk full".to_string() }.message(), "disk full");
}

#[test]
fn first_error_of_the_list_counts() {
    let errors = vec![
        ServiceError { code: 144, message: "No status found with that ID.".to_string() },
        ServiceError { code: 88, message: "Rate limit exceeded".to_string() },
    ];
    assert_eq!(
        first_refusal(&errors),
        Some(UpstreamError {
            code: 144,
            message: "No status found with that ID.".to_string(),
            client_error: true,
        })
    );
    assert_eq!(first_refusal(&Vec::new()), None);
}

#[test]
fn long_texts_are_read_in_one_pass() {
    let mut zeros = "0".repeat(300_000);
    zeros.push('7');
    assert_eq!(parse_i64(&zeros), Some(7));
    zeros.push('x');
    assert_eq!(parse_i64(&zeros), None);
    let nines = "9".repeat(300_000);
    assert_eq!(parse_i64(&nines), None);
    assert_eq!(parse_u16(&nines), None);
}
