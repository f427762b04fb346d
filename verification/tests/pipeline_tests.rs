use salewatch::auth::make_basic_auth_header;
use salewatch::discord;
use salewatch::error::Error;
use salewatch::models::Post;
use salewatch::pipeline::{
    matches_to_message_request, screen_new_post, screen_parsed_title, MatchingPost, NotifyMessage,
    NotifyState,
};
use salewatch::reddit;
use salewatch::rule::{Rule, Rules};
use salewatch::sms::sms_body;
use salewatch::title::Title;

fn post(id: &str, title: &str) -> Post {
    Post {
        id: id.to_owned(),
        title: title.to_owned(),
        link_flair_text: None,
        url: "https://example.invalid/x".to_owned(),
    }
}

fn a_match(id: &str) -> MatchingPost {
    let p = post(id, "[GPU] some card $500");
    let t = Title::parse(&p.title, id).unwrap();
    let rule = Rule::compile(Some("r".to_owned()), None, None, None, None, None).unwrap();
    MatchingPost { matching_rule: rule, post: p, title: t }
}

#[test]
fn test_notify_batches_two_matches_into_one_send() {
    let mut state = NotifyState::new();
    assert!(state.on_message(NotifyMessage::NewMatch(a_match("a"))).is_none());
    assert!(state.on_message(NotifyMessage::NewMatch(a_match("b"))).is_none());
    let req = state.on_message(NotifyMessage::TimerFired).unwrap();
    assert_eq!(req.content, Some("Found 2 matches:".to_owned()));
    let embeds = req.embeds.unwrap();
    assert_eq!(embeds.len(), 2);
    assert_eq!(
        embeds[0].url,
        Some("https://www.reddit.com/r/buildapcsales/comments/a".to_owned())
    );
    assert_eq!(
        embeds[1].url,
        Some("https://www.reddit.com/r/buildapcsales/comments/b".to_owned())
    );
    // The queue was cleared by the flush.
    assert!(state.on_message(NotifyMessage::TimerFired).is_none());
}

#[test]
fn test_notify_tick_on_empty_queue_sends_nothing() {
    let mut state = NotifyState::new();
    assert!(state.on_message(NotifyMessage::TimerFired).is_none());
}

#[test]
fn test_message_request_renders_rule_and_listing() {
    let req = matches_to_message_request(&vec![a_match("xyz")]);
    assert_eq!(req.content, Some("Found 1 matches:".to_owned()));
    let embeds = req.embeds.unwrap();
    assert_eq!(embeds[0].title, Some("r".to_owned()));
    assert_eq!(embeds[0].description, Some("[GPU] some card $500".to_owned()));
}

#[test]
fn test_screen_new_post_discards_duplicates_and_bad_titles() {
    let p = post("a", "[GPU] some card $500");
    assert!(screen_new_post(&p, false).is_none());
    assert!(screen_new_post(&p, true).is_some());
    let bad = post("b", "no shape here");
    assert!(screen_new_post(&bad, true).is_none());
}

#[test]
fn test_screen_parsed_title_selects_first_rule() {
    let p = post("a", "[GPU] some card $500");
    let t = Title::parse(&p.title, "a").unwrap();
    let r1 = Rule::compile(Some("one".to_owned()), None, None, None, None, None).unwrap();
    let r2 = Rule::compile(Some("two".to_owned()), None, None, None, None, None).unwrap();
    let rules = Rules { rules: vec![r1, r2] };
    let mp = screen_parsed_title(&p, t, true, &rules).unwrap();
    assert_eq!(mp.matching_rule.name(), "one");

    let t2 = Title::parse(&p.title, "a").unwrap();
    assert!(screen_parsed_title(&p, t2, false, &rules).is_none());
}

#[test]
fn test_screen_parsed_title_without_matching_rule() {
    let p = post("a", "[GPU] some card $500");
    let t = Title::parse(&p.title, "a").unwrap();
    let picky =
        Rule::compile(None, None, Some("CPU".to_owned()), None, None, None).unwrap();
    let rules = Rules { rules: vec![picky] };
    assert!(screen_parsed_title(&p, t, true, &rules).is_none());
}

#[test]
fn test_basic_auth_header() {
    assert_eq!(make_basic_auth_header("user", "pass"), "Basic dXNlcjpwYXNz");
}

#[test]
fn test_sms_body_is_urlencoded() {
    assert_eq!(
        sms_body("Hello there!", "+15555555555", "+12316851234"),
        "Body=Hello%20there%21&From=%2B15555555555&To=%2B12316851234"
    );
}

fn reddit_client(wait: u64) -> reddit::Client {
    reddit::Client::new(reddit::Config {
        auth_host: "https://auth.example.invalid/".to_owned(),
        api_host: "https://api.example.invalid/".to_owned(),
        token_file: "token.json".to_owned(),
        username: "u".to_owned(),
        password: "p".to_owned(),
        client_id: "ci".to_owned(),
        client_secret: "cs".to_owned(),
        user_agent: "ua".to_owned(),
        wait_time_secs: wait,
    })
}

#[test]
fn test_reddit_auth_and_wait_decisions() {
    let mut c = reddit_client(5);
    assert!(c.is_auth_expired(1000));
    assert_eq!(c.get_wait_time(), 5);
    assert_eq!(c.get_auth_payload(1000), Err(Error::Reauthenticate));

    c.install_auth("tok".to_owned(), 3600, 1000);
    assert!(!c.is_auth_expired(2000));
    assert!(c.is_auth_expired(4601));
    assert_eq!(c.get_auth_payload(2000), Ok("bearer tok".to_owned()));
    assert_eq!(c.get_auth_payload(4601), Err(Error::Reauthenticate));

    // Quota exhausted: wait until the remote-reported reset instead.
    c.update_ratelimit_counts(10, 0, 300);
    assert_eq!(c.get_wait_time(), 300);
    c.update_ratelimit_counts(10, 7, 300);
    assert_eq!(c.get_wait_time(), 5);
}

#[test]
fn test_ratelimit_header_values() {
    assert_eq!(reddit::parse_ratelimit_value("599.0"), Some(599));
    assert_eq!(reddit::parse_ratelimit_value("42"), Some(42));
    assert_eq!(reddit::parse_ratelimit_value(".5"), Some(0));
    assert_eq!(reddit::parse_ratelimit_value(""), None);
    assert_eq!(reddit::parse_ratelimit_value("."), None);
    assert_eq!(reddit::parse_ratelimit_value("abc"), None);
    assert_eq!(reddit::parse_ratelimit_value("12x"), None);
}

#[test]
fn test_discord_quota_fast_fail() {
    let mut c = discord::Client::new(discord::Config {
        token: "t".to_owned(),
        user_agent: "ua".to_owned(),
        api_url: "https://chat.example.invalid/".to_owned(),
        channel_id: "chan".to_owned(),
        sending_interval_secs: 10,
    });
    assert!(c.check_ratelimit().is_ok());
    c.update_ratelimits(0);
    assert_eq!(c.check_ratelimit(), Err(Error::OutOfRequests));
    c.update_ratelimits(3);
    assert!(c.check_ratelimit().is_ok());
}
