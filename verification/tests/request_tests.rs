use helix_client::cli::{Command, Hint};
use helix_client::request::{ApiClient, Method};

fn client() -> ApiClient {
    ApiClient::new(
        "cid".to_string(),
        "sec".to_string(),
        "tok".to_string(),
    )
}

#[test]
fn token_request_without_scopes_omits_scope_parameter() {
    let r = client().token_request(&None);
    assert_eq!(r.method, Method::Post);
    assert_eq!(
        r.url,
        "https://id.twitch.tv/oauth2/token?client_id=cid&client_secret=sec\
&grant_type=client_credentials"
    );
    assert!(!r.url.contains("scope"));
    assert_eq!(r.client_id_header, None);
    assert_eq!(r.bearer_token, None);
}

#[test]
fn token_request_with_scopes_joins_them_with_plus() {
    let scopes = vec!["a".to_string(), "b".to_string()];
    let r = client().token_request(&Some(scopes));
    assert_eq!(
        r.url,
        "https://id.twitch.tv/oauth2/token?client_id=cid&client_secret=sec\
&grant_type=client_credentials&scope=a+b"
    );
}

#[test]
fn token_request_with_empty_scope_list_omits_scope_parameter() {
    let r = client().token_request(&Some(vec![]));
    assert!(!r.url.contains("scope"));
}

#[test]
fn user_by_id_request_is_a_helix_get() {
    let r = client().user_by_id_request(5555469);
    assert_eq!(r.method, Method::Get);
    assert_eq!(r.url, "https://api.twitch.tv/helix/users?id=5555469");
    assert_eq!(r.client_id_header.as_deref(), Some("cid"));
    assert_eq!(r.bearer_token.as_deref(), Some("tok"));
}

#[test]
fn user_by_login_request_carries_the_login() {
    let r = client().user_by_login_request("zaekof");
    assert_eq!(r.url, "https://api.twitch.tv/helix/users?login=zaekof");
    assert_eq!(r.method, Method::Get);
}

#[test]
fn stream_request_carries_the_user_id() {
    let r = client().stream_by_user_id_request(123);
    assert_eq!(r.url, "https://api.twitch.tv/helix/streams?user_id=123");
}

#[test]
fn top_games_request_has_no_parameters() {
    let r = client().top_games_request();
    assert_eq!(r.url, "https://api.twitch.tv/helix/games/top");
    assert_eq!(r.client_id_header.as_deref(), Some("cid"));
}

#[test]
fn usage_and_help_make_no_request() {
    let c = client();
    assert!(c.request_for(&Command::Usage(Hint::InfoUser)).is_none());
    assert!(c.request_for(&Command::Help).is_none());
    assert!(c.request_for(&Command::Ignored).is_none());
}

#[test]
fn commands_map_to_their_requests() {
    let c = client();
    let r = c.request_for(&Command::InfoUser(5555469)).unwrap();
    assert_eq!(r.url, "https://api.twitch.tv/helix/users?id=5555469");
    let r = c.request_for(&Command::TopGame).unwrap();
    assert_eq!(r.url, "https://api.twitch.tv/helix/games/top");
    let r = c.request_for(&Command::Token(None)).unwrap();
    assert_eq!(r.method, Method::Post);
}

#[test]
fn banned_events_request_carries_the_broadcaster_id() {
    let r = client().banned_events_request(198704263);
    assert_eq!(
        r.url,
        "https://api.twitch.tv/helix/moderation/banned/events?broadcaster_id=198704263"
    );
    assert_eq!(r.bearer_token.as_deref(), Some("tok"));
}
