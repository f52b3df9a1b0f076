use helix_client::decode::{
    decode_user, parse_banned_events_response, parse_streams_response, parse_top_games_response,
    parse_users_response,
};
use helix_client::error::ApiError;
use helix_client::json::unwrap_data_envelope;

const USER_ONE: &str = "{\"id\":\"123\",\"login\":\"zaekof\",\"display_name\":\"Zaekof\",\
\"type\":\"\",\"broadcaster_type\":\"partner\",\"description\":\"first\",\"view_count\":42,\
\"offline_image_url\":\"off1\",\"profile_image_url\":\"prof1\"}";

const USER_TWO: &str = "{\"id\":\"456\",\"login\":\"other\",\"display_name\":\"Other\",\
\"type\":\"staff\",\"broadcaster_type\":\"\",\"description\":\"second\",\"view_count\":0,\
\"offline_image_url\":\"off2\",\"profile_image_url\":\"prof2\"}";

#[test]
fn envelope_is_extracted() {
    assert_eq!(unwrap_data_envelope("{\"data\":[1,2]}").unwrap(), "[1,2]");
    assert_eq!(unwrap_data_envelope("{\"data\":[]}").unwrap(), "[]");
}

#[test]
fn envelope_missing_is_malformed() {
    let r = unwrap_data_envelope("{\"pagination\":{}}");
    assert!(r.unwrap_err().is_malformed());
    let r = parse_users_response("{\"pagination\":{}}");
    assert!(matches!(r, Err(ApiError::MalformedResponse)));
    let r = parse_users_response("not json at all");
    assert!(matches!(r, Err(ApiError::MalformedResponse)));
}

#[test]
fn users_decode_in_order() {
    let text = format!("{{\"data\":[{},{}]}}", USER_ONE, USER_TWO);
    let users = parse_users_response(&text).unwrap();
    assert_eq!(users.len(), 2);
    assert_eq!(users[0].id, "123");
    assert_eq!(users[0].login, "zaekof");
    assert_eq!(users[0].display_name, "Zaekof");
    assert_eq!(users[0].user_type, "");
    assert_eq!(users[0].broadcaster_type, "partner");
    assert_eq!(users[0].description, "first");
    assert_eq!(users[0].view_count, 42);
    assert_eq!(users[0].offline_image_url, "off1");
    assert_eq!(users[0].profile_image_url, "prof1");
    assert_eq!(users[1].id, "456");
    assert_eq!(users[1].user_type, "staff");
    assert_eq!(users[1].view_count, 0);
}

#[test]
fn empty_data_list_is_not_an_error() {
    let users = parse_users_response("{\"data\":[]}").unwrap();
    assert!(users.is_empty());
    let streams = parse_streams_response("{\"data\":[]}").unwrap();
    assert!(streams.is_empty());
}

#[test]
fn missing_numeric_field_is_malformed_not_zero() {
    let without_count = "{\"id\":\"1\",\"login\":\"l\",\"display_name\":\"d\",\"type\":\"\",\
\"broadcaster_type\":\"\",\"description\":\"\",\
\"offline_image_url\":\"\",\"profile_image_url\":\"\"}";
    assert!(matches!(decode_user(without_count), Err(ApiError::MalformedResponse)));
    let text = format!("{{\"data\":[{}]}}", without_count);
    assert!(matches!(parse_users_response(&text), Err(ApiError::MalformedResponse)));
}

#[test]
fn streams_decode_in_order() {
    let text = "{\"data\":[{\"id\":\"s1\",\"user_id\":\"123\",\"user_name\":\"Zaekof\",\
\"game_id\":\"g1\",\"type\":\"live\",\"title\":\"hello\",\"viewer_count\":17,\
\"started_at\":\"2020-01-01T00:00:00Z\",\"language\":\"fr\",\"thumbnail_url\":\"thumb\"}]}";
    let streams = parse_streams_response(text).unwrap();
    assert_eq!(streams.len(), 1);
    assert_eq!(streams[0].id, "s1");
    assert_eq!(streams[0].user_id, "123");
    assert_eq!(streams[0].user_name, "Zaekof");
    assert_eq!(streams[0].game_id, "g1");
    assert_eq!(streams[0].user_type, "live");
    assert_eq!(streams[0].title, "hello");
    assert_eq!(streams[0].viewer_count, 17);
    assert_eq!(streams[0].started_at, "2020-01-01T00:00:00Z");
    assert_eq!(streams[0].language, "fr");
    assert_eq!(streams[0].thumbnail_url, "thumb");
}

#[test]
fn top_games_decode_in_order() {
    let text = "{\"data\":[{\"id\":\"1\",\"name\":\"G1\",\"box_art_url\":\"u1\"},\
{\"id\":\"2\",\"name\":\"G2\",\"box_art_url\":\"u2\"}]}";
    let games = parse_top_games_response(text).unwrap();
    assert_eq!(games.len(), 2);
    assert_eq!(games[0].id, "1");
    assert_eq!(games[0].name, "G1");
    assert_eq!(games[0].box_art_url, "u1");
    assert_eq!(games[1].id, "2");
}

#[test]
fn banned_events_status_401_is_authorization_error() {
    let body = "{\"status\":401,\"message\":\"missing scope\"}";
    match parse_banned_events_response(body) {
        Err(ApiError::Authorization(detail)) => assert_eq!(detail, body),
        other => panic!("expected an authorization error, got {:?}", other),
    }
}

#[test]
fn banned_events_without_status_decode_normally() {
    let text = "{\"data\":[{\"id\":\"e1\",\"event_type\":\"moderation.user.ban\",\
\"event_timestamp\":\"2020-01-01T00:00:00Z\",\"version\":\"1.0\",\
\"event_data\":{\"broadcaster_id\":\"198704263\",\"broadcaster_name\":\"caster\",\
\"user_id\":\"424596340\",\"user_name\":\"banned_one\",\"expires_at\":\"\"}}]}";
    let events = parse_banned_events_response(text).unwrap();
    assert_eq!(events.len(), 1);
    assert_eq!(events[0].id, "e1");
    assert_eq!(events[0].event_type, "moderation.user.ban");
    assert_eq!(events[0].event_timestamp, "2020-01-01T00:00:00Z");
    assert_eq!(events[0].version, "1.0");
    assert_eq!(events[0].data.broadcaster_id, "198704263");
    assert_eq!(events[0].data.broadcaster_name, "caster");
    assert_eq!(events[0].data.user_id, "424596340");
    assert_eq!(events[0].data.user_name, "banned_one");
    assert_eq!(events[0].data.expires_at, "");
}

#[test]
fn banned_events_other_status_proceeds_to_envelope() {
    let r = parse_banned_events_response("{\"status\":403,\"message\":\"forbidden\"}");
    assert!(matches!(r, Err(ApiError::MalformedResponse)));
}
