//! Decoding of Helix JSON responses into typed records.
//!
//! Every list-returning endpoint wraps its payload as `{"data": [...]}`;
//! the parsers here unwrap that envelope, walk the array, and read each
//! record's fields. A missing envelope or field is a `MalformedResponse`.

use vstd::prelude::*;

use crate::error::ApiError;
use crate::json::{
    array_elem, array_len, field_text, json_array_elem, json_array_len, json_field,
    json_str_field, json_u64_field, str_field, u64_field, unwrap_data_envelope,
};
use crate::records::{BanEvent, BanEventData, Stream, TopGame, User};

verus! {

/// The record text holds every field a `User` needs.
pub open spec fn user_fields_present(s: Seq<char>) -> bool {
    &&& json_str_field(s, "id"@) is Some
    &&& json_str_field(s, "login"@) is Some
    &&& json_str_field(s, "display_name"@) is Some
    &&& json_str_field(s, "type"@) is Some
    &&& json_str_field(s, "broadcaster_type"@) is Some
    &&& json_str_field(s, "description"@) is Some
    &&& json_u64_field(s, "view_count"@) is Some
    &&& json_str_field(s, "offline_image_url"@) is Some
    &&& json_str_field(s, "profile_image_url"@) is Some
}

/// `u` holds exactly the fields of the record text `s`.
pub open spec fn user_matches(u: User, s: Seq<char>) -> bool {
    &&& json_str_field(s, "id"@) == Some(u.id@)
    &&& json_str_field(s, "login"@) == Some(u.login@)
    &&& json_str_field(s, "display_name"@) == Some(u.display_name@)
    &&& json_str_field(s, "type"@) == Some(u.user_type@)
    &&& json_str_field(s, "broadcaster_type"@) == Some(u.broadcaster_type@)
    &&& json_str_field(s, "description"@) == Some(u.description@)
    &&& json_u64_field(s, "view_count"@) == Some(u.view_count)
    &&& json_str_field(s, "offline_image_url"@) == Some(u.offline_image_url@)
    &&& json_str_field(s, "profile_image_url"@) == Some(u.profile_image_url@)
}

/// Decodes one `User` record from its JSON text.
pub fn decode_user(s: &str) -> (r: Result<User, ApiError>)
    ensures
        match r {
            Ok(u) => user_matches(u, s@),
            Err(e) => e is MalformedResponse,
        },
        r is Ok <==> user_fields_present(s@),
{
    let id = match str_field(s, "id") {
        Some(v) => v,
        None => return Err(ApiError::MalformedResponse),
    };
    let login = match str_field(s, "login") {
        Some(v) => v,
        None => return Err(ApiError::MalformedResponse),
    };
    let display_name = match str_field(s, "display_name") {
        Some(v) => v,
        None => return Err(ApiError::MalformedResponse),
    };
    let user_type = match str_field(s, "type") {
        Some(v) => v,
        None => return Err(ApiError::MalformedResponse),
    };
    let broadcaster_type = match str_field(s, "broadcaster_type") {
        Some(v) => v,
        None => return Err(ApiError::MalformedResponse),
    };
    let description = match str_field(s, "description") {
        Some(v) => v,
        None => return Err(ApiError::MalformedResponse),
    };
    let view_count = match u64_field(s, "view_count") {
        Some(v) => v,
        None => return Err(ApiError::MalformedResponse),
    };
    let offline_image_url = match str_field(s, "offline_image_url") {
        Some(v) => v,
        None => return Err(ApiError::MalformedResponse),
    };
    let profile_image_url = match str_field(s, "profile_image_url") {
        Some(v) => v,
        None => return Err(ApiError::MalformedResponse),
    };
    Ok(User {
        id,
        login,
        display_name,
        user_type,
        broadcaster_type,
        description,
        view_count,
        offline_image_url,
        profile_image_url,
    })
}

/// The text is a JSON array whose every element decodes as a `User`.
pub open spec fn users_decode_ok(s: Seq<char>) -> bool {
    &&& json_array_len(s) is Some
    &&& forall|i: int|
        0 <= i < json_array_len(s).unwrap() ==> user_fields_present(
            #[trigger] json_array_elem(s, i).unwrap(),
        )
}

/// `us` holds exactly the records of the JSON array `s`, in order.
pub open spec fn users_list_matches(us: Seq<User>, s: Seq<char>) -> bool {
    &&& users_decode_ok(s)
    &&& us.len() == json_array_len(s).unwrap()
    &&& forall|i: int|
        0 <= i < us.len() ==> user_matches(#[trigger] us[i], json_array_elem(s, i).unwrap())
}

/// Decodes a JSON array of `User` records.
pub fn decode_users(s: &str) -> (r: Result<Vec<User>, ApiError>)
    ensures
        match r {
            Ok(us) => users_list_matches(us@, s@),
            Err(e) => e is MalformedResponse,
        },
        r is Ok <==> users_decode_ok(s@),
{
    let n = match array_len(s) {
        Some(n) => n,
        None => return Err(ApiError::MalformedResponse),
    };
    let mut out: Vec<User> = Vec::new();
    let mut i: usize = 0;
    while i < n
        invariant
            i <= n,
            json_array_len(s@) == Some(n),
            out@.len() == i,
            forall|j: int|
                0 <= j < i ==> user_fields_present(#[trigger] json_array_elem(s@, j).unwrap())
                    && user_matches(out@[j], json_array_elem(s@, j).unwrap()),
        decreases n - i,
    {
        let elem = match array_elem(s, i) {
            Some(e) => e,
            None => {
                proof {
                    assert(false);
                }
                return Err(ApiError::MalformedResponse);
            },
        };
        match decode_user(elem.as_str()) {
            Ok(u) => out.push(u),
            Err(_) => {
                proof {
                    assert(!user_fields_present(json_array_elem(s@, i as int).unwrap()));
                }
                return Err(ApiError::MalformedResponse);
            },
        }
        i += 1;
    }
    Ok(out)
}

/// A full users response decodes: the `data` envelope is present and its
/// payload is an array of `User` records.
pub open spec fn users_response_ok(t: Seq<char>) -> bool {
    json_field(t, "data"@) matches Some(d) && users_decode_ok(d)
}

/// Parses a `{"data": [...]}` response from a users endpoint.
pub fn parse_users_response(text: &str) -> (r: Result<Vec<User>, ApiError>)
    ensures
        match r {
            Ok(us) => users_list_matches(us@, json_field(text@, "data"@).unwrap()),
            Err(e) => e is MalformedResponse,
        },
        r is Ok <==> users_response_ok(text@),
{
    let data = match unwrap_data_envelope(text) {
        Ok(d) => d,
        Err(e) => return Err(e),
    };
    decode_users(data.as_str())
}

/// The record text holds every field a `Stream` needs.
pub open spec fn stream_fields_present(s: Seq<char>) -> bool {
    &&& json_str_field(s, "id"@) is Some
    &&& json_str_field(s, "user_id"@) is Some
    &&& json_str_field(s, "user_name"@) is Some
    &&& json_str_field(s, "game_id"@) is Some
    &&& json_str_field(s, "type"@) is Some
    &&& json_str_field(s, "title"@) is Some
    &&& json_u64_field(s, "viewer_count"@) is Some
    &&& json_str_field(s, "started_at"@) is Some
    &&& json_str_field(s, "language"@) is Some
    &&& json_str_field(s, "thumbnail_url"@) is Some
}

/// `st` holds exactly the fields of the record text `s`.
pub open spec fn stream_matches(st: Stream, s: Seq<char>) -> bool {
    &&& json_str_field(s, "id"@) == Some(st.id@)
    &&& json_str_field(s, "user_id"@) == Some(st.user_id@)
    &&& json_str_field(s, "user_name"@) == Some(st.user_name@)
    &&& json_str_field(s, "game_id"@) == Some(st.game_id@)
    &&& json_str_field(s, "type"@) == Some(st.user_type@)
    &&& json_str_field(s, "title"@) == Some(st.title@)
    &&& json_u64_field(s, "viewer_count"@) == Some(st.viewer_count)
    &&& json_str_field(s, "started_at"@) == Some(st.started_at@)
    &&& json_str_field(s, "language"@) == Some(st.language@)
    &&& json_str_field(s, "thumbnail_url"@) == Some(st.thumbnail_url@)
}

/// Decodes one `Stream` record from its JSON text.
pub fn decode_stream(s: &str) -> (r: Result<Stream, ApiError>)
    ensures
        match r {
            Ok(st) => stream_matches(st, s@),
            Err(e) => e is MalformedResponse,
        },
        r is Ok <==> stream_fields_present(s@),
{
    let id = match str_field(s, "id") {
        Some(v) => v,
        None => return Err(ApiError::MalformedResponse),
    };
    let user_id = match str_field(s, "user_id") {
        Some(v) => v,
        None => return Err(ApiError::MalformedResponse),
    };
    let user_name = match str_field(s, "user_name") {
        Some(v) => v,
        None => return Err(ApiError::MalformedResponse),
    };
    let game_id = match str_field(s, "game_id") {
        Some(v) => v,
        None => return Err(ApiError::MalformedResponse),
    };
    let user_type = match str_field(s, "type") {
        Some(v) => v,
        None => return Err(ApiError::MalformedResponse),
    };
    let title = match str_field(s, "title") {
        Some(v) => v,
        None => return Err(ApiError::MalformedResponse),
    };
    let viewer_count = match u64_field(s, "viewer_count") {
        Some(v) => v,
        None => return Err(ApiError::MalformedResponse),
    };
    let started_at = match str_field(s, "started_at") {
        Some(v) => v,
        None => return Err(ApiError::MalformedResponse),
    };
    let language = match str_field(s, "language") {
        Some(v) => v,
        None => return Err(ApiError::MalformedResponse),
    };
    let thumbnail_url = match str_field(s, "thumbnail_url") {
        Some(v) => v,
        None => return Err(ApiError::MalformedResponse),
    };
    Ok(Stream {
        id,
        user_id,
        user_name,
        game_id,
        user_type,
        title,
        viewer_count,
        started_at,
        language,
        thumbnail_url,
    })
}

/// The text is a JSON array whose every element decodes as a `Stream`.
pub open spec fn streams_decode_ok(s: Seq<char>) -> bool {
    &&& json_array_len(s) is Some
    &&& forall|i: int|
        0 <= i < json_array_len(s).unwrap() ==> stream_fields_present(
            #[trigger] json_array_elem(s, i).unwrap(),
        )
}

/// `sts` holds exactly the records of the JSON array `s`, in order.
pub open spec fn streams_list_matches(sts: Seq<Stream>, s: Seq<char>) -> bool {
    &&& streams_decode_ok(s)
    &&& sts.len() == json_array_len(s).unwrap()
    &&& forall|i: int|
        0 <= i < sts.len() ==> stream_matches(#[trigger] sts[i], json_array_elem(s, i).unwrap())
}

/// Decodes a JSON array of `Stream` records.
pub fn decode_streams(s: &str) -> (r: Result<Vec<Stream>, ApiError>)
    ensures
        match r {
            Ok(sts) => streams_list_matches(sts@, s@),
            Err(e) => e is MalformedResponse,
        },
        r is Ok <==> streams_decode_ok(s@),
{
    let n = match array_len(s) {
        Some(n) => n,
        None => return Err(ApiError::MalformedResponse),
    };
    let mut out: Vec<Stream> = Vec::new();
    let mut i: usize = 0;
    while i < n
        invariant
            i <= n,
            json_array_len(s@) == Some(n),
            out@.len() == i,
            forall|j: int|
                0 <= j < i ==> stream_fields_present(#[trigger] json_array_elem(s@, j).unwrap())
                    && stream_matches(out@[j], json_array_elem(s@, j).unwrap()),
        decreases n - i,
    {
        let elem = match array_elem(s, i) {
            Some(e) => e,
            None => {
                proof {
                    assert(false);
                }
                return Err(ApiError::MalformedResponse);
            },
        };
        match decode_stream(elem.as_str()) {
            Ok(st) => out.push(st),
            Err(_) => {
                proof {
                    assert(!stream_fields_present(json_array_elem(s@, i as int).unwrap()));
                }
                return Err(ApiError::MalformedResponse);
            },
        }
        i += 1;
    }
    Ok(out)
}

/// A full streams response decodes.
pub open spec fn streams_response_ok(t: Seq<char>) -> bool {
    json_field(t, "data"@) matches Some(d) && streams_decode_ok(d)
}

/// Parses a `{"data": [...]}` response from the streams endpoint. An empty
/// list is a normal outcome: the user is not live.
pub fn parse_streams_response(text: &str) -> (r: Result<Vec<Stream>, ApiError>)
    ensures
        match r {
            Ok(sts) => streams_list_matches(sts@, json_field(text@, "data"@).unwrap()),
            Err(e) => e is MalformedResponse,
        },
        r is Ok <==> streams_response_ok(text@),
{
    let data = match unwrap_data_envelope(text) {
        Ok(d) => d,
        Err(e) => return Err(e),
    };
    decode_streams(data.as_str())
}

/// The record text holds every field a `TopGame` needs.
pub open spec fn top_game_fields_present(s: Seq<char>) -> bool {
    &&& json_str_field(s, "id"@) is Some
    &&& json_str_field(s, "name"@) is Some
    &&& json_str_field(s, "box_art_url"@) is Some
}

/// `g` holds exactly the fields of the record text `s`.
pub open spec fn top_game_matches(g: TopGame, s: Seq<char>) -> bool {
    &&& json_str_field(s, "id"@) == Some(g.id@)
    &&& json_str_field(s, "name"@) == Some(g.name@)
    &&& json_str_field(s, "box_art_url"@) == Some(g.box_art_url@)
}

/// Decodes one `TopGame` record from its JSON text.
pub fn decode_top_game(s: &str) -> (r: Result<TopGame, ApiError>)
    ensures
        match r {
            Ok(g) => top_game_matches(g, s@),
            Err(e) => e is MalformedResponse,
        },
        r is Ok <==> top_game_fields_present(s@),
{
    let id = match str_field(s, "id") {
        Some(v) => v,
        None => return Err(ApiError::MalformedResponse),
    };
    let name = match str_field(s, "name") {
        Some(v) => v,
        None => return Err(ApiError::MalformedResponse),
    };
    let box_art_url = match str_field(s, "box_art_url") {
        Some(v) => v,
        None => return Err(ApiError::MalformedResponse),
    };
    Ok(TopGame { id, name, box_art_url })
}

/// The text is a JSON array whose every element decodes as a `TopGame`.
pub open spec fn top_games_decode_ok(s: Seq<char>) -> bool {
    &&& json_array_len(s) is Some
    &&& forall|i: int|
        0 <= i < json_array_len(s).unwrap() ==> top_game_fields_present(
            #[trigger] json_array_elem(s, i).unwrap(),
        )
}

/// `gs` holds exactly the records of the JSON array `s`, in order.
pub open spec fn top_games_list_matches(gs: Seq<TopGame>, s: Seq<char>) -> bool {
    &&& top_games_decode_ok(s)
    &&& gs.len() == json_array_len(s).unwrap()
    &&& forall|i: int|
        0 <= i < gs.len() ==> top_game_matches(#[trigger] gs[i], json_array_elem(s, i).unwrap())
}

/// Decodes a JSON array of `TopGame` records.
pub fn decode_top_games(s: &str) -> (r: Result<Vec<TopGame>, ApiError>)
    ensures
        match r {
            Ok(gs) => top_games_list_matches(gs@, s@),
            Err(e) => e is MalformedResponse,
        },
        r is Ok <==> top_games_decode_ok(s@),
{
    let n = match array_len(s) {
        Some(n) => n,
        None => return Err(ApiError::MalformedResponse),
    };
    let mut out: Vec<TopGame> = Vec::new();
    let mut i: usize = 0;
    while i < n
        invariant
            i <= n,
            json_array_len(s@) == Some(n),
            out@.len() == i,
            forall|j: int|
                0 <= j < i ==> top_game_fields_present(#[trigger] json_array_elem(s@, j).unwrap())
                    && top_game_matches(out@[j], json_array_elem(s@, j).unwrap()),
        decreases n - i,
    {
        let elem = match array_elem(s, i) {
            Some(e) => e,
            None => {
                proof {
                    assert(false);
                }
                return Err(ApiError::MalformedResponse);
            },
        };
        match decode_top_game(elem.as_str()) {
            Ok(g) => out.push(g),
            Err(_) => {
                proof {
                    assert(!top_game_fields_present(json_array_elem(s@, i as int).unwrap()));
                }
                return Err(ApiError::MalformedResponse);
            },
        }
        i += 1;
    }
    Ok(out)
}

/// A full top-games response decodes.
pub open spec fn top_games_response_ok(t: Seq<char>) -> bool {
    json_field(t, "data"@) matches Some(d) && top_games_decode_ok(d)
}

/// Parses a `{"data": [...]}` response from the top-games endpoint.
pub fn parse_top_games_response(text: &str) -> (r: Result<Vec<TopGame>, ApiError>)
    ensures
        match r {
            Ok(gs) => top_games_list_matches(gs@, json_field(text@, "data"@).unwrap()),
            Err(e) => e is MalformedResponse,
        },
        r is Ok <==> top_games_response_ok(text@),
{
    let data = match unwrap_data_envelope(text) {
        Ok(d) => d,
        Err(e) => return Err(e),
    };
    decode_top_games(data.as_str())
}

/// The record text holds every field a `BanEventData` needs.
pub open spec fn ban_event_data_fields_present(s: Seq<char>) -> bool {
    &&& json_str_field(s, "broadcaster_id"@) is Some
    &&& json_str_field(s, "broadcaster_name"@) is Some
    &&& json_str_field(s, "user_id"@) is Some
    &&& json_str_field(s, "user_name"@) is Some
    &&& json_str_field(s, "expires_at"@) is Some
}

/// `d` holds exactly the fields of the record text `s`.
pub open spec fn ban_event_data_matches(d: BanEventData, s: Seq<char>) -> bool {
    &&& json_str_field(s, "broadcaster_id"@) == Some(d.broadcaster_id@)
    &&& json_str_field(s, "broadcaster_name"@) == Some(d.broadcaster_name@)
    &&& json_str_field(s, "user_id"@) == Some(d.user_id@)
    &&& json_str_field(s, "user_name"@) == Some(d.user_name@)
    &&& json_str_field(s, "expires_at"@) == Some(d.expires_at@)
}

/// Decodes one `BanEventData` payload from its JSON text.
pub fn decode_ban_event_data(s: &str) -> (r: Result<BanEventData, ApiError>)
    ensures
        match r {
            Ok(d) => ban_event_data_matches(d, s@),
            Err(e) => e is MalformedResponse,
        },
        r is Ok <==> ban_event_data_fields_present(s@),
{
    let broadcaster_id = match str_field(s, "broadcaster_id") {
        Some(v) => v,
        None => return Err(ApiError::MalformedResponse),
    };
    let broadcaster_name = match str_field(s, "broadcaster_name") {
        Some(v) => v,
        None => return Err(ApiError::MalformedResponse),
    };
    let user_id = match str_field(s, "user_id") {
        Some(v) => v,
        None => return Err(ApiError::MalformedResponse),
    };
    let user_name = match str_field(s, "user_name") {
        Some(v) => v,
        None => return Err(ApiError::MalformedResponse),
    };
    let expires_at = match str_field(s, "expires_at") {
        Some(v) => v,
        None => return Err(ApiError::MalformedResponse),
    };
    Ok(BanEventData { broadcaster_id, broadcaster_name, user_id, user_name, expires_at })
}

/// The record text holds every field a `BanEvent` needs, its nested
/// `event_data` object included.
pub open spec fn ban_event_fields_present(s: Seq<char>) -> bool {
    &&& json_str_field(s, "id"@) is Some
    &&& json_str_field(s, "event_type"@) is Some
    &&& json_str_field(s, "event_timestamp"@) is Some
    &&& json_str_field(s, "version"@) is Some
    &&& json_field(s, "event_data"@) is Some
    &&& ban_event_data_fields_present(json_field(s, "event_data"@).unwrap())
}

/// `b` holds exactly the fields of the record text `s`.
pub open spec fn ban_event_matches(b: BanEvent, s: Seq<char>) -> bool {
    &&& json_str_field(s, "id"@) == Some(b.id@)
    &&& json_str_field(s, "event_type"@) == Some(b.event_type@)
    &&& json_str_field(s, "event_timestamp"@) == Some(b.event_timestamp@)
    &&& json_str_field(s, "version"@) == Some(b.version@)
    &&& json_field(s, "event_data"@) is Some
    &&& ban_event_data_matches(b.data, json_field(s, "event_data"@).unwrap())
}

/// Decodes one `BanEvent` record, nested payload included, from its JSON
/// text.
pub fn decode_ban_event(s: &str) -> (r: Result<BanEvent, ApiError>)
    ensures
        match r {
            Ok(b) => ban_event_matches(b, s@),
            Err(e) => e is MalformedResponse,
        },
        r is Ok <==> ban_event_fields_present(s@),
{
    let id = match str_field(s, "id") {
        Some(v) => v,
        None => return Err(ApiError::MalformedResponse),
    };
    let event_type = match str_field(s, "event_type") {
        Some(v) => v,
        None => return Err(ApiError::MalformedResponse),
    };
    let event_timestamp = match str_field(s, "event_timestamp") {
        Some(v) => v,
        None => return Err(ApiError::MalformedResponse),
    };
    let version = match str_field(s, "version") {
        Some(v) => v,
        None => return Err(ApiError::MalformedResponse),
    };
    let data_text = match field_text(s, "event_data") {
        Some(v) => v,
        None => return Err(ApiError::MalformedResponse),
    };
    let data = match decode_ban_event_data(data_text.as_str()) {
        Ok(d) => d,
        Err(_) => return Err(ApiError::MalformedResponse),
    };
    Ok(BanEvent { id, event_type, event_timestamp, version, data })
}

/// The text is a JSON array whose every element decodes as a `BanEvent`.
pub open spec fn ban_events_decode_ok(s: Seq<char>) -> bool {
    &&& json_array_len(s) is Some
    &&& forall|i: int|
        0 <= i < json_array_len(s).unwrap() ==> ban_event_fields_present(
            #[trigger] json_array_elem(s, i).unwrap(),
        )
}

/// `bs` holds exactly the records of the JSON array `s`, in order.
pub open spec fn ban_events_list_matches(bs: Seq<BanEvent>, s: Seq<char>) -> bool {
    &&& ban_events_decode_ok(s)
    &&& bs.len() == json_array_len(s).unwrap()
    &&& forall|i: int|
        0 <= i < bs.len() ==> ban_event_matches(#[trigger] bs[i], json_array_elem(s, i).unwrap())
}

/// Decodes a JSON array of `BanEvent` records.
pub fn decode_ban_events(s: &str) -> (r: Result<Vec<BanEvent>, ApiError>)
    ensures
        match r {
            Ok(bs) => ban_events_list_matches(bs@, s@),
            Err(e) => e is MalformedResponse,
        },
        r is Ok <==> ban_events_decode_ok(s@),
{
    let n = match array_len(s) {
        Some(n) => n,
        None => return Err(ApiError::MalformedResponse),
    };
    let mut out: Vec<BanEvent> = Vec::new();
    let mut i: usize = 0;
    while i < n
        invariant
            i <= n,
            json_array_len(s@) == Some(n),
            out@.len() == i,
            forall|j: int|
                0 <= j < i ==> ban_event_fields_present(#[trigger] json_array_elem(s@, j).unwrap())
                    && ban_event_matches(out@[j], json_array_elem(s@, j).unwrap()),
        decreases n - i,
    {
        let elem = match array_elem(s, i) {
            Some(e) => e,
            None => {
                proof {
                    assert(false);
                }
                return Err(ApiError::MalformedResponse);
            },
        };
        match decode_ban_event(elem.as_str()) {
            Ok(b) => out.push(b),
            Err(_) => {
                proof {
                    assert(!ban_event_fields_present(json_array_elem(s@, i as int).unwrap()));
                }
                return Err(ApiError::MalformedResponse);
            },
        }
        i += 1;
    }
    Ok(out)
}

/// A banned-events response is refused for lack of authorization: it
/// carries a top-level `status` field equal to 401.
pub open spec fn banned_events_unauthorized(t: Seq<char>) -> bool {
    json_u64_field(t, "status"@) == Some(401u64)
}

/// A full banned-events response decodes normally.
pub open spec fn banned_events_response_ok(t: Seq<char>) -> bool {
    &&& !banned_events_unauthorized(t)
    &&& json_field(t, "data"@) matches Some(d) && ban_events_decode_ok(d)
}

/// Parses a banned-events response. Before any envelope decoding the raw
/// text is inspected for a top-level `status` field: 401 means the token
/// lacks the needed scope, and the whole body is carried as the error's
/// detail. Any other status value, or its absence, proceeds to normal
/// decoding.
pub fn parse_banned_events_response(text: &str) -> (r: Result<Vec<BanEvent>, ApiError>)
    ensures
        match r {
            Ok(bs) => ban_events_list_matches(bs@, json_field(text@, "data"@).unwrap()),
            Err(e) => match e {
                ApiError::Authorization(body) => banned_events_unauthorized(text@) && body@
                    == text@,
                ApiError::MalformedResponse => !banned_events_unauthorized(text@),
            },
        },
        r is Ok <==> banned_events_response_ok(text@),
{
    match u64_field(text, "status") {
        Some(status) => {
            if status == 401 {
                return Err(ApiError::Authorization(text.to_owned()));
            }
        },
        None => {},
    }
    let data = match unwrap_data_envelope(text) {
        Ok(d) => d,
        Err(e) => return Err(e),
    };
    decode_ban_events(data.as_str())
}

} // verus!
