//! Building the requests that the Helix and OAuth2 endpoints take.
//!
//! A request is described as plain data (method, URL, header values); the
//! caller is the one that sends it. The Helix endpoints all get both the
//! `Client-ID` header and the bearer token, the one convention the Twitch
//! documentation asks for; the token endpoint carries its credentials in
//! the query string and needs neither header.

use vstd::prelude::*;
use vstd::string::*;

use crate::cli::Command;
use crate::strutil::{dec_str_of, join_plus, plus_joined, u64_to_dec};

verus! {

/// The HTTP method of a request.
#[derive(Debug, Clone, Copy, PartialEq, Eq, Structural)]
pub enum Method {
    Get,
    Post,
}

/// One request, ready to be sent: method, URL and the auth headers to
/// attach.
#[derive(Debug, Clone)]
pub struct HttpRequest {
    pub method: Method,
    pub url: String,
    /// Value for the `Client-ID` header, where one is to be sent.
    pub client_id_header: Option<String>,
    /// Token for the `Authorization: Bearer` header, where one is to be
    /// sent.
    pub bearer_token: Option<String>,
}

/// The three credentials, immutable after construction.
#[derive(Debug, Clone)]
pub struct ApiClient {
    pub client_id: String,
    pub client_secret: String,
    pub bearer_token: String,
}

/// The OAuth2 client-credentials URL; the `scope` parameter appears only
/// for a non-empty scope list.
pub open spec fn token_url_spec(id: Seq<char>, secret: Seq<char>, scopes: Option<Seq<Seq<char>>>) -> Seq<
    char,
> {
    let base = "https://id.twitch.tv/oauth2/token?client_id="@ + id + "&client_secret="@ + secret
        + "&grant_type=client_credentials"@;
    match scopes {
        Some(sc) => if sc.len() > 0 {
            base + "&scope="@ + plus_joined(sc)
        } else {
            base
        },
        None => base,
    }
}

/// The user-lookup URL for a numeric id.
pub open spec fn user_by_id_url_spec(id: nat) -> Seq<char> {
    "https://api.twitch.tv/helix/users?id="@ + dec_str_of(id)
}

/// The user-lookup URL for a login name.
pub open spec fn user_by_login_url_spec(login: Seq<char>) -> Seq<char> {
    "https://api.twitch.tv/helix/users?login="@ + login
}

/// The live-stream lookup URL for a user id.
pub open spec fn stream_by_user_id_url_spec(id: nat) -> Seq<char> {
    "https://api.twitch.tv/helix/streams?user_id="@ + dec_str_of(id)
}

/// The top-games URL; no pagination, only the first page is asked for.
pub open spec fn top_games_url_spec() -> Seq<char> {
    "https://api.twitch.tv/helix/games/top"@
}

/// The banned-events URL for a broadcaster id.
pub open spec fn banned_events_url_spec(id: nat) -> Seq<char> {
    "https://api.twitch.tv/helix/moderation/banned/events?broadcaster_id="@ + dec_str_of(id)
}

/// `r` is a GET on `url` carrying both Helix auth headers of `c`.
pub open spec fn helix_get(r: HttpRequest, c: ApiClient, url: Seq<char>) -> bool {
    &&& r.method is Get
    &&& r.url@ == url
    &&& r.client_id_header matches Some(h) && h@ == c.client_id@
    &&& r.bearer_token matches Some(t) && t@ == c.bearer_token@
}

impl ApiClient {
    /// Packs the three credentials.
    pub fn new(client_id: String, client_secret: String, bearer_token: String) -> (r: ApiClient)
        ensures
            r.client_id == client_id,
            r.client_secret == client_secret,
            r.bearer_token == bearer_token,
    {
        ApiClient { client_id, client_secret, bearer_token }
    }

    /// The POST that asks for an app token; its response body is handed
    /// back verbatim, so no decoder belongs to it.
    pub fn token_request(&self, scopes: &Option<Vec<String>>) -> (r: HttpRequest)
        ensures
            r.method is Post,
            r.url@ == token_url_spec(self.client_id@, self.client_secret@, scopes.deep_view()),
            r.client_id_header is None,
            r.bearer_token is None,
    {
        let mut url = String::from_str("https://id.twitch.tv/oauth2/token?client_id=");
        url.append(self.client_id.as_str());
        url.append("&client_secret=");
        url.append(self.client_secret.as_str());
        url.append("&grant_type=client_credentials");
        match scopes {
            Some(sc) => {
                if sc.len() > 0 {
                    url.append("&scope=");
                    let joined = join_plus(sc);
                    url.append(joined.as_str());
                }
            },
            None => {},
        }
        HttpRequest { method: Method::Post, url, client_id_header: None, bearer_token: None }
    }

    /// The GET that looks a user up by numeric id.
    pub fn user_by_id_request(&self, id: u64) -> (r: HttpRequest)
        ensures
            helix_get(r, *self, user_by_id_url_spec(id as nat)),
    {
        let mut url = String::from_str("https://api.twitch.tv/helix/users?id=");
        let num = u64_to_dec(id);
        url.append(num.as_str());
        self.helix_get_exec(url)
    }

    /// The GET that looks a user up by login name.
    pub fn user_by_login_request(&self, login: &str) -> (r: HttpRequest)
        ensures
            helix_get(r, *self, user_by_login_url_spec(login@)),
    {
        let mut url = String::from_str("https://api.twitch.tv/helix/users?login=");
        url.append(login);
        self.helix_get_exec(url)
    }

    /// The GET that asks whether a user is live.
    pub fn stream_by_user_id_request(&self, id: u64) -> (r: HttpRequest)
        ensures
            helix_get(r, *self, stream_by_user_id_url_spec(id as nat)),
    {
        let mut url = String::from_str("https://api.twitch.tv/helix/streams?user_id=");
        let num = u64_to_dec(id);
        url.append(num.as_str());
        self.helix_get_exec(url)
    }

    /// The GET for the trending-games list.
    pub fn top_games_request(&self) -> (r: HttpRequest)
        ensures
            helix_get(r, *self, top_games_url_spec()),
    {
        let url = String::from_str("https://api.twitch.tv/helix/games/top");
        self.helix_get_exec(url)
    }

    /// The GET for a broadcaster's ban events.
    pub fn banned_events_request(&self, broadcaster_id: u64) -> (r: HttpRequest)
        ensures
            helix_get(r, *self, banned_events_url_spec(broadcaster_id as nat)),
    {
        let mut url = String::from_str(
            "https://api.twitch.tv/helix/moderation/banned/events?broadcaster_id=",
        );
        let num = u64_to_dec(broadcaster_id);
        url.append(num.as_str());
        self.helix_get_exec(url)
    }

    /// The request a command asks for; `None` exactly for the commands
    /// that make no network call (help, a usage hint, an ignored token).
    pub fn request_for(&self, cmd: &Command) -> (r: Option<HttpRequest>)
        ensures
            match *cmd {
                Command::Token(ref sc) => r matches Some(q) && q.method is Post && q.url@
                    == token_url_spec(self.client_id@, self.client_secret@, sc.deep_view())
                    && q.client_id_header is None && q.bearer_token is None,
                Command::InfoUser(id) => r matches Some(q) && helix_get(
                    q,
                    *self,
                    user_by_id_url_spec(id as nat),
                ),
                Command::IsOnLiveUser(id) => r matches Some(q) && helix_get(
                    q,
                    *self,
                    stream_by_user_id_url_spec(id as nat),
                ),
                Command::Uid(ref login) => r matches Some(q) && helix_get(
                    q,
                    *self,
                    user_by_login_url_spec(login@),
                ),
                Command::TopGames => r matches Some(q) && helix_get(q, *self, top_games_url_spec()),
                Command::TopGame => r matches Some(q) && helix_get(q, *self, top_games_url_spec()),
                Command::BannedEvents(id) => r matches Some(q) && helix_get(
                    q,
                    *self,
                    banned_events_url_spec(id as nat),
                ),
                Command::Help => r is None,
                Command::Usage(_) => r is None,
                Command::Ignored => r is None,
            },
    {
        match cmd {
            Command::Token(sc) => Some(self.token_request(sc)),
            Command::InfoUser(id) => Some(self.user_by_id_request(*id)),
            Command::IsOnLiveUser(id) => Some(self.stream_by_user_id_request(*id)),
            Command::Uid(login) => Some(self.user_by_login_request(login.as_str())),
            Command::TopGames => Some(self.top_games_request()),
            Command::TopGame => Some(self.top_games_request()),
            Command::BannedEvents(id) => Some(self.banned_events_request(*id)),
            Command::Help => None,
            Command::Usage(_) => None,
            Command::Ignored => None,
        }
    }

    /// A GET on `url` with both Helix auth headers attached.
    fn helix_get_exec(&self, url: String) -> (r: HttpRequest)
        ensures
            helix_get(r, *self, url@),
    {
        HttpRequest {
            method: Method::Get,
            url,
            client_id_header: Some(self.client_id.clone()),
            bearer_token: Some(self.bearer_token.clone()),
        }
    }
}

} // verus!
