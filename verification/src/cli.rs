//! The command line: one token per command, `command` or `command=value`,
//! mapped to the operation it asks for. Sending the resulting requests is
//! the caller's part; this module only decides.

use vstd::prelude::*;

use crate::records::{TopGame, User};
use crate::strutil::{all_dec_digits, dec_value, lemma_split_char_len, parse_u64, split_char, split_on, str_eq};

verus! {

/// Which usage hint a badly-formed command earns.
#[derive(Debug, Clone, Copy, PartialEq, Eq, Structural)]
pub enum Hint {
    InfoUser,
    IsOnLiveUser,
    Uid,
    BannedEvents,
}

/// What one command-line token asks for.
#[derive(Debug, Clone, PartialEq, Eq)]
pub enum Command {
    /// Request an app token, with the scopes to ask for, where given.
    Token(Option<Vec<String>>),
    /// Look a user up by numeric id and print the record list.
    InfoUser(u64),
    /// Ask whether the user with this id is live.
    IsOnLiveUser(u64),
    /// Look a user up by login and print only the first record's id.
    Uid(String),
    /// Print the full trending-games list.
    TopGames,
    /// Print only the first trending-games entry.
    TopGame,
    /// List a broadcaster's ban events.
    BannedEvents(u64),
    /// Print the static help text.
    Help,
    /// A badly-formed command: print its hint, make no request.
    Usage(Hint),
    /// An unrecognized token: silently ignored.
    Ignored,
}

/// The string is a decimal numeral whose value fits in a `u64`.
pub open spec fn is_u64_numeral(s: Seq<char>) -> bool {
    s.len() > 0 && all_dec_digits(s) && dec_value(s) <= u64::MAX
}

/// `r` is the command that the token `p` asks for: the part before the
/// first `=` names the command, the part after it is the argument, and a
/// command that wants an argument gets its usage hint when the token has
/// none, has more than one, or carries a malformed number.
pub open spec fn parse_param_matches(r: Command, p: Seq<char>) -> bool {
    let segs = split_char(p, '=');
    let cmd = segs[0];
    if cmd == "info-user"@ {
        if segs.len() == 2 && is_u64_numeral(segs[1]) {
            r matches Command::InfoUser(n) && n as int == dec_value(segs[1])
        } else {
            r == Command::Usage(Hint::InfoUser)
        }
    } else if cmd == "isonlive-user"@ {
        if segs.len() == 2 && is_u64_numeral(segs[1]) {
            r matches Command::IsOnLiveUser(n) && n as int == dec_value(segs[1])
        } else {
            r == Command::Usage(Hint::IsOnLiveUser)
        }
    } else if cmd == "token"@ {
        if segs.len() == 1 {
            r == Command::Token(None::<Vec<String>>)
        } else if segs.len() == 2 {
            r matches Command::Token(Some(sc)) && sc.deep_view() == split_char(segs[1], ',')
        } else {
            r == Command::Ignored
        }
    } else if cmd == "uid"@ {
        if segs.len() == 2 {
            r matches Command::Uid(login) && login@ == segs[1]
        } else {
            r == Command::Usage(Hint::Uid)
        }
    } else if cmd == "topgames"@ {
        r == Command::TopGames
    } else if cmd == "topgame"@ {
        r == Command::TopGame
    } else if cmd == "bannedevents"@ {
        if segs.len() == 2 && is_u64_numeral(segs[1]) {
            r matches Command::BannedEvents(n) && n as int == dec_value(segs[1])
        } else {
            r == Command::Usage(Hint::BannedEvents)
        }
    } else if cmd == "help"@ {
        r == Command::Help
    } else {
        r == Command::Ignored
    }
}

/// Reads one command-line token.
pub fn parse_param(param: &str) -> (r: Command)
    ensures
        parse_param_matches(r, param@),
{
    let segs = split_on(param, '=');
    proof {
        lemma_split_char_len(param@, '=');
    }
    if str_eq(segs[0].as_str(), "info-user") {
        if segs.len() == 2 {
            match parse_u64(segs[1].as_str()) {
                Some(n) => Command::InfoUser(n),
                None => Command::Usage(Hint::InfoUser),
            }
        } else {
            Command::Usage(Hint::InfoUser)
        }
    } else if str_eq(segs[0].as_str(), "isonlive-user") {
        if segs.len() == 2 {
            match parse_u64(segs[1].as_str()) {
                Some(n) => Command::IsOnLiveUser(n),
                None => Command::Usage(Hint::IsOnLiveUser),
            }
        } else {
            Command::Usage(Hint::IsOnLiveUser)
        }
    } else if str_eq(segs[0].as_str(), "token") {
        if segs.len() == 1 {
            Command::Token(None)
        } else if segs.len() == 2 {
            let scopes = split_on(segs[1].as_str(), ',');
            Command::Token(Some(scopes))
        } else {
            Command::Ignored
        }
    } else if str_eq(segs[0].as_str(), "uid") {
        if segs.len() == 2 {
            Command::Uid(segs[1].clone())
        } else {
            Command::Usage(Hint::Uid)
        }
    } else if str_eq(segs[0].as_str(), "topgames") {
        Command::TopGames
    } else if str_eq(segs[0].as_str(), "topgame") {
        Command::TopGame
    } else if str_eq(segs[0].as_str(), "bannedevents") {
        if segs.len() == 2 {
            match parse_u64(segs[1].as_str()) {
                Some(n) => Command::BannedEvents(n),
                None => Command::Usage(Hint::BannedEvents),
            }
        } else {
            Command::Usage(Hint::BannedEvents)
        }
    } else if str_eq(segs[0].as_str(), "help") {
        Command::Help
    } else {
        Command::Ignored
    }
}

/// The hint a badly-formed command is answered with.
pub fn usage_hint(h: Hint) -> (r: &'static str)
    ensures
        h is InfoUser ==> r@ == "Please, give userid like this : info-user=5555469"@,
        h is IsOnLiveUser ==> r@ == "Please, give userid like this : isonlive-user=5555469"@,
        h is Uid ==> r@ == "Please, give login name like this : uid=zaekof"@,
        h is BannedEvents ==> r@ == "Please, give broadcaster id like this : bannedevents=198704263"@,
{
    match h {
        Hint::InfoUser => "Please, give userid like this : info-user=5555469",
        Hint::IsOnLiveUser => "Please, give userid like this : isonlive-user=5555469",
        Hint::Uid => "Please, give login name like this : uid=zaekof",
        Hint::BannedEvents => "Please, give broadcaster id like this : bannedevents=198704263",
    }
}

/// The static help text.
pub fn help_text() -> (r: &'static str)
    ensures
        r@ == "Please, see the readme file for help."@,
{
    "Please, see the readme file for help."
}

/// The reminder printed when no command at all was given.
pub fn no_params_reminder() -> (r: &'static str)
    ensures
        r@ == "Don't forget to give me some parameters.."@,
{
    "Don't forget to give me some parameters.."
}

/// The id of the first user of the list, for the `uid` command; `None`
/// exactly where no user was found.
pub fn first_user_id(users: &Vec<User>) -> (r: Option<&String>)
    ensures
        match r {
            Some(id) => users@.len() > 0 && id@ == users@[0].id@,
            None => users@.len() == 0,
        },
{
    if users.len() > 0 {
        Some(&users[0].id)
    } else {
        None
    }
}

/// The first entry of the trending-games list, for the `topgame` command;
/// `None` exactly where the list is empty.
pub fn first_top_game(games: &Vec<TopGame>) -> (r: Option<&TopGame>)
    ensures
        match r {
            Some(g) => games@.len() > 0 && *g == games@[0],
            None => games@.len() == 0,
        },
{
    if games.len() > 0 {
        Some(&games[0])
    } else {
        None
    }
}

} // verus!
