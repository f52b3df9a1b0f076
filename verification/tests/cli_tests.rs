use helix_client::cli::{
    first_top_game, first_user_id, help_text, no_params_reminder, parse_param, usage_hint, Command,
    Hint,
};
use helix_client::decode::parse_top_games_response;
use helix_client::records::{TopGame, User};

#[test]
fn uid_command_prints_only_the_first_id() {
    let cmd = parse_param("uid=zaekof");
    assert_eq!(cmd, Command::Uid("zaekof".to_string()));
    let users = vec![User {
        id: "123".to_string(),
        login: "zaekof".to_string(),
        display_name: "Zaekof".to_string(),
        user_type: "".to_string(),
        broadcaster_type: "".to_string(),
        description: "".to_string(),
        view_count: 1,
        offline_image_url: "".to_string(),
        profile_image_url: "".to_string(),
    }];
    assert_eq!(first_user_id(&users), Some(&"123".to_string()));
}

#[test]
fn uid_with_no_user_found_fails() {
    let users: Vec<User> = vec![];
    assert_eq!(first_user_id(&users), None);
}

#[test]
fn info_user_without_value_is_a_usage_hint() {
    assert_eq!(parse_param("info-user"), Command::Usage(Hint::InfoUser));
    assert_eq!(
        usage_hint(Hint::InfoUser),
        "Please, give userid like this : info-user=5555469"
    );
}

#[test]
fn info_user_with_value_carries_the_id() {
    assert_eq!(parse_param("info-user=5555469"), Command::InfoUser(5555469));
}

#[test]
fn malformed_numbers_earn_the_usage_hint() {
    assert_eq!(parse_param("info-user=abc"), Command::Usage(Hint::InfoUser));
    assert_eq!(
        parse_param("isonlive-user=99999999999999999999999"),
        Command::Usage(Hint::IsOnLiveUser)
    );
    assert_eq!(parse_param("bannedevents="), Command::Usage(Hint::BannedEvents));
}

#[test]
fn token_forms() {
    assert_eq!(parse_param("token"), Command::Token(None));
    assert_eq!(
        parse_param("token=a,b"),
        Command::Token(Some(vec!["a".to_string(), "b".to_string()]))
    );
    assert_eq!(parse_param("token=a=b"), Command::Ignored);
}

#[test]
fn other_commands() {
    assert_eq!(parse_param("isonlive-user=123"), Command::IsOnLiveUser(123));
    assert_eq!(parse_param("uid"), Command::Usage(Hint::Uid));
    assert_eq!(parse_param("topgames"), Command::TopGames);
    assert_eq!(parse_param("topgame"), Command::TopGame);
    assert_eq!(parse_param("bannedevents=198704263"), Command::BannedEvents(198704263));
    assert_eq!(parse_param("help"), Command::Help);
    assert_eq!(parse_param("/usr/bin/some-program"), Command::Ignored);
    assert_eq!(parse_param(""), Command::Ignored);
}

#[test]
fn static_texts() {
    assert_eq!(help_text(), "Please, see the readme file for help.");
    assert_eq!(no_params_reminder(), "Don't forget to give me some parameters..");
    assert_eq!(
        usage_hint(Hint::Uid),
        "Please, give login name like this : uid=zaekof"
    );
    assert_eq!(
        usage_hint(Hint::IsOnLiveUser),
        "Please, give userid like this : isonlive-user=5555469"
    );
    assert_eq!(
        usage_hint(Hint::BannedEvents),
        "Please, give broadcaster id like this : bannedevents=198704263"
    );
}

#[test]
fn topgame_takes_entry_zero_of_three() {
    let text = "{\"data\":[{\"id\":\"1\",\"name\":\"G1\",\"box_art_url\":\"u1\"},\
{\"id\":\"2\",\"name\":\"G2\",\"box_art_url\":\"u2\"},\
{\"id\":\"3\",\"name\":\"G3\",\"box_art_url\":\"u3\"}]}";
    let games = parse_top_games_response(text).unwrap();
    assert_eq!(games.len(), 3);
    let first = first_top_game(&games).unwrap();
    assert_eq!(first.id, "1");
    assert_eq!(first.name, "G1");
    assert_eq!(first.box_art_url, "u1");
}

#[test]
fn topgame_with_empty_list_fails() {
    let games: Vec<TopGame> = vec![];
    assert!(first_top_game(&games).is_none());
}
