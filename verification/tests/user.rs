use mimir_bot::discord::{parse_user_id, tag_of, UserInfo};
use mimir_bot::user::{make_embed, user_step, UserAction, UserEvent, UserState};

fn user(id: u64, name: &str, discriminator: u16, avatar: Option<&str>) -> UserInfo<String> {
    UserInfo {
        id,
        name: name.to_string(),
        discriminator,
        avatar_url: avatar.map(|a| a.to_string()),
    }
}

fn invoked(
    mention: Option<UserInfo<String>>,
    args_empty: bool,
    current: Option<&str>,
    message: &str,
    guild: Option<u64>,
) -> UserEvent<String> {
    UserEvent::Invoked {
        author: user(1, "author", 7, None),
        mention,
        args_empty,
        current: current.map(|c| c.to_string()),
        message: message.to_string(),
        guild,
    }
}

#[test]
fn tags_are_zero_padded() {
    assert_eq!(tag_of(&user(1, "test", 42, None)), "test#0042");
    assert_eq!(tag_of(&user(1, "Zoé", 1432, None)), "Zoé#1432");
    assert_eq!(tag_of(&user(1, "a", 0, None)), "a#0000");
    assert_eq!(tag_of(&user(1, "a", 65535, None)), "a#65535");
}

#[test]
fn user_ids_and_mentions() {
    assert_eq!(parse_user_id("123"), Some(123));
    assert_eq!(parse_user_id("+123"), Some(123));
    assert_eq!(parse_user_id("<@123>"), Some(123));
    assert_eq!(parse_user_id("<@!123>"), Some(123));
    // the last character of a mention is dropped, whatever it is
    assert_eq!(parse_user_id("<@1234"), Some(123));
    assert_eq!(parse_user_id("<@12x>"), None);
    assert_eq!(parse_user_id("<@>"), None);
    assert_eq!(parse_user_id("abc"), None);
    assert_eq!(parse_user_id(""), None);
    assert_eq!(parse_user_id("-1"), None);
    assert_eq!(parse_user_id("18446744073709551616"), None);
    assert_eq!(parse_user_id("18446744073709551615"), Some(u64::MAX));
}

#[test]
fn embed_of_a_user() {
    let e = make_embed(&user(42, "bob", 3, Some("https://cdn/a.png")), Some("Bobby".to_string()));
    assert_eq!(e.title, "bob#0003");
    assert_eq!(e.id_field, ("ID".to_string(), "42".to_string()));
    assert_eq!(e.nickname_field, Some(("Nickname".to_string(), "Bobby".to_string())));
    assert_eq!(e.image, Some("https://cdn/a.png".to_string()));
    let e = make_embed(&user(42, "bob", 3, None), None);
    assert_eq!(e.nickname_field, None);
    assert_eq!(e.image, None);
}

#[test]
fn without_arguments_the_author_is_shown() {
    let (state, action) = user_step(UserState::Start, invoked(None, true, None, "", Some(9)));
    assert!(matches!(action, UserAction::FetchNick { user: 1, guild: 9 }));
    let (state, action) = user_step(state, UserEvent::Nick(None));
    match action {
        UserAction::SendEmbed(e) => {
            assert_eq!(e.title, "author#0007");
            assert_eq!(e.id_field.1, "1");
        },
        _ => panic!("expected the card"),
    }
    let (state, action) = user_step(state, UserEvent::Posted);
    assert!(matches!(action, UserAction::Finish));
    assert!(matches!(state, UserState::Done));
}

#[test]
fn a_mention_wins_over_the_id() {
    let (_, action) = user_step(
        UserState::Start,
        invoked(Some(user(5, "m", 1, None)), false, Some("<@5>"), "<@5>", Some(9)),
    );
    assert!(matches!(action, UserAction::FetchNick { user: 5, guild: 9 }));
}

#[test]
fn an_id_is_looked_up() {
    let (state, action) =
        user_step(UserState::Start, invoked(None, false, Some("77"), "77", Some(9)));
    assert!(matches!(action, UserAction::FetchUser(77)));
    let (_, action) = user_step(state, UserEvent::FetchedUser(Some(user(77, "x", 1, None))));
    assert!(matches!(action, UserAction::FetchNick { user: 77, guild: 9 }));
}

#[test]
fn unknown_id_and_bad_argument() {
    let (state, _) = user_step(UserState::Start, invoked(None, false, Some("77"), "77", Some(9)));
    let (_, action) = user_step(state, UserEvent::FetchedUser(None));
    assert!(matches!(action, UserAction::Reply(m) if m == "77 n'est l'ID d'aucun utilisateur"));
    let (_, action) =
        user_step(UserState::Start, invoked(None, false, Some("bob"), "bob smith", Some(9)));
    assert!(matches!(action, UserAction::Reply(m) if m == "Impossible de récupérer l'utilisateur bob smith"));
}

#[test]
fn outside_a_server_the_command_fails() {
    let (state, action) = user_step(UserState::Start, invoked(None, true, None, "", None));
    assert!(matches!(action, UserAction::Finish));
    assert!(matches!(state, UserState::Failed(e) if e == "not in a guild"));
}

#[test]
fn a_mention_wins_over_any_argument_text() {
    // the argument is not read when a user is mentioned, whatever it holds
    let (_, action) = user_step(
        UserState::Start,
        invoked(Some(user(5, "m", 1, None)), false, Some("<@1é"), "<@1é", Some(9)),
    );
    assert!(matches!(action, UserAction::FetchNick { user: 5, guild: 9 }));
    let (_, action) = user_step(
        UserState::Start,
        invoked(Some(user(5, "m", 1, None)), false, Some("77"), "77", Some(9)),
    );
    assert!(matches!(action, UserAction::FetchNick { user: 5, guild: 9 }));
}
