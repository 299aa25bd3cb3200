use mimir_bot::discord::UserInfo;
use mimir_bot::nickname::{
    nickname_from_reply, nickname_step, NicknameAction, NicknameEvent, NicknameState,
};
use mimir_bot::text::{str_equals, trim_bounds, white_space};

fn user(id: u64, name: &str, discriminator: u16) -> UserInfo<String> {
    UserInfo { id, name: name.to_string(), discriminator, avatar_url: None }
}

#[test]
fn nickname_is_trimmed_and_cut() {
    assert_eq!(nickname_from_reply("  Grand Chef  "), "Grand Chef");
    assert_eq!(nickname_from_reply("\t\n Zoé\u{3000}"), "Zoé");
    assert_eq!(nickname_from_reply("   "), "");
    assert_eq!(nickname_from_reply(""), "");
    let long = "a".repeat(40);
    assert_eq!(nickname_from_reply(&long), "a".repeat(32));
    // 32 characters, not bytes
    let accents = "é".repeat(33);
    assert_eq!(nickname_from_reply(&accents), "é".repeat(32));
    // cut after trimming; whitespace inside is kept
    let inner = format!("  {} {}", "b".repeat(31), "c".repeat(5));
    assert_eq!(nickname_from_reply(&inner), format!("{} ", "b".repeat(31)));
}

#[test]
fn whitespace_matches_std() {
    for c in ['\t', '\n', '\u{b}', '\u{c}', '\r', ' ', '\u{85}', '\u{a0}', '\u{1680}', '\u{2000}',
        '\u{200a}', '\u{2028}', '\u{2029}', '\u{202f}', '\u{205f}', '\u{3000}', 'a', '\u{200b}',
        '\u{feff}', '\u{180e}', '0', 'é'] {
        assert_eq!(white_space(c), c.is_whitespace(), "{:?}", c);
    }
    for text in ["", " a ", "\u{3000}x\u{2029}", "ab", "  "] {
        let (i, j) = trim_bounds(text);
        let chars: Vec<char> = text.chars().collect();
        let trimmed: String = chars[i..j].iter().collect();
        assert_eq!(trimmed, text.trim());
    }
    assert!(str_equals("add", "add"));
    assert!(!str_equals("add", "ad"));
    assert!(!str_equals("add", "adD"));
}

#[test]
fn nickname_round_trip() {
    let (state, action) = nickname_step(
        NicknameState::Start,
        NicknameEvent::Invoked {
            author: user(1, "author", 1),
            mention: Some(user(2, "target", 12)),
            guild: Some(5),
        },
    );
    assert!(matches!(&action, NicknameAction::PostImage { tag, filename }
        if tag == "target#0012" && filename == "nickname.png"));
    let (state, action) = nickname_step(state, NicknameEvent::Posted);
    assert!(matches!(action, NicknameAction::AwaitReply));
    let (state, action) =
        nickname_step(state, NicknameEvent::Replied(Some("  Le Boss ".to_string())));
    assert!(matches!(&action, NicknameAction::SetNickname { guild: 5, user: 2, nick } if nick == "Le Boss"));
    let (state, action) = nickname_step(state, NicknameEvent::Posted);
    assert!(matches!(action, NicknameAction::Sleep(10800)));
    let (state, action) = nickname_step(state, NicknameEvent::Slept);
    assert!(matches!(action, NicknameAction::FetchNick { user: 2, guild: 5 }));
    let (state, action) = nickname_step(state, NicknameEvent::Nick(Some("Le Boss".to_string())));
    assert!(matches!(&action, NicknameAction::SetNickname { guild: 5, user: 2, nick } if nick.is_empty()));
    let (state, action) = nickname_step(state, NicknameEvent::Posted);
    assert!(matches!(action, NicknameAction::Finish));
    assert!(matches!(state, NicknameState::Done));
}

#[test]
fn changed_nickname_is_left_alone() {
    // law_nickname_taken_back_only_if_unchanged on concrete values
    let mut state = NicknameState::Checking { user: 2, guild: 5, nick: "Le Boss".to_string() };
    let (next, action) = nickname_step(state, NicknameEvent::Nick(Some("Autre".to_string())));
    assert!(matches!(action, NicknameAction::Finish));
    assert!(matches!(next, NicknameState::Done));
    state = NicknameState::Checking { user: 2, guild: 5, nick: "Le Boss".to_string() };
    let (next, action) = nickname_step(state, NicknameEvent::Nick(None));
    assert!(matches!(action, NicknameAction::Finish));
    assert!(matches!(next, NicknameState::Done));
}

#[test]
fn author_is_the_default_target_and_failures() {
    let (state, action) = nickname_step(
        NicknameState::Start,
        NicknameEvent::Invoked { author: user(1, "me", 1), mention: None, guild: None },
    );
    assert!(matches!(&action, NicknameAction::PostImage { tag, .. } if tag == "me#0001"));
    let (state, _) = nickname_step(state, NicknameEvent::Posted);
    let (state, action) = nickname_step(state, NicknameEvent::Replied(Some("x".to_string())));
    assert!(matches!(action, NicknameAction::Finish));
    assert!(matches!(&state, NicknameState::Failed(e) if e == "not in a guild"));
    let waiting = NicknameState::Waiting { user: 1, in_guild: Some(3) };
    let (state, _) = nickname_step(waiting, NicknameEvent::Replied(None));
    assert!(matches!(&state, NicknameState::Failed(e) if e == "didn't get a reply"));
}
