use mimir_bot::amimir::{amimir_step, AmimirAction, AmimirEvent, AmimirState};

fn s(x: &str) -> String {
    x.to_string()
}

fn invoked(first: Option<&str>, second: Option<&str>) -> AmimirEvent<String> {
    AmimirEvent::Invoked { first: first.map(s), second: second.map(s) }
}

/// Runs the machine on a script of events; returns every action asked for.
fn run(events: Vec<AmimirEvent<String>>) -> (AmimirState<String>, Vec<AmimirAction<String>>) {
    let mut state = AmimirState::Start;
    let mut actions = Vec::new();
    for e in events {
        let (next, action) = amimir_step(state, e);
        state = next;
        actions.push(action);
    }
    (state, actions)
}

fn reply_text(a: &AmimirAction<String>) -> String {
    match a {
        AmimirAction::Reply(m) => m.clone(),
        _ => panic!("not a reply"),
    }
}

#[test]
fn add_new_link_reacts() {
    let (state, actions) = run(vec![
        invoked(Some("add"), Some("https://x.org")),
        AmimirEvent::UrlChecked(true),
        AmimirEvent::LookedUp(false),
        AmimirEvent::Inserted,
        AmimirEvent::Posted,
    ]);
    assert!(matches!(&actions[0], AmimirAction::CheckUrl(u) if u == "https://x.org"));
    assert!(matches!(&actions[1], AmimirAction::LookUp(u) if u == "https://x.org"));
    assert!(matches!(&actions[2], AmimirAction::Insert(u) if u == "https://x.org"));
    assert!(matches!(&actions[3], AmimirAction::ThumbsUp));
    assert!(matches!(&actions[4], AmimirAction::Finish));
    assert!(matches!(state, AmimirState::Done));
}

#[test]
fn add_known_link_says_so() {
    let (_, actions) = run(vec![
        invoked(Some("add"), Some("https://x.org")),
        AmimirEvent::UrlChecked(true),
        AmimirEvent::LookedUp(true),
    ]);
    assert_eq!(reply_text(&actions[2]), "<https://x.org> est déjà dans la liste des liens");
}

#[test]
fn add_unreachable_link() {
    let (_, actions) = run(vec![invoked(Some("add"), Some("nope")), AmimirEvent::UrlChecked(false)]);
    assert_eq!(
        reply_text(&actions[1]),
        "<nope> n'est pas un lien valide, ou le site n'est pas atteignable"
    );
}

#[test]
fn add_without_link() {
    let (_, actions) = run(vec![invoked(Some("add"), None)]);
    assert_eq!(reply_text(&actions[0]), "Il manque le lien");
}

#[test]
fn delete_link() {
    let (_, actions) = run(vec![invoked(Some("del"), Some("a")), AmimirEvent::Deleted(0)]);
    assert!(matches!(&actions[0], AmimirAction::Delete(u) if u == "a"));
    assert_eq!(reply_text(&actions[1]), "<a> n'était pas dans la liste");
    let (_, actions) = run(vec![invoked(Some("del"), Some("a")), AmimirEvent::Deleted(2)]);
    assert!(matches!(&actions[1], AmimirAction::ThumbsUp));
}

#[test]
fn delete_last_link() {
    let (state, actions) = run(vec![
        invoked(Some("del"), None),
        AmimirEvent::LastId(Some(7)),
        AmimirEvent::Fetched(s("https://last.org")),
        AmimirEvent::DeletedId,
        AmimirEvent::Posted,
    ]);
    assert!(matches!(&actions[0], AmimirAction::FindLastId));
    assert!(matches!(&actions[1], AmimirAction::FetchUrl(7)));
    assert!(matches!(&actions[2], AmimirAction::DeleteId(7)));
    assert_eq!(reply_text(&actions[3]), "<https://last.org> supprimé");
    assert!(matches!(state, AmimirState::Done));
    let (_, actions) = run(vec![invoked(Some("del"), None), AmimirEvent::LastId(None)]);
    assert_eq!(reply_text(&actions[1]), "Auncun lien n'a été supprimé");
}

#[test]
fn unknown_subcommand() {
    let (_, actions) = run(vec![invoked(Some("list"), None)]);
    assert_eq!(reply_text(&actions[0]), "Commande `list` inconnue");
    // the subcommand is compared exactly
    let (_, actions) = run(vec![invoked(Some("ADD"), Some("x"))]);
    assert_eq!(reply_text(&actions[0]), "Commande `ADD` inconnue");
}

#[test]
fn random_link_is_drawn_below_the_count() {
    for count in [1i64, 2, 5, 1000] {
        for _ in 0..50 {
            let (_, actions) = run(vec![invoked(None, None), AmimirEvent::Counted(count)]);
            assert!(matches!(&actions[0], AmimirAction::Count));
            match &actions[1] {
                AmimirAction::FetchAt(o) => assert!(0 <= *o && *o < count),
                _ => panic!("expected a fetch"),
            }
        }
    }
    let (state, actions) = run(vec![
        invoked(None, None),
        AmimirEvent::Counted(1),
        AmimirEvent::Fetched(s("https://a.org")),
        AmimirEvent::Posted,
    ]);
    assert!(matches!(&actions[1], AmimirAction::FetchAt(0)));
    assert!(matches!(&actions[2], AmimirAction::Say(u) if u == "https://a.org"));
    assert!(matches!(state, AmimirState::Done));
}

#[test]
fn errors_end_the_run() {
    // law_amimir_ends: a failure ends the run and nothing more is asked
    let (state, actions) = run(vec![
        invoked(Some("add"), Some("x")),
        AmimirEvent::UrlChecked(true),
        AmimirEvent::Failed(s("database is locked")),
    ]);
    assert!(matches!(&actions[2], AmimirAction::Finish));
    assert!(matches!(state, AmimirState::Failed(e) if e == "database is locked"));
}
