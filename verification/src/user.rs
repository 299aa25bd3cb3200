//! The `user` command: shows a card of a user (the author, the first user
//! mentioned, or the user whose id is the argument), with its tag, id,
//! nickname in the server and avatar.
//!
//! As for `amimir`, the decisions are a state machine (`user_step`) that the
//! bot runs, doing the outside work that each step asks for.
use vstd::prelude::*;

use crate::discord::{
    parse_user_id, tag_of, user_id_of, user_id_parsable, user_tag, zero_pad4, UserInfo,
};
use crate::text::{decimal, decimal_string, opt_view, owned};

verus! {

/// The card that answers the command. Each field is a name and a value.
pub struct Embed<S> {
    pub title: S,
    pub id_field: (S, S),
    pub nickname_field: Option<(S, S)>,
    pub image: Option<S>,
}

/// Where a run of the command stands.
pub enum UserState<S> {
    Start,
    /// Waiting for the user with this id; the server, if any, comes along.
    Fetching { id: u64, guild: Option<u64> },
    /// Waiting for the nickname of this user.
    ReadingNick(UserInfo<S>),
    /// Waiting for the answer to be posted.
    Answering,
    Done,
    Failed(S),
}

/// What the bot does next.
pub enum UserAction<S> {
    /// Look up the user with this id.
    FetchUser(u64),
    /// Ask for the nickname of a user in a server.
    FetchNick { user: u64, guild: u64 },
    /// Reply to the command's message.
    Reply(S),
    /// Post the card in the channel of the command's message.
    SendEmbed(Embed<S>),
    /// Nothing more to do.
    Finish,
}

/// What the outside work gave.
pub enum UserEvent<S> {
    /// The command was called: its author, the first user mentioned, whether
    /// it has arguments, its current argument, the whole argument text, and
    /// the server it was sent in.
    Invoked {
        author: UserInfo<S>,
        mention: Option<UserInfo<S>>,
        args_empty: bool,
        current: Option<S>,
        message: S,
        guild: Option<u64>,
    },
    /// The user looked up, if there is one with that id.
    FetchedUser(Option<UserInfo<S>>),
    /// The nickname of the user in the server, if it has one.
    Nick(Option<S>),
    /// The reply or card went out.
    Posted,
    /// The outside work failed with this error.
    Failed(S),
}

pub open spec fn opt_user_view(o: Option<UserInfo<String>>) -> Option<UserInfo<Seq<char>>> {
    match o {
        Some(u) => Some(u@),
        None => None,
    }
}

impl View for Embed<String> {
    type V = Embed<Seq<char>>;

    open spec fn view(&self) -> Embed<Seq<char>> {
        Embed {
            title: self.title@,
            id_field: (self.id_field.0@, self.id_field.1@),
            nickname_field: match self.nickname_field {
                Some(f) => Some((f.0@, f.1@)),
                None => None,
            },
            image: opt_view(self.image),
        }
    }
}

impl View for UserState<String> {
    type V = UserState<Seq<char>>;

    open spec fn view(&self) -> UserState<Seq<char>> {
        match self {
            UserState::Start => UserState::Start,
            UserState::Fetching { id, guild } => UserState::Fetching { id: *id, guild: *guild },
            UserState::ReadingNick(u) => UserState::ReadingNick(u@),
            UserState::Answering => UserState::Answering,
            UserState::Done => UserState::Done,
            UserState::Failed(e) => UserState::Failed(e@),
        }
    }
}

impl View for UserAction<String> {
    type V = UserAction<Seq<char>>;

    open spec fn view(&self) -> UserAction<Seq<char>> {
        match self {
            UserAction::FetchUser(id) => UserAction::FetchUser(*id),
            UserAction::FetchNick { user, guild } => UserAction::FetchNick {
                user: *user,
                guild: *guild,
            },
            UserAction::Reply(m) => UserAction::Reply(m@),
            UserAction::SendEmbed(e) => UserAction::SendEmbed(e@),
            UserAction::Finish => UserAction::Finish,
        }
    }
}

impl View for UserEvent<String> {
    type V = UserEvent<Seq<char>>;

    open spec fn view(&self) -> UserEvent<Seq<char>> {
        match self {
            UserEvent::Invoked { author, mention, args_empty, current, message, guild } =>
                UserEvent::Invoked {
                author: author@,
                mention: opt_user_view(*mention),
                args_empty: *args_empty,
                current: opt_view(*current),
                message: message@,
                guild: *guild,
            },
            UserEvent::FetchedUser(u) => UserEvent::FetchedUser(opt_user_view(*u)),
            UserEvent::Nick(n) => UserEvent::Nick(opt_view(*n)),
            UserEvent::Posted => UserEvent::Posted,
            UserEvent::Failed(e) => UserEvent::Failed(e@),
        }
    }
}

pub open spec fn not_a_user_msg(message: Seq<char>) -> Seq<char> {
    "Impossible de récupérer l'utilisateur "@ + message
}

pub open spec fn unknown_id_msg(id: u64) -> Seq<char> {
    decimal(id as nat) + " n'est l'ID d'aucun utilisateur"@
}

pub open spec fn not_in_guild_msg() -> Seq<char> {
    "not in a guild"@
}

/// The card of `user`, with its nickname if it has one.
pub open spec fn user_embed(user: UserInfo<Seq<char>>, nick: Option<Seq<char>>) -> Embed<
    Seq<char>,
> {
    Embed {
        title: user_tag(user.name, user.discriminator),
        id_field: ("ID"@, decimal(user.id as nat)),
        nickname_field: match nick {
            Some(n) => Some(("Nickname"@, n)),
            None => None,
        },
        image: user.avatar_url,
    }
}

/// Once the user is known: its nickname is asked for, which takes a server.
pub open spec fn user_found(user: UserInfo<Seq<char>>, guild: Option<u64>) -> (
    UserState<Seq<char>>,
    UserAction<Seq<char>>,
) {
    match guild {
        Some(g) => (UserState::ReadingNick(user), UserAction::FetchNick { user: user.id, guild: g }),
        None => (UserState::Failed(not_in_guild_msg()), UserAction::Finish),
    }
}

pub open spec fn user_finished(s: UserState<Seq<char>>) -> bool {
    s is Done || s is Failed
}

/// Whether `e` answers the work that state `s` waits for. When the argument
/// is read as a user id (there are arguments and no user is mentioned), an
/// argument that starts with `<@` must end on a one-byte character:
/// `UserId::from_str` panics on any other.
pub open spec fn user_accepts(s: UserState<Seq<char>>, e: UserEvent<Seq<char>>) -> bool {
    match (s, e) {
        (UserState::Done, _) => false,
        (UserState::Failed(_), _) => false,
        (_, UserEvent::Failed(_)) => true,
        (UserState::Start, UserEvent::Invoked { args_empty, mention, current, .. }) => (
        !args_empty && mention is None && current is Some) ==> user_id_parsable(current->0),
        (UserState::Fetching { .. }, UserEvent::FetchedUser(_)) => true,
        (UserState::ReadingNick(_), UserEvent::Nick(_)) => true,
        (UserState::Answering, UserEvent::Posted) => true,
        _ => false,
    }
}

/// The next state and work.
pub open spec fn user_next(s: UserState<Seq<char>>, e: UserEvent<Seq<char>>) -> (
    UserState<Seq<char>>,
    UserAction<Seq<char>>,
) {
    match (s, e) {
        (_, UserEvent::Failed(err)) => (UserState::Failed(err), UserAction::Finish),
        (
            UserState::Start,
            UserEvent::Invoked { author, mention, args_empty, current, message, guild },
        ) => if args_empty {
            user_found(author, guild)
        } else if mention is Some {
            user_found(mention->0, guild)
        } else if current is Some && user_id_of(current->0) is Some {
            let id = user_id_of(current->0)->0;
            (UserState::Fetching { id, guild }, UserAction::FetchUser(id))
        } else {
            (UserState::Answering, UserAction::Reply(not_a_user_msg(message)))
        },
        (UserState::Fetching { id, guild }, UserEvent::FetchedUser(found)) => match found {
            Some(user) => user_found(user, guild),
            None => (UserState::Answering, UserAction::Reply(unknown_id_msg(id))),
        },
        (UserState::ReadingNick(user), UserEvent::Nick(nick)) => (
            UserState::Answering,
            UserAction::SendEmbed(user_embed(user, nick)),
        ),
        (UserState::Answering, UserEvent::Posted) => (UserState::Done, UserAction::Finish),
        _ => (s, UserAction::Finish),
    }
}

pub open spec fn user_rank(s: UserState<Seq<char>>) -> nat {
    match s {
        UserState::Start => 4,
        UserState::Fetching { .. } => 3,
        UserState::ReadingNick(_) => 2,
        UserState::Answering => 1,
        UserState::Done => 0,
        UserState::Failed(_) => 0,
    }
}

/// Every run of the command ends: each accepted event brings the state
/// closer to its end, and more work is asked for exactly as long as the run
/// has not ended.
pub proof fn law_user_ends(s: UserState<Seq<char>>, e: UserEvent<Seq<char>>)
    requires
        user_accepts(s, e),
    ensures
        user_rank(user_next(s, e).0) < user_rank(s),
        user_next(s, e).1 is Finish <==> user_finished(user_next(s, e).0),
{
}

/// What the card of `user` shows when its nickname is `nick`: the tag as
/// title, the id, the nickname exactly when there is one, the avatar.
pub open spec fn shows_user(card: Embed<Seq<char>>, user: UserInfo<Seq<char>>, nick: Option<Seq<char>>) -> bool {
    &&& card.title == user.name + "#"@ + zero_pad4(decimal(user.discriminator as nat))
    &&& card.id_field == ("ID"@, decimal(user.id as nat))
    &&& card.image == user.avatar_url
    &&& (card.nickname_field is Some <==> nick is Some)
    &&& (nick matches Some(n) ==> card.nickname_field == Some(("Nickname"@, n)))
}

/// The card answers with the user's tag as title, its id, its nickname
/// exactly when the user has one, and its avatar.
pub proof fn law_user_card(user: UserInfo<Seq<char>>, nick: Option<Seq<char>>)
    ensures
        user_next(UserState::ReadingNick(user), UserEvent::Nick(nick)).0 is Answering,
        user_next(UserState::ReadingNick(user), UserEvent::Nick(nick)).1 is SendEmbed,
        shows_user(
            user_next(UserState::ReadingNick(user), UserEvent::Nick(nick)).1->SendEmbed_0,
            user,
            nick,
        ),
{
}

pub open spec fn invocation(
    author: UserInfo<Seq<char>>,
    mention: Option<UserInfo<Seq<char>>>,
    args_empty: bool,
    current: Option<Seq<char>>,
    message: Seq<char>,
    guild: Option<u64>,
) -> UserEvent<Seq<char>> {
    UserEvent::Invoked { author, mention, args_empty, current, message, guild }
}

/// The first decision, in a server `guild`: whose nickname is read, which
/// user is looked up, or what is replied.
pub open spec fn first_decision_in_guild(
    author: UserInfo<Seq<char>>,
    mention: Option<UserInfo<Seq<char>>>,
    args_empty: bool,
    current: Option<Seq<char>>,
    message: Seq<char>,
    guild: u64,
    action: UserAction<Seq<char>>,
) -> bool {
    &&& args_empty ==> action == (UserAction::<Seq<char>>::FetchNick { user: author.id, guild })
    &&& (!args_empty && mention is Some) ==> action == (UserAction::<Seq<char>>::FetchNick {
        user: mention->0.id,
        guild,
    })
    &&& (!args_empty && mention is None && current is Some && user_id_of(current->0) is Some)
        ==> action == UserAction::<Seq<char>>::FetchUser(user_id_of(current->0)->0)
    &&& !args_empty && mention is None && (current is None || user_id_of(current->0) is None)
        ==> action == UserAction::Reply("Impossible de récupérer l'utilisateur "@ + message)
}

/// Whose card is shown: the author when there is no argument, else the
/// first user mentioned (whatever the argument text), else the user whose
/// id the argument gives; its nickname is then read in the server the
/// command came from, and outside a server the command fails.
pub proof fn law_user_choice(
    author: UserInfo<Seq<char>>,
    mention: Option<UserInfo<Seq<char>>>,
    args_empty: bool,
    current: Option<Seq<char>>,
    message: Seq<char>,
    guild: u64,
    fetched: UserInfo<Seq<char>>,
)
    ensures
        first_decision_in_guild(
            author,
            mention,
            args_empty,
            current,
            message,
            guild,
            user_next(
                UserState::Start,
                invocation(author, mention, args_empty, current, message, Some(guild)),
            ).1,
        ),
        args_empty || mention is Some ==> user_next(
            UserState::Start,
            invocation(author, mention, args_empty, current, message, None),
        ).0 == UserState::Failed("not in a guild"@),
        user_next(
            (UserState::Fetching { id: fetched.id, guild: Some(guild) }),
            UserEvent::FetchedUser(Some(fetched)),
        ).1 == (UserAction::<Seq<char>>::FetchNick { user: fetched.id, guild }),
        user_next(
            (UserState::Fetching { id: fetched.id, guild: Some(guild) }),
            UserEvent::FetchedUser(None),
        ).1 == UserAction::Reply(decimal(fetched.id as nat) + " n'est l'ID d'aucun utilisateur"@),
{
}

/// The card of a user: its tag, its id, its nickname if any, its avatar.
pub fn make_embed(user: &UserInfo<String>, nick: Option<String>) -> (embed: Embed<String>)
    ensures
        embed@ == user_embed(user@, opt_view(nick)),
{
    let nickname_field = match nick {
        Some(n) => Some((owned("Nickname"), n)),
        None => None,
    };
    Embed {
        title: tag_of(user),
        id_field: (owned("ID"), decimal_string(user.id)),
        nickname_field,
        image: user.avatar_url.clone(),
    }
}

fn found(user: UserInfo<String>, guild: Option<u64>) -> (r: (UserState<String>, UserAction<String>))
    ensures
        (r.0@, r.1@) == user_found(user@, guild),
{
    match guild {
        Some(g) => {
            let id = user.id;
            (UserState::ReadingNick(user), UserAction::FetchNick { user: id, guild: g })
        },
        None => (UserState::Failed(owned("not in a guild")), UserAction::Finish),
    }
}

/// One decision of the command: from the current state and what the last
/// outside work gave, the next state and the next work.
pub fn user_step(state: UserState<String>, event: UserEvent<String>) -> (r: (
    UserState<String>,
    UserAction<String>,
))
    requires
        user_accepts(state@, event@),
    ensures
        (r.0@, r.1@) == user_next(state@, event@),
{
    match event {
        UserEvent::Failed(err) => (UserState::Failed(err), UserAction::Finish),
        UserEvent::Invoked { author, mention, args_empty, current, message, guild } => {
            if args_empty {
                return found(author, guild);
            }
            match mention {
                Some(user) => {
                    return found(user, guild);
                },
                None => {},
            }
            let parsed = match current {
                Some(arg) => parse_user_id(arg.as_str()),
                None => None,
            };
            match parsed {
                Some(id) => (UserState::Fetching { id, guild }, UserAction::FetchUser(id)),
                None => {
                    let mut text = owned("Impossible de récupérer l'utilisateur ");
                    text.append(message.as_str());
                    (UserState::Answering, UserAction::Reply(text))
                },
            }
        },
        UserEvent::FetchedUser(fetched) => match state {
            UserState::Fetching { id, guild } => match fetched {
                Some(user) => found(user, guild),
                None => {
                    let mut text = decimal_string(id);
                    text.append(" n'est l'ID d'aucun utilisateur");
                    (UserState::Answering, UserAction::Reply(text))
                },
            },
            _ => (state, UserAction::Finish),
        },
        UserEvent::Nick(nick) => match state {
            UserState::ReadingNick(user) => {
                let embed = make_embed(&user, nick);
                (UserState::Answering, UserAction::SendEmbed(embed))
            },
            _ => (state, UserAction::Finish),
        },
        UserEvent::Posted => (UserState::Done, UserAction::Finish),
    }
}

} // verus!
