//! The `nickname` command: the bot posts a picture announcing that the next
//! message will become the nickname of a user (the first one mentioned, or
//! the author) for three hours, sets that nickname, and takes it back after
//! three hours unless it was changed meanwhile.
//!
//! The decisions are a state machine (`nickname_step`) that the bot runs,
//! doing the outside work that each step asks for.
use vstd::prelude::*;

use crate::discord::{tag_of, user_tag, zero_pad4, UserInfo};
use crate::text::decimal;
use crate::text::{is_white_space, opt_view, owned, str_equals, trim, trim_bounds};

verus! {

/// Discord's limit on the length of a nickname, in characters.
pub const NICKNAME_MAX_CHARS: usize = 32;

/// How long a nickname given by the command lasts, in seconds (three hours).
pub const NICKNAME_SECONDS: u64 = 10800;

/// The nickname taken from a reply: the reply without surrounding
/// whitespace, cut to its first 32 characters.
pub open spec fn new_nickname(content: Seq<char>) -> Seq<char> {
    let t = trim(content);
    if t.len() <= NICKNAME_MAX_CHARS {
        t
    } else {
        t.take(NICKNAME_MAX_CHARS as int)
    }
}

/// The nickname taken from a reply: its text without leading and trailing
/// whitespace, cut to the first 32 characters (Discord's limit). It is a
/// stretch of the reply that does not start with whitespace.
pub fn nickname_from_reply(content: &str) -> (nick: String)
    ensures
        nick@ == new_nickname(content@),
        nick@.len() <= NICKNAME_MAX_CHARS,
        nick@.len() > 0 ==> !is_white_space(nick@[0]),
        exists|i: int|
            0 <= i && i + nick@.len() <= content@.len() && nick@ == #[trigger] content@.subrange(
                i,
                i + nick@.len(),
            ),
{
    let (i, j) = trim_bounds(content);
    let end = if j - i > NICKNAME_MAX_CHARS {
        i + NICKNAME_MAX_CHARS
    } else {
        j
    };
    let nick = owned(content.substring_char(i, end));
    proof {
        let t = trim(content@);
        assert(t == content@.subrange(i as int, j as int));
        if t.len() > NICKNAME_MAX_CHARS {
            assert(t.take(NICKNAME_MAX_CHARS as int) =~= content@.subrange(i as int, end as int));
        }
        assert(nick@ =~= content@.subrange(i as int, i + nick@.len()));
    }
    nick
}

/// Where a run of the command stands.
pub enum NicknameState<S> {
    Start,
    /// Waiting for the picture to be posted.
    Posting { user: u64, in_guild: Option<u64> },
    /// Waiting for the reply that gives the nickname.
    Waiting { user: u64, in_guild: Option<u64> },
    /// Waiting for the nickname to be set.
    Renaming { user: u64, guild: u64, nick: S },
    /// Waiting for three hours to pass.
    Sleeping { user: u64, guild: u64, nick: S },
    /// Waiting for the user's nickname as it now is.
    Checking { user: u64, guild: u64, nick: S },
    /// Waiting for the nickname to be removed.
    Restoring,
    Done,
    Failed(S),
}

/// What the bot does next.
pub enum NicknameAction<S> {
    /// Draw the picture that announces the user with this tag, and post it
    /// as a file with this name.
    PostImage { tag: S, filename: S },
    /// Wait for the next message in the channel.
    AwaitReply,
    /// Give the user this nickname in the server (the empty one removes it).
    SetNickname { guild: u64, user: u64, nick: S },
    /// Wait this many seconds.
    Sleep(u64),
    /// Ask for the nickname of the user in the server.
    FetchNick { user: u64, guild: u64 },
    /// Nothing more to do.
    Finish,
}

/// What the outside work gave.
pub enum NicknameEvent<S> {
    /// The command was called by `author`, in a server or not, with maybe a
    /// user mentioned.
    Invoked { author: UserInfo<S>, mention: Option<UserInfo<S>>, guild: Option<u64> },
    /// The picture was posted, or the nickname set.
    Posted,
    /// The text of the next message, if one came.
    Replied(Option<S>),
    /// The wait is over.
    Slept,
    /// The nickname of the user, if it has one.
    Nick(Option<S>),
    /// The outside work failed with this error.
    Failed(S),
}

impl View for NicknameState<String> {
    type V = NicknameState<Seq<char>>;

    open spec fn view(&self) -> NicknameState<Seq<char>> {
        match self {
            NicknameState::Start => NicknameState::Start,
            NicknameState::Posting { user, in_guild } => NicknameState::Posting {
                user: *user,
                in_guild: *in_guild,
            },
            NicknameState::Waiting { user, in_guild } => NicknameState::Waiting {
                user: *user,
                in_guild: *in_guild,
            },
            NicknameState::Renaming { user, guild, nick } => NicknameState::Renaming {
                user: *user,
                guild: *guild,
                nick: nick@,
            },
            NicknameState::Sleeping { user, guild, nick } => NicknameState::Sleeping {
                user: *user,
                guild: *guild,
                nick: nick@,
            },
            NicknameState::Checking { user, guild, nick } => NicknameState::Checking {
                user: *user,
                guild: *guild,
                nick: nick@,
            },
            NicknameState::Restoring => NicknameState::Restoring,
            NicknameState::Done => NicknameState::Done,
            NicknameState::Failed(e) => NicknameState::Failed(e@),
        }
    }
}

impl View for NicknameAction<String> {
    type V = NicknameAction<Seq<char>>;

    open spec fn view(&self) -> NicknameAction<Seq<char>> {
        match self {
            NicknameAction::PostImage { tag, filename } => NicknameAction::PostImage {
                tag: tag@,
                filename: filename@,
            },
            NicknameAction::AwaitReply => NicknameAction::AwaitReply,
            NicknameAction::SetNickname { guild, user, nick } => NicknameAction::SetNickname {
                guild: *guild,
                user: *user,
                nick: nick@,
            },
            NicknameAction::Sleep(s) => NicknameAction::Sleep(*s),
            NicknameAction::FetchNick { user, guild } => NicknameAction::FetchNick {
                user: *user,
                guild: *guild,
            },
            NicknameAction::Finish => NicknameAction::Finish,
        }
    }
}

impl View for NicknameEvent<String> {
    type V = NicknameEvent<Seq<char>>;

    open spec fn view(&self) -> NicknameEvent<Seq<char>> {
        match self {
            NicknameEvent::Invoked { author, mention, guild } => NicknameEvent::Invoked {
                author: author@,
                mention: match mention {
                    Some(u) => Some(u@),
                    None => None,
                },
                guild: *guild,
            },
            NicknameEvent::Posted => NicknameEvent::Posted,
            NicknameEvent::Replied(r) => NicknameEvent::Replied(opt_view(*r)),
            NicknameEvent::Slept => NicknameEvent::Slept,
            NicknameEvent::Nick(n) => NicknameEvent::Nick(opt_view(*n)),
            NicknameEvent::Failed(e) => NicknameEvent::Failed(e@),
        }
    }
}

pub open spec fn nickname_finished(s: NicknameState<Seq<char>>) -> bool {
    s is Done || s is Failed
}

/// Whether `e` answers the work that state `s` waits for.
pub open spec fn nickname_accepts(s: NicknameState<Seq<char>>, e: NicknameEvent<Seq<char>>) -> bool {
    match (s, e) {
        (NicknameState::Done, _) => false,
        (NicknameState::Failed(_), _) => false,
        (_, NicknameEvent::Failed(_)) => true,
        (NicknameState::Start, NicknameEvent::Invoked { .. }) => true,
        (NicknameState::Posting { .. }, NicknameEvent::Posted) => true,
        (NicknameState::Waiting { .. }, NicknameEvent::Replied(_)) => true,
        (NicknameState::Renaming { .. }, NicknameEvent::Posted) => true,
        (NicknameState::Sleeping { .. }, NicknameEvent::Slept) => true,
        (NicknameState::Checking { .. }, NicknameEvent::Nick(_)) => true,
        (NicknameState::Restoring, NicknameEvent::Posted) => true,
        _ => false,
    }
}

/// The next state and work.
pub open spec fn nickname_next(s: NicknameState<Seq<char>>, e: NicknameEvent<Seq<char>>) -> (
    NicknameState<Seq<char>>,
    NicknameAction<Seq<char>>,
) {
    match (s, e) {
        (_, NicknameEvent::Failed(err)) => (NicknameState::Failed(err), NicknameAction::Finish),
        (NicknameState::Start, NicknameEvent::Invoked { author, mention, guild }) => {
            let user = match mention {
                Some(u) => u,
                None => author,
            };
            (
                NicknameState::Posting { user: user.id, in_guild: guild },
                NicknameAction::PostImage {
                    tag: user_tag(user.name, user.discriminator),
                    filename: "nickname.png"@,
                },
            )
        },
        (NicknameState::Posting { user, in_guild }, NicknameEvent::Posted) => (
            NicknameState::Waiting { user, in_guild },
            NicknameAction::AwaitReply,
        ),
        (NicknameState::Waiting { user, in_guild }, NicknameEvent::Replied(reply)) => match reply {
            None => (NicknameState::Failed("didn't get a reply"@), NicknameAction::Finish),
            Some(content) => match in_guild {
                None => (NicknameState::Failed("not in a guild"@), NicknameAction::Finish),
                Some(g) => {
                    let nick = new_nickname(content);
                    (
                        NicknameState::Renaming { user, guild: g, nick },
                        NicknameAction::SetNickname { guild: g, user, nick },
                    )
                },
            },
        },
        (NicknameState::Renaming { user, guild, nick }, NicknameEvent::Posted) => (
            NicknameState::Sleeping { user, guild, nick },
            NicknameAction::Sleep(NICKNAME_SECONDS),
        ),
        (NicknameState::Sleeping { user, guild, nick }, NicknameEvent::Slept) => (
            NicknameState::Checking { user, guild, nick },
            NicknameAction::FetchNick { user, guild },
        ),
        (NicknameState::Checking { user, guild, nick }, NicknameEvent::Nick(current)) => if current
            == Some(nick) {
            (
                NicknameState::Restoring,
                NicknameAction::SetNickname { guild, user, nick: Seq::<char>::empty() },
            )
        } else {
            (NicknameState::Done, NicknameAction::Finish)
        },
        (NicknameState::Restoring, NicknameEvent::Posted) => (
            NicknameState::Done,
            NicknameAction::Finish,
        ),
        _ => (s, NicknameAction::Finish),
    }
}

pub open spec fn nickname_rank(s: NicknameState<Seq<char>>) -> nat {
    match s {
        NicknameState::Start => 7,
        NicknameState::Posting { .. } => 6,
        NicknameState::Waiting { .. } => 5,
        NicknameState::Renaming { .. } => 4,
        NicknameState::Sleeping { .. } => 3,
        NicknameState::Checking { .. } => 2,
        NicknameState::Restoring => 1,
        NicknameState::Done => 0,
        NicknameState::Failed(_) => 0,
    }
}

/// Every run of the command ends: each accepted event brings the state
/// closer to its end, and more work is asked for exactly as long as the run
/// has not ended.
pub proof fn law_nickname_ends(s: NicknameState<Seq<char>>, e: NicknameEvent<Seq<char>>)
    requires
        nickname_accepts(s, e),
    ensures
        nickname_rank(nickname_next(s, e).0) < nickname_rank(s),
        nickname_next(s, e).1 is Finish <==> nickname_finished(nickname_next(s, e).0),
{
}

/// The command only ever gives a user two nicknames: the one taken from the
/// reply, and, three hours later, the empty one, which it sets only if the
/// user still bears the nickname that the command gave.
pub proof fn law_nickname_taken_back_only_if_unchanged(
    s: NicknameState<Seq<char>>,
    e: NicknameEvent<Seq<char>>,
)
    requires
        nickname_accepts(s, e),
        nickname_next(s, e).1 is SetNickname,
    ensures
        s matches NicknameState::Waiting { user, in_guild } ==> e matches NicknameEvent::Replied(
            Some(content),
        ) && nickname_next(s, e).1 == (NicknameAction::SetNickname {
            guild: in_guild->0,
            user,
            nick: new_nickname(content),
        }),
        s matches NicknameState::Checking { user, guild, nick } ==> e == NicknameEvent::Nick(
            Some(nick),
        ) && nickname_next(s, e).1 == (NicknameAction::SetNickname {
            guild,
            user,
            nick: Seq::<char>::empty(),
        }),
        s is Waiting || s is Checking,
{
}

/// Three hours after setting it, the command takes the nickname back (sets
/// the empty one) exactly when the user still bears it; otherwise it stops
/// and leaves the nickname alone.
pub proof fn law_nickname_unchanged_is_taken_back(
    user: u64,
    guild: u64,
    nick: Seq<char>,
    current: Option<Seq<char>>,
)
    ensures
        current == Some(nick) ==> nickname_next(
            (NicknameState::Checking { user, guild, nick }),
            NicknameEvent::Nick(current),
        ) == (NicknameState::<Seq<char>>::Restoring, (NicknameAction::SetNickname {
            guild,
            user,
            nick: Seq::<char>::empty(),
        })),
        current != Some(nick) ==> nickname_next(
            (NicknameState::Checking { user, guild, nick }),
            NicknameEvent::Nick(current),
        ) == (NicknameState::<Seq<char>>::Done, NicknameAction::<Seq<char>>::Finish),
{
}

/// The course of a run: the picture names the mentioned user (else the
/// author) by its tag, the reply is awaited, the nickname taken from it is
/// given to that user in the server, then the command waits three hours
/// and reads the user's nickname in that server.
pub proof fn law_nickname_course(
    author: UserInfo<Seq<char>>,
    mention: Option<UserInfo<Seq<char>>>,
    guild: u64,
    content: Seq<char>,
    nick: Seq<char>,
)
    ensures
        ({
            let target = if mention is Some { mention->0 } else { author };
            nickname_next(
                NicknameState::Start,
                NicknameEvent::Invoked { author, mention, guild: Some(guild) },
            ) == (NicknameState::<Seq<char>>::Posting { user: target.id, in_guild: Some(guild) },
            NicknameAction::PostImage {
                tag: target.name + "#"@ + zero_pad4(decimal(target.discriminator as nat)),
                filename: "nickname.png"@,
            })
        }),
        nickname_next(
            (NicknameState::Posting { user: author.id, in_guild: Some(guild) }),
            NicknameEvent::Posted,
        ).1 == NicknameAction::<Seq<char>>::AwaitReply,
        nickname_next(
            (NicknameState::Waiting { user: author.id, in_guild: Some(guild) }),
            NicknameEvent::Replied(Some(content)),
        ).1 == (NicknameAction::SetNickname { guild, user: author.id, nick: new_nickname(content) }),
        nickname_next(
            (NicknameState::Renaming { user: author.id, guild, nick }),
            NicknameEvent::Posted,
        ).1 == NicknameAction::<Seq<char>>::Sleep(10800),
        nickname_next(
            (NicknameState::Sleeping { user: author.id, guild, nick }),
            NicknameEvent::Slept,
        ) == (NicknameState::Checking { user: author.id, guild, nick }, (NicknameAction::<
            Seq<char>,
        >::FetchNick { user: author.id, guild })),
{
}

/// The nickname is the reply without its surrounding whitespace when that
/// fits in 32 characters, and otherwise its first 32 characters.
pub proof fn law_nickname_from_reply(content: Seq<char>)
    ensures
        trim(content).len() <= 32 ==> new_nickname(content) == trim(content),
        trim(content).len() > 32 ==> new_nickname(content).len() == 32 && new_nickname(content)
            == trim(content).subrange(0, 32),
{
}

fn opt_equals(a: &Option<String>, b: &String) -> (r: bool)
    ensures
        r == (opt_view(*a) == Some(b@)),
{
    match a {
        Some(x) => str_equals(x.as_str(), b.as_str()),
        None => false,
    }
}

/// One decision of the command: from the current state and what the last
/// outside work gave, the next state and the next work.
pub fn nickname_step(state: NicknameState<String>, event: NicknameEvent<String>) -> (r: (
    NicknameState<String>,
    NicknameAction<String>,
))
    requires
        nickname_accepts(state@, event@),
    ensures
        (r.0@, r.1@) == nickname_next(state@, event@),
{
    match event {
        NicknameEvent::Failed(err) => (NicknameState::Failed(err), NicknameAction::Finish),
        NicknameEvent::Invoked { author, mention, guild } => {
            let user = match mention {
                Some(u) => u,
                None => author,
            };
            let tag = tag_of(&user);
            (
                NicknameState::Posting { user: user.id, in_guild: guild },
                NicknameAction::PostImage { tag, filename: owned("nickname.png") },
            )
        },
        NicknameEvent::Posted => match state {
            NicknameState::Posting { user, in_guild } => (
                NicknameState::Waiting { user, in_guild },
                NicknameAction::AwaitReply,
            ),
            NicknameState::Renaming { user, guild, nick } => (
                NicknameState::Sleeping { user, guild, nick },
                NicknameAction::Sleep(NICKNAME_SECONDS),
            ),
            _ => (NicknameState::Done, NicknameAction::Finish),
        },
        NicknameEvent::Replied(reply) => match state {
            NicknameState::Waiting { user, in_guild } => match reply {
                None => (NicknameState::Failed(owned("didn't get a reply")), NicknameAction::Finish),
                Some(content) => match in_guild {
                    None => (NicknameState::Failed(owned("not in a guild")), NicknameAction::Finish),
                    Some(g) => {
                        let nick = nickname_from_reply(content.as_str());
                        let set = NicknameAction::SetNickname {
                            guild: g,
                            user,
                            nick: nick.clone(),
                        };
                        (NicknameState::Renaming { user, guild: g, nick }, set)
                    },
                },
            },
            _ => (state, NicknameAction::Finish),
        },
        NicknameEvent::Slept => match state {
            NicknameState::Sleeping { user, guild, nick } => (
                NicknameState::Checking { user, guild, nick },
                NicknameAction::FetchNick { user, guild },
            ),
            _ => (state, NicknameAction::Finish),
        },
        NicknameEvent::Nick(current) => match state {
            NicknameState::Checking { user, guild, nick } => {
                if opt_equals(&current, &nick) {
                    (
                        NicknameState::Restoring,
                        NicknameAction::SetNickname { guild, user, nick: String::new() },
                    )
                } else {
                    (NicknameState::Done, NicknameAction::Finish)
                }
            },
            _ => (state, NicknameAction::Finish),
        },
    }
}

} // verus!
