//! The `amimir` command: a shared list of links, with `add <link>`,
//! `del [link]` and, without a subcommand, a link drawn at random.
//!
//! The command alternates outside work (checking a link over HTTP, queries
//! on the link table, messages to Discord) and decisions. The decisions are
//! a state machine: `amimir_step` takes the current state and what the last
//! piece of outside work gave, and returns the next state and the next piece
//! of work. `S` is the string type: `String` in running code, `Seq<char>`
//! in specifications.
use rand::Rng;
use vstd::prelude::*;

use crate::text::{concat3, opt_view, owned, str_equals};

verus! {

/// Where a run of the command stands.
pub enum AmimirState<S> {
    /// Nothing done yet.
    Start,
    /// Waiting to know whether the link answers.
    Checking(S),
    /// Waiting to know whether the link is already stored.
    LookingUp(S),
    /// Waiting for the link to be stored.
    Inserting,
    /// Waiting for the rows holding the link to be removed.
    Deleting(S),
    /// Waiting for the largest id of the table.
    FindingLast,
    /// Waiting for the link of the row with this id.
    FetchingLast(i32),
    /// Waiting for the row holding this link to be removed.
    DeletingLast(S),
    /// Waiting for the number of stored links.
    Counting,
    /// Waiting for the link drawn at random.
    Picking,
    /// Waiting for the answer to be posted.
    Answering,
    /// Finished.
    Done,
    /// Stopped on an error of the outside work.
    Failed(S),
}

/// What the bot does next.
pub enum AmimirAction<S> {
    /// Check that the link answers a GET request with a success status.
    CheckUrl(S),
    /// Ask whether the table holds the link.
    LookUp(S),
    /// Store the link.
    Insert(S),
    /// Remove every row that holds the link; report how many went.
    Delete(S),
    /// Ask for the largest id of the table, if any.
    FindLastId,
    /// Ask for the link of the row with this id.
    FetchUrl(i32),
    /// Remove the row with this id.
    DeleteId(i32),
    /// Ask how many links the table holds.
    Count,
    /// Ask for the link at this offset of the table ordered by id.
    FetchAt(i64),
    /// React to the command's message with a thumbs-up.
    ThumbsUp,
    /// Reply to the command's message.
    Reply(S),
    /// Post in the channel of the command's message.
    Say(S),
    /// Nothing more to do.
    Finish,
}

/// What the outside work gave.
pub enum AmimirEvent<S> {
    /// The command was called, with its first two arguments, if present.
    Invoked { first: Option<S>, second: Option<S> },
    /// Whether the link answered with a success status.
    UrlChecked(bool),
    /// Whether the table holds the link.
    LookedUp(bool),
    /// The link was stored.
    Inserted,
    /// This many rows were removed.
    Deleted(u64),
    /// The largest id of the table, if the table is not empty.
    LastId(Option<i32>),
    /// The link that was asked for.
    Fetched(S),
    /// The row was removed.
    DeletedId,
    /// The number of stored links.
    Counted(i64),
    /// The reaction, reply or post went out.
    Posted,
    /// The outside work failed with this error.
    Failed(S),
}

impl View for AmimirState<String> {
    type V = AmimirState<Seq<char>>;

    open spec fn view(&self) -> AmimirState<Seq<char>> {
        match self {
            AmimirState::Start => AmimirState::Start,
            AmimirState::Checking(u) => AmimirState::Checking(u@),
            AmimirState::LookingUp(u) => AmimirState::LookingUp(u@),
            AmimirState::Inserting => AmimirState::Inserting,
            AmimirState::Deleting(u) => AmimirState::Deleting(u@),
            AmimirState::FindingLast => AmimirState::FindingLast,
            AmimirState::FetchingLast(id) => AmimirState::FetchingLast(*id),
            AmimirState::DeletingLast(u) => AmimirState::DeletingLast(u@),
            AmimirState::Counting => AmimirState::Counting,
            AmimirState::Picking => AmimirState::Picking,
            AmimirState::Answering => AmimirState::Answering,
            AmimirState::Done => AmimirState::Done,
            AmimirState::Failed(e) => AmimirState::Failed(e@),
        }
    }
}

impl View for AmimirAction<String> {
    type V = AmimirAction<Seq<char>>;

    open spec fn view(&self) -> AmimirAction<Seq<char>> {
        match self {
            AmimirAction::CheckUrl(u) => AmimirAction::CheckUrl(u@),
            AmimirAction::LookUp(u) => AmimirAction::LookUp(u@),
            AmimirAction::Insert(u) => AmimirAction::Insert(u@),
            AmimirAction::Delete(u) => AmimirAction::Delete(u@),
            AmimirAction::FindLastId => AmimirAction::FindLastId,
            AmimirAction::FetchUrl(id) => AmimirAction::FetchUrl(*id),
            AmimirAction::DeleteId(id) => AmimirAction::DeleteId(*id),
            AmimirAction::Count => AmimirAction::Count,
            AmimirAction::FetchAt(o) => AmimirAction::FetchAt(*o),
            AmimirAction::ThumbsUp => AmimirAction::ThumbsUp,
            AmimirAction::Reply(m) => AmimirAction::Reply(m@),
            AmimirAction::Say(m) => AmimirAction::Say(m@),
            AmimirAction::Finish => AmimirAction::Finish,
        }
    }
}

impl View for AmimirEvent<String> {
    type V = AmimirEvent<Seq<char>>;

    open spec fn view(&self) -> AmimirEvent<Seq<char>> {
        match self {
            AmimirEvent::Invoked { first, second } => AmimirEvent::Invoked {
                first: opt_view(*first),
                second: opt_view(*second),
            },
            AmimirEvent::UrlChecked(b) => AmimirEvent::UrlChecked(*b),
            AmimirEvent::LookedUp(b) => AmimirEvent::LookedUp(*b),
            AmimirEvent::Inserted => AmimirEvent::Inserted,
            AmimirEvent::Deleted(n) => AmimirEvent::Deleted(*n),
            AmimirEvent::LastId(id) => AmimirEvent::LastId(*id),
            AmimirEvent::Fetched(u) => AmimirEvent::Fetched(u@),
            AmimirEvent::DeletedId => AmimirEvent::DeletedId,
            AmimirEvent::Counted(c) => AmimirEvent::Counted(*c),
            AmimirEvent::Posted => AmimirEvent::Posted,
            AmimirEvent::Failed(e) => AmimirEvent::Failed(e@),
        }
    }
}

pub open spec fn missing_link_msg() -> Seq<char> {
    "Il manque le lien"@
}

pub open spec fn unknown_command_msg(cmd: Seq<char>) -> Seq<char> {
    "Commande `"@ + cmd + "` inconnue"@
}

pub open spec fn invalid_link_msg(url: Seq<char>) -> Seq<char> {
    "<"@ + url + "> n'est pas un lien valide, ou le site n'est pas atteignable"@
}

pub open spec fn already_listed_msg(url: Seq<char>) -> Seq<char> {
    "<"@ + url + "> est déjà dans la liste des liens"@
}

pub open spec fn not_listed_msg(url: Seq<char>) -> Seq<char> {
    "<"@ + url + "> n'était pas dans la liste"@
}

pub open spec fn removed_msg(url: Seq<char>) -> Seq<char> {
    "<"@ + url + "> supprimé"@
}

pub open spec fn nothing_removed_msg() -> Seq<char> {
    "Auncun lien n'a été supprimé"@
}

/// Whether a run has ended.
pub open spec fn amimir_finished(s: AmimirState<Seq<char>>) -> bool {
    s is Done || s is Failed
}

/// Whether `e` answers the work that state `s` waits for. An error of the
/// outside work may come in any state that has not ended.
pub open spec fn amimir_accepts(s: AmimirState<Seq<char>>, e: AmimirEvent<Seq<char>>) -> bool {
    match (s, e) {
        (AmimirState::Done, _) => false,
        (AmimirState::Failed(_), _) => false,
        (_, AmimirEvent::Failed(_)) => true,
        (AmimirState::Start, AmimirEvent::Invoked { .. }) => true,
        (AmimirState::Checking(_), AmimirEvent::UrlChecked(_)) => true,
        (AmimirState::LookingUp(_), AmimirEvent::LookedUp(_)) => true,
        (AmimirState::Inserting, AmimirEvent::Inserted) => true,
        (AmimirState::Deleting(_), AmimirEvent::Deleted(_)) => true,
        (AmimirState::FindingLast, AmimirEvent::LastId(_)) => true,
        (AmimirState::FetchingLast(_), AmimirEvent::Fetched(_)) => true,
        (AmimirState::DeletingLast(_), AmimirEvent::DeletedId) => true,
        (AmimirState::Counting, AmimirEvent::Counted(c)) => c > 0,
        (AmimirState::Picking, AmimirEvent::Fetched(_)) => true,
        (AmimirState::Answering, AmimirEvent::Posted) => true,
        _ => false,
    }
}

/// The decision taken on the arguments of the command.
pub open spec fn amimir_dispatch(first: Option<Seq<char>>, second: Option<Seq<char>>) -> (
    AmimirState<Seq<char>>,
    AmimirAction<Seq<char>>,
) {
    match first {
        Some(cmd) => if cmd == "add"@ {
            match second {
                Some(url) => (AmimirState::Checking(url), AmimirAction::CheckUrl(url)),
                None => (AmimirState::Answering, AmimirAction::Reply(missing_link_msg())),
            }
        } else if cmd == "del"@ {
            match second {
                Some(url) => (AmimirState::Deleting(url), AmimirAction::Delete(url)),
                None => (AmimirState::FindingLast, AmimirAction::FindLastId),
            }
        } else {
            (AmimirState::Answering, AmimirAction::Reply(unknown_command_msg(cmd)))
        },
        None => (AmimirState::Counting, AmimirAction::Count),
    }
}

/// The next state and work. After the count of links, `draw` is the offset
/// drawn at random below the count (see `amimir_step`).
pub open spec fn amimir_next(s: AmimirState<Seq<char>>, e: AmimirEvent<Seq<char>>, draw: i64) -> (
    AmimirState<Seq<char>>,
    AmimirAction<Seq<char>>,
) {
    match (s, e) {
        (_, AmimirEvent::Failed(err)) => (AmimirState::Failed(err), AmimirAction::Finish),
        (AmimirState::Start, AmimirEvent::Invoked { first, second }) => amimir_dispatch(
            first,
            second,
        ),
        (AmimirState::Checking(url), AmimirEvent::UrlChecked(ok)) => if ok {
            (AmimirState::LookingUp(url), AmimirAction::LookUp(url))
        } else {
            (AmimirState::Answering, AmimirAction::Reply(invalid_link_msg(url)))
        },
        (AmimirState::LookingUp(url), AmimirEvent::LookedUp(found)) => if found {
            (AmimirState::Answering, AmimirAction::Reply(already_listed_msg(url)))
        } else {
            (AmimirState::Inserting, AmimirAction::Insert(url))
        },
        (AmimirState::Inserting, AmimirEvent::Inserted) => (
            AmimirState::Answering,
            AmimirAction::ThumbsUp,
        ),
        (AmimirState::Deleting(url), AmimirEvent::Deleted(n)) => if n == 0 {
            (AmimirState::Answering, AmimirAction::Reply(not_listed_msg(url)))
        } else {
            (AmimirState::Answering, AmimirAction::ThumbsUp)
        },
        (AmimirState::FindingLast, AmimirEvent::LastId(last)) => match last {
            Some(id) => (AmimirState::FetchingLast(id), AmimirAction::FetchUrl(id)),
            None => (AmimirState::Answering, AmimirAction::Reply(nothing_removed_msg())),
        },
        (AmimirState::FetchingLast(id), AmimirEvent::Fetched(url)) => (
            AmimirState::DeletingLast(url),
            AmimirAction::DeleteId(id),
        ),
        (AmimirState::DeletingLast(url), AmimirEvent::DeletedId) => (
            AmimirState::Answering,
            AmimirAction::Reply(removed_msg(url)),
        ),
        (AmimirState::Counting, AmimirEvent::Counted(_)) => (
            AmimirState::Picking,
            AmimirAction::FetchAt(draw),
        ),
        (AmimirState::Picking, AmimirEvent::Fetched(url)) => (
            AmimirState::Answering,
            AmimirAction::Say(url),
        ),
        (AmimirState::Answering, AmimirEvent::Posted) => (AmimirState::Done, AmimirAction::Finish),
        _ => (s, AmimirAction::Finish),
    }
}

/// The offset that a `FetchAt` asks for (zero for other work).
pub open spec fn drawn_offset(a: AmimirAction<Seq<char>>) -> i64 {
    match a {
        AmimirAction::FetchAt(offset) => offset,
        _ => 0,
    }
}

/// How many decisions a run may still take from state `s`.
pub open spec fn amimir_rank(s: AmimirState<Seq<char>>) -> nat {
    match s {
        AmimirState::Start => 5,
        AmimirState::Checking(_) => 4,
        AmimirState::LookingUp(_) => 3,
        AmimirState::FindingLast => 4,
        AmimirState::FetchingLast(_) => 3,
        AmimirState::Counting => 3,
        AmimirState::Inserting => 2,
        AmimirState::Deleting(_) => 2,
        AmimirState::DeletingLast(_) => 2,
        AmimirState::Picking => 2,
        AmimirState::Answering => 1,
        AmimirState::Done => 0,
        AmimirState::Failed(_) => 0,
    }
}

/// Every run of the command ends: each accepted event brings the state
/// closer to its end (at most five decisions from the start), and the bot is
/// asked for more work exactly as long as the run has not ended.
pub proof fn law_amimir_ends(s: AmimirState<Seq<char>>, e: AmimirEvent<Seq<char>>, draw: i64)
    requires
        amimir_accepts(s, e),
    ensures
        amimir_rank(amimir_next(s, e, draw).0) < amimir_rank(s),
        amimir_next(s, e, draw).1 is Finish <==> amimir_finished(amimir_next(s, e, draw).0),
        amimir_finished(amimir_next(s, e, draw).0) ==> forall|e2: AmimirEvent<Seq<char>>|
            !amimir_accepts(#[trigger] amimir_next(s, e, draw).0, e2),
{
}

/// `add <link>`: the link is checked first; a link that does not answer is
/// refused; one that answers is looked up, stored only if absent, and the
/// message then gets a thumbs-up; a link already present is reported.
pub proof fn law_amimir_add(url: Seq<char>, ok: bool, found: bool, draw: i64)
    ensures
        amimir_next(
            AmimirState::Start,
            AmimirEvent::Invoked { first: Some("add"@), second: Some(url) },
            draw,
        ) == (AmimirState::Checking(url), AmimirAction::CheckUrl(url)),
        amimir_next(AmimirState::Start, AmimirEvent::Invoked { first: Some("add"@), second: None }, draw)
            == (AmimirState::<Seq<char>>::Answering, AmimirAction::Reply("Il manque le lien"@)),
        amimir_next(AmimirState::Checking(url), AmimirEvent::UrlChecked(ok), draw).1 == (if ok {
            AmimirAction::LookUp(url)
        } else {
            AmimirAction::Reply(
                "<"@ + url + "> n'est pas un lien valide, ou le site n'est pas atteignable"@,
            )
        }),
        amimir_next(AmimirState::LookingUp(url), AmimirEvent::LookedUp(found), draw).1 == (if found {
            AmimirAction::Reply("<"@ + url + "> est déjà dans la liste des liens"@)
        } else {
            AmimirAction::Insert(url)
        }),
        amimir_next(AmimirState::Inserting, AmimirEvent::Inserted, draw).1 == AmimirAction::<
            Seq<char>,
        >::ThumbsUp,
{
}

/// `del <link>`: every row holding the link is removed; the message gets a
/// thumbs-up exactly when at least one row went, and otherwise the reply
/// says that the link was not in the list.
pub proof fn law_amimir_delete(url: Seq<char>, removed: u64, draw: i64)
    ensures
        amimir_next(
            AmimirState::Start,
            AmimirEvent::Invoked { first: Some("del"@), second: Some(url) },
            draw,
        ) == (AmimirState::Deleting(url), AmimirAction::Delete(url)),
        amimir_next(AmimirState::Deleting(url), AmimirEvent::Deleted(removed), draw).1 is ThumbsUp
            <==> removed > 0,
        removed == 0 ==> amimir_next(AmimirState::Deleting(url), AmimirEvent::Deleted(removed), draw).1
            == AmimirAction::Reply("<"@ + url + "> n'était pas dans la liste"@),
        amimir_next(AmimirState::Deleting(url), AmimirEvent::Deleted(removed), draw).0
            == AmimirState::<Seq<char>>::Answering,
{
    reveal_strlit("add");
    reveal_strlit("del");
    assert("del"@[0] != "add"@[0]);
}

/// `del` alone: the row with the largest id is read, removed, and its link
/// named in the reply; on an empty table nothing is removed.
pub proof fn law_amimir_delete_last(id: i32, url: Seq<char>, draw: i64)
    ensures
        amimir_next(AmimirState::Start, AmimirEvent::Invoked { first: Some("del"@), second: None }, draw)
            == (AmimirState::<Seq<char>>::FindingLast, AmimirAction::<Seq<char>>::FindLastId),
        amimir_next(AmimirState::FindingLast, AmimirEvent::LastId(Some(id)), draw) == (
            AmimirState::<Seq<char>>::FetchingLast(id),
            AmimirAction::<Seq<char>>::FetchUrl(id),
        ),
        amimir_next(AmimirState::FindingLast, AmimirEvent::LastId(None), draw).1
            == AmimirAction::Reply("Auncun lien n'a été supprimé"@),
        amimir_next(AmimirState::FetchingLast(id), AmimirEvent::Fetched(url), draw) == (
            AmimirState::DeletingLast(url),
            AmimirAction::<Seq<char>>::DeleteId(id),
        ),
        amimir_next(AmimirState::DeletingLast(url), AmimirEvent::DeletedId, draw).1
            == AmimirAction::Reply("<"@ + url + "> supprimé"@),
{
    reveal_strlit("add");
    reveal_strlit("del");
    assert("del"@[0] != "add"@[0]);
}

/// Without a subcommand a link is drawn: whatever offset below the count is
/// drawn is the one asked for, so every stored link can be posted, and the
/// link read there is posted as it is. Any other subcommand is refused by
/// name.
pub proof fn law_amimir_random(count: i64, draw: i64, url: Seq<char>, cmd: Seq<char>, second: Option<Seq<char>>)
    requires
        0 <= draw < count,
        cmd != "add"@,
        cmd != "del"@,
    ensures
        amimir_next(AmimirState::Start, AmimirEvent::Invoked { first: None, second }, draw) == (
            AmimirState::<Seq<char>>::Counting,
            AmimirAction::<Seq<char>>::Count,
        ),
        amimir_accepts(AmimirState::Counting, AmimirEvent::Counted(count)),
        amimir_next(AmimirState::Counting, AmimirEvent::Counted(count), draw) == (
            AmimirState::<Seq<char>>::Picking,
            AmimirAction::<Seq<char>>::FetchAt(draw),
        ),
        amimir_next(AmimirState::Picking, AmimirEvent::Fetched(url), draw).1 == AmimirAction::Say(url),
        amimir_next(AmimirState::Start, AmimirEvent::Invoked { first: Some(cmd), second }, draw).1
            == AmimirAction::Reply("Commande `"@ + cmd + "` inconnue"@),
{
}

/// Calls `rand::thread_rng().gen_range(0..n)`: a number drawn uniformly in
/// `0..n`. Only the range of the result is stated; `gen_range` panics on an
/// empty range, hence `n > 0`.
#[verifier::external_body]
fn random_below(n: i64) -> (r: i64)
    requires
        n > 0,
    ensures
        0 <= r < n,
{
    rand::thread_rng().gen_range(0..n)
}

fn dispatch(first: Option<String>, second: Option<String>) -> (r: (
    AmimirState<String>,
    AmimirAction<String>,
))
    ensures
        (r.0@, r.1@) == amimir_dispatch(opt_view(first), opt_view(second)),
{
    match first {
        Some(cmd) => {
            if str_equals(cmd.as_str(), "add") {
                match second {
                    Some(url) => (AmimirState::Checking(url.clone()), AmimirAction::CheckUrl(url)),
                    None => (AmimirState::Answering, AmimirAction::Reply(owned("Il manque le lien"))),
                }
            } else if str_equals(cmd.as_str(), "del") {
                match second {
                    Some(url) => (AmimirState::Deleting(url.clone()), AmimirAction::Delete(url)),
                    None => (AmimirState::FindingLast, AmimirAction::FindLastId),
                }
            } else {
                (
                    AmimirState::Answering,
                    AmimirAction::Reply(concat3("Commande `", cmd.as_str(), "` inconnue")),
                )
            }
        },
        None => (AmimirState::Counting, AmimirAction::Count),
    }
}

/// One decision of the command, given the offset `draw` that a run draws
/// at random after the count of links (and that is used only then): from the
/// current state and what the last outside work gave, the next state and the
/// next work.
pub fn amimir_decide(state: AmimirState<String>, event: AmimirEvent<String>, draw: i64) -> (r: (
    AmimirState<String>,
    AmimirAction<String>,
))
    requires
        amimir_accepts(state@, event@),
        state@ is Counting && event@ is Counted ==> 0 <= draw < event@->Counted_0,
    ensures
        (r.0@, r.1@) == amimir_next(state@, event@, draw),
{
    match event {
        AmimirEvent::Failed(err) => (AmimirState::Failed(err), AmimirAction::Finish),
        AmimirEvent::Invoked { first, second } => dispatch(first, second),
        AmimirEvent::UrlChecked(ok) => match state {
            AmimirState::Checking(url) => {
                if ok {
                    (AmimirState::LookingUp(url.clone()), AmimirAction::LookUp(url))
                } else {
                    (
                        AmimirState::Answering,
                        AmimirAction::Reply(
                            concat3(
                                "<",
                                url.as_str(),
                                "> n'est pas un lien valide, ou le site n'est pas atteignable",
                            ),
                        ),
                    )
                }
            },
            _ => (state, AmimirAction::Finish),
        },
        AmimirEvent::LookedUp(found) => match state {
            AmimirState::LookingUp(url) => {
                if found {
                    (
                        AmimirState::Answering,
                        AmimirAction::Reply(
                            concat3("<", url.as_str(), "> est déjà dans la liste des liens"),
                        ),
                    )
                } else {
                    (AmimirState::Inserting, AmimirAction::Insert(url))
                }
            },
            _ => (state, AmimirAction::Finish),
        },
        AmimirEvent::Inserted => (AmimirState::Answering, AmimirAction::ThumbsUp),
        AmimirEvent::Deleted(n) => match state {
            AmimirState::Deleting(url) => {
                if n == 0 {
                    (
                        AmimirState::Answering,
                        AmimirAction::Reply(concat3("<", url.as_str(), "> n'était pas dans la liste")),
                    )
                } else {
                    (AmimirState::Answering, AmimirAction::ThumbsUp)
                }
            },
            _ => (state, AmimirAction::Finish),
        },
        AmimirEvent::LastId(last) => match last {
            Some(id) => (AmimirState::FetchingLast(id), AmimirAction::FetchUrl(id)),
            None => (
                AmimirState::Answering,
                AmimirAction::Reply(owned("Auncun lien n'a été supprimé")),
            ),
        },
        AmimirEvent::Fetched(url) => match state {
            AmimirState::FetchingLast(id) => (AmimirState::DeletingLast(url), AmimirAction::DeleteId(id)),
            _ => (AmimirState::Answering, AmimirAction::Say(url)),
        },
        AmimirEvent::DeletedId => match state {
            AmimirState::DeletingLast(url) => (
                AmimirState::Answering,
                AmimirAction::Reply(concat3("<", url.as_str(), "> supprimé")),
            ),
            _ => (state, AmimirAction::Finish),
        },
        AmimirEvent::Counted(_) => (AmimirState::Picking, AmimirAction::FetchAt(draw)),
        AmimirEvent::Posted => (AmimirState::Done, AmimirAction::Finish),
    }
}

/// One decision of the command: from the current state and what the last
/// outside work gave, the next state and the next work. On the count of
/// links the offset of the link to post is drawn at random below the count
/// (drawing from an empty range panics, hence the count must be positive).
pub fn amimir_step(state: AmimirState<String>, event: AmimirEvent<String>) -> (r: (
    AmimirState<String>,
    AmimirAction<String>,
))
    requires
        amimir_accepts(state@, event@),
    ensures
        (r.0@, r.1@) == amimir_next(state@, event@, drawn_offset(r.1@)),
        state@ is Counting && event@ is Counted ==> (r.1@ matches AmimirAction::FetchAt(offset) && 0 <= offset
            < event@->Counted_0),
{
    let draw = match (&state, &event) {
        (AmimirState::Counting, AmimirEvent::Counted(count)) => random_below(*count),
        _ => 0,
    };
    amimir_decide(state, event, draw)
}

} // verus!
