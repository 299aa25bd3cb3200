//! The answers of the `uptime` and `edt` commands.
use std::time::Duration;
use vstd::prelude::*;

use crate::duration::{format_duration, spoken_duration, whole_seconds};
use crate::text::{concat3, owned};

verus! {

/// The answer to `uptime` after the bot has run `t` seconds.
pub open spec fn uptime_text(t: nat) -> Seq<char> {
    "Le bot est actif depuis "@ + spoken_duration(t) + "."@
}

/// The answer to `uptime`, given how long the bot has been running.
pub fn uptime_reply(elapsed: Duration) -> (text: String)
    ensures
        text@ == uptime_text(whole_seconds(elapsed) as nat),
{
    let spoken = format_duration(elapsed);
    concat3("Le bot est actif depuis ", spoken.as_str(), ".")
}

/// The answer to `edt`.
pub fn edt_reply() -> (text: String)
    ensures
        text@ == "bientôt™"@,
{
    owned("bientôt™")
}

} // verus!
