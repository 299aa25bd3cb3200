//! Spelling out a duration in French: "2 heures, 1 minute et 1 seconde".
use std::time::Duration;
use vstd::arithmetic::div_mod::lemma_fundamental_div_mod_converse;
use vstd::prelude::*;

use crate::text::{decimal, lemma_decimal_leading_digit, push_decimal};

verus! {

/// The number of whole seconds in a duration, as `Duration::as_secs` returns it.
pub uninterp spec fn whole_seconds(d: Duration) -> u64;

/// Calls `Duration::as_secs`, which returns the whole seconds of `d` (the
/// fractional part is dropped). The result is only named, not computed.
#[verifier::external_body]
fn duration_as_secs(d: &Duration) -> (secs: u64)
    ensures
        secs == whole_seconds(*d),
{
    d.as_secs()
}

/// Seconds past the last whole minute.
pub open spec fn seconds_of(t: nat) -> nat {
    t % 60
}

/// Minutes past the last whole hour.
pub open spec fn minutes_of(t: nat) -> nat {
    (t / 60) % 60
}

/// Hours past the last whole day.
pub open spec fn hours_of(t: nat) -> nat {
    (t / 60 / 60) % 24
}

/// Whole days.
pub open spec fn days_of(t: nat) -> nat {
    t / 60 / 60 / 24
}

/// "`n` `unit`", with a plural `s` unless `n` is one: "1 heure", "3 heures".
pub open spec fn unit_phrase(n: nat, unit: Seq<char>) -> Seq<char> {
    decimal(n) + " "@ + unit + (if n == 1 {
        Seq::<char>::empty()
    } else {
        "s"@
    })
}

/// The phrase for `n` units, or nothing when `n` is zero.
pub open spec fn part(n: nat, unit: Seq<char>) -> Seq<Seq<char>> {
    if n == 0 {
        seq![]
    } else {
        seq![unit_phrase(n, unit)]
    }
}

/// The non-zero components of `t` seconds, largest first.
pub open spec fn duration_parts(t: nat) -> Seq<Seq<char>> {
    part(days_of(t), "jour"@) + part(hours_of(t), "heure"@) + part(minutes_of(t), "minute"@) + part(
        seconds_of(t),
        "seconde"@,
    )
}

/// `parts` separated by ", ".
pub open spec fn comma_list(parts: Seq<Seq<char>>) -> Seq<char>
    decreases parts.len(),
{
    if parts.len() == 0 {
        seq![]
    } else if parts.len() == 1 {
        parts[0]
    } else {
        comma_list(parts.drop_last()) + ", "@ + parts.last()
    }
}

/// A French enumeration: "a", "a et b", "a, b et c", ...; "0 secondes" when
/// there is nothing to enumerate.
pub open spec fn enumeration(parts: Seq<Seq<char>>) -> Seq<char> {
    if parts.len() == 0 {
        "0 secondes"@
    } else if parts.len() == 1 {
        parts[0]
    } else {
        comma_list(parts.drop_last()) + " et "@ + parts.last()
    }
}

/// How `t` seconds are spelled out.
pub open spec fn spoken_duration(t: nat) -> Seq<char> {
    enumeration(duration_parts(t))
}

pub open spec fn string_views(v: Seq<String>) -> Seq<Seq<char>> {
    v.map_values(|s: String| s@)
}

fn unit_phrase_string(n: u64, unit: &str) -> (phrase: String)
    ensures
        phrase@ == unit_phrase(n as nat, unit@),
{
    let mut phrase = String::new();
    push_decimal(&mut phrase, n);
    phrase.append(" ");
    phrase.append(unit);
    if n != 1 {
        phrase.append("s");
    }
    proof {
        assert(phrase@ =~= unit_phrase(n as nat, unit@));
    }
    phrase
}

fn join_parts(parts: &Vec<String>) -> (text: String)
    ensures
        text@ == enumeration(string_views(parts@)),
{
    let ghost views = string_views(parts@);
    let n = parts.len();
    let mut text = String::new();
    if n == 0 {
        text.append("0 secondes");
        proof {
            assert(text@ =~= enumeration(views));
        }
        return text;
    }
    text.append(parts[0].as_str());
    proof {
        assert(views.take(1).drop_last() =~= Seq::<Seq<char>>::empty());
        assert(text@ =~= comma_list(views.take(1)));
    }
    let mut i: usize = 1;
    while i + 1 < n
        invariant
            n == parts@.len(),
            views == string_views(parts@),
            1 <= i,
            i == 1 || i < n,
            text@ == comma_list(views.take(i as int)),
        decreases n - i,
    {
        text.append(", ");
        text.append(parts[i].as_str());
        proof {
            assert(views.take(i + 1).drop_last() =~= views.take(i as int));
            assert(text@ =~= comma_list(views.take(i + 1)));
        }
        i = i + 1;
    }
    if n >= 2 {
        text.append(" et ");
        text.append(parts[n - 1].as_str());
        proof {
            assert(views.drop_last() =~= views.take(i as int));
            assert(text@ =~= enumeration(views));
        }
    } else {
        assert(views.take(1) =~= views);
    }
    text
}

/// Spells out `secs` seconds in French, as days, hours, minutes and seconds.
pub fn format_seconds(secs: u64) -> (text: String)
    ensures
        text@ == spoken_duration(secs as nat),
{
    let mut left = secs;
    let seconds = left % 60;
    left = left / 60;
    let minutes = left % 60;
    left = left / 60;
    let hours = left % 24;
    left = left / 24;
    let days = left;
    let t = Ghost(secs as nat);
    let mut parts: Vec<String> = Vec::new();
    if days != 0 {
        parts.push(unit_phrase_string(days, "jour"));
    }
    assert(string_views(parts@) =~= part(days_of(t@), "jour"@));
    if hours != 0 {
        parts.push(unit_phrase_string(hours, "heure"));
    }
    assert(string_views(parts@) =~= part(days_of(t@), "jour"@) + part(hours_of(t@), "heure"@));
    if minutes != 0 {
        parts.push(unit_phrase_string(minutes, "minute"));
    }
    assert(string_views(parts@) =~= part(days_of(t@), "jour"@) + part(hours_of(t@), "heure"@)
        + part(minutes_of(t@), "minute"@));
    if seconds != 0 {
        parts.push(unit_phrase_string(seconds, "seconde"));
    }
    assert(string_views(parts@) =~= duration_parts(t@));
    join_parts(&parts)
}

/// Spells out a duration in French, counting its whole seconds only:
/// "15 jours, 16 heures, 17 minutes et 18 secondes", or "0 secondes".
pub fn format_duration(time: Duration) -> (text: String)
    ensures
        text@ == spoken_duration(whole_seconds(time) as nat),
{
    format_seconds(duration_as_secs(&time))
}

/// A duration given by its days, hours, minutes and seconds is spelled out
/// component by component: the non-zero ones, largest first, each with its
/// plural, listed with commas and a final "et".
pub proof fn law_spoken_components(d: nat, h: nat, m: nat, s: nat)
    requires
        h < 24,
        m < 60,
        s < 60,
    ensures
        spoken_duration(((d * 24 + h) * 60 + m) * 60 + s) == enumeration(
            part(d, "jour"@) + part(h, "heure"@) + part(m, "minute"@) + part(s, "seconde"@),
        ),
{
    let t = ((d * 24 + h) * 60 + m) * 60 + s;
    lemma_fundamental_div_mod_converse(t as int, 60, ((d * 24 + h) * 60 + m) as int, s as int);
    lemma_fundamental_div_mod_converse(
        ((d * 24 + h) * 60 + m) as int,
        60,
        (d * 24 + h) as int,
        m as int,
    );
    lemma_fundamental_div_mod_converse((d * 24 + h) as int, 24, d as int, h as int);
    assert(seconds_of(t) == s);
    assert(minutes_of(t) == m);
    assert(hours_of(t) == h);
    assert(days_of(t) == d);
}

/// Reading a spelled-out duration back gives its seconds: the text lists
/// the days, hours, minutes and seconds of `t` (the zero ones left out),
/// hours are below 24, minutes and seconds below 60, and
/// `days * 86400 + hours * 3600 + minutes * 60 + seconds` is `t`.
pub proof fn law_spoken_round_trip(t: nat)
    ensures
        hours_of(t) < 24,
        minutes_of(t) < 60,
        seconds_of(t) < 60,
        days_of(t) * 86400 + hours_of(t) * 3600 + minutes_of(t) * 60 + seconds_of(t) == t,
        spoken_duration(t) == enumeration(
            part(days_of(t), "jour"@) + part(hours_of(t), "heure"@) + part(minutes_of(t), "minute"@)
                + part(seconds_of(t), "seconde"@),
        ),
{
    let d = days_of(t);
    let h = hours_of(t);
    let m = minutes_of(t);
    let s = seconds_of(t);
    let a = t / 60;
    let b = a / 60;
    assert(t == a * 60 + s) by (nonlinear_arith)
        requires
            a == t / 60,
            s == t % 60,
    ;
    assert(a == b * 60 + m) by (nonlinear_arith)
        requires
            b == a / 60,
            m == a % 60,
    ;
    assert(b == d * 24 + h) by (nonlinear_arith)
        requires
            d == b / 24,
            h == b % 24,
    ;
    assert(d * 86400 + h * 3600 + m * 60 + s == ((d * 24 + h) * 60 + m) * 60 + s) by (
    nonlinear_arith);
}

/// The plural: the count is written, a space, the unit, and an `s` exactly
/// when the count is not one.
pub proof fn law_plural(n: nat, unit: Seq<char>)
    ensures
        unit_phrase(n, unit).subrange(0, (decimal(n).len() + 1 + unit.len()) as int) == decimal(n) + seq![' ']
            + unit,
        unit_phrase(n, unit).len() > decimal(n).len() + 1 + unit.len() <==> n != 1,
        n != 1 ==> unit_phrase(n, unit) == decimal(n) + seq![' '] + unit + seq!['s'],
        n == 1 ==> unit_phrase(n, unit) == seq!['1', ' '] + unit,
{
    reveal_strlit(" ");
    reveal_strlit("s");
    let p = unit_phrase(n, unit);
    assert(p.subrange(0, (decimal(n).len() + 1 + unit.len()) as int) =~= decimal(n) + seq![' '] + unit);
    if n != 1 {
        assert(p =~= decimal(n) + seq![' '] + unit + seq!['s']);
    } else {
        assert(decimal(1) == seq!['1']);
        assert(p =~= seq!['1', ' '] + unit);
    }
}

/// A duration of whole seconds, minutes, hours or days only reads as that
/// single count with its unit, singular for one and plural from two on.
pub proof fn law_single_unit(n: nat)
    requires
        1 <= n,
    ensures
        n < 60 ==> spoken_duration(n) == decimal(n) + (if n == 1 {
            " seconde"@
        } else {
            " secondes"@
        }),
        n < 60 ==> spoken_duration(n * 60) == decimal(n) + (if n == 1 {
            " minute"@
        } else {
            " minutes"@
        }),
        n < 24 ==> spoken_duration(n * 3600) == decimal(n) + (if n == 1 {
            " heure"@
        } else {
            " heures"@
        }),
        spoken_duration(n * 86400) == decimal(n) + (if n == 1 {
            " jour"@
        } else {
            " jours"@
        }),
{
    reveal_strlit(" ");
    reveal_strlit("s");
    reveal_strlit("seconde");
    reveal_strlit("minute");
    reveal_strlit("heure");
    reveal_strlit("jour");
    reveal_strlit(" seconde");
    reveal_strlit(" secondes");
    reveal_strlit(" minute");
    reveal_strlit(" minutes");
    reveal_strlit(" heure");
    reveal_strlit(" heures");
    reveal_strlit(" jour");
    reveal_strlit(" jours");
    let e = Seq::<Seq<char>>::empty();
    if n < 60 {
        law_spoken_components(0, 0, 0, n);
        assert(part(0, "jour"@) + part(0, "heure"@) + part(0, "minute"@) + part(n, "seconde"@)
            =~= seq![unit_phrase(n, "seconde"@)]);
        assert(((0 * 24 + 0) * 60 + 0) * 60 + n == n) by (nonlinear_arith);
        law_spoken_components(0, 0, n, 0);
        assert(part(0, "jour"@) + part(0, "heure"@) + part(n, "minute"@) + part(0, "seconde"@)
            =~= seq![unit_phrase(n, "minute"@)]);
        assert(((0 * 24 + 0) * 60 + n) * 60 + 0 == n * 60) by (nonlinear_arith);
        assert(unit_phrase(n, "seconde"@) =~= decimal(n) + (if n == 1 {
            " seconde"@
        } else {
            " secondes"@
        }));
        assert(unit_phrase(n, "minute"@) =~= decimal(n) + (if n == 1 {
            " minute"@
        } else {
            " minutes"@
        }));
    }
    if n < 24 {
        law_spoken_components(0, n, 0, 0);
        assert(part(0, "jour"@) + part(n, "heure"@) + part(0, "minute"@) + part(0, "seconde"@)
            =~= seq![unit_phrase(n, "heure"@)]);
        assert(((0 * 24 + n) * 60 + 0) * 60 + 0 == n * 3600) by (nonlinear_arith);
        assert(unit_phrase(n, "heure"@) =~= decimal(n) + (if n == 1 {
            " heure"@
        } else {
            " heures"@
        }));
    }
    law_spoken_components(n, 0, 0, 0);
    assert(part(n, "jour"@) + part(0, "heure"@) + part(0, "minute"@) + part(0, "seconde"@)
        =~= seq![unit_phrase(n, "jour"@)]);
    assert(((n * 24 + 0) * 60 + 0) * 60 + 0 == n * 86400) by (nonlinear_arith);
    assert(unit_phrase(n, "jour"@) =~= decimal(n) + (if n == 1 {
        " jour"@
    } else {
        " jours"@
    }));
}

/// How the components are listed: alone; "a et b"; "a, b et c";
/// "a, b, c et d"; and "0 secondes" when there is none.
pub proof fn law_enumeration_shape(parts: Seq<Seq<char>>)
    ensures
        parts.len() == 0 ==> enumeration(parts) == "0 secondes"@,
        parts.len() == 1 ==> enumeration(parts) == parts[0],
        parts.len() == 2 ==> enumeration(parts) == parts[0] + seq![' ', 'e', 't', ' '] + parts[1],
        parts.len() == 3 ==> enumeration(parts) == parts[0] + seq![',', ' '] + parts[1] + seq![
            ' ',
            'e',
            't',
            ' ',
        ] + parts[2],
        parts.len() == 4 ==> enumeration(parts) == parts[0] + seq![',', ' '] + parts[1] + seq![
            ',',
            ' ',
        ] + parts[2] + seq![' ', 'e', 't', ' '] + parts[3],
{
    reveal_strlit(" et ");
    reveal_strlit(", ");
    if parts.len() == 2 {
        assert(parts.drop_last() =~= seq![parts[0]]);
        assert(enumeration(parts) =~= parts[0] + seq![' ', 'e', 't', ' '] + parts[1]);
    } else if parts.len() == 3 {
        let a = parts.drop_last();
        assert(a.drop_last() =~= seq![parts[0]]);
        assert(comma_list(a.drop_last()) == parts[0]);
        assert(a.last() == parts[1]);
        assert(comma_list(a) =~= parts[0] + seq![',', ' '] + parts[1]);
        assert(enumeration(parts) =~= parts[0] + seq![',', ' '] + parts[1] + seq![' ', 'e', 't', ' ']
            + parts[2]);
    } else if parts.len() == 4 {
        let a = parts.drop_last();
        let b = a.drop_last();
        assert(b.drop_last() =~= seq![parts[0]]);
        assert(comma_list(b.drop_last()) == parts[0]);
        assert(b.last() == parts[1]);
        assert(a.last() == parts[2]);
        assert(comma_list(b) =~= parts[0] + seq![',', ' '] + parts[1]);
        assert(comma_list(a) =~= parts[0] + seq![',', ' '] + parts[1] + seq![',', ' '] + parts[2]);
        assert(enumeration(parts) =~= parts[0] + seq![',', ' '] + parts[1] + seq![',', ' ']
            + parts[2] + seq![' ', 'e', 't', ' '] + parts[3]);
    }
}

/// A duration has at most four components (days, hours, minutes, seconds),
/// so the enumeration never has more than four items.
pub proof fn law_at_most_four_parts(t: nat)
    ensures
        duration_parts(t).len() <= 4,
{
}

proof fn lemma_comma_list_first(parts: Seq<Seq<char>>)
    requires
        parts.len() >= 1,
        parts[0].len() >= 1,
    ensures
        comma_list(parts).len() >= 1,
        comma_list(parts)[0] == parts[0][0],
    decreases parts.len(),
{
    if parts.len() > 1 {
        lemma_comma_list_first(parts.drop_last());
    }
}

/// Only the zero duration reads "0 secondes": any other duration names at
/// least one non-zero component.
pub proof fn law_zero_reading(t: nat)
    ensures
        spoken_duration(t) == "0 secondes"@ <==> t == 0,
{
    reveal_strlit("0 secondes");
    let parts = duration_parts(t);
    if t == 0 {
        assert(parts =~= Seq::<Seq<char>>::empty());
    } else {
        assert(t == (t / 60) * 60 + t % 60) by (nonlinear_arith);
        assert(t / 60 == (t / 60 / 60) * 60 + (t / 60) % 60) by (nonlinear_arith);
        assert(t / 60 / 60 == (t / 60 / 60 / 24) * 24 + (t / 60 / 60) % 24) by (nonlinear_arith);
        assert(days_of(t) != 0 || hours_of(t) != 0 || minutes_of(t) != 0 || seconds_of(t) != 0);
        assert(parts.len() >= 1);
        let first = parts[0];
        let n: nat = if days_of(t) != 0 {
            days_of(t)
        } else if hours_of(t) != 0 {
            hours_of(t)
        } else if minutes_of(t) != 0 {
            minutes_of(t)
        } else {
            seconds_of(t)
        };
        lemma_decimal_leading_digit(n);
        assert(first[0] == decimal(n)[0]);
        let text = spoken_duration(t);
        if parts.len() >= 2 {
            lemma_comma_list_first(parts.drop_last());
        }
        assert(text[0] == first[0]);
        assert(text[0] != '0');
        assert(("0 secondes"@)[0] == '0');
    }
}

} // verus!
