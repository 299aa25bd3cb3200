//! What the commands read of Discord users, and the two computations that
//! `serenity` does on them here: the tag "name#0042" and the parsing of a
//! user id or mention.
use serenity::model::id::UserId;
use serenity::model::user::User;
use vstd::prelude::*;

use crate::text::{decimal, digit_char, lemma_decimal_leading_digit};

verus! {

/// A Discord user, as the commands read it. `S` is the string type.
pub struct UserInfo<S> {
    pub id: u64,
    pub name: S,
    pub discriminator: u16,
    pub avatar_url: Option<S>,
}

impl View for UserInfo<String> {
    type V = UserInfo<Seq<char>>;

    open spec fn view(&self) -> UserInfo<Seq<char>> {
        UserInfo {
            id: self.id,
            name: self.name@,
            discriminator: self.discriminator,
            avatar_url: match self.avatar_url {
                Some(a) => Some(a@),
                None => None,
            },
        }
    }
}

/// `digits` left-padded with zeros to four characters (`{:04}`).
pub open spec fn zero_pad4(digits: Seq<char>) -> Seq<char> {
    if digits.len() >= 4 {
        digits
    } else {
        Seq::new((4 - digits.len()) as nat, |i: int| '0') + digits
    }
}

/// The tag of a user: its name, `#`, and its discriminator on four digits.
pub open spec fn user_tag(name: Seq<char>, discriminator: u16) -> Seq<char> {
    name + "#"@ + zero_pad4(decimal(discriminator as nat))
}

/// Calls `serenity::model::user::User::tag` on a user with this name and
/// discriminator. Its source pushes the name, `#`, and the discriminator
/// written with `{:04}`.
#[verifier::external_body]
fn serenity_user_tag(name: &str, discriminator: u16) -> (tag: String)
    ensures
        tag@ == user_tag(name@, discriminator),
{
    let mut user = User::default();
    user.name = name.to_string();
    user.discriminator = discriminator;
    user.tag()
}

/// The tag of a user, "name#0042".
pub fn tag_of(user: &UserInfo<String>) -> (tag: String)
    ensures
        tag@ == user_tag(user.name@, user.discriminator),
{
    serenity_user_tag(user.name.as_str(), user.discriminator)
}

pub open spec fn is_ascii_digit(c: char) -> bool {
    0x30 <= (c as u32) <= 0x39
}

/// The number that a string of decimal digits writes.
pub open spec fn digits_value(s: Seq<char>) -> nat
    decreases s.len(),
{
    if s.len() == 0 {
        0
    } else {
        digits_value(s.drop_last()) * 10 + ((s.last() as u32) - 0x30) as nat
    }
}

/// `u64::from_str`: an optional `+`, then at least one decimal digit, and a
/// value that fits in a `u64`.
pub open spec fn parse_u64(s: Seq<char>) -> Option<u64> {
    let digits = if s.len() > 0 && s[0] == '+' {
        s.drop_first()
    } else {
        s
    };
    if digits.len() > 0 && (forall|i: int| 0 <= i < digits.len() ==> is_ascii_digit(digits[i]))
        && digits_value(digits) <= u64::MAX {
        Some(digits_value(digits) as u64)
    } else {
        None
    }
}

/// Decimal notation reads back: it is made of digits whose value is the
/// number, and `u64::from_str` gives the number back.
pub proof fn law_decimal_reads_back(n: nat)
    ensures
        forall|i: int| 0 <= i < decimal(n).len() ==> is_ascii_digit(#[trigger] decimal(n)[i]),
        digits_value(decimal(n)) == n,
        n <= u64::MAX ==> parse_u64(decimal(n)) == Some(n as u64),
    decreases n,
{
    lemma_decimal_leading_digit(n);
    let d = n % 10;
    assert(is_ascii_digit(digit_char(d)) && (digit_char(d) as u32) - 0x30 == d);
    if n >= 10 {
        law_decimal_reads_back(n / 10);
        assert(decimal(n).drop_last() =~= decimal(n / 10));
        assert(decimal(n).last() == digit_char(d));
        assert(digits_value(decimal(n)) == (n / 10) * 10 + d);
        assert(n == (n / 10) * 10 + n % 10) by (nonlinear_arith);
    } else {
        assert(decimal(n).drop_last() =~= Seq::<char>::empty());
        assert(d == n);
        assert(digits_value(decimal(n)) == digits_value(Seq::<char>::empty()) * 10 + d);
    }
    assert(decimal(n)[0] != '+');
}

proof fn lemma_zeros_value(zeros: Seq<char>, s: Seq<char>)
    requires
        forall|i: int| 0 <= i < zeros.len() ==> zeros[i] == '0',
    ensures
        digits_value(zeros + s) == digits_value(s),
    decreases zeros.len() + s.len(),
{
    if s.len() == 0 {
        assert(zeros + s =~= zeros);
        if zeros.len() > 0 {
            lemma_zeros_value(zeros.drop_last(), s);
            assert(zeros.drop_last() + s =~= zeros.drop_last());
        }
    } else {
        lemma_zeros_value(zeros, s.drop_last());
        assert((zeros + s).drop_last() =~= zeros + s.drop_last());
    }
}

/// The discriminator in a tag has at least four digits, left-padded with
/// zeros, and reads back as the discriminator.
pub proof fn law_tag_discriminator(name: Seq<char>, discriminator: u16)
    ensures
        user_tag(name, discriminator).subrange(0, name.len() + 1 as int) == name + seq!['#'],
        zero_pad4(decimal(discriminator as nat)).len() >= 4,
        digits_value(zero_pad4(decimal(discriminator as nat))) == discriminator,
        forall|i: int|
            0 <= i < zero_pad4(decimal(discriminator as nat)).len() ==> is_ascii_digit(
                #[trigger] zero_pad4(decimal(discriminator as nat))[i],
            ),
{
    reveal_strlit("#");
    let digits = decimal(discriminator as nat);
    law_decimal_reads_back(discriminator as nat);
    assert(user_tag(name, discriminator).subrange(0, name.len() + 1 as int) =~= name + seq!['#']);
    if digits.len() < 4 {
        let zeros = Seq::new((4 - digits.len()) as nat, |i: int| '0');
        lemma_zeros_value(zeros, digits);
        assert forall|i: int| 0 <= i < (zeros + digits).len() implies is_ascii_digit(
            #[trigger] (zeros + digits)[i],
        ) by {
            if i >= zeros.len() {
                assert((zeros + digits)[i] == digits[i - zeros.len()]);
            }
        }
    }
}

/// The id in a mention `<@id>` or `<@!id>` (`serenity::utils::parse_username`):
/// what stands between the prefix and the last character.
pub open spec fn mention_id(s: Seq<char>) -> Option<u64> {
    if s.len() >= 4 && s[0] == '<' && s[1] == '@' {
        if s[2] == '!' {
            parse_u64(s.subrange(3, s.len() - 1))
        } else {
            parse_u64(s.subrange(2, s.len() - 1))
        }
    } else {
        None
    }
}

/// The user id that `UserId::from_str` reads: a mention, or else a bare number.
pub open spec fn user_id_of(s: Seq<char>) -> Option<u64> {
    match mention_id(s) {
        Some(id) => Some(id),
        None => parse_u64(s),
    }
}

/// Inputs on which `UserId::from_str` does not panic: it slices off the last
/// byte of anything that starts with `<@`, which must then be a whole
/// character.
pub open spec fn user_id_parsable(s: Seq<char>) -> bool {
    s.len() > 2 && s[0] == '<' && s[1] == '@' ==> (s.last() as u32) < 0x80
}

/// Calls `<serenity::model::id::UserId as FromStr>::from_str`, which tries a
/// mention (`parse_username`) and then `u64::from_str` on the whole string.
/// The byte-length test of `parse_username` is stated on characters, which
/// agrees with it on the inputs that `requires` admits.
#[verifier::external_body]
fn serenity_user_id(s: &str) -> (id: Option<u64>)
    requires
        user_id_parsable(s@),
    ensures
        id == user_id_of(s@),
{
    match s.parse::<UserId>() {
        Ok(user_id) => Some(user_id.0),
        Err(_) => None,
    }
}

/// Reads a user id, as a mention or as a number.
pub fn parse_user_id(s: &str) -> (id: Option<u64>)
    requires
        user_id_parsable(s@),
    ensures
        id == user_id_of(s@),
{
    serenity_user_id(s)
}

} // verus!
