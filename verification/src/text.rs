//! Decimal numbers, mentions and joined lists, as the bot writes them.

use itertools::Itertools;
use vstd::prelude::*;

verus! {

/// The ASCII digit for a value below ten.
pub open spec fn digit_char(d: nat) -> char {
    if d == 0 {
        '0'
    } else if d == 1 {
        '1'
    } else if d == 2 {
        '2'
    } else if d == 3 {
        '3'
    } else if d == 4 {
        '4'
    } else if d == 5 {
        '5'
    } else if d == 6 {
        '6'
    } else if d == 7 {
        '7'
    } else if d == 8 {
        '8'
    } else {
        '9'
    }
}

/// The decimal digits of a natural number, most significant first, without
/// leading zeros ("0" for zero).
pub open spec fn decimal(n: nat) -> Seq<char>
    decreases n,
{
    if n < 10 {
        seq![digit_char(n)]
    } else {
        decimal(n / 10).push(digit_char(n % 10))
    }
}

/// The number a sequence of decimal digits stands for.
pub open spec fn digits_value(s: Seq<char>) -> int
    decreases s.len(),
{
    if s.len() == 0 {
        0
    } else {
        digits_value(s.drop_last()) * 10 + (s.last() as int - '0' as int)
    }
}

/// The decimal form of a number is a non-empty run of ASCII digits, without
/// a leading zero unless the number is zero, that reads back as the number.
pub proof fn law_decimal_reads_back(n: nat)
    ensures
        decimal(n).len() >= 1,
        forall|i: int| 0 <= i < decimal(n).len() ==> '0' <= #[trigger] decimal(n)[i] <= '9',
        digits_value(decimal(n)) == n,
        n > 0 ==> decimal(n)[0] != '0',
    decreases n,
{
    let r = (n % 10) as nat;
    assert(digit_char(r) as int - '0' as int == r);
    if n >= 10 {
        law_decimal_reads_back(n / 10);
        let d = decimal(n);
        assert(d.drop_last() =~= decimal(n / 10));
        assert(d.last() == digit_char(r));
        assert(d[0] == decimal(n / 10)[0]);
        assert(digits_value(d) == digits_value(decimal(n / 10)) * 10 + r);
        assert((n / 10) * 10 + r == n);
    } else {
        let d = decimal(n);
        assert(d.drop_last() =~= Seq::<char>::empty());
        assert(digits_value(d.drop_last()) == 0);
        assert(d.last() == digit_char(r));
        assert(r == n);
    }
}

/// Two numbers with the same decimal form are equal.
pub proof fn law_decimal_is_injective(a: nat, b: nat)
    ensures
        decimal(a) == decimal(b) ==> a == b,
{
    law_decimal_reads_back(a);
    law_decimal_reads_back(b);
}

/// An integer in decimal, with a leading '-' when it is negative.
pub open spec fn signed_decimal(n: int) -> Seq<char> {
    if n < 0 {
        seq!['-'] + decimal((-n) as nat)
    } else {
        decimal(n as nat)
    }
}

fn push_digit(out: &mut String, d: u128)
    requires
        d < 10,
    ensures
        final(out)@ == old(out)@.push(digit_char(d as nat)),
{
    let s: &str = if d == 0 {
        proof { reveal_strlit("0"); }
        "0"
    } else if d == 1 {
        proof { reveal_strlit("1"); }
        "1"
    } else if d == 2 {
        proof { reveal_strlit("2"); }
        "2"
    } else if d == 3 {
        proof { reveal_strlit("3"); }
        "3"
    } else if d == 4 {
        proof { reveal_strlit("4"); }
        "4"
    } else if d == 5 {
        proof { reveal_strlit("5"); }
        "5"
    } else if d == 6 {
        proof { reveal_strlit("6"); }
        "6"
    } else if d == 7 {
        proof { reveal_strlit("7"); }
        "7"
    } else if d == 8 {
        proof { reveal_strlit("8"); }
        "8"
    } else {
        proof { reveal_strlit("9"); }
        "9"
    };
    out.append(s);
    assert(out@ =~= old(out)@.push(digit_char(d as nat)));
}

/// Appends the decimal digits of `n`.
pub fn push_decimal(out: &mut String, n: u128)
    ensures
        final(out)@ == old(out)@ + decimal(n as nat),
    decreases n,
{
    if n >= 10 {
        push_decimal(out, n / 10);
        push_digit(out, n % 10);
        assert(out@ =~= old(out)@ + decimal(n as nat));
    } else {
        push_digit(out, n);
        assert(out@ =~= old(out)@ + decimal(n as nat));
    }
}

/// Appends a signed integer as `Display` writes it.
pub fn push_signed(out: &mut String, n: i128)
    ensures
        final(out)@ == old(out)@ + signed_decimal(n as int),
{
    if n < 0 {
        proof { reveal_strlit("-"); }
        out.append("-");
        let magnitude: u128 = if n == i128::MIN {
            170141183460469231731687303715884105728u128
        } else {
            (-n) as u128
        };
        push_decimal(out, magnitude);
        assert(out@ =~= old(out)@ + signed_decimal(n as int));
    } else {
        push_decimal(out, n as u128);
    }
}

/// Items written one after another with `sep` between each two of them.
pub open spec fn joined(items: Seq<Seq<char>>, sep: Seq<char>) -> Seq<char>
    decreases items.len(),
{
    if items.len() == 0 {
        Seq::empty()
    } else if items.len() == 1 {
        items[0]
    } else {
        joined(items.drop_last(), sep) + sep + items.last()
    }
}

/// The views of a list of strings.
pub open spec fn views(items: Seq<String>) -> Seq<Seq<char>> {
    items.map_values(|s: String| s@)
}

/// `Itertools::join` over the strings: each one written with `Display`,
/// which for a `String` is the string itself, with `sep` between each two.
#[verifier::external_body]
fn join_with(items: &Vec<String>, sep: &str) -> (res: String)
    ensures
        res@ == joined(views(items@), sep@),
{
    items.iter().join(sep)
}

/// What `humantime::format_duration` displays for a duration of `secs`
/// seconds and `nanos` nanoseconds.
pub uninterp spec fn humantime_text(secs: u64, nanos: u32) -> Seq<char>;

/// `humantime::format_duration(Duration::new(secs, nanos)).to_string()`.
/// The contract claims only that the text depends on the duration alone.
#[verifier::external_body]
pub(crate) fn format_duration(secs: u64, nanos: u32) -> (res: String)
    requires
        nanos < 1_000_000_000,
    ensures
        res@ == humantime_text(secs, nanos),
{
    humantime::format_duration(std::time::Duration::new(secs, nanos)).to_string()
}

/// `<#id>`, the mention of a channel.
pub open spec fn channel_mention(id: int) -> Seq<char> {
    seq!['<', '#'] + signed_decimal(id) + seq!['>']
}

/// `<@&id>`, the mention of a role.
pub open spec fn role_mention(id: int) -> Seq<char> {
    seq!['<', '@', '&'] + signed_decimal(id) + seq!['>']
}

/// `<@id>`, the mention of a user.
pub open spec fn user_mention(id: int) -> Seq<char> {
    seq!['<', '@'] + signed_decimal(id) + seq!['>']
}

/// The channel mentions of the ids, separated by single spaces.
pub open spec fn channel_list(ids: Seq<i64>) -> Seq<char> {
    joined(channel_mentions(ids), seq![' '])
}

/// The mention of each channel id.
pub open spec fn channel_mentions(ids: Seq<i64>) -> Seq<Seq<char>> {
    ids.map_values(|c: i64| channel_mention(c as int))
}

/// The mention of each role id.
pub open spec fn role_mentions(ids: Seq<i64>) -> Seq<Seq<char>> {
    ids.map_values(|c: i64| role_mention(c as int))
}

/// The role mentions of the ids, separated by single spaces.
pub open spec fn role_list(ids: Seq<i64>) -> Seq<char> {
    joined(role_mentions(ids), seq![' '])
}

/// Wraps the decimal form of `id` between `open` and `close`.
fn mention(open: &str, id: i64, close: &str) -> (res: String)
    ensures
        res@ == open@ + signed_decimal(id as int) + close@,
{
    let mut s = String::new();
    s.append(open);
    push_signed(&mut s, id as i128);
    s.append(close);
    assert(s@ =~= open@ + signed_decimal(id as int) + close@);
    s
}

/// Writes every channel as a mention, separated by spaces: `<#1> <#2>`.
pub fn channels_to_string(channels: &Vec<i64>) -> (res: String)
    ensures
        res@ == channel_list(channels@),
{
    let mut mentions: Vec<String> = Vec::new();
    let mut i: usize = 0;
    while i < channels.len()
        invariant
            i <= channels.len(),
            mentions@.len() == i,
            forall|j: int| 0 <= j < i ==> #[trigger] mentions@[j]@ == channel_mention(channels@[j] as int),
        decreases channels.len() - i,
    {
        proof {
            reveal_strlit("<#");
            reveal_strlit(">");
        }
        let m = mention("<#", channels[i], ">");
        mentions.push(m);
        i = i + 1;
    }
    assert(views(mentions@) =~= channel_mentions(channels@));
    proof {
        reveal_strlit(" ");
        assert(" "@ =~= seq![' ']);
    }
    join_with(&mentions, " ")
}

/// Writes every role as a mention, separated by spaces: `<@&1> <@&2>`.
pub fn roles_to_string(roles: &Vec<i64>) -> (res: String)
    ensures
        res@ == role_list(roles@),
{
    let mut mentions: Vec<String> = Vec::new();
    let mut i: usize = 0;
    while i < roles.len()
        invariant
            i <= roles.len(),
            mentions@.len() == i,
            forall|j: int| 0 <= j < i ==> #[trigger] mentions@[j]@ == role_mention(roles@[j] as int),
        decreases roles.len() - i,
    {
        proof {
            reveal_strlit("<@&");
            reveal_strlit(">");
        }
        let m = mention("<@&", roles[i], ">");
        mentions.push(m);
        i = i + 1;
    }
    assert(views(mentions@) =~= role_mentions(roles@));
    proof {
        reveal_strlit(" ");
        assert(" "@ =~= seq![' ']);
    }
    join_with(&mentions, " ")
}

} // verus!
