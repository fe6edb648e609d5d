//! What the bot writes when the honeypot kicks somebody: the kick reason and
//! the report posted to the logging channel.

use crate::text::{decimal, format_duration, humantime_text, push_decimal, push_signed, signed_decimal, user_mention};
use time::error::ComponentRange;
use vstd::prelude::*;

verus! {

#[verifier::external_type_specification]
#[verifier::external_body]
pub struct ExComponentRange(ComponentRange);

/// The earliest Unix second that `time` can always hold (-9999-01-01).
pub const UNIX_SECONDS_MIN: i64 = -377_705_116_800;

/// The latest Unix second that `time` can always hold (9999-12-31 23:59:59).
pub const UNIX_SECONDS_MAX: i64 = 253_402_300_799;

/// `time::OffsetDateTime::from_unix_timestamp(secs)`, read back in Unix
/// nanoseconds. It fails only for seconds outside the range of dates that
/// `time` holds, which covers at least years -9999 to 9999; the contract
/// leaves the exact range open, as it grows with the `large-dates` feature.
#[verifier::external_body]
fn unix_timestamp_nanos(secs: i64) -> (res: Result<i128, ComponentRange>)
    ensures
        res matches Ok(n) ==> n == secs * 1_000_000_000,
        UNIX_SECONDS_MIN <= secs <= UNIX_SECONDS_MAX ==> res is Ok,
{
    match time::OffsetDateTime::from_unix_timestamp(secs) {
        Ok(t) => Ok(t.unix_timestamp_nanos()),
        Err(e) => Err(e),
    }
}

/// A span of nanoseconds in whole milliseconds, rounded towards zero.
pub open spec fn whole_millis(nanos: int) -> int {
    if nanos >= 0 {
        nanos / 1_000_000
    } else {
        -((-nanos) / 1_000_000)
    }
}

/// Whole milliseconds round towards zero: for a non-negative span they are
/// the most milliseconds that fit in it, for a negative span the mirror, and
/// the sign of the span is kept.
pub proof fn law_whole_millis_rounds_towards_zero(nanos: int)
    ensures
        nanos >= 0 ==> whole_millis(nanos) * 1_000_000 <= nanos < (whole_millis(nanos) + 1) * 1_000_000,
        nanos < 0 ==> (whole_millis(nanos) - 1) * 1_000_000 < nanos <= whole_millis(nanos) * 1_000_000,
        whole_millis(-nanos) == -whole_millis(nanos),
{
}

/// The largest magnitude, in nanoseconds, of an instant that `time` holds.
pub open spec fn instant_bound() -> int {
    1_000_000_000_000_000_000_000_000_000
}

/// Whole milliseconds from a message posted at `posted_secs` (Unix seconds)
/// to `now_nanos` (Unix nanoseconds). Fails, as the conversion of the post
/// time does, when the post time is out of the range of `time`.
pub fn whole_millis_since(posted_secs: i64, now_nanos: i128) -> (res: Result<i128, ComponentRange>)
    requires
        -instant_bound() <= now_nanos <= instant_bound(),
    ensures
        res matches Ok(ms) ==> ms == whole_millis(now_nanos - posted_secs * 1_000_000_000),
        UNIX_SECONDS_MIN <= posted_secs <= UNIX_SECONDS_MAX ==> res is Ok,
{
    let posted = match unix_timestamp_nanos(posted_secs) {
        Ok(n) => n,
        Err(e) => return Err(e),
    };
    let d = now_nanos - posted;
    if d >= 0 {
        Ok(d / 1_000_000)
    } else {
        let m = (0 - d) / 1_000_000;
        Ok(0 - m)
    }
}

/// `Kicked {author} for sending message into {channel}\nVisible for {ms}ms before kick`.
pub open spec fn kick_reason_text(author_name: Seq<char>, channel: Seq<char>, visible_ms: int) -> Seq<char> {
    "Kicked "@ + author_name + " for sending message into "@ + channel + "\nVisible for "@
        + signed_decimal(visible_ms) + "ms before kick"@
}

/// The reason given for a honeypot kick.
pub fn honeypot_kick_reason(author_name: &str, channel: &str, visible_ms: i128) -> (res: String)
    ensures
        res@ == kick_reason_text(author_name@, channel@, visible_ms as int),
{
    let mut s = String::new();
    s.append("Kicked ");
    s.append(author_name);
    s.append(" for sending message into ");
    s.append(channel);
    s.append("\nVisible for ");
    push_signed(&mut s, visible_ms);
    s.append("ms before kick");
    assert(s@ =~= kick_reason_text(author_name@, channel@, visible_ms as int));
    s
}

/// One field of an embed.
pub struct EmbedField {
    pub name: String,
    pub value: String,
    pub inline: bool,
}

/// The report of a honeypot kick, posted as an embed.
pub struct KickReport {
    pub title: String,
    pub color: u32,
    pub fields: Vec<EmbedField>,
    pub footer: String,
}

/// The colour of the report (Discord's red).
pub const REPORT_COLOR: u32 = 0xED4245;

/// What `Duration::from_millis(ms)` is shown as.
pub open spec fn millis_text(ms: u64) -> Seq<char> {
    humantime_text((ms / 1000) as u64, ((ms % 1000) * 1_000_000) as u32)
}

/// `{fast} cache / {scan} scan / {total} total`.
pub open spec fn deleted_text(fast: u64, scan: u64) -> Seq<char> {
    decimal(fast as nat) + " cache / "@ + decimal(scan as nat) + " scan / "@ + decimal((fast + scan) as nat)
        + " total"@
}

/// Builds the report of a honeypot kick: who was kicked, where, how long the
/// message was visible, how many messages the fast pass (cache) and the scan
/// pass deleted, and how long the cleanup took. `cleanup_ms` is the whole
/// milliseconds from the post to the end of the cleanup; the footer shows it
/// cast to `u64`, as a `Duration` of that many milliseconds.
pub fn honeypot_kick_report(
    author_id: u64,
    channel: &str,
    visible_ms: i128,
    fast: u64,
    scan: u64,
    cleanup_ms: i128,
) -> (res: KickReport)
    requires
        fast + scan <= u64::MAX,
    ensures
        res.title@ == "Honeypot Kick"@,
        res.color == REPORT_COLOR,
        res.fields@.len() == 4,
        res.fields@[0].name@ == "User"@,
        res.fields@[0].value@ == user_mention(author_id as int),
        res.fields@[0].inline,
        res.fields@[1].name@ == "Channel"@,
        res.fields@[1].value@ == channel@,
        res.fields@[1].inline,
        res.fields@[2].name@ == "Visible"@,
        res.fields@[2].value@ == signed_decimal(visible_ms as int) + "ms"@,
        res.fields@[2].inline,
        res.fields@[3].name@ == "Deleted"@,
        res.fields@[3].value@ == deleted_text(fast, scan),
        !res.fields@[3].inline,
        res.footer@ == "Cleanup took "@ + millis_text(cleanup_ms as u64),
{
    let mut user = String::new();
    user.append("<@");
    push_decimal(&mut user, author_id as u128);
    user.append(">");
    proof {
        reveal_strlit("<@");
        reveal_strlit(">");
        assert(user@ =~= user_mention(author_id as int));
    }
    let mut visible = String::new();
    push_signed(&mut visible, visible_ms);
    visible.append("ms");
    assert(visible@ =~= signed_decimal(visible_ms as int) + "ms"@);
    let mut deleted = String::new();
    push_decimal(&mut deleted, fast as u128);
    deleted.append(" cache / ");
    push_decimal(&mut deleted, scan as u128);
    deleted.append(" scan / ");
    push_decimal(&mut deleted, (fast + scan) as u128);
    deleted.append(" total");
    assert(deleted@ =~= deleted_text(fast, scan));
    let ms: u64 = cleanup_ms as u64;
    let took = format_duration(ms / 1000, ((ms % 1000) * 1_000_000) as u32);
    let mut footer = String::new();
    footer.append("Cleanup took ");
    footer.append(took.as_str());
    assert(footer@ =~= "Cleanup took "@ + millis_text(cleanup_ms as u64));
    let mut fields: Vec<EmbedField> = Vec::new();
    fields.push(EmbedField { name: String::from_str("User"), value: user, inline: true });
    fields.push(EmbedField { name: String::from_str("Channel"), value: String::from_str(channel), inline: true });
    fields.push(EmbedField { name: String::from_str("Visible"), value: visible, inline: true });
    fields.push(EmbedField { name: String::from_str("Deleted"), value: deleted, inline: false });
    KickReport { title: String::from_str("Honeypot Kick"), color: REPORT_COLOR, fields, footer }
}

} // verus!
