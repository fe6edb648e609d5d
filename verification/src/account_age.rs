//! The minimum account age: what is stored, when a kicked newcomer may
//! rejoin, and what the bot tells them and the moderators.

use crate::message_cache::{snowflake_created_millis, snowflake_millis};
use crate::text::{decimal, format_duration, humantime_text, push_decimal, user_mention};
use vstd::prelude::*;

verus! {

/// The stored minimum age (seconds, signed) read back as a duration in
/// seconds, with the cast to `u64` that the read uses.
pub fn min_age_from_db(stored: Option<i64>) -> (res: Option<u64>)
    ensures
        res == (match stored {
            Some(s) => Some(s as u64),
            None => None,
        }),
{
    match stored {
        Some(s) => Some(s as u64),
        None => None,
    }
}

/// A minimum age in seconds in the form it is stored, with the cast to
/// `i64` that the write uses.
pub fn min_age_to_db(seconds: Option<u64>) -> (res: Option<i64>)
    ensures
        res == (match seconds {
            Some(s) => Some(s as i64),
            None => None,
        }),
{
    match seconds {
        Some(s) => Some(s as i64),
        None => None,
    }
}

/// Seconds in a day.
pub const SECONDS_PER_DAY: u64 = 86_400;

/// The minimum account age, in seconds, for a number of days, when it fits
/// the stored column (a signed 64-bit number of seconds).
pub open spec fn days_in_seconds(days: u64) -> Option<u64> {
    if days * 86_400 <= i64::MAX {
        Some((days * 86_400) as u64)
    } else {
        None
    }
}

/// Turns a minimum account age given in days into seconds; `None` when the
/// seconds would not fit the stored column.
pub fn min_age_seconds_from_days(days: u64) -> (res: Option<u64>)
    ensures
        res == days_in_seconds(days),
{
    if days > 106_751_991_167_300 {
        None
    } else {
        Some(days * SECONDS_PER_DAY)
    }
}

/// The latest instant a `chrono` date-time holds, in Unix milliseconds
/// (+262142-12-31 23:59:59.999).
pub open spec fn chrono_max_millis() -> int {
    8_210_266_876_799_999
}

/// The largest number of seconds that converts to a `chrono` time delta.
pub open spec fn chrono_max_delta_secs() -> int {
    9_223_372_036_854_775
}

/// Whether the creation time of the account plus the minimum age is a
/// date-time that `chrono` holds.
pub open spec fn rejoin_in_range(user_id: u64, min_age_secs: u64) -> bool {
    &&& min_age_secs <= chrono_max_delta_secs()
    &&& snowflake_millis(user_id) + min_age_secs * 1000 <= chrono_max_millis()
}

/// Tells whether the creation time of the account plus the minimum age is
/// a date-time that `chrono` holds.
pub fn rejoin_in_range_exec(user_id: u64, min_age_secs: u64) -> (res: bool)
    ensures
        res == rejoin_in_range(user_id, min_age_secs),
{
    if min_age_secs > 9_223_372_036_854_775 {
        return false;
    }
    let created = snowflake_created_millis(user_id);
    (created as u128) + (min_age_secs as u128) * 1000 <= 8_210_266_876_799_999u128
}

/// The Unix second from which a kicked newcomer may rejoin: the creation
/// time of the account (from its id) plus the minimum age, in whole seconds.
pub open spec fn rejoin_second(user_id: u64, min_age_secs: u64) -> int {
    (snowflake_millis(user_id) + min_age_secs * 1000) / 1000
}

/// Computes the Unix second from which a kicked newcomer may rejoin.
pub fn rejoin_timestamp(user_id: u64, min_age_secs: u64) -> (res: i64)
    requires
        rejoin_in_range(user_id, min_age_secs),
    ensures
        res as int == rejoin_second(user_id, min_age_secs),
{
    let created = snowflake_created_millis(user_id);
    let total = created + (min_age_secs as i64) * 1000;
    total / 1000
}

/// The announced rejoin second is the creation time plus the minimum age,
/// rounded down to a whole second.
pub proof fn law_rejoin_second_rounds_down(user_id: u64, min_age_secs: u64)
    ensures
        rejoin_second(user_id, min_age_secs) * 1000 <= snowflake_millis(user_id) + min_age_secs * 1000,
        snowflake_millis(user_id) + min_age_secs * 1000 < rejoin_second(user_id, min_age_secs) * 1000 + 1000,
{
}

/// From one second after the announced rejoin second on, the account is
/// older than the minimum age.
pub proof fn law_old_enough_after_rejoin_second(user_id: u64, min_age_secs: u64, now_millis: int)
    requires
        now_millis >= (rejoin_second(user_id, min_age_secs) + 1) * 1000,
    ensures
        now_millis - snowflake_millis(user_id) > min_age_secs * 1000,
{
}

/// The direct message that tells a newcomer why they are kicked.
pub open spec fn too_young_notice_text(min_age_secs: u64, rejoin: int) -> Seq<char> {
    "Your account must be at least "@ + humantime_text(min_age_secs, 0) + " old.\nYou may rejoin on <t:"@
        + decimal(rejoin as nat) + ":f>\nDO NOT REPLY TO THIS MESSAGE, IT IS AUTOMATED AND WILL NOT BE READ OR RESPONDED TO!"@
}

/// Writes the direct message for a newcomer whose account is younger than
/// the minimum age.
pub fn too_young_notice(user_id: u64, min_age_secs: u64) -> (res: String)
    requires
        rejoin_in_range(user_id, min_age_secs),
    ensures
        res@ == too_young_notice_text(min_age_secs, rejoin_second(user_id, min_age_secs)),
{
    let good_on = rejoin_timestamp(user_id, min_age_secs);
    let age = format_duration(min_age_secs, 0);
    let mut s = String::new();
    s.append("Your account must be at least ");
    s.append(age.as_str());
    s.append(" old.\nYou may rejoin on <t:");
    push_decimal(&mut s, good_on as u128);
    s.append(":f>\nDO NOT REPLY TO THIS MESSAGE, IT IS AUTOMATED AND WILL NOT BE READ OR RESPONDED TO!");
    assert(s@ =~= too_young_notice_text(min_age_secs, rejoin_second(user_id, min_age_secs)));
    s
}

/// How `chrono` writes an instant given in Unix milliseconds in RFC 3339
/// with milliseconds and a `Z` for UTC, as a Discord timestamp is shown.
pub uninterp spec fn rfc3339_millis_text(unix_millis: int) -> Seq<char>;

/// `DateTime::<Utc>::from_timestamp_millis(ms)` written with
/// `to_rfc3339_opts(SecondsFormat::Millis, true)`. The contract claims only
/// that the text depends on the instant alone.
#[verifier::external_body]
fn rfc3339_millis(unix_millis: i64) -> (res: String)
    requires
        0 <= unix_millis <= chrono_max_millis(),
    ensures
        res@ == rfc3339_millis_text(unix_millis as int),
{
    chrono::DateTime::<chrono::Utc>::from_timestamp_millis(unix_millis).unwrap().to_rfc3339_opts(chrono::SecondsFormat::Millis, true)
}

/// How the creation time of an account is shown: the time in its id.
pub fn account_created_text(user_id: u64) -> (res: String)
    ensures
        res@ == rfc3339_millis_text(snowflake_millis(user_id)),
{
    let created = snowflake_created_millis(user_id);
    rfc3339_millis(created)
}

/// How the verification status of a user is shown.
pub open spec fn verified_text(verified: Option<bool>) -> Seq<char> {
    match verified {
        Some(true) => "true"@,
        Some(false) => "false"@,
        None => "N/A"@,
    }
}

/// `Kicked {name} <@{id}>\nAccount created on: {created}\nVerification status: {verified}`.
pub open spec fn too_young_reason_text(user_name: Seq<char>, user_id: u64, created: Seq<char>, verified: Option<bool>) -> Seq<char> {
    "Kicked "@ + user_name + " "@ + user_mention(user_id as int) + "\nAccount created on: "@ + created
        + "\nVerification status: "@ + verified_text(verified)
}

/// The reason recorded for kicking a newcomer, also posted to the logging
/// channel.
pub fn too_young_reason(user_name: &str, user_id: u64, verified: Option<bool>) -> (res: String)
    ensures
        res@ == too_young_reason_text(user_name@, user_id, rfc3339_millis_text(snowflake_millis(user_id)), verified),
{
    let created_text = account_created_text(user_id);
    let created = created_text.as_str();
    let mut s = String::new();
    s.append("Kicked ");
    s.append(user_name);
    s.append(" <@");
    push_decimal(&mut s, user_id as u128);
    s.append(">\nAccount created on: ");
    s.append(created);
    s.append("\nVerification status: ");
    match verified {
        Some(true) => s.append("true"),
        Some(false) => s.append("false"),
        None => s.append("N/A"),
    }
    proof {
        reveal_strlit(" <@");
        reveal_strlit(">\nAccount created on: ");
        reveal_strlit(" ");
        reveal_strlit("<@");
        reveal_strlit(">");
        reveal_strlit("\nAccount created on: ");
        assert(" <@"@ =~= " "@ + seq!['<', '@']);
        assert(">\nAccount created on: "@ =~= seq!['>'] + "\nAccount created on: "@);
    }
    assert(s@ =~= too_young_reason_text(user_name@, user_id, created_text@, verified));
    s
}

} // verus!
