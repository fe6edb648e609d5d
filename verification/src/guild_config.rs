//! The per-guild configuration as the bot reports it, the bot's own
//! settings, and the small decisions of its event handlers.

use crate::honeypot::Honeypot;
use crate::text::{channel_list, channels_to_string, decimal, push_decimal, role_list, roles_to_string};
use vstd::prelude::*;

verus! {

/// The bot's settings file.
pub struct Config {
    pub token: String,
    pub min_hours: u64,
    pub uk_url: String,
}

impl Config {
    /// Whether uptime pushes are sent: unless the push URL is `disabled`.
    pub fn uptime_push_enabled(&self) -> (res: bool)
        ensures
            res == (self.uk_url@ != "disabled"@),
    {
        let disabled = String::from_str("disabled");
        !(self.uk_url == disabled)
    }
}

/// `Honeypots: {channels}\nSafe roles: {roles}\nArmed: {enabled}\n`.
pub open spec fn honeypot_summary_text(channel_ids: Seq<i64>, safe_role_ids: Seq<i64>, enabled: bool) -> Seq<char> {
    "Honeypots: "@ + channel_list(channel_ids) + "\nSafe roles: "@ + role_list(safe_role_ids) + "\nArmed: "@
        + (if enabled { "true"@ } else { "false"@ }) + "\n"@
}

/// The reply to a request for the server configuration.
pub open spec fn server_config_text(honeypot: Option<Honeypot>, logging_channel: Option<Seq<char>>) -> Seq<char> {
    if honeypot is None && logging_channel is None {
        "Nothing is configured yet."@
    } else {
        (match honeypot {
            Some(h) => honeypot_summary_text(h.channel_ids@, h.safe_role_ids@, h.enabled),
            None => Seq::empty(),
        }) + (match logging_channel {
            Some(c) => "\nLogging channel: "@ + c,
            None => Seq::empty(),
        })
    }
}

/// Describes the configuration of a guild: its honeypot and its logging
/// channel (as the channel is shown), or that nothing is configured.
pub fn server_config_reply(honeypot: &Option<Honeypot>, logging_channel: Option<&str>) -> (res: String)
    ensures
        res@ == server_config_text(*honeypot, match logging_channel {
            Some(c) => Some(c@),
            None => None,
        }),
{
    if honeypot.is_none() && logging_channel.is_none() {
        return String::from_str("Nothing is configured yet.");
    }
    let mut s = String::new();
    match honeypot {
        Some(h) => {
            let channels = channels_to_string(&h.channel_ids);
            let roles = roles_to_string(&h.safe_role_ids);
            s.append("Honeypots: ");
            s.append(channels.as_str());
            s.append("\nSafe roles: ");
            s.append(roles.as_str());
            s.append("\nArmed: ");
            if h.enabled {
                s.append("true");
            } else {
                s.append("false");
            }
            s.append("\n");
            assert(s@ =~= honeypot_summary_text(h.channel_ids@, h.safe_role_ids@, h.enabled));
        },
        None => {},
    }
    let ghost head = s@;
    match logging_channel {
        Some(c) => {
            s.append("\nLogging channel: ");
            s.append(c);
            assert(s@ =~= head + ("\nLogging channel: "@ + c@));
        },
        None => {
            assert(s@ =~= head + Seq::<char>::empty());
        },
    }
    s
}

/// The reply after adding or removing a safe role: the safe roles now, or
/// that there is no honeypot to change.
pub open spec fn safe_roles_reply_text(honeypot: Option<Honeypot>) -> Seq<char> {
    match honeypot {
        Some(h) => "Safe roles are now "@ + role_list(h.safe_role_ids@),
        None => "Failed to add safe role. Is the honeypot set up already?"@,
    }
}

/// Writes the reply after adding or removing a safe role.
pub fn safe_roles_reply(honeypot: &Option<Honeypot>) -> (res: String)
    ensures
        res@ == safe_roles_reply_text(*honeypot),
{
    match honeypot {
        Some(h) => {
            let roles = roles_to_string(&h.safe_role_ids);
            let mut s = String::from_str("Safe roles are now ");
            s.append(roles.as_str());
            s
        },
        None => String::from_str("Failed to add safe role. Is the honeypot set up already?"),
    }
}

/// The reply after setting (to the channel shown) or removing the logging
/// channel.
pub fn logging_channel_reply(channel: Option<&str>) -> (res: String)
    ensures
        res@ == (match channel {
            Some(c) => "Set logging channel to "@ + c@,
            None => "Removed logging channel"@,
        }),
{
    match channel {
        Some(c) => {
            let mut s = String::from_str("Set logging channel to ");
            s.append(c);
            s
        },
        None => String::from_str("Removed logging channel"),
    }
}

/// The sum of the member counts of the guilds that are known.
pub open spec fn known_members(counts: Seq<Option<u64>>) -> nat
    decreases counts.len(),
{
    if counts.len() == 0 {
        0
    } else {
        known_members(counts.drop_last()) + match counts.last() {
            Some(c) => c as nat,
            None => 0,
        }
    }
}

proof fn lemma_known_members_prefix(counts: Seq<Option<u64>>, n: int)
    requires
        0 <= n <= counts.len(),
    ensures
        known_members(counts.take(n)) <= known_members(counts),
    decreases counts.len() - n,
{
    if n < counts.len() {
        lemma_known_members_prefix(counts, n + 1);
        assert(counts.take(n + 1).drop_last() =~= counts.take(n));
    } else {
        assert(counts.take(n) =~= counts);
    }
}

/// `Protecting **{users}** users across **{guilds}** servers.`
pub open spec fn stats_text(users: nat, guilds: nat) -> Seq<char> {
    "Protecting **"@ + decimal(users) + "** users across **"@ + decimal(guilds) + "** servers."@
}

/// The bot statistics: one entry per guild in the cache, with its member
/// count when the guild itself is cached. Every guild counts as a server;
/// the members of the cached ones add up to the users.
pub fn stats_reply(member_counts: &Vec<Option<u64>>) -> (res: String)
    requires
        known_members(member_counts@) <= u64::MAX,
        member_counts@.len() <= i32::MAX,
    ensures
        res@ == stats_text(known_members(member_counts@), member_counts@.len()),
{
    let mut users: u64 = 0;
    let mut guilds: i32 = 0;
    let mut i: usize = 0;
    while i < member_counts.len()
        invariant
            i <= member_counts.len(),
            member_counts@.len() <= i32::MAX,
            known_members(member_counts@) <= u64::MAX,
            guilds == i,
            users == known_members(member_counts@.take(i as int)),
        decreases member_counts.len() - i,
    {
        proof {
            assert(member_counts@.take(i + 1).drop_last() =~= member_counts@.take(i as int));
            lemma_known_members_prefix(member_counts@, i + 1);
        }
        guilds = guilds + 1;
        match member_counts[i] {
            Some(c) => {
                users = users + c;
            },
            None => {},
        }
        i = i + 1;
    }
    assert(member_counts@.take(i as int) =~= member_counts@);
    let mut s = String::from_str("Protecting **");
    push_decimal(&mut s, users as u128);
    s.append("** users across **");
    push_decimal(&mut s, guilds as u128);
    s.append("** servers.");
    assert(s@ =~= stats_text(known_members(member_counts@), member_counts@.len()));
    s
}

/// Why reports cannot be posted to a guild's logging channel.
pub enum LogTargetError {
    /// The guild has no configuration row.
    NoGuildRow,
    /// The guild has not chosen a logging channel.
    NoLoggingChannel,
}

impl LogTargetError {
    /// The error text.
    pub fn message(&self) -> (res: &'static str)
        ensures
            res@ == (match self {
                LogTargetError::NoGuildRow => "logging channel without message"@,
                LogTargetError::NoLoggingChannel => ""@,
            }),
    {
        match self {
            LogTargetError::NoGuildRow => "logging channel without message",
            LogTargetError::NoLoggingChannel => "",
        }
    }
}

/// The channel to post reports to, from the guild's configuration row (when
/// there is one) and its logging channel column. A stored zero is no channel
/// id at all, so it is left out.
pub fn log_target(row: Option<Option<i64>>) -> (res: Result<u64, LogTargetError>)
    requires
        !(row matches Some(Some(c)) && c as u64 == 0),
    ensures
        row is None ==> res matches Err(LogTargetError::NoGuildRow),
        row matches Some(None) ==> res matches Err(LogTargetError::NoLoggingChannel),
        row matches Some(Some(c)) ==> res == Ok::<u64, LogTargetError>(c as u64),
{
    match row {
        None => Err(LogTargetError::NoGuildRow),
        Some(None) => Err(LogTargetError::NoLoggingChannel),
        Some(Some(c)) => Ok(c as u64),
    }
}

/// Whether the permission bits include every bit of `required`.
pub open spec fn grants(bits: u64, required: u64) -> bool {
    bits & required == required
}

/// A permission set grants the required permissions only when it has every
/// one of their bits: a set lacking one required bit never grants.
pub proof fn law_missing_bit_never_grants(bits: u64, required: u64, k: u64)
    requires
        k < 64,
        required & (1u64 << k) != 0,
        bits & (1u64 << k) == 0,
    ensures
        !grants(bits, required),
{
    assert(required & (1u64 << k) != 0 && bits & (1u64 << k) == 0 ==> bits & required != required) by (bit_vector)
        requires
            k < 64,
    ;
}

/// A permission set that has every required bit grants, whatever else it has.
pub proof fn law_all_bits_grant(bits: u64, required: u64)
    ensures
        grants(bits | required, required),
        grants(required, required),
        grants(bits, 0),
{
    assert((bits | required) & required == required) by (bit_vector);
    assert(required & required == required) by (bit_vector);
    assert(bits & 0u64 == 0u64) by (bit_vector);
}

/// A member is allowed only when one of their roles has every required bit:
/// members none of whose roles has bit `k` of `required` are refused.
pub proof fn law_refused_without_required_bit(role_permissions: Seq<u64>, required: u64, k: u64)
    requires
        k < 64,
        required & (1u64 << k) != 0,
        forall|i: int| 0 <= i < role_permissions.len() ==> #[trigger] role_permissions[i] & (1u64 << k) == 0,
    ensures
        !exists|i: int| 0 <= i < role_permissions.len() && #[trigger] grants(role_permissions[i], required),
{
    assert forall|i: int| 0 <= i < role_permissions.len() implies !#[trigger] grants(role_permissions[i], required) by {
        law_missing_bit_never_grants(role_permissions[i], required, k);
    }
}

/// Whether one of the permission sets grants every permission in `required`.
fn any_grants(permissions: &Vec<u64>, required: u64) -> (res: bool)
    ensures
        res == exists|i: int| 0 <= i < permissions@.len() && #[trigger] grants(permissions@[i], required),
{
    let mut i: usize = 0;
    while i < permissions.len()
        invariant
            i <= permissions.len(),
            forall|j: int| 0 <= j < i ==> !#[trigger] grants(permissions@[j], required),
        decreases permissions.len() - i,
    {
        if permissions[i] & required == required {
            assert(grants(permissions@[i as int], required));
            return true;
        }
        i = i + 1;
    }
    false
}

/// Whether one of the member's roles (given by their permission bits, or
/// unknown) grants every permission in `required`.
pub fn any_role_permits(role_permissions: &Option<Vec<u64>>, required: u64) -> (res: bool)
    ensures
        res == (match role_permissions {
            Some(p) => exists|i: int| 0 <= i < p@.len() && #[trigger] grants(p@[i], required),
            None => false,
        }),
{
    match role_permissions {
        None => false,
        Some(p) => any_grants(p, required),
    }
}

/// What the bot does with a message, before its other handlers.
pub enum MessageIntake {
    /// A guild message: record it in the cache.
    Cache,
    /// The bot's own direct message: nothing.
    Ignore,
    /// A direct message from somebody else: log it.
    LogDirectMessage,
}

/// Sorts a message by where it was sent and who sent it.
pub fn message_intake(guild_id: Option<u64>, author_id: u64, bot_id: u64) -> (res: MessageIntake)
    ensures
        guild_id is Some ==> res is Cache,
        guild_id is None && author_id == bot_id ==> res is Ignore,
        guild_id is None && author_id != bot_id ==> res is LogDirectMessage,
{
    if guild_id.is_some() {
        MessageIntake::Cache
    } else if author_id == bot_id {
        MessageIntake::Ignore
    } else {
        MessageIntake::LogDirectMessage
    }
}

/// Whether a guild that went away removed the bot (rather than becoming
/// unavailable), so its configuration is deleted.
pub fn bot_was_removed(unavailable: bool) -> (res: bool)
    ensures
        res == !unavailable,
{
    !unavailable
}

/// Whether a guild that appeared is one the bot just joined, so its
/// configuration row is created.
pub fn bot_just_joined(is_new: Option<bool>) -> (res: bool)
    ensures
        res == (is_new == Some(true)),
{
    match is_new {
        Some(b) => b,
        None => false,
    }
}

/// `{what} for guild {id}`: the context of a failed lookup for a guild.
pub fn guild_context(what: &str, guild_id: u64) -> (res: String)
    ensures
        res@ == what@ + " for guild "@ + decimal(guild_id as nat),
{
    let mut s = String::from_str(what);
    s.append(" for guild ");
    push_decimal(&mut s, guild_id as u128);
    s
}

} // verus!
