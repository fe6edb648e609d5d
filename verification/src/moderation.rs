//! Moderation actions: what the journal records, and the checks and replies
//! of the ban command.

use crate::text::{push_decimal, user_mention};
use vstd::prelude::*;

verus! {

/// What the bot did to a member, as written to the action journal.
#[derive(Clone, Copy, Debug, PartialEq, Eq, Structural)]
pub enum ModerationAction {
    KickedHoneypot,
    KickedAccountAge,
    CommandBanned,
}

/// The name of the action in the database enum `moderation_action`
/// (the variant name in snake case).
pub open spec fn action_db_name(action: ModerationAction) -> Seq<char> {
    match action {
        ModerationAction::KickedHoneypot => "kicked_honeypot"@,
        ModerationAction::KickedAccountAge => "kicked_account_age"@,
        ModerationAction::CommandBanned => "command_banned"@,
    }
}

impl ModerationAction {
    /// The name of the action in the database.
    pub fn db_name(&self) -> (res: &'static str)
        ensures
            res@ == action_db_name(*self),
    {
        match self {
            ModerationAction::KickedHoneypot => "kicked_honeypot",
            ModerationAction::KickedAccountAge => "kicked_account_age",
            ModerationAction::CommandBanned => "command_banned",
        }
    }
}

/// One row of the action journal; the database stamps the time.
pub struct ActionJournal {
    pub guild_id: u64,
    pub offender_id: u64,
    pub action: ModerationAction,
    pub time_unix_secs: i64,
}

/// The most days of messages a ban may delete.
pub const MAX_DELETE_MESSAGE_DAYS: u8 = 7;

/// The most bytes a ban reason may have.
pub const MAX_BAN_REASON_BYTES: usize = 512;

/// What the ban command does with a request.
pub enum BanDecision {
    /// Nothing is banned; the reply says why.
    Refuse(String),
    /// The member is banned, deleting that many days of their messages, with
    /// the reason when one was given.
    Ban { delete_message_days: u8, reason: Option<String> },
}

/// The length in bytes of a text in UTF-8.
pub open spec fn utf8_len(s: Seq<char>) -> nat {
    vstd::utf8::encode_utf8(s).len()
}

/// The days of messages to delete: as asked, none when not asked.
pub open spec fn days_or_zero(days: Option<u8>) -> u8 {
    match days {
        Some(d) => d,
        None => 0,
    }
}

/// Whether the decision refuses, with this reply.
pub open spec fn refuses_with(d: BanDecision, reply: Seq<char>) -> bool {
    match d {
        BanDecision::Refuse(r) => r@ == reply,
        BanDecision::Ban { .. } => false,
    }
}

/// Whether a reason was given and has more than 512 bytes, as `str::len`
/// counts them.
pub open spec fn reason_too_long(reason: Option<String>) -> bool {
    match reason {
        Some(m) => (utf8_len(m@) as usize) > 512,
        None => false,
    }
}

/// Decides a ban request: the author must be allowed to ban, at most seven
/// days of messages may be deleted, and the reason may have at most 512
/// bytes.
pub fn decide_ban(author_can_ban: bool, delete_message_days: Option<u8>, reason: Option<String>) -> (res: BanDecision)
    ensures
        !author_can_ban ==> refuses_with(res, "you do not have banning permissions"@),
        author_can_ban && days_or_zero(delete_message_days) > 7 ==> refuses_with(res, "dmd cannot be greater than 7 days"@),
        author_can_ban && days_or_zero(delete_message_days) <= 7 && reason_too_long(reason)
            ==> refuses_with(res, "message cannot be longer than 512 characters"@),
        author_can_ban && days_or_zero(delete_message_days) <= 7 && !reason_too_long(reason)
            ==> res == (BanDecision::Ban { delete_message_days: days_or_zero(delete_message_days), reason }),
{
    if !author_can_ban {
        return BanDecision::Refuse(String::from_str("you do not have banning permissions"));
    }
    let days = match delete_message_days {
        Some(d) => d,
        None => 0,
    };
    if days > MAX_DELETE_MESSAGE_DAYS {
        return BanDecision::Refuse(String::from_str("dmd cannot be greater than 7 days"));
    }
    let too_long = match &reason {
        Some(m) => m.as_str().len() > MAX_BAN_REASON_BYTES,
        None => false,
    };
    if too_long {
        return BanDecision::Refuse(String::from_str("message cannot be longer than 512 characters"));
    }
    BanDecision::Ban { delete_message_days: days, reason }
}

/// `Banned <@id>`, followed by why the ban could not be logged when it
/// could not.
pub open spec fn ban_reply_text(banned_id: u64, log_error: Option<Seq<char>>) -> Seq<char> {
    match log_error {
        Some(e) => "Banned "@ + user_mention(banned_id as int) + " but failed to log this action: "@ + e,
        None => "Banned "@ + user_mention(banned_id as int),
    }
}

/// The reply after a ban.
pub fn ban_reply(banned_id: u64, log_error: Option<&str>) -> (res: String)
    ensures
        res@ == ban_reply_text(banned_id, match log_error {
            Some(e) => Some(e@),
            None => None,
        }),
{
    let mut s = String::new();
    s.append("Banned <@");
    push_decimal(&mut s, banned_id as u128);
    s.append(">");
    proof {
        reveal_strlit("Banned <@");
        reveal_strlit("Banned ");
        reveal_strlit("<@");
        reveal_strlit(">");
        assert("Banned <@"@ =~= "Banned "@ + "<@"@);
    }
    let ghost head = s@;
    assert(head =~= "Banned "@ + user_mention(banned_id as int));
    match log_error {
        Some(e) => {
            s.append(" but failed to log this action: ");
            s.append(e);
            assert(s@ =~= head + " but failed to log this action: "@ + e@);
        },
        None => {},
    }
    s
}

} // verus!
