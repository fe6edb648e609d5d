use butler::moderation::{ban_reply, decide_ban, BanDecision, ModerationAction};

fn refusal(d: BanDecision) -> Option<String> {
    match d {
        BanDecision::Refuse(r) => Some(r),
        BanDecision::Ban { .. } => None,
    }
}

#[test]
fn action_names_in_database() {
    assert_eq!(ModerationAction::KickedHoneypot.db_name(), "kicked_honeypot");
    assert_eq!(ModerationAction::KickedAccountAge.db_name(), "kicked_account_age");
    assert_eq!(ModerationAction::CommandBanned.db_name(), "command_banned");
}

#[test]
fn ban_needs_permission() {
    assert_eq!(refusal(decide_ban(false, None, None)).as_deref(), Some("you do not have banning permissions"));
}

#[test]
fn ban_days_are_limited() {
    assert_eq!(refusal(decide_ban(true, Some(8), None)).as_deref(), Some("dmd cannot be greater than 7 days"));
    match decide_ban(true, Some(7), None) {
        BanDecision::Ban { delete_message_days, reason } => {
            assert_eq!(delete_message_days, 7);
            assert_eq!(reason, None);
        }
        _ => panic!("expected a ban"),
    }
    match decide_ban(true, None, Some("spam".to_string())) {
        BanDecision::Ban { delete_message_days, reason } => {
            assert_eq!(delete_message_days, 0);
            assert_eq!(reason.as_deref(), Some("spam"));
        }
        _ => panic!("expected a ban"),
    }
}

#[test]
fn ban_reason_is_limited_in_bytes() {
    let ok = "a".repeat(512);
    assert!(refusal(decide_ban(true, None, Some(ok))).is_none());
    let long = "a".repeat(513);
    assert_eq!(
        refusal(decide_ban(true, None, Some(long))).as_deref(),
        Some("message cannot be longer than 512 characters")
    );
    // 200 characters of two bytes each: 400 bytes, allowed; 300 of them: 600 bytes, refused
    assert!(refusal(decide_ban(true, None, Some("é".repeat(200)))).is_none());
    assert!(refusal(decide_ban(true, None, Some("é".repeat(300)))).is_some());
}

#[test]
fn ban_replies() {
    assert_eq!(ban_reply(42, None), "Banned <@42>");
    assert_eq!(ban_reply(42, Some("db down")), "Banned <@42> but failed to log this action: db down");
}
