use butler::guild_config::{
    any_role_permits, bot_just_joined, bot_was_removed, guild_context, log_target, logging_channel_reply,
    message_intake, safe_roles_reply, server_config_reply, stats_reply, Config, LogTargetError, MessageIntake,
};
use butler::honeypot::Honeypot;

fn sample() -> Honeypot {
    Honeypot { guild_id: 1, channel_ids: vec![10, 11], safe_role_ids: vec![100], enabled: true }
}

#[test]
fn nothing_configured() {
    assert_eq!(server_config_reply(&None, None), "Nothing is configured yet.");
}

#[test]
fn config_with_honeypot_and_logging() {
    assert_eq!(
        server_config_reply(&Some(sample()), Some("<#9>")),
        "Honeypots: <#10> <#11>\nSafe roles: <@&100>\nArmed: true\n\nLogging channel: <#9>"
    );
    let mut off = sample();
    off.enabled = false;
    assert_eq!(server_config_reply(&Some(off), None), "Honeypots: <#10> <#11>\nSafe roles: <@&100>\nArmed: false\n");
    assert_eq!(server_config_reply(&None, Some("<#9>")), "\nLogging channel: <#9>");
}

#[test]
fn safe_role_replies() {
    assert_eq!(safe_roles_reply(&Some(sample())), "Safe roles are now <@&100>");
    assert_eq!(safe_roles_reply(&None), "Failed to add safe role. Is the honeypot set up already?");
}

#[test]
fn logging_replies() {
    assert_eq!(logging_channel_reply(Some("<#3>")), "Set logging channel to <#3>");
    assert_eq!(logging_channel_reply(None), "Removed logging channel");
}

#[test]
fn stats_count_guilds_and_known_members() {
    assert_eq!(stats_reply(&vec![Some(10), None, Some(5)]), "Protecting **15** users across **3** servers.");
    assert_eq!(stats_reply(&vec![]), "Protecting **0** users across **0** servers.");
}

#[test]
fn logging_target() {
    assert!(matches!(log_target(None), Err(LogTargetError::NoGuildRow)));
    assert!(matches!(log_target(Some(None)), Err(LogTargetError::NoLoggingChannel)));
    assert!(matches!(log_target(Some(Some(77))), Ok(77)));
    assert!(matches!(log_target(Some(Some(-1))), Ok(u64::MAX)));
    assert_eq!(LogTargetError::NoGuildRow.message(), "logging channel without message");
    assert_eq!(LogTargetError::NoLoggingChannel.message(), "");
}

#[test]
fn permissions() {
    let admin = 1u64 << 3;
    assert!(any_role_permits(&Some(vec![0, admin | 1]), admin));
    assert!(!any_role_permits(&Some(vec![1, 2]), admin));
    assert!(!any_role_permits(&Some(vec![]), admin));
    assert!(!any_role_permits(&None, admin));
}

#[test]
fn intake_and_guild_events() {
    assert!(matches!(message_intake(Some(1), 2, 2), MessageIntake::Cache));
    assert!(matches!(message_intake(None, 2, 2), MessageIntake::Ignore));
    assert!(matches!(message_intake(None, 3, 2), MessageIntake::LogDirectMessage));
    assert!(bot_was_removed(false));
    assert!(!bot_was_removed(true));
    assert!(bot_just_joined(Some(true)));
    assert!(!bot_just_joined(Some(false)));
    assert!(!bot_just_joined(None));
}

#[test]
fn context_and_config() {
    assert_eq!(guild_context("Failed to fetch honeypot", 12), "Failed to fetch honeypot for guild 12");
    let c = Config { token: "t".to_string(), min_hours: 1, uk_url: "disabled".to_string() };
    assert!(!c.uptime_push_enabled());
    let d = Config { token: "t".to_string(), min_hours: 1, uk_url: "https://x".to_string() };
    assert!(d.uptime_push_enabled());
}
