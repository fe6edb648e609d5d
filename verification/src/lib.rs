//! Verified core of the Discord moderation bot: the honeypot rules, the
//! account-age rules, the message cache used for cleanup, and every text the
//! bot posts.

pub mod account_age;
pub mod guild_config;
pub mod honeypot;
pub mod kick_report;
pub mod message_cache;
pub mod moderation;
pub mod text;
