use butler::kick_report::{honeypot_kick_reason, honeypot_kick_report, whole_millis_since, REPORT_COLOR};

#[test]
fn visible_time_in_whole_milliseconds() {
    assert_eq!(whole_millis_since(100, 100_500_000_000).ok(), Some(500));
    assert_eq!(whole_millis_since(100, 100_000_999_999).ok(), Some(0));
    assert_eq!(whole_millis_since(100, 99_999_400_000).ok(), Some(0));
    assert_eq!(whole_millis_since(100, 99_998_500_000).ok(), Some(-1));
    assert_eq!(whole_millis_since(0, 3_000_000_000).ok(), Some(3000));
}

#[test]
fn post_time_out_of_range_fails() {
    assert!(whole_millis_since(i64::MAX, 0).is_err());
    assert!(whole_millis_since(253_402_300_799, 0).is_ok());
}

#[test]
fn kick_reason_text() {
    assert_eq!(
        honeypot_kick_reason("spammer", "<#42>", 1234),
        "Kicked spammer for sending message into <#42>\nVisible for 1234ms before kick"
    );
    assert_eq!(
        honeypot_kick_reason("a", "b", -3),
        "Kicked a for sending message into b\nVisible for -3ms before kick"
    );
}

#[test]
fn kick_report_fields() {
    let r = honeypot_kick_report(77, "<#5>", 250, 3, 4, 1500);
    assert_eq!(r.title, "Honeypot Kick");
    assert_eq!(r.color, REPORT_COLOR);
    assert_eq!(r.color, 0xED4245);
    let fields: Vec<(String, String, bool)> = r.fields.into_iter().map(|f| (f.name, f.value, f.inline)).collect();
    assert_eq!(
        fields,
        vec![
            ("User".to_string(), "<@77>".to_string(), true),
            ("Channel".to_string(), "<#5>".to_string(), true),
            ("Visible".to_string(), "250ms".to_string(), true),
            ("Deleted".to_string(), "3 cache / 4 scan / 7 total".to_string(), false),
        ]
    );
    assert_eq!(r.footer, "Cleanup took 1s 500ms");
}

#[test]
fn negative_cleanup_time_wraps_like_a_cast() {
    let r = honeypot_kick_report(1, "c", 0, 0, 0, -1);
    let expected = humantime::format_duration(std::time::Duration::from_millis(u64::MAX)).to_string();
    assert_eq!(r.footer, format!("Cleanup took {}", expected));
    let zero = honeypot_kick_report(1, "c", 0, 0, 0, 0);
    assert_eq!(zero.footer, "Cleanup took 0s");
}
