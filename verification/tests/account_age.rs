use butler::account_age::{
    account_created_text, min_age_from_db, min_age_seconds_from_days, min_age_to_db, rejoin_timestamp, too_young_notice, too_young_reason,
};

#[test]
fn stored_age_casts() {
    assert_eq!(min_age_from_db(Some(3600)), Some(3600));
    assert_eq!(min_age_from_db(Some(-1)), Some(u64::MAX));
    assert_eq!(min_age_from_db(None), None);
    assert_eq!(min_age_to_db(Some(86400)), Some(86400));
    assert_eq!(min_age_to_db(Some(u64::MAX)), Some(-1));
    assert_eq!(min_age_to_db(None), None);
}

#[test]
fn rejoin_is_creation_plus_minimum() {
    // created 1462015105.796 s
    assert_eq!(rejoin_timestamp(175928847299117063, 0), 1462015105);
    assert_eq!(rejoin_timestamp(175928847299117063, 86400), 1462015105 + 86400);
    assert_eq!(rejoin_timestamp(0, 1), 1_420_070_401);
}

#[test]
fn notice_text() {
    assert_eq!(
        too_young_notice(0, 86400),
        "Your account must be at least 1day old.\nYou may rejoin on <t:1420156800:f>\nDO NOT REPLY TO THIS MESSAGE, IT IS AUTOMATED AND WILL NOT BE READ OR RESPONDED TO!"
    );
    assert!(too_young_notice(0, 9000).starts_with("Your account must be at least 2h 30m old."));
}

#[test]
fn created_text_is_rfc3339() {
    assert_eq!(account_created_text(0), "2015-01-01T00:00:00.000Z");
    assert_eq!(account_created_text(175928847299117063), "2016-04-30T11:18:25.796Z");
}

#[test]
fn reason_text() {
    assert_eq!(
        too_young_reason("newbie", 175928847299117063, Some(true)),
        "Kicked newbie <@175928847299117063>\nAccount created on: 2016-04-30T11:18:25.796Z\nVerification status: true"
    );
    assert!(too_young_reason("x", 0, None).ends_with("Verification status: N/A"));
    assert!(too_young_reason("x", 0, Some(false)).ends_with("Verification status: false"));
}

#[test]
fn days_become_seconds() {
    assert_eq!(min_age_seconds_from_days(0), Some(0));
    assert_eq!(min_age_seconds_from_days(1), Some(86_400));
    assert_eq!(min_age_seconds_from_days(7), Some(604_800));
    assert_eq!(min_age_seconds_from_days(106_751_991_167_300), Some(106_751_991_167_300 * 86_400));
    assert_eq!(min_age_seconds_from_days(106_751_991_167_301), None);
    assert_eq!(min_age_seconds_from_days(u64::MAX), None);
}
