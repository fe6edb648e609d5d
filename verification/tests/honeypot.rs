use butler::honeypot::{contains_id, honeypot_armed, honeypot_kicks, ids_for_db, to_db_id, Honeypot};

fn sample() -> Honeypot {
    Honeypot { guild_id: 1, channel_ids: vec![10, 11], safe_role_ids: vec![100, 200, 100], enabled: true }
}

#[test]
fn setup_stores_one_channel_and_role_armed_by_default() {
    let h = Honeypot::configured(5, 6, 7, None);
    assert_eq!(h.guild_id, 5);
    assert_eq!(h.channel_ids, vec![6]);
    assert_eq!(h.safe_role_ids, vec![7]);
    assert!(h.enabled);
    assert!(!Honeypot::configured(5, 6, 7, Some(false)).enabled);
}

#[test]
fn armed_only_in_its_channels_when_enabled() {
    let mut h = sample();
    assert!(h.armed_for(10));
    assert!(!h.armed_for(12));
    h.enabled = false;
    assert!(!h.armed_for(10));
    assert!(!honeypot_armed(&None, 10));
    assert!(honeypot_armed(&Some(sample()), 11));
}

#[test]
fn safe_role_protects() {
    let h = sample();
    assert!(h.is_protected(&vec![1, 2, 200]));
    assert!(!h.is_protected(&vec![1, 2, 3]));
    assert!(!h.is_protected(&vec![]));
}

#[test]
fn adding_safe_role_skips_present_role() {
    let mut h = Honeypot { guild_id: 1, channel_ids: vec![10], safe_role_ids: vec![5], enabled: true };
    h.add_safe_role(5);
    assert_eq!(h.safe_role_ids, vec![5]);
    h.add_safe_role(300);
    assert_eq!(h.safe_role_ids, vec![5, 300]);
    assert!(h.is_protected(&vec![300]));
}

#[test]
fn adding_channel_skips_present_channel() {
    let mut h = sample();
    h.add_honeypot_channel(10);
    assert_eq!(h.channel_ids, vec![10, 11]);
    h.add_honeypot_channel(12);
    assert_eq!(h.channel_ids, vec![10, 11, 12]);
}

#[test]
fn kick_decision() {
    let hp = Some(sample());
    assert!(honeypot_kicks(&hp, 10, &vec![1, 2]));
    assert!(!honeypot_kicks(&hp, 10, &vec![1, 200]));
    assert!(!honeypot_kicks(&hp, 12, &vec![1]));
    assert!(!honeypot_kicks(&None, 10, &vec![]));
    let mut off = sample();
    off.enabled = false;
    assert!(!honeypot_kicks(&Some(off), 10, &vec![]));
}

#[test]
fn removing_safe_role_removes_every_copy() {
    let mut h = sample();
    h.remove_safe_role(100);
    assert_eq!(h.safe_role_ids, vec![200]);
    assert!(!h.is_protected(&vec![100]));
    h.remove_safe_role(999);
    assert_eq!(h.safe_role_ids, vec![200]);
}

#[test]
fn remove_undoes_add() {
    let mut a = sample();
    a.add_safe_role(7);
    a.remove_safe_role(7);
    let mut b = sample();
    b.remove_safe_role(7);
    assert_eq!(a.safe_role_ids, b.safe_role_ids);
    let mut c = sample();
    c.add_honeypot_channel(12);
    assert!(c.armed_for(12));
    c.remove_honeypot_channel(12);
    assert!(!c.armed_for(12));
    assert_eq!(c.channel_ids, vec![10, 11]);
}

#[test]
fn large_ids_wrap_into_signed_storage() {
    assert_eq!(to_db_id(u64::MAX), -1);
    assert_eq!(ids_for_db(&vec![1, u64::MAX]), vec![1, -1]);
    let h = Honeypot { guild_id: 1, channel_ids: vec![-1], safe_role_ids: vec![], enabled: true };
    assert!(h.armed_for(u64::MAX));
    assert!(contains_id(&vec![3, -1], -1));
    assert!(!contains_id(&vec![], 0));
}
