use butler::message_cache::{
    cleanup_cutoff_nanos, count_messages, deletion_batches, keep_fresh_messages, scan_continues, scan_page, snowflake_created_millis,
    DeletionBatch, MessageCache, PageMessage,
};

/// A snowflake made at `millis` after the Discord epoch.
fn id_at(millis: u64, low: u64) -> u64 {
    (millis << 22) | low
}

#[test]
fn snowflake_times_follow_discord() {
    assert_eq!(snowflake_created_millis(175928847299117063), 1462015105796);
    assert_eq!(snowflake_created_millis(0), 1_420_070_400_000);
}

#[test]
fn recorded_messages_are_taken_per_author() {
    let mut cache = MessageCache::new();
    cache.record(1, 2, 3, 30);
    cache.record(1, 2, 3, 31);
    cache.record(1, 2, 4, 40);
    cache.record(1, 9, 3, 90);
    cache.record(5, 2, 3, 50);
    let mut taken = cache.take_user_messages(1, 2);
    taken.sort();
    assert_eq!(taken, vec![(3, vec![30, 31]), (4, vec![40])]);
    assert_eq!(count_messages(&taken), 3);
    assert!(cache.take_user_messages(1, 2).is_empty());
    assert_eq!(cache.take_user_messages(1, 9), vec![(3, vec![90])]);
    assert_eq!(cache.take_user_messages(5, 2), vec![(3, vec![50])]);
}

#[test]
fn eviction_keeps_only_fresh_messages() {
    let mut cache = MessageCache::new();
    let old = id_at(1000, 1);
    let new = id_at(5000, 2);
    cache.record(1, 2, 3, old);
    cache.record(1, 2, 3, new);
    cache.record(1, 2, 4, old);
    let cutoff = (1_420_070_400_000i128 + 3000) * 1_000_000;
    cache.evict_stale(cutoff);
    assert_eq!(cache.take_user_messages(1, 2), vec![(3, vec![new])]);
}

#[test]
fn fresh_filter_is_strict() {
    let id = id_at(2000, 0);
    let at = (1_420_070_400_000i128 + 2000) * 1_000_000;
    let mut v = vec![id];
    assert!(!keep_fresh_messages(&mut v, at));
    assert!(v.is_empty());
    let mut w = vec![id];
    assert!(keep_fresh_messages(&mut w, at - 1));
    assert_eq!(w, vec![id]);
}

#[test]
fn batches_of_at_most_a_hundred() {
    let msgs: Vec<u64> = (0..201).collect();
    let batches = deletion_batches(&msgs);
    assert_eq!(batches.len(), 3);
    match &batches[0] {
        DeletionBatch::Bulk(ids) => assert_eq!(ids, &(0..100).collect::<Vec<u64>>()),
        _ => panic!("expected bulk"),
    }
    match &batches[1] {
        DeletionBatch::Bulk(ids) => assert_eq!(ids, &(100..200).collect::<Vec<u64>>()),
        _ => panic!("expected bulk"),
    }
    assert!(matches!(batches[2], DeletionBatch::Single(200)));
    assert!(deletion_batches(&vec![]).is_empty());
    assert!(matches!(deletion_batches(&vec![7])[0], DeletionBatch::Single(7)));
    assert!(matches!(&deletion_batches(&vec![7, 8])[0], DeletionBatch::Bulk(v) if v == &vec![7, 8]));
}

#[test]
fn page_scan_picks_recent_author_messages_and_last() {
    let page = vec![
        PageMessage { id: id_at(9000, 1), author_id: 1 },
        PageMessage { id: id_at(8000, 2), author_id: 2 },
        PageMessage { id: id_at(7000, 3), author_id: 1 },
        PageMessage { id: id_at(1000, 4), author_id: 1 },
        PageMessage { id: id_at(500, 5), author_id: 3 },
    ];
    let cutoff = (1_420_070_400_000i128 + 2000) * 1_000_000;
    let scan = scan_page(&page, 1, cutoff);
    assert_eq!(scan.to_delete, vec![id_at(9000, 1), id_at(7000, 3)]);
    assert_eq!(scan.last, Some(id_at(500, 5)));
    let empty = scan_page(&vec![], 1, cutoff);
    assert!(empty.to_delete.is_empty());
    assert_eq!(empty.last, None);
}

#[test]
fn old_message_is_never_scanned_for_deletion() {
    // message id 0 dates from 2015-01-01; a cleanup an hour or more later leaves it
    let now = (1_420_070_400_000i128 + 3_600_000) * 1_000_000;
    let scan = scan_page(&vec![PageMessage { id: 0, author_id: 1 }], 1, cleanup_cutoff_nanos(now));
    assert!(scan.to_delete.is_empty());
    assert_eq!(scan.last, Some(0));
}

#[test]
fn recent_take_drops_old_messages() {
    let mut cache = MessageCache::new();
    let old = id_at(1000, 1);
    let new = id_at(5000, 2);
    cache.record(1, 2, 3, old);
    cache.record(1, 2, 3, new);
    cache.record(1, 2, 4, old);
    cache.record(1, 9, 3, old);
    let cutoff = (1_420_070_400_000i128 + 3000) * 1_000_000;
    let mut taken = cache.take_recent_user_messages(1, 2, cutoff);
    taken.sort();
    assert_eq!(taken, vec![(3, vec![new]), (4, vec![])]);
    assert!(cache.take_user_messages(1, 2).is_empty());
    // the cleanup of one author leaves everybody else's entries, old ones too
    assert_eq!(cache.take_user_messages(1, 9), vec![(3, vec![old])]);
    assert_eq!(cleanup_cutoff_nanos(cutoff + 3_600_000_000_000), cutoff);
}

#[test]
fn scan_reads_at_most_three_pages() {
    assert!(scan_continues(1, Some(5)));
    assert!(scan_continues(2, Some(5)));
    assert!(!scan_continues(3, Some(5)));
    assert!(!scan_continues(1, None));
}
