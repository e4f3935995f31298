use senddb_cache::cache::LevelCache;
use senddb_cache::check::{CheckAction, LevelOutcome};
use senddb_cache::reply::{level_reply, CachePolicy, ErrorKind, LevelReply};

fn sent_body() -> Option<Vec<u8>> {
    Some(br#"{"sends":[{"player":"x"}],"id":5}"#.to_vec())
}

#[test]
fn an_unknown_level_asks_the_database_then_upstream() {
    let cache = LevelCache::new();
    assert_eq!(cache.begin_check(5), CheckAction::QueryDatabase(5));
    assert_eq!(cache.after_database(5, false), CheckAction::FetchUpstream(5));
}

#[test]
fn a_level_in_the_database_is_sent() {
    let cache = LevelCache::new();
    assert_eq!(cache.after_database(5, true), CheckAction::Reply(LevelOutcome::Sent));
}

#[test]
fn a_level_with_sends_is_stored_and_then_answered_from_the_cache() {
    let mut cache = LevelCache::new();
    assert_eq!(cache.after_upstream(5, sent_body(), 100), CheckAction::StoreSent(5));
    assert!(cache.is_level_sent(5));
    assert!(!cache.is_not_sent_cached(5));
    assert_eq!(cache.begin_check(5), CheckAction::Reply(LevelOutcome::Sent));
    assert_eq!(cache.begin_check(6), CheckAction::QueryDatabase(6));
}

#[test]
fn a_level_without_sends_is_kept_as_not_sent_until_it_expires() {
    let mut cache = LevelCache::new();
    let body = Some(br#"{"sends":[]}"#.to_vec());
    assert_eq!(cache.after_upstream(6, body, 1000), CheckAction::Reply(LevelOutcome::NotSent));
    assert!(cache.is_not_sent_cached(6));
    assert_eq!(cache.not_sent_count(), 1);
    assert_eq!(cache.begin_check(6), CheckAction::QueryDatabase(6));
    assert_eq!(cache.after_database(6, false), CheckAction::Reply(LevelOutcome::NotSent));
    cache.purge_expired(1000 + 299, 5);
    assert_eq!(cache.after_database(6, false), CheckAction::Reply(LevelOutcome::NotSent));
    cache.purge_expired(1000 + 300, 5);
    assert_eq!(cache.not_sent_count(), 0);
    assert_eq!(cache.after_database(6, false), CheckAction::FetchUpstream(6));
}

#[test]
fn a_later_send_moves_a_level_out_of_the_not_sent_cache() {
    let mut cache = LevelCache::new();
    let body = Some(br#"{"sends":[]}"#.to_vec());
    cache.after_upstream(6, body, 1000);
    assert_eq!(cache.after_upstream(6, sent_body(), 2000), CheckAction::StoreSent(6));
    assert!(!cache.is_not_sent_cached(6));
    assert!(cache.is_level_sent(6));
}

#[test]
fn unreadable_upstream_answers_are_errors_and_change_nothing() {
    let mut cache = LevelCache::new();
    assert_eq!(cache.after_upstream(7, None, 10), CheckAction::Reply(LevelOutcome::UpstreamError));
    assert_eq!(
        cache.after_upstream(7, Some(b"not json".to_vec()), 10),
        CheckAction::Reply(LevelOutcome::UpstreamError)
    );
    assert_eq!(
        cache.after_upstream(7, Some(Vec::new()), 10),
        CheckAction::Reply(LevelOutcome::UpstreamError)
    );
    assert!(!cache.is_level_sent(7));
    assert_eq!(cache.not_sent_count(), 0);
}

#[test]
fn answers_without_a_sends_array_mean_not_sent() {
    let mut cache = LevelCache::new();
    for (id, body) in [
        (1u32, &br#"{"sends":3}"#[..]),
        (2, &br#"{"other":[1]}"#[..]),
        (3, &br#"[1,2,3]"#[..]),
        (4, &br#"{"sends":null}"#[..]),
        (5, &br#"{"sends":{"a":1}}"#[..]),
    ] {
        assert_eq!(
            cache.after_upstream(id, Some(body.to_vec()), 0),
            CheckAction::Reply(LevelOutcome::NotSent)
        );
    }
    assert_eq!(cache.not_sent_count(), 5);
}

#[test]
fn check_level_reads_the_identifier_first() {
    let mut cache = LevelCache::new();
    assert_eq!(cache.check_level("abc"), CheckAction::Reply(LevelOutcome::InvalidId));
    assert_eq!(cache.check_level("0"), CheckAction::Reply(LevelOutcome::InvalidId));
    assert_eq!(cache.check_level(" 9 "), CheckAction::QueryDatabase(9));
    cache.add_sent_level(9);
    assert_eq!(cache.check_level("9"), CheckAction::Reply(LevelOutcome::Sent));
}

#[test]
fn loaded_levels_are_sent() {
    let mut cache = LevelCache::new();
    cache.load_sent_levels(&vec![3, 4, 3]);
    assert!(cache.is_level_sent(3));
    assert!(cache.is_level_sent(4));
    assert!(!cache.is_level_sent(5));
    assert_eq!(cache.not_sent_count(), 0);
}

#[test]
fn purging_twice_is_purging_once() {
    let mut cache = LevelCache::new();
    cache.add_not_sent_level(1, 0);
    cache.add_not_sent_level(2, 500);
    cache.add_not_sent_level(3, 1000);
    cache.purge_expired(600, 5);
    assert_eq!(cache.not_sent_count(), 2);
    cache.purge_expired(600, 5);
    assert_eq!(cache.not_sent_count(), 2);
    assert!(!cache.is_not_sent_cached(1));
    assert!(cache.is_not_sent_cached(2));
    assert!(cache.is_not_sent_cached(3));
    cache.remove_not_sent_level(3);
    assert!(!cache.is_not_sent_cached(3));
}

#[test]
fn purging_handles_extreme_timestamps() {
    let mut cache = LevelCache::new();
    cache.add_not_sent_level(1, i64::MIN);
    cache.add_not_sent_level(2, i64::MAX);
    cache.purge_expired(i64::MAX, 5);
    assert!(!cache.is_not_sent_cached(1));
    assert!(cache.is_not_sent_cached(2));
}

#[test]
fn replies_for_each_outcome() {
    assert_eq!(
        level_reply(LevelOutcome::Sent),
        LevelReply { status: 200, error: None, sent: Some(true), cache: CachePolicy::SentLevel }
    );
    assert_eq!(
        level_reply(LevelOutcome::NotSent),
        LevelReply { status: 200, error: None, sent: Some(false), cache: CachePolicy::NotSentLevel }
    );
    assert_eq!(
        level_reply(LevelOutcome::UpstreamError),
        LevelReply {
            status: 500,
            error: Some(ErrorKind::UnknownError),
            sent: None,
            cache: CachePolicy::Uncached
        }
    );
    assert_eq!(
        level_reply(LevelOutcome::InvalidId),
        LevelReply {
            status: 400,
            error: Some(ErrorKind::InvalidLevelId),
            sent: None,
            cache: CachePolicy::Uncached
        }
    );
}

#[test]
fn error_messages() {
    assert_eq!(ErrorKind::InvalidLevelId.message(), "Invalid level_id");
    assert_eq!(ErrorKind::UnknownError.message(), "Unknown Error");
    assert_eq!(ErrorKind::InvalidLevelIds.message(), "Invalid level ID(s)");
    assert_eq!(
        ErrorKind::TooManyLevels.message(),
        "You cannot check more than 50 levels at a time!"
    );
    assert_eq!(ErrorKind::InvalidRequest.message(), "Invalid request");
}

#[test]
fn stats_count_both_caches() {
    let mut cache = LevelCache::new();
    cache.add_not_sent_level(1, 0);
    cache.add_not_sent_level(2, 0);
    cache.add_not_sent_level(1, 5);
    let stats = cache.get_stats(1234);
    assert_eq!(stats.sent, 1234);
    assert_eq!(stats.not_sent, 2);
}

#[test]
fn purging_later_covers_purging_earlier() {
    let mut twice = LevelCache::new();
    let mut once = LevelCache::new();
    for (id, stamp) in [(1u32, 0i64), (2, 100), (3, 250), (4, 400)] {
        twice.add_not_sent_level(id, stamp);
        once.add_not_sent_level(id, stamp);
    }
    twice.purge_expired(350, 5);
    twice.purge_expired(550, 5);
    once.purge_expired(550, 5);
    for id in 1u32..=4 {
        assert_eq!(twice.is_not_sent_cached(id), once.is_not_sent_cached(id));
    }
    assert_eq!(once.not_sent_count(), 1);
    assert!(once.is_not_sent_cached(4));
}
