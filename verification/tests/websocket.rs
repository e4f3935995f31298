use senddb_cache::health::{
    health_check, health_reply, root, root_reply, HealthReply, RootReply, HEALTH_BANNER,
    ROOT_REDIRECT,
};
use senddb_cache::reply::ErrorKind;
use senddb_cache::ws::{handle_ws, validate_level_ids, WsAction, WsRequest};

#[test]
fn level_lists_must_be_nonempty_and_without_zero() {
    assert_eq!(validate_level_ids(&vec![]), Some(ErrorKind::InvalidLevelIds));
    assert_eq!(validate_level_ids(&vec![1, 0, 3]), Some(ErrorKind::InvalidLevelIds));
    assert_eq!(validate_level_ids(&vec![0; 60]), Some(ErrorKind::InvalidLevelIds));
    assert_eq!(validate_level_ids(&vec![1, 2, 3]), None);
}

#[test]
fn at_most_fifty_levels_at_a_time() {
    let fifty: Vec<u32> = (1..=50).collect();
    let fifty_one: Vec<u32> = (1..=51).collect();
    assert_eq!(validate_level_ids(&fifty), None);
    assert_eq!(validate_level_ids(&fifty_one), Some(ErrorKind::TooManyLevels));
}

#[test]
fn websocket_requests_are_dispatched() {
    assert_eq!(handle_ws(&None), WsAction::RejectRequest);
    assert_eq!(handle_ws(&Some(WsRequest::Status)), WsAction::ReplyStatus);
    assert_eq!(handle_ws(&Some(WsRequest::Stats)), WsAction::ReplyStats);
    assert_eq!(
        handle_ws(&Some(WsRequest::Level { ids: vec![4, 5] })),
        WsAction::CheckLevels
    );
    assert_eq!(
        handle_ws(&Some(WsRequest::Level { ids: vec![] })),
        WsAction::RejectLevels(ErrorKind::InvalidLevelIds)
    );
    assert_eq!(
        handle_ws(&Some(WsRequest::Level { ids: (1..=51).collect() })),
        WsAction::RejectLevels(ErrorKind::TooManyLevels)
    );
}

#[test]
fn a_roll_of_one_is_soggy() {
    assert_eq!(health_reply(1), HealthReply::Soggy);
    assert_eq!(health_reply(2), HealthReply::Banner);
    assert_eq!(health_reply(100), HealthReply::Banner);
    assert_eq!(root_reply(1), RootReply::Soggy);
    assert_eq!(root_reply(50), RootReply::Redirect);
}

#[test]
fn health_and_root_answer_one_way_or_the_other() {
    for _ in 0..200 {
        let h = health_check();
        assert!(h == HealthReply::Soggy || h == HealthReply::Banner);
        let r = root();
        assert!(r == RootReply::Soggy || r == RootReply::Redirect);
    }
}

#[test]
fn the_banner_and_the_redirect() {
    assert!(HEALTH_BANNER.starts_with("\n_//     _//"));
    assert_eq!(HEALTH_BANNER.lines().count(), 9);
    assert_eq!(ROOT_REDIRECT, "https://senddb.dev/");
}
