use notify_dispatch::dispatch::{Dispatch, Reply, Request};
use notify_dispatch::error::NotifyError;
use notify_dispatch::note::Note;
use notify_dispatch::notification_manager::{Environment, NotificationManager};

const NOW: i64 = 1_700_000_000;

struct Run {
    asked: Vec<String>,
    deliveries: Vec<(String, String)>,
    notified: Vec<String>,
    error: Option<NotifyError>,
}

fn ready_manager() -> NotificationManager {
    let env = Environment {
        db_path: None,
        relay_url: None,
        apns_private_key_path: Some("/keys/apns.pem".to_string()),
        apns_private_key_id: Some("KEY123".to_string()),
        apns_team_id: Some("TEAM456".to_string()),
    };
    let mut manager = NotificationManager::new(Some(":memory:".to_string()), None, env).unwrap();
    manager.setup_database().unwrap();
    manager
}

fn note(id: &str, pubkey: &str, created_at: i64, tags: Vec<Vec<&str>>) -> Note {
    Note {
        id: id.to_string(),
        pubkey: pubkey.to_string(),
        content: "hello".to_string(),
        created_at,
        kind: 1,
        tags: tags
            .into_iter()
            .map(|tag| tag.into_iter().map(|part| part.to_string()).collect())
            .collect(),
        sig: "sig".to_string(),
    }
}

fn drive(
    manager: &NotificationManager,
    event: &Note,
    mut dispatch: Dispatch,
    muted: &[&str],
    unanswerable: &[&str],
    gateway_accepts: bool,
) -> Run {
    let mut run = Run { asked: vec![], deliveries: vec![], notified: vec![], error: None };
    loop {
        let request = match manager.resume(&mut dispatch) {
            Ok(request) => request,
            Err(error) => {
                run.error = Some(error);
                break;
            }
        };
        let reply = match request {
            Request::Done => break,
            Request::MuteVerdict { pubkey } => {
                run.asked.push(pubkey.clone());
                if unanswerable.contains(&pubkey.as_str()) {
                    Reply::MuteCheckFailed("relay unreachable".to_string())
                } else {
                    Reply::MuteVerdict(muted.contains(&pubkey.as_str()))
                }
            }
            Request::Delivery { pubkey, device_token, title, subtitle, body } => {
                assert_eq!(title, "New activity");
                assert_eq!(subtitle, format!("From: {}", event.pubkey));
                assert_eq!(body, event.content);
                run.deliveries.push((pubkey, device_token));
                Reply::DeliveryAttempted(gateway_accepts)
            }
            other => panic!("the store's requests are not handed out: {:?}", other),
        };
        if let Err(error) = dispatch.advance(reply) {
            run.error = Some(error);
            break;
        }
    }
    assert!(dispatch.is_done());
    run.notified = dispatch.pubkeys_to_notify().clone();
    run
}

fn process(manager: &NotificationManager, event: &Note, muted: &[&str]) -> Run {
    let dispatch = manager.begin_dispatch_at(event, NOW).unwrap();
    drive(manager, event, dispatch, muted, &[], true)
}

#[test]
fn tagged_pubkey_is_notified_and_recorded() {
    let manager = ready_manager();
    manager.upsert_device("bob", "bob-phone", 1).unwrap();
    let e1 = note("e1", "alice", NOW, vec![vec!["p", "bob"]]);
    let run = process(&manager, &e1, &[]);
    assert!(run.error.is_none());
    assert_eq!(run.notified, vec!["bob".to_string()]);
    assert_eq!(run.deliveries, vec![("bob".to_string(), "bob-phone".to_string())]);
    let status = manager.get_notification_status(&e1).unwrap();
    assert_eq!(status.get("bob"), Some(true));
    assert_eq!(status.get("alice"), None);
}

#[test]
fn subscriber_of_a_referenced_event_is_notified_and_the_author_is_not() {
    let manager = ready_manager();
    let e1 = note("e1", "alice", NOW, vec![vec!["p", "bob"]]);
    let first = process(&manager, &e1, &[]);
    assert_eq!(first.notified, vec!["bob".to_string()]);
    manager.upsert_device("bob", "bob-phone", 1).unwrap();
    manager.upsert_device("carol", "carol-phone", 1).unwrap();
    let e2 = note("e2", "carol", NOW, vec![vec!["e", "e1"]]);
    let run = process(&manager, &e2, &[]);
    assert!(run.error.is_none());
    assert_eq!(run.asked, vec!["bob".to_string()]);
    assert_eq!(run.notified, vec!["bob".to_string()]);
    assert!(!run.notified.contains(&"carol".to_string()));
    assert_eq!(run.deliveries, vec![("bob".to_string(), "bob-phone".to_string())]);
    let status = manager.get_notification_status(&e2).unwrap();
    assert_eq!(status.get("bob"), Some(true));
    assert_eq!(status.get("carol"), None);
}

#[test]
fn removed_device_gets_no_delivery_but_the_attempt_is_recorded() {
    let manager = ready_manager();
    manager.upsert_device("bob", "bob-phone", 1).unwrap();
    manager.remove_user_device_info("bob", "bob-phone").unwrap();
    assert_eq!(manager.get_user_device_tokens("bob").unwrap(), Vec::<String>::new());
    let e1 = note("e1", "alice", NOW, vec![vec!["p", "bob"]]);
    let run = process(&manager, &e1, &[]);
    assert!(run.error.is_none());
    assert!(run.deliveries.is_empty());
    assert_eq!(run.notified, vec!["bob".to_string()]);
    assert_eq!(manager.get_notification_status(&e1).unwrap().get("bob"), Some(true));
}

#[test]
fn stale_event_writes_nothing_and_delivers_nothing() {
    let manager = ready_manager();
    manager.upsert_device("bob", "bob-phone", 1).unwrap();
    let stale = note("e1", "alice", NOW - 604_801, vec![vec!["p", "bob"]]);
    let dispatch = manager.begin_dispatch_at(&stale, NOW).unwrap();
    assert!(dispatch.is_done());
    let run = drive(&manager, &stale, dispatch, &[], &[], true);
    assert!(run.asked.is_empty());
    assert!(run.deliveries.is_empty());
    assert!(run.notified.is_empty());
    assert_eq!(manager.pubkeys_subscribed_to_event_id("e1").unwrap().len(), 0);
    let fresh = note("e2", "alice", NOW - 604_800, vec![vec!["p", "bob"]]);
    let run = process(&manager, &fresh, &[]);
    assert_eq!(run.deliveries.len(), 1);
}

#[test]
fn author_is_never_notified_of_the_own_event() {
    let manager = ready_manager();
    manager.upsert_device("alice", "alice-phone", 1).unwrap();
    manager.record_notification_sent("e0", "alice", 1).unwrap();
    let event = note("e1", "alice", NOW, vec![vec!["p", "alice"], vec!["e", "e0"], vec!["p", "bob"]]);
    let run = process(&manager, &event, &[]);
    assert_eq!(run.asked, vec!["bob".to_string()]);
    assert_eq!(run.notified, vec!["bob".to_string()]);
    assert!(run.deliveries.is_empty());
    assert_eq!(manager.get_notification_status(&event).unwrap().get("alice"), None);
}

#[test]
fn second_dispatch_of_the_same_event_delivers_nothing() {
    let manager = ready_manager();
    manager.upsert_device("bob", "bob-phone", 1).unwrap();
    manager.upsert_device("carol", "carol-phone", 1).unwrap();
    manager.upsert_device("dave", "dave-phone", 1).unwrap();
    let event = note(
        "e1",
        "alice",
        NOW,
        vec![vec!["p", "bob"], vec!["p", "carol"], vec!["p", "dave"], vec!["e", "e1"]],
    );
    let first = process(&manager, &event, &["carol"]);
    assert_eq!(first.deliveries.len(), 2);
    assert_eq!(first.notified, vec!["bob".to_string(), "dave".to_string()]);
    let second = process(&manager, &event, &["carol"]);
    assert!(second.error.is_none());
    assert!(second.deliveries.is_empty());
    assert!(second.notified.is_empty());
    assert_eq!(second.asked, vec!["carol".to_string()]);
}

#[test]
fn muted_pubkey_gets_no_delivery_and_no_record() {
    let manager = ready_manager();
    manager.upsert_device("bob", "bob-phone", 1).unwrap();
    manager.upsert_device("carol", "carol-phone", 1).unwrap();
    let event = note("e1", "alice", NOW, vec![vec!["p", "bob"], vec!["p", "carol"]]);
    let run = process(&manager, &event, &["bob"]);
    assert_eq!(run.asked, vec!["bob".to_string(), "carol".to_string()]);
    assert_eq!(run.deliveries, vec![("carol".to_string(), "carol-phone".to_string())]);
    let subscribed = manager.pubkeys_subscribed_to_event_id("e1").unwrap();
    assert_eq!(subscribed.to_vec(), vec!["carol".to_string()]);
    assert_eq!(manager.get_notification_status(&event).unwrap().get("bob"), None);
}

#[test]
fn failed_mute_check_stops_the_event_without_delivery_or_record() {
    let manager = ready_manager();
    manager.upsert_device("bob", "bob-phone", 1).unwrap();
    manager.upsert_device("carol", "carol-phone", 1).unwrap();
    let event = note("e1", "alice", NOW, vec![vec!["p", "bob"], vec!["p", "carol"]]);
    let dispatch = manager.begin_dispatch_at(&event, NOW).unwrap();
    let run = drive(&manager, &event, dispatch, &[], &["carol"], true);
    match run.error {
        Some(NotifyError::PolicyEvaluationError(reason)) => assert_eq!(reason, "relay unreachable"),
        other => panic!("expected a policy evaluation error, got {:?}", other),
    }
    assert!(run.deliveries.is_empty());
    assert_eq!(manager.pubkeys_subscribed_to_event_id("e1").unwrap().len(), 0);
}

#[test]
fn failed_deliveries_do_not_stop_the_fan_out() {
    let manager = ready_manager();
    manager.upsert_device("bob", "bob-phone", 1).unwrap();
    manager.upsert_device("bob", "bob-tablet", 2).unwrap();
    manager.upsert_device("carol", "carol-phone", 3).unwrap();
    let event = note("e1", "alice", NOW, vec![vec!["p", "bob"], vec!["p", "carol"]]);
    let dispatch = manager.begin_dispatch_at(&event, NOW).unwrap();
    let run = drive(&manager, &event, dispatch, &[], &[], false);
    assert!(run.error.is_none());
    let mut deliveries = run.deliveries.clone();
    deliveries.sort();
    assert_eq!(
        deliveries,
        vec![
            ("bob".to_string(), "bob-phone".to_string()),
            ("bob".to_string(), "bob-tablet".to_string()),
            ("carol".to_string(), "carol-phone".to_string()),
        ]
    );
    let status = manager.get_notification_status(&event).unwrap();
    assert_eq!(status.get("bob"), Some(true));
    assert_eq!(status.get("carol"), Some(true));
}

#[test]
fn already_notified_pubkey_is_not_notified_again() {
    let manager = ready_manager();
    manager.upsert_device("bob", "bob-phone", 1).unwrap();
    manager.upsert_device("carol", "carol-phone", 1).unwrap();
    manager.record_notification_sent("e1", "bob", 5).unwrap();
    let event = note("e1", "alice", NOW, vec![vec!["p", "bob"], vec!["p", "carol"]]);
    let run = process(&manager, &event, &[]);
    assert_eq!(run.asked, vec!["carol".to_string()]);
    assert_eq!(run.deliveries, vec![("carol".to_string(), "carol-phone".to_string())]);
}

#[test]
fn store_closed_under_a_dispatch_stops_it() {
    let mut manager = ready_manager();
    let event = note("e1", "alice", NOW, vec![vec!["p", "bob"]]);
    let mut dispatch = manager.begin_dispatch_at(&event, NOW).unwrap();
    assert_eq!(
        manager.resume(&mut dispatch).unwrap(),
        Request::MuteVerdict { pubkey: "bob".to_string() }
    );
    dispatch.advance(Reply::MuteVerdict(false)).unwrap();
    manager.close_database().unwrap();
    assert!(matches!(manager.resume(&mut dispatch), Err(NotifyError::StoreUnavailable)));
    assert!(dispatch.is_done());
    assert_eq!(dispatch.request(), Request::Done);
}

#[test]
fn dispatch_by_the_clock_ignores_old_events_and_takes_new_ones() {
    let manager = ready_manager();
    let old = note("e1", "alice", 0, vec![vec!["p", "bob"]]);
    let dispatch = manager.begin_dispatch(&old).unwrap();
    assert!(dispatch.is_done());
    let new = note("e2", "alice", i64::MAX, vec![vec!["p", "bob"]]);
    let dispatch = manager.begin_dispatch(&new).unwrap();
    assert_eq!(dispatch.request(), Request::MuteVerdict { pubkey: "bob".to_string() });
}
