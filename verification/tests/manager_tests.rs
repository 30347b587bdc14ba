use notify_dispatch::error::NotifyError;
use notify_dispatch::note::Note;
use notify_dispatch::notification_manager::{Environment, NotificationManager};

fn credentials() -> Environment {
    Environment {
        db_path: None,
        relay_url: None,
        apns_private_key_path: Some("/keys/apns.pem".to_string()),
        apns_private_key_id: Some("KEY123".to_string()),
        apns_team_id: Some("TEAM456".to_string()),
    }
}

fn in_memory() -> Option<String> {
    Some(":memory:".to_string())
}

fn ready_manager() -> NotificationManager {
    let mut manager = NotificationManager::new(in_memory(), None, credentials()).unwrap();
    manager.setup_database().unwrap();
    manager
}

fn note(id: &str, pubkey: &str, tags: Vec<Vec<&str>>) -> Note {
    Note {
        id: id.to_string(),
        pubkey: pubkey.to_string(),
        content: "hello".to_string(),
        created_at: 1_700_000_000,
        kind: 1,
        tags: tags
            .into_iter()
            .map(|tag| tag.into_iter().map(|part| part.to_string()).collect())
            .collect(),
        sig: "sig".to_string(),
    }
}

#[test]
fn new_takes_what_the_caller_gives_first() {
    let mut env = credentials();
    env.db_path = Some("/nowhere/at/all.db".to_string());
    env.relay_url = Some("ws://env:1".to_string());
    let manager =
        NotificationManager::new(in_memory(), Some("ws://given:2".to_string()), env).unwrap();
    assert_eq!(manager.db_path(), ":memory:");
    assert_eq!(manager.relay_url(), "ws://given:2");
    assert_eq!(manager.apns_private_key_path(), "/keys/apns.pem");
    assert_eq!(manager.apns_private_key_id(), "KEY123");
    assert_eq!(manager.apns_team_id(), "TEAM456");
    assert!(!manager.is_database_setup());
}

#[test]
fn new_falls_back_to_the_environment_and_then_to_the_default() {
    let mut env = credentials();
    env.db_path = Some(":memory:".to_string());
    let manager = NotificationManager::new(None, None, env).unwrap();
    assert_eq!(manager.db_path(), ":memory:");
    assert_eq!(manager.relay_url(), "ws://localhost:7777");
    let mut env = credentials();
    env.relay_url = Some("ws://env:1".to_string());
    let manager = NotificationManager::new(in_memory(), None, env).unwrap();
    assert_eq!(manager.relay_url(), "ws://env:1");
}

#[test]
fn new_names_the_first_missing_credential() {
    let mut env = credentials();
    env.apns_team_id = None;
    match NotificationManager::new(in_memory(), None, env) {
        Err(NotifyError::MissingConfiguration(name)) => assert_eq!(name, "APNS_TEAM_ID"),
        _ => panic!("expected a missing credential"),
    }
    let mut env = credentials();
    env.apns_private_key_id = None;
    env.apns_team_id = None;
    match NotificationManager::new(in_memory(), None, env) {
        Err(NotifyError::MissingConfiguration(name)) => assert_eq!(name, "APNS_PRIVATE_KEY_ID"),
        _ => panic!("expected a missing credential"),
    }
    let env = Environment {
        db_path: None,
        relay_url: None,
        apns_private_key_path: None,
        apns_private_key_id: None,
        apns_team_id: None,
    };
    match NotificationManager::new(in_memory(), None, env) {
        Err(NotifyError::MissingConfiguration(name)) => assert_eq!(name, "APNS_PRIVATE_KEY_PATH"),
        _ => panic!("expected a missing credential"),
    }
}

#[test]
fn new_reports_a_database_that_cannot_be_opened() {
    let result = NotificationManager::new(
        Some("/this/directory/does/not/exist/store.db".to_string()),
        None,
        credentials(),
    );
    assert!(matches!(result, Err(NotifyError::PersistenceError(_))));
}

#[test]
fn store_is_unavailable_before_setup() {
    let manager = NotificationManager::new(in_memory(), None, credentials()).unwrap();
    let event = note("e1", "alice", vec![vec!["p", "bob"]]);
    assert!(matches!(manager.pubkeys_subscribed_to_event_id("e1"), Err(NotifyError::StoreUnavailable)));
    assert!(matches!(manager.pubkeys_subscribed_to_event(&event), Err(NotifyError::StoreUnavailable)));
    assert!(matches!(manager.pubkeys_relevant_to_event(&event), Err(NotifyError::StoreUnavailable)));
    assert!(matches!(manager.get_notification_status(&event), Err(NotifyError::StoreUnavailable)));
    assert!(matches!(manager.get_user_device_tokens("bob"), Err(NotifyError::StoreUnavailable)));
    assert!(matches!(manager.record_notification_sent("e1", "bob", 1), Err(NotifyError::StoreUnavailable)));
    assert!(matches!(manager.save_user_device_info("bob", "t"), Err(NotifyError::StoreUnavailable)));
    assert!(matches!(manager.upsert_device("bob", "t", 1), Err(NotifyError::StoreUnavailable)));
    assert!(matches!(manager.remove_user_device_info("bob", "t"), Err(NotifyError::StoreUnavailable)));
    let mut fresh = note("e2", "alice", vec![vec!["p", "bob"]]);
    fresh.created_at = i64::MAX;
    assert!(matches!(manager.begin_dispatch(&fresh), Err(NotifyError::StoreUnavailable)));
    assert!(matches!(manager.begin_dispatch_at(&event, 0), Err(NotifyError::StoreUnavailable)));
    assert!(matches!(
        manager.begin_dispatch_at(&event, event.created_at + 604_800),
        Err(NotifyError::StoreUnavailable)
    ));
}

#[test]
fn stale_event_is_taken_without_the_store() {
    let mut manager = NotificationManager::new(in_memory(), None, credentials()).unwrap();
    let event = note("e1", "alice", vec![vec!["p", "bob"], vec!["e", "e0"]]);
    let mut dispatch = manager.begin_dispatch_at(&event, event.created_at + 604_801).unwrap();
    assert!(dispatch.is_done());
    assert!(dispatch.pubkeys_to_notify().is_empty());
    assert!(matches!(manager.resume(&mut dispatch), Ok(notify_dispatch::dispatch::Request::Done)));
    let mut old = note("e2", "alice", vec![vec!["p", "bob"]]);
    old.created_at = 0;
    assert!(manager.begin_dispatch(&old).unwrap().is_done());
    manager.close_database().unwrap();
    assert!(manager.begin_dispatch_at(&event, event.created_at + 604_801).unwrap().is_done());
    assert!(manager.begin_dispatch(&old).unwrap().is_done());
}

#[test]
fn relevant_pubkeys_of_an_event_without_references_need_no_lookup() {
    let manager = ready_manager();
    let event = note("e1", "alice", vec![vec!["p", "bob"], vec!["e"]]);
    let relevant = manager.pubkeys_relevant_to_event(&event).unwrap();
    assert_eq!(relevant.to_vec(), vec!["bob".to_string(), "alice".to_string()]);
}

#[test]
fn setup_database_makes_the_store_ready_and_can_be_repeated() {
    let mut manager = NotificationManager::new(in_memory(), None, credentials()).unwrap();
    manager.setup_database().unwrap();
    assert!(manager.is_database_setup());
    manager.record_notification_sent("e1", "bob", 5).unwrap();
    manager.setup_database().unwrap();
    assert!(manager.is_database_setup());
    let subscribed = manager.pubkeys_subscribed_to_event_id("e1").unwrap();
    assert_eq!(subscribed.to_vec(), vec!["bob".to_string()]);
}

#[test]
fn setup_database_adds_the_columns_that_an_older_database_lacks() {
    let path = "file:older_database?mode=memory&cache=shared";
    let older = rusqlite::Connection::open(path).unwrap();
    older
        .execute(
            "CREATE TABLE notifications (id TEXT PRIMARY KEY, event_id TEXT, pubkey TEXT, received_notification BOOLEAN)",
            (),
        )
        .unwrap();
    older
        .execute(
            "INSERT INTO notifications (id, event_id, pubkey, received_notification) VALUES ('e0:zed', 'e0', 'zed', 1)",
            (),
        )
        .unwrap();
    let mut manager =
        NotificationManager::new(Some(path.to_string()), None, credentials()).unwrap();
    manager.setup_database().unwrap();
    manager.record_notification_sent("e0", "bob", 77).unwrap();
    manager.upsert_device("bob", "t1", 78).unwrap();
    let sent_at: i64 = older
        .query_row("SELECT sent_at FROM notifications WHERE id = 'e0:bob'", (), |row| row.get(0))
        .unwrap();
    assert_eq!(sent_at, 77);
    let added_at: i64 = older
        .query_row("SELECT added_at FROM user_info WHERE id = 'bob:t1'", (), |row| row.get(0))
        .unwrap();
    assert_eq!(added_at, 78);
    let subscribed = manager.pubkeys_subscribed_to_event_id("e0").unwrap();
    assert!(subscribed.contains("zed"));
    assert!(subscribed.contains("bob"));
    assert_eq!(subscribed.len(), 2);
}

#[test]
fn record_is_written_with_the_layout_of_the_table() {
    let path = "file:layout_check?mode=memory&cache=shared";
    let reader = rusqlite::Connection::open(path).unwrap();
    let mut manager =
        NotificationManager::new(Some(path.to_string()), None, credentials()).unwrap();
    manager.setup_database().unwrap();
    manager.record_notification_sent("e1", "bob", 1_700_000_000).unwrap();
    let row: (String, String, String, bool, i64) = reader
        .query_row(
            "SELECT id, event_id, pubkey, received_notification, sent_at FROM notifications",
            (),
            |row| Ok((row.get(0)?, row.get(1)?, row.get(2)?, row.get(3)?, row.get(4)?)),
        )
        .unwrap();
    assert_eq!(
        row,
        ("e1:bob".to_string(), "e1".to_string(), "bob".to_string(), true, 1_700_000_000)
    );
    manager.upsert_device("bob", "token-1", 9).unwrap();
    let row: (String, String, String, i64) = reader
        .query_row("SELECT id, pubkey, device_token, added_at FROM user_info", (), |row| {
            Ok((row.get(0)?, row.get(1)?, row.get(2)?, row.get(3)?))
        })
        .unwrap();
    assert_eq!(row, ("bob:token-1".to_string(), "bob".to_string(), "token-1".to_string(), 9));
}

#[test]
fn record_notification_sent_replaces_the_record_of_the_same_pair() {
    let manager = ready_manager();
    let event = note("e1", "alice", vec![]);
    manager.record_notification_sent("e1", "bob", 10).unwrap();
    manager.record_notification_sent("e1", "bob", 20).unwrap();
    manager.record_notification_sent("e1", "carol", 30).unwrap();
    manager.record_notification_sent("e2", "dave", 40).unwrap();
    let subscribed = manager.pubkeys_subscribed_to_event(&event).unwrap();
    assert_eq!(subscribed.len(), 2);
    assert!(subscribed.contains("bob"));
    assert!(subscribed.contains("carol"));
    let status = manager.get_notification_status(&event).unwrap();
    assert_eq!(status.get("bob"), Some(true));
    assert_eq!(status.get("carol"), Some(true));
    assert_eq!(status.get("dave"), None);
    assert_eq!(manager.pubkeys_subscribed_to_event_id("e3").unwrap().len(), 0);
}

#[test]
fn notification_status_tells_sent_from_unsent() {
    let path = "file:status_check?mode=memory&cache=shared";
    let writer = rusqlite::Connection::open(path).unwrap();
    let mut manager =
        NotificationManager::new(Some(path.to_string()), None, credentials()).unwrap();
    manager.setup_database().unwrap();
    writer
        .execute(
            "INSERT INTO notifications (id, event_id, pubkey, received_notification, sent_at) VALUES ('e1:bob', 'e1', 'bob', 0, 1)",
            (),
        )
        .unwrap();
    manager.record_notification_sent("e1", "carol", 2).unwrap();
    let event = note("e1", "alice", vec![]);
    let status = manager.get_notification_status(&event).unwrap();
    assert_eq!(status.get("bob"), Some(false));
    assert_eq!(status.get("carol"), Some(true));
    assert_eq!(
        status.pubkeys_that_received_notification().to_vec(),
        vec!["carol".to_string()]
    );
    let subscribed = manager.pubkeys_subscribed_to_event_id("e1").unwrap();
    assert_eq!(subscribed.len(), 2);
}

#[test]
fn devices_are_registered_replaced_and_removed() {
    let manager = ready_manager();
    assert_eq!(manager.get_user_device_tokens("bob").unwrap(), Vec::<String>::new());
    manager.save_user_device_info("bob", "t1").unwrap();
    manager.upsert_device("bob", "t2", 5).unwrap();
    manager.upsert_device("bob", "t1", 6).unwrap();
    manager.upsert_device("carol", "t3", 7).unwrap();
    let mut tokens = manager.get_user_device_tokens("bob").unwrap();
    tokens.sort();
    assert_eq!(tokens, vec!["t1".to_string(), "t2".to_string()]);
    manager.remove_user_device_info("bob", "t1").unwrap();
    manager.remove_user_device_info("bob", "never-there").unwrap();
    assert_eq!(manager.get_user_device_tokens("bob").unwrap(), vec!["t2".to_string()]);
    assert_eq!(manager.get_user_device_tokens("carol").unwrap(), vec!["t3".to_string()]);
}

#[test]
fn relevant_pubkeys_reach_one_reference_far() {
    let manager = ready_manager();
    manager.record_notification_sent("e1", "bob", 1).unwrap();
    manager.record_notification_sent("e0", "zed", 1).unwrap();
    let second = note("e2", "carol", vec![vec!["e", "e1"], vec!["p", "dave"]]);
    let relevant = manager.pubkeys_relevant_to_event(&second).unwrap();
    assert_eq!(relevant.len(), 3);
    assert!(relevant.contains("carol"));
    assert!(relevant.contains("dave"));
    assert!(relevant.contains("bob"));
    assert!(!relevant.contains("zed"));
    manager.record_notification_sent("e2", "erin", 1).unwrap();
    let third = note("e3", "frank", vec![vec!["e", "e2"]]);
    let relevant = manager.pubkeys_relevant_to_event(&third).unwrap();
    assert!(relevant.contains("erin"));
    assert!(!relevant.contains("bob"));
}

#[test]
fn close_database_makes_the_store_unavailable() {
    let mut manager = ready_manager();
    manager.record_notification_sent("e1", "bob", 1).unwrap();
    manager.close_database().unwrap();
    assert!(!manager.is_database_setup());
    assert!(matches!(manager.get_user_device_tokens("bob"), Err(NotifyError::StoreUnavailable)));
    assert!(matches!(manager.setup_database(), Err(NotifyError::StoreUnavailable)));
    manager.close_database().unwrap();
    assert_eq!(manager.db_path(), ":memory:");
}

#[test]
fn format_notification_message_passes_the_content_through() {
    let manager = ready_manager();
    let mut event = note("e1", "alice", vec![]);
    event.content = "line one\nline <two> & more".to_string();
    let (title, subtitle, body) = manager.format_notification_message(&event);
    assert_eq!(title, "New activity");
    assert_eq!(subtitle, "From: alice");
    assert_eq!(body, "line one\nline <two> & more");
}
