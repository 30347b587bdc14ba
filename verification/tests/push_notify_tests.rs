use notify_dispatch::message::{Action, InputMessage, OutputMessage};
use notify_dispatch::note::{Note, NoteFilter};
use notify_dispatch::push_notify::PushNotify;

fn message(id: &str) -> InputMessage {
    InputMessage {
        event: Note {
            id: id.to_string(),
            pubkey: "alice".to_string(),
            content: "hello".to_string(),
            created_at: 1_700_000_000,
            kind: 1,
            tags: vec![],
            sig: "sig".to_string(),
        },
    }
}

#[test]
fn filter_accepts_when_not_set_to_reject() {
    let mut filter = PushNotify { reject: false };
    let out = filter.filter_note(&message("e1"));
    assert_eq!(out.id, "e1");
    assert_eq!(out.action, Action::Accept);
    assert_eq!(out.msg, None);
    assert!(!filter.reject);
}

#[test]
fn filter_rejects_with_its_reason_when_set_to_reject() {
    let mut filter = PushNotify { reject: true };
    let out = filter.filter_note(&message("e2"));
    assert_eq!(out.id, "e2");
    assert_eq!(out.action, Action::Reject);
    assert_eq!(out.msg, Some("filter configured to reject all notes".to_string()));
    assert!(filter.reject);
}

#[test]
fn filter_is_named_push_notify() {
    assert_eq!(PushNotify { reject: false }.name(), "push_notify");
}

#[test]
fn output_message_keeps_what_it_is_given() {
    let out = OutputMessage::new("e9".to_string(), Action::Reject, Some("why".to_string()));
    assert_eq!(out.id, "e9");
    assert_eq!(out.action, Action::Reject);
    assert_eq!(out.msg, Some("why".to_string()));
}
