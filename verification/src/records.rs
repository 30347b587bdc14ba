use vstd::prelude::*;
use vstd::string::*;

verus! {

/// The key of a row that belongs to the pair (`first`, `second`): the two
/// joined by a colon.
pub open spec fn composite_key(first: Seq<char>, second: Seq<char>) -> Seq<char> {
    first + ":"@ + second
}

/// Builds the key of the row for the pair (`first`, `second`).
pub fn make_composite_key(first: &str, second: &str) -> (key: String)
    ensures
        key@ == composite_key(first@, second@),
{
    let mut key = String::from_str(first);
    key.append(":");
    key.append(second);
    key
}

/// One row of the table `notifications`: whether `pubkey` has been notified
/// of the event `event_id`, and when.
#[derive(Debug, Clone, PartialEq, Eq)]
pub struct NotificationRecord {
    pub id: String,
    pub event_id: String,
    pub pubkey: String,
    pub received_notification: bool,
    pub sent_at: i64,
}

impl NotificationRecord {
    /// The record that says: `pubkey` was notified of `event_id` at
    /// `sent_at`.
    pub fn sent(event_id: &str, pubkey: &str, sent_at: i64) -> (record: NotificationRecord)
        ensures
            record.id@ == composite_key(event_id@, pubkey@),
            record.event_id@ == event_id@,
            record.pubkey@ == pubkey@,
            record.received_notification,
            record.sent_at == sent_at,
    {
        NotificationRecord {
            id: make_composite_key(event_id, pubkey),
            event_id: String::from_str(event_id),
            pubkey: String::from_str(pubkey),
            received_notification: true,
            sent_at,
        }
    }
}

/// One row of the table `user_info`: a device of `pubkey`, and when it was
/// registered.
#[derive(Debug, Clone, PartialEq, Eq)]
pub struct DeviceRegistration {
    pub id: String,
    pub pubkey: String,
    pub device_token: String,
    pub added_at: i64,
}

impl DeviceRegistration {
    /// The registration of `device_token` for `pubkey` at `added_at`.
    pub fn new(pubkey: &str, device_token: &str, added_at: i64) -> (registration:
        DeviceRegistration)
        ensures
            registration.id@ == composite_key(pubkey@, device_token@),
            registration.pubkey@ == pubkey@,
            registration.device_token@ == device_token@,
            registration.added_at == added_at,
    {
        DeviceRegistration {
            id: make_composite_key(pubkey, device_token),
            pubkey: String::from_str(pubkey),
            device_token: String::from_str(device_token),
            added_at,
        }
    }
}

} // verus!
