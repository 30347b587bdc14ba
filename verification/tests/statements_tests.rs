use notify_dispatch::records::{DeviceRegistration, NotificationRecord};
use notify_dispatch::statements::{
    added_columns, device_removal, device_tokens_query, device_upsert, notification_upsert,
    schema_statements, status_query, subscribers_query, to_values, AddedColumn, SqlParam,
    Statement,
};
use rusqlite::types::Value;

fn text(value: &str) -> SqlParam {
    SqlParam::Text(value.to_string())
}

#[test]
fn schema_statements_create_tables_and_indexes_in_order() {
    assert_eq!(
        schema_statements(),
        vec![
            "CREATE TABLE IF NOT EXISTS notifications (id TEXT PRIMARY KEY, event_id TEXT, pubkey TEXT, received_notification BOOLEAN)".to_string(),
            "CREATE INDEX IF NOT EXISTS notification_event_id_index ON notifications (event_id)".to_string(),
            "CREATE TABLE IF NOT EXISTS user_info (id TEXT PRIMARY KEY, device_token TEXT, pubkey TEXT)".to_string(),
            "CREATE INDEX IF NOT EXISTS user_info_pubkey_index ON user_info (pubkey)".to_string(),
        ]
    );
}

#[test]
fn added_columns_are_the_two_timestamps() {
    assert_eq!(
        added_columns(),
        vec![
            AddedColumn {
                table: "notifications".to_string(),
                column: "sent_at".to_string(),
                column_type: "INTEGER".to_string(),
            },
            AddedColumn {
                table: "user_info".to_string(),
                column: "added_at".to_string(),
                column_type: "INTEGER".to_string(),
            },
        ]
    );
}

#[test]
fn notification_upsert_binds_the_record_in_column_order() {
    let record = NotificationRecord::sent("e1", "bob", 1_700_000_123);
    assert_eq!(
        notification_upsert(&record),
        Statement {
            sql: "INSERT OR REPLACE INTO notifications (id, event_id, pubkey, received_notification, sent_at) VALUES (?, ?, ?, ?, ?)".to_string(),
            params: vec![
                text("e1:bob"),
                text("e1"),
                text("bob"),
                SqlParam::Flag(true),
                SqlParam::Integer(1_700_000_123),
            ],
        }
    );
    let unsent = NotificationRecord {
        id: "x".to_string(),
        event_id: "y".to_string(),
        pubkey: "z".to_string(),
        received_notification: false,
        sent_at: -1,
    };
    assert_eq!(
        notification_upsert(&unsent).params,
        vec![text("x"), text("y"), text("z"), SqlParam::Flag(false), SqlParam::Integer(-1)]
    );
}

#[test]
fn device_upsert_binds_the_registration_in_column_order() {
    let registration = DeviceRegistration::new("bob", "token-1", 42);
    assert_eq!(
        device_upsert(&registration),
        Statement {
            sql: "INSERT OR REPLACE INTO user_info (id, pubkey, device_token, added_at) VALUES (?, ?, ?, ?)".to_string(),
            params: vec![text("bob:token-1"), text("bob"), text("token-1"), SqlParam::Integer(42)],
        }
    );
}

#[test]
fn device_removal_binds_pubkey_then_token() {
    assert_eq!(
        device_removal("bob", "token-1"),
        Statement {
            sql: "DELETE FROM user_info WHERE pubkey = ? AND device_token = ?".to_string(),
            params: vec![text("bob"), text("token-1")],
        }
    );
}

#[test]
fn queries_bind_their_key() {
    assert_eq!(
        subscribers_query("e1"),
        Statement {
            sql: "SELECT pubkey FROM notifications WHERE event_id = ?".to_string(),
            params: vec![text("e1")],
        }
    );
    assert_eq!(
        device_tokens_query("bob"),
        Statement {
            sql: "SELECT device_token FROM user_info WHERE pubkey = ?".to_string(),
            params: vec![text("bob")],
        }
    );
    assert_eq!(
        status_query("e1"),
        Statement {
            sql: "SELECT pubkey, received_notification FROM notifications WHERE event_id = ?".to_string(),
            params: vec![text("e1")],
        }
    );
}

#[test]
fn to_values_gives_the_sql_value_of_each_param_in_order() {
    let params = vec![
        text("e1:bob"),
        SqlParam::Flag(true),
        SqlParam::Flag(false),
        SqlParam::Integer(-7),
        text(""),
    ];
    assert_eq!(
        to_values(&params),
        vec![
            Value::Text("e1:bob".to_string()),
            Value::Integer(1),
            Value::Integer(0),
            Value::Integer(-7),
            Value::Text(String::new()),
        ]
    );
    assert_eq!(to_values(&Vec::new()), Vec::<Value>::new());
}
