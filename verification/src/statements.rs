use vstd::prelude::*;
use vstd::string::*;
use rusqlite::types::Value;
use crate::records::{DeviceRegistration, NotificationRecord};
use crate::store::{
    flag_value, flag_value_of, integer_value, integer_value_of, text_value, text_value_of,
};
use crate::string_set::texts;

verus! {

/// Creates the table of notification records where it is absent.
pub const CREATE_NOTIFICATIONS: &'static str =
    "CREATE TABLE IF NOT EXISTS notifications (id TEXT PRIMARY KEY, event_id TEXT, pubkey TEXT, received_notification BOOLEAN)";

/// Creates the index of the notification records by event where it is absent.
pub const CREATE_NOTIFICATIONS_INDEX: &'static str =
    "CREATE INDEX IF NOT EXISTS notification_event_id_index ON notifications (event_id)";

/// Creates the table of device registrations where it is absent.
pub const CREATE_USER_INFO: &'static str =
    "CREATE TABLE IF NOT EXISTS user_info (id TEXT PRIMARY KEY, device_token TEXT, pubkey TEXT)";

/// Creates the index of the device registrations by pubkey where it is absent.
pub const CREATE_USER_INFO_INDEX: &'static str =
    "CREATE INDEX IF NOT EXISTS user_info_pubkey_index ON user_info (pubkey)";

/// Enters a notification record, in place of the one with the same id.
pub const UPSERT_NOTIFICATION: &'static str =
    "INSERT OR REPLACE INTO notifications (id, event_id, pubkey, received_notification, sent_at) VALUES (?, ?, ?, ?, ?)";

/// Enters a device registration, in place of the one with the same id.
pub const UPSERT_DEVICE: &'static str =
    "INSERT OR REPLACE INTO user_info (id, pubkey, device_token, added_at) VALUES (?, ?, ?, ?)";

/// Removes the registration of one device of one pubkey.
pub const DELETE_DEVICE: &'static str =
    "DELETE FROM user_info WHERE pubkey = ? AND device_token = ?";

/// Asks for the pubkeys that have a record under one event.
pub const SELECT_SUBSCRIBERS: &'static str = "SELECT pubkey FROM notifications WHERE event_id = ?";

/// Asks for the device tokens of one pubkey.
pub const SELECT_DEVICE_TOKENS: &'static str = "SELECT device_token FROM user_info WHERE pubkey = ?";

/// Asks for the pubkeys that have a record under one event, each with its
/// flag.
pub const SELECT_STATUS: &'static str =
    "SELECT pubkey, received_notification FROM notifications WHERE event_id = ?";

/// One value bound to a placeholder of a statement.
#[derive(Debug, Clone, PartialEq, Eq)]
pub enum SqlParam {
    Text(String),
    Integer(i64),
    Flag(bool),
}

/// A `SqlParam` with its text by its characters.
pub enum SqlParamView {
    Text(Seq<char>),
    Integer(i64),
    Flag(bool),
}

impl View for SqlParam {
    type V = SqlParamView;

    open spec fn view(&self) -> SqlParamView {
        match *self {
            SqlParam::Text(text) => SqlParamView::Text(text@),
            SqlParam::Integer(number) => SqlParamView::Integer(number),
            SqlParam::Flag(flag) => SqlParamView::Flag(flag),
        }
    }
}

/// The params of `params`, each by its view.
pub open spec fn param_views(params: Seq<SqlParam>) -> Seq<SqlParamView> {
    Seq::new(params.len(), |i: int| params[i]@)
}

/// A statement as it is handed to the database: its text, and the values
/// for its placeholders in their order.
#[derive(Debug, Clone, PartialEq, Eq)]
pub struct Statement {
    pub sql: String,
    pub params: Vec<SqlParam>,
}

impl Statement {
    /// Whether the statement has the text `sql` and binds exactly `params`.
    pub open spec fn holds(&self, sql: Seq<char>, params: Seq<SqlParamView>) -> bool {
        self.sql@ == sql && param_views(self.params@) == params
    }
}

/// The statements that create the schema, in the order in which they run:
/// each table, then its index.
pub open spec fn spec_schema_statements() -> Seq<Seq<char>> {
    seq![
        CREATE_NOTIFICATIONS@,
        CREATE_NOTIFICATIONS_INDEX@,
        CREATE_USER_INFO@,
        CREATE_USER_INFO_INDEX@,
    ]
}

/// The statements that create the schema, in the order in which they run.
/// Each leaves what exists as it is.
pub fn schema_statements() -> (statements: Vec<String>)
    ensures
        texts(statements@) == spec_schema_statements(),
{
    let mut statements: Vec<String> = Vec::new();
    statements.push(String::from_str(CREATE_NOTIFICATIONS));
    statements.push(String::from_str(CREATE_NOTIFICATIONS_INDEX));
    statements.push(String::from_str(CREATE_USER_INFO));
    statements.push(String::from_str(CREATE_USER_INFO_INDEX));
    assert(texts(statements@) =~= spec_schema_statements());
    statements
}

/// A column that a later version of the schema added to a table.
#[derive(Debug, Clone, PartialEq, Eq)]
pub struct AddedColumn {
    pub table: String,
    pub column: String,
    pub column_type: String,
}

/// An `AddedColumn` with its texts by their characters: table, column and
/// type.
pub open spec fn added_column_views(columns: Seq<AddedColumn>) -> Seq<
    (Seq<char>, Seq<char>, Seq<char>),
> {
    Seq::new(columns.len(), |i: int| (columns[i].table@, columns[i].column@, columns[i].column_type@))
}

/// The columns that later versions of the schema added: when a record was
/// sent, and when a device was registered.
pub open spec fn spec_added_columns() -> Seq<(Seq<char>, Seq<char>, Seq<char>)> {
    seq![("notifications"@, "sent_at"@, "INTEGER"@), ("user_info"@, "added_at"@, "INTEGER"@)]
}

/// The columns that later versions of the schema added, in the order in
/// which they are looked for.
pub fn added_columns() -> (columns: Vec<AddedColumn>)
    ensures
        added_column_views(columns@) == spec_added_columns(),
{
    let mut columns: Vec<AddedColumn> = Vec::new();
    columns.push(
        AddedColumn {
            table: String::from_str("notifications"),
            column: String::from_str("sent_at"),
            column_type: String::from_str("INTEGER"),
        },
    );
    columns.push(
        AddedColumn {
            table: String::from_str("user_info"),
            column: String::from_str("added_at"),
            column_type: String::from_str("INTEGER"),
        },
    );
    assert(added_column_views(columns@) =~= spec_added_columns());
    columns
}

/// The statement that enters `record` into the table `notifications`, its
/// fields in the order of the columns id, event_id, pubkey,
/// received_notification, sent_at.
pub fn notification_upsert(record: &NotificationRecord) -> (statement: Statement)
    ensures
        statement.holds(
            UPSERT_NOTIFICATION@,
            seq![
                SqlParamView::Text(record.id@),
                SqlParamView::Text(record.event_id@),
                SqlParamView::Text(record.pubkey@),
                SqlParamView::Flag(record.received_notification),
                SqlParamView::Integer(record.sent_at),
            ],
        ),
{
    let mut params: Vec<SqlParam> = Vec::new();
    params.push(SqlParam::Text(record.id.clone()));
    params.push(SqlParam::Text(record.event_id.clone()));
    params.push(SqlParam::Text(record.pubkey.clone()));
    params.push(SqlParam::Flag(record.received_notification));
    params.push(SqlParam::Integer(record.sent_at));
    assert(param_views(params@) =~= seq![
        SqlParamView::Text(record.id@),
        SqlParamView::Text(record.event_id@),
        SqlParamView::Text(record.pubkey@),
        SqlParamView::Flag(record.received_notification),
        SqlParamView::Integer(record.sent_at),
    ]);
    Statement { sql: String::from_str(UPSERT_NOTIFICATION), params }
}

/// The statement that enters `registration` into the table `user_info`, its
/// fields in the order of the columns id, pubkey, device_token, added_at.
pub fn device_upsert(registration: &DeviceRegistration) -> (statement: Statement)
    ensures
        statement.holds(
            UPSERT_DEVICE@,
            seq![
                SqlParamView::Text(registration.id@),
                SqlParamView::Text(registration.pubkey@),
                SqlParamView::Text(registration.device_token@),
                SqlParamView::Integer(registration.added_at),
            ],
        ),
{
    let mut params: Vec<SqlParam> = Vec::new();
    params.push(SqlParam::Text(registration.id.clone()));
    params.push(SqlParam::Text(registration.pubkey.clone()));
    params.push(SqlParam::Text(registration.device_token.clone()));
    params.push(SqlParam::Integer(registration.added_at));
    assert(param_views(params@) =~= seq![
        SqlParamView::Text(registration.id@),
        SqlParamView::Text(registration.pubkey@),
        SqlParamView::Text(registration.device_token@),
        SqlParamView::Integer(registration.added_at),
    ]);
    Statement { sql: String::from_str(UPSERT_DEVICE), params }
}

/// The statement that removes the registration of `device_token` for
/// `pubkey`.
pub fn device_removal(pubkey: &str, device_token: &str) -> (statement: Statement)
    ensures
        statement.holds(
            DELETE_DEVICE@,
            seq![SqlParamView::Text(pubkey@), SqlParamView::Text(device_token@)],
        ),
{
    let mut params: Vec<SqlParam> = Vec::new();
    params.push(SqlParam::Text(String::from_str(pubkey)));
    params.push(SqlParam::Text(String::from_str(device_token)));
    assert(param_views(params@) =~= seq![
        SqlParamView::Text(pubkey@),
        SqlParamView::Text(device_token@),
    ]);
    Statement { sql: String::from_str(DELETE_DEVICE), params }
}

fn query_by(sql: &str, key: &str) -> (statement: Statement)
    ensures
        statement.holds(sql@, seq![SqlParamView::Text(key@)]),
{
    let mut params: Vec<SqlParam> = Vec::new();
    params.push(SqlParam::Text(String::from_str(key)));
    assert(param_views(params@) =~= seq![SqlParamView::Text(key@)]);
    Statement { sql: String::from_str(sql), params }
}

/// The query for the pubkeys that have a record under the event `event_id`.
pub fn subscribers_query(event_id: &str) -> (statement: Statement)
    ensures
        statement.holds(SELECT_SUBSCRIBERS@, seq![SqlParamView::Text(event_id@)]),
{
    query_by(SELECT_SUBSCRIBERS, event_id)
}

/// The query for the device tokens registered for `pubkey`.
pub fn device_tokens_query(pubkey: &str) -> (statement: Statement)
    ensures
        statement.holds(SELECT_DEVICE_TOKENS@, seq![SqlParamView::Text(pubkey@)]),
{
    query_by(SELECT_DEVICE_TOKENS, pubkey)
}

/// The query for the pubkeys that have a record under the event `event_id`,
/// each with its flag.
pub fn status_query(event_id: &str) -> (statement: Statement)
    ensures
        statement.holds(SELECT_STATUS@, seq![SqlParamView::Text(event_id@)]),
{
    query_by(SELECT_STATUS, event_id)
}

/// The SQL value that the database is handed for `param`.
pub open spec fn spec_value(param: SqlParamView) -> Value {
    match param {
        SqlParamView::Text(text) => text_value_of(text),
        SqlParamView::Integer(number) => integer_value_of(number),
        SqlParamView::Flag(flag) => flag_value_of(flag),
    }
}

/// The SQL values that the database is handed for `params`, in their order.
pub open spec fn spec_values(params: Seq<SqlParamView>) -> Seq<Value> {
    Seq::new(params.len(), |i: int| spec_value(params[i]))
}

/// Turns the params into the SQL values that the database is handed: one
/// for each, in the same order.
pub fn to_values(params: &Vec<SqlParam>) -> (values: Vec<Value>)
    ensures
        values@ == spec_values(param_views(params@)),
{
    let mut values: Vec<Value> = Vec::new();
    let mut i: usize = 0;
    while i < params.len()
        invariant
            i <= params.len(),
            values@.len() == i,
            forall|j: int| 0 <= j < i ==> values@[j] == spec_value(#[trigger] params@[j]@),
        decreases params.len() - i,
    {
        let value = match &params[i] {
            SqlParam::Text(text) => text_value(text.clone()),
            SqlParam::Integer(number) => integer_value(*number),
            SqlParam::Flag(flag) => flag_value(*flag),
        };
        values.push(value);
        i += 1;
    }
    assert(values@ =~= spec_values(param_views(params@)));
    values
}

} // verus!
