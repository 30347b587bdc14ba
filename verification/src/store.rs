use vstd::prelude::*;
use rusqlite::Connection;
use rusqlite::types::Value;

verus! {

#[verifier::external_type_specification]
#[verifier::external_body]
pub struct ExConnection(Connection);

#[verifier::external_type_specification]
#[verifier::external_body]
pub struct ExSqlError(rusqlite::Error);

#[verifier::external_type_specification]
#[verifier::external_body]
pub struct ExValue(Value);

/// Calls `rusqlite::Connection::open`, which opens the database at `path`
/// and creates it when it is absent. Whether that succeeds depends on the
/// file system, so nothing is claimed of the result.
#[verifier::external_body]
pub(crate) fn open_connection(path: &str) -> (r: Result<Connection, rusqlite::Error>) {
    Connection::open(path)
}

/// Calls `rusqlite::Connection::close`, which hands the connection back
/// together with the error when the database could not be closed. Nothing
/// is claimed of which of the two happens.
#[verifier::external_body]
pub(crate) fn close_connection(db: Connection) -> (r: Result<(), (Connection, rusqlite::Error)>) {
    db.close()
}

/// The SQL value that `rusqlite::types::Value::from` makes of a string: the
/// text value that holds these characters.
pub uninterp spec fn text_value_of(text: Seq<char>) -> Value;

/// The SQL value that `rusqlite::types::Value::from` makes of an `i64`: the
/// integer value that holds this number.
pub uninterp spec fn integer_value_of(number: i64) -> Value;

/// The SQL value that `rusqlite::types::Value::from` makes of a `bool`: the
/// integer value 1 for `true` and 0 for `false`.
pub uninterp spec fn flag_value_of(flag: bool) -> Value;

/// Calls `rusqlite::types::Value::from` on a string. The value is opaque
/// here, so the contract names it: the result depends on the characters of
/// the string alone.
#[verifier::external_body]
pub(crate) fn text_value(text: String) -> (v: Value)
    ensures
        v == text_value_of(text@),
{
    Value::from(text)
}

/// Calls `rusqlite::types::Value::from` on an `i64`. The value is opaque
/// here, so the contract names it: the result depends on the number alone.
#[verifier::external_body]
pub(crate) fn integer_value(number: i64) -> (v: Value)
    ensures
        v == integer_value_of(number),
{
    Value::from(number)
}

/// Calls `rusqlite::types::Value::from` on a `bool`. The value is opaque
/// here, so the contract names it: the result depends on the flag alone.
#[verifier::external_body]
pub(crate) fn flag_value(flag: bool) -> (v: Value)
    ensures
        v == flag_value_of(flag),
{
    Value::from(flag)
}

/// Calls `rusqlite::Connection::execute` on one statement, with `params`
/// bound in order through `rusqlite::params_from_iter`. The count of changed
/// rows and the error both depend on the database, so nothing is claimed of
/// the result.
#[verifier::external_body]
pub(crate) fn execute(db: &Connection, sql: &str, params: Vec<Value>) -> (r: Result<
    usize,
    rusqlite::Error,
>) {
    db.execute(sql, rusqlite::params_from_iter(params))
}

/// Prepares `sql` with `rusqlite::Connection::prepare`, runs it through
/// `rusqlite::Statement::query_map` with `params` bound in order, and reads
/// column `column` of every row as text with `rusqlite::Row::get`. A row that
/// cannot be read comes back as its error, in its place. What the rows hold
/// depends on the database, so nothing is claimed of the result.
#[verifier::external_body]
pub(crate) fn query_text(db: &Connection, sql: &str, params: Vec<Value>, column: usize) -> (r:
    Result<Vec<Result<String, rusqlite::Error>>, rusqlite::Error>) {
    let mut statement = db.prepare(sql)?;
    let rows = statement.query_map(rusqlite::params_from_iter(params), |row| row.get(column))?;
    Ok(rows.collect())
}

/// Prepares `sql` with `rusqlite::Connection::prepare`, runs it through
/// `rusqlite::Statement::query_map` with `params` bound in order, and reads
/// of every row column 0 as text and column 1 as a flag with
/// `rusqlite::Row::get`. A row that cannot be read comes back as its error,
/// in its place. What the rows hold depends on the database, so nothing is
/// claimed of the result.
#[verifier::external_body]
pub(crate) fn query_text_and_flag(db: &Connection, sql: &str, params: Vec<Value>) -> (r: Result<
    Vec<Result<(String, bool), rusqlite::Error>>,
    rusqlite::Error,
>) {
    let mut statement = db.prepare(sql)?;
    let rows = statement.query_map(
        rusqlite::params_from_iter(params),
        |row| Ok((row.get(0)?, row.get(1)?)),
    )?;
    Ok(rows.collect())
}

/// Calls `chrono::Utc::now` and `chrono::DateTime::timestamp`: the current
/// time in whole seconds since the Unix epoch, as the machine's clock gives
/// it. Nothing is claimed of the value. `Utc::now` panics on a machine whose
/// clock stands before the epoch.
#[verifier::external_body]
pub(crate) fn get_current_time_unix() -> (now: i64) {
    chrono::Utc::now().timestamp()
}

} // verus!
