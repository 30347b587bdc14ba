use vstd::prelude::*;
use vstd::string::*;
use crate::error::NotifyError;
use crate::status::NotificationStatus;
use crate::string_set::texts;

verus! {

/// The texts of the rows that could be read, in the order of the rows.
pub open spec fn readable_texts(rows: Seq<Result<String, rusqlite::Error>>) -> Seq<Seq<char>>
    decreases rows.len(),
{
    if rows.len() == 0 {
        Seq::empty()
    } else {
        let before = readable_texts(rows.drop_last());
        match rows.last() {
            Ok(text) => before.push(text@),
            Err(_) => before,
        }
    }
}

/// Keeps the rows that could be read and drops the others.
pub fn readable_rows(rows: Vec<Result<String, rusqlite::Error>>) -> (kept: Vec<String>)
    ensures
        texts(kept@) == readable_texts(rows@),
{
    let mut kept: Vec<String> = Vec::new();
    let mut i: usize = 0;
    while i < rows.len()
        invariant
            i <= rows.len(),
            texts(kept@) == readable_texts(rows@.take(i as int)),
        decreases rows.len() - i,
    {
        proof {
            assert(rows@.take(i + 1).drop_last() =~= rows@.take(i as int));
            assert(rows@.take(i + 1).last() == rows@[i as int]);
        }
        match &rows[i] {
            Ok(text) => {
                let text = text.clone();
                proof {
                    assert(texts(kept@.push(text)) =~= texts(kept@).push(text@));
                }
                kept.push(text);
            },
            Err(_) => {},
        }
        i += 1;
    }
    assert(rows@.take(i as int) =~= rows@);
    kept
}

/// The status that the rows `(pubkey, flag)` give when each is entered in
/// turn: a later row for the same pubkey overrides an earlier one.
pub open spec fn status_of_rows(rows: Seq<Result<(String, bool), rusqlite::Error>>) -> Map<
    Seq<char>,
    bool,
>
    decreases rows.len(),
{
    if rows.len() == 0 {
        Map::empty()
    } else {
        let before = status_of_rows(rows.drop_last());
        match rows.last() {
            Ok(row) => before.insert(row.0@, row.1),
            Err(_) => before,
        }
    }
}

/// Whether every row could be read.
pub open spec fn all_readable(rows: Seq<Result<(String, bool), rusqlite::Error>>) -> bool {
    forall|i: int| 0 <= i < rows.len() ==> #[trigger] rows[i] is Ok
}

/// Builds the delivery status from the rows `(pubkey, flag)` of one event.
/// The first row that could not be read fails the whole with its error.
pub fn status_from_rows(rows: Vec<Result<(String, bool), rusqlite::Error>>) -> (r: Result<
    NotificationStatus,
    NotifyError,
>)
    ensures
        match r {
            Ok(status) => all_readable(rows@) && status.wf() && status@ == status_of_rows(rows@),
            Err(NotifyError::PersistenceError(_)) => !all_readable(rows@),
            Err(_) => false,
        },
{
    let ghost all = rows@;
    let mut status = NotificationStatus::new();
    let mut pending = rows;
    let mut taken: Vec<Result<(String, bool), rusqlite::Error>> = Vec::new();
    // A vector gives up its elements from the end, so the rows are first
    // put in reverse.
    while pending.len() > 0
        invariant
            pending@.len() + taken@.len() == all.len(),
            forall|j: int| 0 <= j < pending@.len() ==> pending@[j] == all[j],
            forall|j: int|
                0 <= j < taken@.len() ==> taken@[j] == all[all.len() - 1 - j],
        decreases pending.len(),
    {
        let row = pending.pop().unwrap();
        taken.push(row);
    }
    let ghost n = all.len() as int;
    let mut done: Ghost<int> = Ghost(0);
    while taken.len() > 0
        invariant
            0 <= done@ <= n,
            all == rows@,
            taken@.len() == n - done@,
            n == all.len(),
            forall|j: int| 0 <= j < taken@.len() ==> taken@[j] == all[n - 1 - j],
            status.wf(),
            status@ == status_of_rows(all.take(done@)),
            forall|j: int| 0 <= j < done@ ==> #[trigger] all[j] is Ok,
        decreases taken.len(),
    {
        let row = taken.pop().unwrap();
        proof {
            assert(row == all[done@]);
            assert(all.take(done@ + 1).drop_last() =~= all.take(done@));
            assert(all.take(done@ + 1).last() == all[done@]);
        }
        match row {
            Ok(pair) => {
                status.insert(pair.0, pair.1);
            },
            Err(error) => {
                assert(!(all[done@] is Ok));
                assert(!all_readable(all));
                return Err(NotifyError::PersistenceError(error));
            },
        }
        proof {
            done@ = done@ + 1;
        }
    }
    assert(all.take(n) =~= all);
    Ok(status)
}

/// What the end of a statement means to the caller: it is done when the
/// database ran it, however many rows it changed; when the database refused
/// it, the database's own error is handed on as a `PersistenceError`.
pub fn statement_outcome(result: Result<usize, rusqlite::Error>) -> (r: Result<(), NotifyError>)
    ensures
        match result {
            Ok(_) => r is Ok,
            Err(error) => r == Err::<(), NotifyError>(NotifyError::PersistenceError(error)),
        },
{
    match result {
        Ok(_) => Ok(()),
        Err(error) => Err(NotifyError::PersistenceError(error)),
    }
}

/// Whether `name` is among `names`.
pub fn contains_name(names: &Vec<String>, name: &str) -> (found: bool)
    ensures
        found == texts(names@).contains(name@),
{
    let wanted = name.to_owned();
    let mut i: usize = 0;
    while i < names.len()
        invariant
            i <= names.len(),
            wanted@ == name@,
            forall|j: int| 0 <= j < i ==> texts(names@)[j] != name@,
        decreases names.len() - i,
    {
        if names[i] == wanted {
            assert(texts(names@)[i as int] == name@);
            return true;
        }
        i += 1;
    }
    false
}

/// The statement that lists the columns of `table`.
pub open spec fn spec_table_info_query(table: Seq<char>) -> Seq<char> {
    "PRAGMA table_info("@ + table + ")"@
}

/// Builds the statement that lists the columns of `table`.
pub fn table_info_query(table: &str) -> (sql: String)
    ensures
        sql@ == spec_table_info_query(table@),
{
    let mut sql = String::from_str("PRAGMA table_info(");
    sql.append(table);
    sql.append(")");
    sql
}

/// The statement that adds `column` of type `column_type` to `table`.
pub open spec fn spec_add_column_statement(
    table: Seq<char>,
    column: Seq<char>,
    column_type: Seq<char>,
) -> Seq<char> {
    "ALTER TABLE "@ + table + " ADD COLUMN "@ + column + " "@ + column_type
}

/// Builds the statement that adds `column` of type `column_type` to `table`.
pub fn add_column_statement(table: &str, column: &str, column_type: &str) -> (sql: String)
    ensures
        sql@ == spec_add_column_statement(table@, column@, column_type@),
{
    let mut sql = String::from_str("ALTER TABLE ");
    sql.append(table);
    sql.append(" ADD COLUMN ");
    sql.append(column);
    sql.append(" ");
    sql.append(column_type);
    sql
}

/// Decides the migration of one column: the statement that adds `column` to
/// `table` when the table's columns `column_names` lack it, and nothing when
/// the table has it already.
pub fn column_migration(
    column_names: &Vec<String>,
    table: &str,
    column: &str,
    column_type: &str,
) -> (statement: Option<String>)
    ensures
        match statement {
            Some(sql) => !texts(column_names@).contains(column@) && sql@
                == spec_add_column_statement(table@, column@, column_type@),
            None => texts(column_names@).contains(column@),
        },
{
    if contains_name(column_names, column) {
        None
    } else {
        Some(add_column_statement(table, column, column_type))
    }
}

} // verus!
