use vstd::prelude::*;
use vstd::string::*;
use rusqlite::Connection;
use crate::dispatch::{
    is_stale, notification_message, spec_candidates, spec_subtitle, spec_title, store_replies,
    Dispatch, DispatchState, Reply, Request,
};
use crate::error::NotifyError;
use crate::note::Note;
use crate::records::{DeviceRegistration, NotificationRecord};
use crate::relevance::{relevant_pubkeys_for, set_views, spec_relevant_pubkeys_for};
use crate::rows::{
    column_migration, readable_rows, statement_outcome, status_from_rows, table_info_query,
};
use crate::statements::{
    added_columns, device_removal, device_tokens_query, device_upsert, notification_upsert,
    schema_statements, status_query, subscribers_query, to_values, Statement,
};
use crate::status::NotificationStatus;
use crate::store::{
    close_connection, execute, get_current_time_unix, open_connection, query_text,
    query_text_and_flag,
};
use crate::string_set::{option_text, StringSet};

verus! {

/// The settings as the process environment gives them; `None` where a
/// variable is not set.
pub struct Environment {
    /// `DB_PATH`: where the database lies.
    pub db_path: Option<String>,
    /// `RELAY_URL`: the relay that the mute policy asks.
    pub relay_url: Option<String>,
    /// `APNS_PRIVATE_KEY_PATH`: the file that holds the gateway's signing key.
    pub apns_private_key_path: Option<String>,
    /// `APNS_PRIVATE_KEY_ID`: the id of that key.
    pub apns_private_key_id: Option<String>,
    /// `APNS_TEAM_ID`: the issuer of that key.
    pub apns_team_id: Option<String>,
}

/// The value of a setting: what the caller gave, else what the environment
/// gives, else the default.
pub open spec fn spec_setting(given: Option<String>, environment: Option<String>, default: Seq<char>)
    -> Seq<char> {
    match given {
        Some(value) => value@,
        None => match environment {
            Some(value) => value@,
            None => default,
        },
    }
}

/// The name of the first gateway credential that the environment lacks, if
/// it lacks one. Credentials have no default.
pub open spec fn missing_credential(env: Environment) -> Option<Seq<char>> {
    if env.apns_private_key_path is None {
        Some("APNS_PRIVATE_KEY_PATH"@)
    } else if env.apns_private_key_id is None {
        Some("APNS_PRIVATE_KEY_ID"@)
    } else if env.apns_team_id is None {
        Some("APNS_TEAM_ID"@)
    } else {
        None
    }
}

/// How a call that needs the store may end: with `StoreUnavailable` exactly
/// when the store is not ready; when it is ready, with a result or with the
/// database's own error.
pub open spec fn store_outcome<T>(ready: bool, r: Result<T, NotifyError>) -> bool {
    match r {
        Ok(_) => ready,
        Err(NotifyError::StoreUnavailable) => !ready,
        Err(NotifyError::PersistenceError(_)) => ready,
        Err(_) => false,
    }
}

fn setting(given: Option<String>, environment: Option<String>, default: &str) -> (value: String)
    ensures
        value@ == spec_setting(given, environment, default@),
{
    match given {
        Some(value) => value,
        None => match environment {
            Some(value) => value,
            None => String::from_str(default),
        },
    }
}

fn credential(value: Option<String>, name: &str) -> (r: Result<String, NotifyError>)
    ensures
        match r {
            Ok(found) => value == Some(found),
            Err(NotifyError::MissingConfiguration(missing)) => value is None && missing@ == name@,
            Err(_) => false,
        },
{
    match value {
        Some(found) => Ok(found),
        None => Err(NotifyError::MissingConfiguration(String::from_str(name))),
    }
}

fn run(db: &Connection, sql: &str) -> (r: Result<(), NotifyError>)
    ensures
        r matches Err(error) ==> error is PersistenceError,
{
    statement_outcome(execute(db, sql, Vec::new()))
}

fn run_statement(db: &Connection, statement: &Statement) -> (r: Result<(), NotifyError>)
    ensures
        r matches Err(error) ==> error is PersistenceError,
{
    statement_outcome(execute(db, statement.sql.as_str(), to_values(&statement.params)))
}

/// How the start of a dispatch for `event` at time `now` may end. A stale
/// event is taken without a look at the store, so its dispatch starts
/// whether or not the store is ready. Any other event needs the store. A
/// dispatch that starts is as `begun` says.
pub open spec fn begin_outcome(
    ready: bool,
    event: Note,
    now: i64,
    r: Result<Dispatch, NotifyError>,
) -> bool {
    &&& is_stale(event.created_at, now) ==> r is Ok
    &&& !is_stale(event.created_at, now) ==> store_outcome(ready, r)
    &&& r matches Ok(dispatch) ==> begun(event, now, dispatch)
}

/// What holds of the dispatch that was started for `event` at time `now`,
/// whatever the store held: it stands at its start; for a stale event it has
/// no candidates and nothing to do; for any other event its candidates are
/// the relevant pubkeys still owed a notification, by what the store gave for
/// each referenced event and for the event's delivery status.
pub open spec fn begun(event: Note, now: i64, dispatch: Dispatch) -> bool {
    &&& dispatch.wf()
    &&& dispatch@ == DispatchState::initial(
        event.id@,
        event.pubkey@,
        event.content@,
        now,
        dispatch@.queue,
    )
    &&& is_stale(event.created_at, now) ==> dispatch@.queue.len() == 0 && dispatch@.request() is Done
    &&& !is_stale(event.created_at, now) ==> exists|
        subscribed: Seq<Set<Seq<char>>>,
        status: Map<Seq<char>, bool>,
    |
        subscribed.len() == event.spec_referenced_event_ids().len() && dispatch@.queue.to_set()
            == #[trigger] spec_candidates(event, subscribed, status)
}

/// The keeper of the subscription store: which pubkeys were notified of
/// which event, and which devices each pubkey has registered. It also holds
/// the settings that the push gateway and the mute policy need.
pub struct NotificationManager {
    db_path: String,
    relay_url: String,
    apns_private_key_path: String,
    apns_private_key_id: String,
    apns_team_id: String,
    db: Option<Connection>,
    is_database_setup: bool,
}

impl NotificationManager {
    /// Where the database lies.
    pub closed spec fn spec_db_path(&self) -> Seq<char> {
        self.db_path@
    }

    /// The relay that the mute policy asks.
    pub closed spec fn spec_relay_url(&self) -> Seq<char> {
        self.relay_url@
    }

    /// The file that holds the gateway's signing key.
    pub closed spec fn spec_apns_private_key_path(&self) -> Seq<char> {
        self.apns_private_key_path@
    }

    /// The id of the gateway's signing key.
    pub closed spec fn spec_apns_private_key_id(&self) -> Seq<char> {
        self.apns_private_key_id@
    }

    /// The issuer of the gateway's signing key.
    pub closed spec fn spec_apns_team_id(&self) -> Seq<char> {
        self.apns_team_id@
    }

    /// Whether the connection to the database is held.
    pub closed spec fn is_open(&self) -> bool {
        self.db is Some
    }

    /// Whether the store can be used: the connection is held and the schema
    /// was set up.
    pub closed spec fn is_ready(&self) -> bool {
        self.is_database_setup && self.db is Some
    }

    /// The settings of the two managers are the same.
    pub open spec fn same_settings(&self, other: &NotificationManager) -> bool {
        &&& self.spec_db_path() == other.spec_db_path()
        &&& self.spec_relay_url() == other.spec_relay_url()
        &&& self.spec_apns_private_key_path() == other.spec_apns_private_key_path()
        &&& self.spec_apns_private_key_id() == other.spec_apns_private_key_id()
        &&& self.spec_apns_team_id() == other.spec_apns_team_id()
    }

    /// Resolves the settings and opens the database.
    ///
    /// The database path and the relay url are what the caller gives, else
    /// what the environment gives, else "./apns_notifications.db" and
    /// "ws://localhost:7777". The three gateway credentials come from the
    /// environment alone; the first that is absent fails the call with its
    /// name. The store is open but not yet set up.
    pub fn new(db_path: Option<String>, relay_url: Option<String>, env: Environment) -> (r: Result<
        NotificationManager,
        NotifyError,
    >)
        ensures
            match r {
                Ok(manager) => {
                    &&& missing_credential(env) is None
                    &&& manager.spec_db_path() == spec_setting(
                        db_path,
                        env.db_path,
                        "./apns_notifications.db"@,
                    )
                    &&& manager.spec_relay_url() == spec_setting(
                        relay_url,
                        env.relay_url,
                        "ws://localhost:7777"@,
                    )
                    &&& Some(manager.spec_apns_private_key_path()) == option_text(
                        env.apns_private_key_path,
                    )
                    &&& Some(manager.spec_apns_private_key_id()) == option_text(
                        env.apns_private_key_id,
                    )
                    &&& Some(manager.spec_apns_team_id()) == option_text(env.apns_team_id)
                    &&& manager.is_open()
                    &&& !manager.is_ready()
                },
                Err(NotifyError::MissingConfiguration(name)) => missing_credential(env) == Some(
                    name@,
                ),
                Err(NotifyError::PersistenceError(_)) => missing_credential(env) is None,
                Err(_) => false,
            },
    {
        let db_path = setting(db_path, env.db_path, "./apns_notifications.db");
        let relay_url = setting(relay_url, env.relay_url, "ws://localhost:7777");
        let apns_private_key_path = credential(env.apns_private_key_path, "APNS_PRIVATE_KEY_PATH")?;
        let apns_private_key_id = credential(env.apns_private_key_id, "APNS_PRIVATE_KEY_ID")?;
        let apns_team_id = credential(env.apns_team_id, "APNS_TEAM_ID")?;
        match open_connection(db_path.as_str()) {
            Ok(db) => Ok(
                NotificationManager {
                    db_path,
                    relay_url,
                    apns_private_key_path,
                    apns_private_key_id,
                    apns_team_id,
                    db: Some(db),
                    is_database_setup: false,
                },
            ),
            Err(error) => Err(NotifyError::PersistenceError(error)),
        }
    }

    /// Runs `schema_statements`, which create the two tables and their
    /// indexes where they are absent, and then adds each of `added_columns`
    /// that the database lacks. After success the store is ready. After a
    /// failure the store is as ready as it was.
    pub fn setup_database(&mut self) -> (r: Result<(), NotifyError>)
        ensures
            final(self).same_settings(old(self)),
            final(self).is_open() == old(self).is_open(),
            match r {
                Ok(()) => old(self).is_open() && final(self).is_ready(),
                Err(NotifyError::StoreUnavailable) => !old(self).is_open() && final(self).is_ready() == old(self).is_ready(),
                Err(NotifyError::PersistenceError(_)) => old(self).is_open() && final(self).is_ready() == old(self).is_ready(),
                Err(_) => false,
            },
    {
        match &self.db {
            None => {
                return Err(NotifyError::StoreUnavailable);
            },
            Some(db) => {
                let statements = schema_statements();
                let mut i: usize = 0;
                while i < statements.len()
                    invariant
                        i <= statements.len(),
                        *self == *old(self),
                        self.is_open(),
                    decreases statements.len() - i,
                {
                    run(db, statements[i].as_str())?;
                    i += 1;
                }
            },
        }
        let columns = added_columns();
        let mut j: usize = 0;
        while j < columns.len()
            invariant
                j <= columns.len(),
                *self == *old(self),
                self.is_open(),
            decreases columns.len() - j,
        {
            self.add_column_if_not_exists(
                columns[j].table.as_str(),
                columns[j].column.as_str(),
                columns[j].column_type.as_str(),
            )?;
            j += 1;
        }
        self.is_database_setup = true;
        Ok(())
    }

    /// Lists the columns of the table and runs what `column_migration`
    /// decides on them: the column is added unless the table has a column of
    /// that name already.
    fn add_column_if_not_exists(&self, table_name: &str, column_name: &str, column_type: &str) -> (r:
        Result<(), NotifyError>)
        ensures
            match r {
                Ok(()) => self.is_open(),
                Err(NotifyError::StoreUnavailable) => !self.is_open(),
                Err(NotifyError::PersistenceError(_)) => self.is_open(),
                Err(_) => false,
            },
    {
        match &self.db {
            None => Err(NotifyError::StoreUnavailable),
            Some(db) => {
                let query = table_info_query(table_name);
                let rows = match query_text(db, query.as_str(), Vec::new(), 1) {
                    Ok(rows) => rows,
                    Err(error) => {
                        return Err(NotifyError::PersistenceError(error));
                    },
                };
                let column_names = readable_rows(rows);
                match column_migration(&column_names, table_name, column_name, column_type) {
                    Some(statement) => run(db, statement.as_str()),
                    None => Ok(()),
                }
            },
        }
    }

    /// Fails with `StoreUnavailable` unless the store is ready.
    fn throw_if_database_not_setup(&self) -> (r: Result<(), NotifyError>)
        ensures
            match r {
                Ok(()) => self.is_ready(),
                Err(NotifyError::StoreUnavailable) => !self.is_ready(),
                Err(_) => false,
            },
    {
        if !self.is_database_setup || self.db.is_none() {
            return Err(NotifyError::StoreUnavailable);
        }
        Ok(())
    }

    /// Closes the database. After success the store is neither open nor
    /// ready; closing a store that is closed already succeeds. When the
    /// database refuses, the store stays as it was.
    pub fn close_database(&mut self) -> (r: Result<(), NotifyError>)
        ensures
            final(self).same_settings(old(self)),
            match r {
                Ok(()) => !final(self).is_open() && !final(self).is_ready(),
                Err(NotifyError::PersistenceError(_)) => old(self).is_open() && final(self).is_open() && final(self).is_ready() == old(self).is_ready(),
                Err(_) => false,
            },
    {
        match self.db.take() {
            None => {
                self.is_database_setup = false;
                Ok(())
            },
            Some(db) => match close_connection(db) {
                Ok(()) => {
                    self.is_database_setup = false;
                    Ok(())
                },
                Err(refused) => {
                    self.db = Some(refused.0);
                    Err(NotifyError::PersistenceError(refused.1))
                },
            },
        }
    }

    /// Starts the dispatch of the notifications for `event`, at the time
    /// that the clock gives.
    pub fn begin_dispatch(&self, event: &Note) -> (r: Result<Dispatch, NotifyError>)
        ensures
            exists|now: i64| #[trigger] begin_outcome(self.is_ready(), *event, now, r),
    {
        let now = get_current_time_unix();
        let r = self.begin_dispatch_at(event, now);
        assert(begin_outcome(self.is_ready(), *event, now, r));
        r
    }

    /// Starts the dispatch of the notifications for `event` at time `now`.
    ///
    /// The age of the event is looked at first. A stale event gets a
    /// dispatch with nothing to do, whatever the state of the store, which is
    /// not touched. For any other event the store must be ready: it is read
    /// for the event's delivery status and for the pubkeys relevant to it,
    /// and the dispatch starts from those.
    pub fn begin_dispatch_at(&self, event: &Note, now: i64) -> (r: Result<Dispatch, NotifyError>)
        ensures
            begin_outcome(self.is_ready(), *event, now, r),
    {
        if is_stale(event.created_at, now) {
            let dispatch = Dispatch::begin(event, now, &StringSet::new(), &NotificationStatus::new());
            proof {
                if dispatch@.queue.len() > 0 {
                    assert(dispatch@.queue.to_set().contains(dispatch@.queue[0]));
                }
            }
            return Ok(dispatch);
        }
        self.throw_if_database_not_setup()?;
        let status = self.get_notification_status(event)?;
        let relevant = self.pubkeys_relevant_to_event(event)?;
        let dispatch = Dispatch::begin(event, now, &relevant, &status);
        proof {
            let subscribed = choose|subscribed: Seq<Set<Seq<char>>>|
                subscribed.len() == event.spec_referenced_event_ids().len() && relevant@
                    == #[trigger] spec_relevant_pubkeys_for(*event, subscribed);
            assert(dispatch@.queue.to_set() == spec_candidates(*event, subscribed, status@));
        }
        Ok(dispatch)
    }

    /// Carries the dispatch through what the store can answer: it reads the
    /// device tokens and writes the records that the dispatch asks for, until
    /// the dispatch asks for a mute verdict or a delivery, or is done. That
    /// request is returned.
    ///
    /// The dispatch is fed nothing but what the store gave: the state that
    /// is left is the old one after a run of replies that are all device
    /// tokens or records, and no mute verdict or delivery is answered here.
    /// When the store fails, the dispatch is stopped after the replies fed
    /// so far and the error returned; a store that is not ready fails the
    /// first thing asked of it.
    pub fn resume(&self, dispatch: &mut Dispatch) -> (r: Result<Request, NotifyError>)
        requires
            old(dispatch).wf(),
        ensures
            final(dispatch).wf(),
            final(dispatch)@.same_plan(old(dispatch)@),
            final(dispatch)@.served >= old(dispatch)@.served,
            !old(dispatch)@.request().for_store() ==> r is Ok && final(dispatch)@ == old(dispatch)@,
            !self.is_ready() && old(dispatch)@.request().for_store() ==> r is Err,
            exists|replies: Seq<Reply>| #[trigger]
                store_replies(replies) && final(dispatch)@ == if r is Ok {
                    old(dispatch)@.after(replies)
                } else {
                    old(dispatch)@.after(replies).stop()
                },
            match r {
                Ok(request) => {
                    &&& request@ == final(dispatch)@.request()
                    &&& !request@.for_store()
                    &&& final(dispatch)@.halted == old(dispatch)@.halted
                },
                Err(NotifyError::StoreUnavailable) => !self.is_ready() && final(dispatch)@.halted,
                Err(NotifyError::PersistenceError(_)) => self.is_ready() && final(dispatch)@.halted,
                Err(_) => false,
            },
    {
        let ghost mut fed: Seq<Reply> = Seq::empty();
        loop
            invariant
                dispatch.wf(),
                dispatch@.same_plan(old(dispatch)@),
                dispatch@.served >= old(dispatch)@.served,
                dispatch@.halted == old(dispatch)@.halted,
                !old(dispatch)@.request().for_store() ==> dispatch@ == old(dispatch)@,
                !self.is_ready() ==> dispatch@ == old(dispatch)@,
                store_replies(fed),
                dispatch@ == old(dispatch)@.after(fed),
            decreases dispatch@.store_steps_left(),
        {
            let request = dispatch.request();
            match request {
                Request::DeviceTokens { pubkey } => {
                    match self.get_user_device_tokens(pubkey.as_str()) {
                        Ok(tokens) => {
                            let reply = Reply::DeviceTokens(tokens);
                            proof {
                                old(dispatch)@.lemma_after_push(fed, reply);
                                fed = fed.push(reply);
                            }
                            let _ = dispatch.advance(reply);
                        },
                        Err(error) => {
                            dispatch.abort();
                            return Err(error);
                        },
                    }
                },
                Request::Record { event_id, pubkey, sent_at } => {
                    match self.record_notification_sent(
                        event_id.as_str(),
                        pubkey.as_str(),
                        sent_at,
                    ) {
                        Ok(()) => {
                            proof {
                                old(dispatch)@.lemma_after_push(fed, Reply::Recorded);
                                fed = fed.push(Reply::Recorded);
                            }
                            let _ = dispatch.advance(Reply::Recorded);
                        },
                        Err(error) => {
                            dispatch.abort();
                            return Err(error);
                        },
                    }
                },
                other => {
                    return Ok(other);
                },
            }
        }
    }

    /// The pubkeys relevant to `event`: those it references, its author, and
    /// whoever the store holds a record for under one of the events that it
    /// references. The store is asked once for each referenced event, so for
    /// an event that references none the call succeeds on every ready store.
    pub fn pubkeys_relevant_to_event(&self, event: &Note) -> (r: Result<StringSet, NotifyError>)
        ensures
            store_outcome(self.is_ready(), r),
            self.is_ready() && event.spec_referenced_event_ids().len() == 0 ==> r is Ok,
            r matches Ok(pubkeys) ==> pubkeys.wf() && exists|subscribed: Seq<Set<Seq<char>>>|
                subscribed.len() == event.spec_referenced_event_ids().len() && pubkeys@
                    == #[trigger] spec_relevant_pubkeys_for(*event, subscribed),
    {
        self.throw_if_database_not_setup()?;
        let referenced_event_ids = event.referenced_event_ids();
        let mut subscribed: Vec<StringSet> = Vec::new();
        let mut i: usize = 0;
        proof {
            referenced_event_ids.lemma_distinct();
        }
        while i < referenced_event_ids.len()
            invariant
                self.is_ready(),
                i <= referenced_event_ids.seq().len(),
                referenced_event_ids.seq().len() == event.spec_referenced_event_ids().len(),
                subscribed.len() == i,
            decreases referenced_event_ids.seq().len() - i,
        {
            match referenced_event_ids.get(i) {
                Some(referenced_event_id) => {
                    subscribed.push(
                        self.pubkeys_subscribed_to_event_id(referenced_event_id.as_str())?,
                    );
                },
                None => {},
            }
            i += 1;
        }
        let pubkeys = relevant_pubkeys_for(event, &subscribed);
        assert(pubkeys@ == spec_relevant_pubkeys_for(*event, set_views(subscribed@)));
        Ok(pubkeys)
    }

    /// The pubkeys for which the store holds a record under `event`, sent
    /// or not.
    pub fn pubkeys_subscribed_to_event(&self, event: &Note) -> (r: Result<StringSet, NotifyError>)
        ensures
            store_outcome(self.is_ready(), r),
            r matches Ok(pubkeys) ==> pubkeys.wf(),
    {
        self.pubkeys_subscribed_to_event_id(event.id.as_str())
    }

    /// The pubkeys for which the store holds a record under the event
    /// `event_id`, sent or not: the database is asked `subscribers_query`.
    /// Rows that cannot be read are left out.
    pub fn pubkeys_subscribed_to_event_id(&self, event_id: &str) -> (r: Result<
        StringSet,
        NotifyError,
    >)
        ensures
            store_outcome(self.is_ready(), r),
            r matches Ok(pubkeys) ==> pubkeys.wf(),
    {
        self.throw_if_database_not_setup()?;
        match &self.db {
            None => Err(NotifyError::StoreUnavailable),
            Some(db) => {
                let query = subscribers_query(event_id);
                match query_text(db, query.sql.as_str(), to_values(&query.params), 0) {
                    Ok(rows) => Ok(StringSet::from_vec(readable_rows(rows))),
                    Err(error) => Err(NotifyError::PersistenceError(error)),
                }
            },
        }
    }

    /// The device tokens registered for `pubkey`: the database is asked
    /// `device_tokens_query`. Rows that cannot be read are left out.
    pub fn get_user_device_tokens(&self, pubkey: &str) -> (r: Result<Vec<String>, NotifyError>)
        ensures
            store_outcome(self.is_ready(), r),
    {
        self.throw_if_database_not_setup()?;
        match &self.db {
            None => Err(NotifyError::StoreUnavailable),
            Some(db) => {
                let query = device_tokens_query(pubkey);
                match query_text(db, query.sql.as_str(), to_values(&query.params), 0) {
                    Ok(rows) => Ok(readable_rows(rows)),
                    Err(error) => Err(NotifyError::PersistenceError(error)),
                }
            },
        }
    }

    /// The delivery status of `event`, per pubkey: the database is asked
    /// `status_query`. A row that cannot be read fails the call.
    pub fn get_notification_status(&self, event: &Note) -> (r: Result<
        NotificationStatus,
        NotifyError,
    >)
        ensures
            store_outcome(self.is_ready(), r),
            r matches Ok(status) ==> status.wf(),
    {
        self.throw_if_database_not_setup()?;
        match &self.db {
            None => Err(NotifyError::StoreUnavailable),
            Some(db) => {
                let query = status_query(event.id.as_str());
                match query_text_and_flag(db, query.sql.as_str(), to_values(&query.params)) {
                    Ok(rows) => status_from_rows(rows),
                    Err(error) => Err(NotifyError::PersistenceError(error)),
                }
            },
        }
    }

    /// Records that `pubkey` was notified of the event `event_id` at
    /// `sent_at`: the database is handed `notification_upsert` of that
    /// record, which replaces a record for the same pair.
    pub fn record_notification_sent(&self, event_id: &str, pubkey: &str, sent_at: i64) -> (r: Result<
        (),
        NotifyError,
    >)
        ensures
            store_outcome(self.is_ready(), r),
    {
        self.throw_if_database_not_setup()?;
        match &self.db {
            None => Err(NotifyError::StoreUnavailable),
            Some(db) => {
                let record = NotificationRecord::sent(event_id, pubkey, sent_at);
                run_statement(db, &notification_upsert(&record))
            },
        }
    }

    /// Title, subtitle and body of the notification for `event`.
    pub fn format_notification_message(&self, event: &Note) -> (message: (String, String, String))
        ensures
            message.0@ == spec_title(),
            message.1@ == spec_subtitle(event.pubkey@),
            message.2@ == event.content@,
    {
        notification_message(event.pubkey.as_str(), event.content.as_str())
    }

    /// Registers `device_token` for `pubkey`, at the time that the clock
    /// gives; a registration of the same pair is replaced.
    pub fn save_user_device_info(&self, pubkey: &str, device_token: &str) -> (r: Result<
        (),
        NotifyError,
    >)
        ensures
            store_outcome(self.is_ready(), r),
    {
        self.throw_if_database_not_setup()?;
        let current_time_unix = get_current_time_unix();
        self.upsert_device(pubkey, device_token, current_time_unix)
    }

    /// Registers `device_token` for `pubkey` at `added_at`: the database is
    /// handed `device_upsert` of that registration, which replaces a
    /// registration of the same pair.
    pub fn upsert_device(&self, pubkey: &str, device_token: &str, added_at: i64) -> (r: Result<
        (),
        NotifyError,
    >)
        ensures
            store_outcome(self.is_ready(), r),
    {
        self.throw_if_database_not_setup()?;
        match &self.db {
            None => Err(NotifyError::StoreUnavailable),
            Some(db) => {
                let registration = DeviceRegistration::new(pubkey, device_token, added_at);
                run_statement(db, &device_upsert(&registration))
            },
        }
    }

    /// Removes the registration of `device_token` for `pubkey`, if there is
    /// one: the database is handed `device_removal`.
    pub fn remove_user_device_info(&self, pubkey: &str, device_token: &str) -> (r: Result<
        (),
        NotifyError,
    >)
        ensures
            store_outcome(self.is_ready(), r),
    {
        self.throw_if_database_not_setup()?;
        match &self.db {
            None => Err(NotifyError::StoreUnavailable),
            Some(db) => run_statement(db, &device_removal(pubkey, device_token)),
        }
    }

    /// Where the database lies.
    pub fn db_path(&self) -> (value: &String)
        ensures
            value@ == self.spec_db_path(),
    {
        &self.db_path
    }

    /// The relay that the mute policy asks.
    pub fn relay_url(&self) -> (value: &String)
        ensures
            value@ == self.spec_relay_url(),
    {
        &self.relay_url
    }

    /// The file that holds the gateway's signing key.
    pub fn apns_private_key_path(&self) -> (value: &String)
        ensures
            value@ == self.spec_apns_private_key_path(),
    {
        &self.apns_private_key_path
    }

    /// The id of the gateway's signing key.
    pub fn apns_private_key_id(&self) -> (value: &String)
        ensures
            value@ == self.spec_apns_private_key_id(),
    {
        &self.apns_private_key_id
    }

    /// The issuer of the gateway's signing key.
    pub fn apns_team_id(&self) -> (value: &String)
        ensures
            value@ == self.spec_apns_team_id(),
    {
        &self.apns_team_id
    }

    /// Whether the store can be used.
    pub fn is_database_setup(&self) -> (ready: bool)
        ensures
            ready == self.is_ready(),
    {
        self.is_database_setup && self.db.is_some()
    }
}

} // verus!
