use vstd::prelude::*;

verus! {

/// What can go wrong while notifications are worked out, recorded or
/// configured.
#[derive(Debug)]
pub enum NotifyError {
    /// The store was used before it was set up, or after it was closed.
    StoreUnavailable,
    /// The database refused a statement or could not be reached.
    PersistenceError(rusqlite::Error),
    /// The mute policy could not be evaluated; the reason is attached.
    PolicyEvaluationError(String),
    /// A setting without a default is absent; its name is attached.
    MissingConfiguration(String),
    /// A dispatch was handed a reply to a request that it had not made.
    UnexpectedReply,
}

} // verus!
