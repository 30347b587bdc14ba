use vstd::prelude::*;
use crate::note::Note;

verus! {

/// What the relay hands to a filter: the event to judge.
#[derive(Clone, Debug)]
pub struct InputMessage {
    pub event: Note,
}

/// A filter's verdict on an event.
#[derive(Clone, Copy, Debug, PartialEq, Eq, Structural)]
pub enum Action {
    Accept,
    Reject,
}

/// What a filter hands back to the relay: the verdict on the event `id`,
/// and the reason where there is one.
#[derive(Clone, Debug)]
pub struct OutputMessage {
    pub id: String,
    pub action: Action,
    pub msg: Option<String>,
}

impl OutputMessage {
    /// The verdict `action` on the event `id`, with the reason `msg`.
    pub fn new(id: String, action: Action, msg: Option<String>) -> (out: OutputMessage)
        ensures
            out.id == id,
            out.action == action,
            out.msg == msg,
    {
        OutputMessage { id, action, msg }
    }
}

} // verus!
