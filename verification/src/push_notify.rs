use vstd::prelude::*;
use vstd::string::*;
use crate::message::{Action, InputMessage, OutputMessage};
use crate::note::NoteFilter;
use crate::string_set::option_text;

verus! {

/// The filter that hands every event on for notification. Its verdict does
/// not depend on the event: it rejects all of them or none.
pub struct PushNotify {
    pub reject: bool,
}

/// The reason that `PushNotify` gives when it rejects.
pub open spec fn spec_reject_reason() -> Seq<char> {
    "filter configured to reject all notes"@
}

impl NoteFilter for PushNotify {
    /// The verdict on the event of `msg`: a rejection with its reason when
    /// the filter is set to reject, an acceptance without reason otherwise.
    /// The filter itself stays as it was.
    fn filter_note(&mut self, msg: &InputMessage) -> (out: OutputMessage)
        ensures
            final(self).reject == old(self).reject,
            out.id@ == msg.event.id@,
            old(self).reject ==> out.action == Action::Reject && option_text(out.msg) == Some(
                spec_reject_reason(),
            ),
            !old(self).reject ==> out.action == Action::Accept && out.msg is None,
    {
        if self.reject {
            OutputMessage::new(
                msg.event.id.clone(),
                Action::Reject,
                Some(String::from_str("filter configured to reject all notes")),
            )
        } else {
            OutputMessage::new(msg.event.id.clone(), Action::Accept, None)
        }
    }

    fn name(&self) -> (key: &'static str)
        ensures
            key@ == "push_notify"@,
    {
        "push_notify"
    }
}

} // verus!
