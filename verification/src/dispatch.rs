use vstd::prelude::*;
use vstd::string::*;
use crate::error::NotifyError;
use crate::note::Note;
use crate::relevance::spec_relevant_pubkeys_for;
use crate::status::{sent_pubkeys, NotificationStatus};
use crate::string_set::{texts, StringSet};

verus! {

/// Length of the freshness window, in seconds: seven days.
pub const FRESHNESS_WINDOW_SECS: i64 = 604800;

/// Whether an event created at `created_at` is older than the freshness
/// window, seen from `now` (both in seconds since the epoch).
pub open spec fn spec_is_stale(created_at: i64, now: i64) -> bool {
    created_at < now - FRESHNESS_WINDOW_SECS
}

/// Whether an event created at `created_at` is older than the freshness
/// window, seen from `now`.
#[verifier::when_used_as_spec(spec_is_stale)]
pub fn is_stale(created_at: i64, now: i64) -> (stale: bool)
    ensures
        stale == spec_is_stale(created_at, now),
{
    if now < i64::MIN + FRESHNESS_WINDOW_SECS {
        false
    } else {
        created_at < now - FRESHNESS_WINDOW_SECS
    }
}

/// The candidates that are still owed a notification: those not yet marked
/// as sent, without the author.
pub open spec fn remaining_pubkeys(
    candidates: Set<Seq<char>>,
    status: Map<Seq<char>, bool>,
    author: Seq<char>,
) -> Set<Seq<char>> {
    candidates.difference(sent_pubkeys(status)).remove(author)
}

/// The candidates of `event` when the store gives `subscribed`, one set of
/// subscribers for each event that `event` references, and the delivery
/// status `status`: the relevant pubkeys that are still owed a notification.
pub open spec fn spec_candidates(
    event: Note,
    subscribed: Seq<Set<Seq<char>>>,
    status: Map<Seq<char>, bool>,
) -> Set<Seq<char>> {
    remaining_pubkeys(spec_relevant_pubkeys_for(event, subscribed), status, event.pubkey@)
}

/// The pubkeys to notify: the remaining candidates that are not muted.
pub open spec fn notify_set(
    candidates: Set<Seq<char>>,
    status: Map<Seq<char>, bool>,
    author: Seq<char>,
    muted: Set<Seq<char>>,
) -> Set<Seq<char>> {
    remaining_pubkeys(candidates, status, author).difference(muted)
}

/// Title of every notification.
pub open spec fn spec_title() -> Seq<char> {
    "New activity"@
}

/// Subtitle of the notification for an event of `author`.
pub open spec fn spec_subtitle(author: Seq<char>) -> Seq<char> {
    "From: "@ + author
}

/// Title, subtitle and body of the notification for an event by `author`
/// with the text `content`. The body is the content, unchanged.
pub fn notification_message(author: &str, content: &str) -> (message: (String, String, String))
    ensures
        message.0@ == spec_title(),
        message.1@ == spec_subtitle(author@),
        message.2@ == content@,
{
    let title = String::from_str("New activity");
    let mut subtitle = String::from_str("From: ");
    subtitle.append(author);
    let body = String::from_str(content);
    (title, subtitle, body)
}

/// What a dispatch needs from outside before it can go on.
#[derive(Debug, Clone, PartialEq, Eq)]
pub enum Request {
    /// Ask the mute policy whether the notification for `pubkey` is muted.
    MuteVerdict { pubkey: String },
    /// Read the device tokens registered for `pubkey` from the store.
    DeviceTokens { pubkey: String },
    /// Hand one notification for `pubkey` to the push gateway.
    Delivery { pubkey: String, device_token: String, title: String, subtitle: String, body: String },
    /// Record in the store that `pubkey` has been notified of the event.
    Record { event_id: String, pubkey: String, sent_at: i64 },
    /// Nothing is left to do.
    Done,
}

/// A `Request` with every string by its characters.
pub enum RequestView {
    MuteVerdict { pubkey: Seq<char> },
    DeviceTokens { pubkey: Seq<char> },
    Delivery {
        pubkey: Seq<char>,
        device_token: Seq<char>,
        title: Seq<char>,
        subtitle: Seq<char>,
        body: Seq<char>,
    },
    Record { event_id: Seq<char>, pubkey: Seq<char>, sent_at: i64 },
    Done,
}

impl View for Request {
    type V = RequestView;

    open spec fn view(&self) -> RequestView {
        match *self {
            Request::MuteVerdict { pubkey } => RequestView::MuteVerdict { pubkey: pubkey@ },
            Request::DeviceTokens { pubkey } => RequestView::DeviceTokens { pubkey: pubkey@ },
            Request::Delivery { pubkey, device_token, title, subtitle, body } => {
                RequestView::Delivery {
                    pubkey: pubkey@,
                    device_token: device_token@,
                    title: title@,
                    subtitle: subtitle@,
                    body: body@,
                }
            },
            Request::Record { event_id, pubkey, sent_at } => RequestView::Record {
                event_id: event_id@,
                pubkey: pubkey@,
                sent_at,
            },
            Request::Done => RequestView::Done,
        }
    }
}

impl RequestView {
    /// Whether the request is one that the store answers.
    pub open spec fn for_store(self) -> bool {
        self is DeviceTokens || self is Record
    }

    /// The pubkey that is served by the request: the one whose devices are
    /// read, who is delivered to, or whose record is written.
    pub open spec fn served_pubkey(self) -> Option<Seq<char>> {
        match self {
            RequestView::DeviceTokens { pubkey } => Some(pubkey),
            RequestView::Delivery { pubkey, .. } => Some(pubkey),
            RequestView::Record { pubkey, .. } => Some(pubkey),
            _ => None,
        }
    }
}

/// What came back for the request that a dispatch made last.
#[derive(Debug, Clone, PartialEq, Eq)]
pub enum Reply {
    /// What the mute policy says: `true` when the notification is muted.
    MuteVerdict(bool),
    /// The mute policy could not be evaluated; the reason is attached.
    MuteCheckFailed(String),
    /// The device tokens registered for the pubkey.
    DeviceTokens(Vec<String>),
    /// The gateway was called for the device; `true` when it accepted.
    DeliveryAttempted(bool),
    /// The store has taken the record.
    Recorded,
}

/// Whether every reply in `replies` is one that the store gives: device
/// tokens that were read, or a record that was written.
pub open spec fn store_replies(replies: Seq<Reply>) -> bool {
    forall|i: int|
        0 <= i < replies.len() ==> (#[trigger] replies[i]) is DeviceTokens || replies[i] is Recorded
}

/// The state of the dispatch for one event, as a mathematical value.
pub struct DispatchState {
    /// Id of the event.
    pub event_id: Seq<char>,
    /// Author of the event.
    pub author: Seq<char>,
    /// Text of the event.
    pub content: Seq<char>,
    /// The time of the dispatch, written into every record.
    pub now: i64,
    /// The candidates that need a mute verdict, in the order of asking.
    pub queue: Seq<Seq<char>>,
    /// The verdicts so far, in the order of `queue`: `true` means muted.
    pub verdicts: Seq<bool>,
    /// The candidates found not muted so far: the pubkeys to notify.
    pub approved: Seq<Seq<char>>,
    /// How many of `approved` have been served and recorded.
    pub served: nat,
    /// The device tokens of the pubkey being served, once they are read.
    pub tokens: Option<Seq<Seq<char>>>,
    /// How many of `tokens` have had their delivery attempted.
    pub attempted: nat,
    /// Whether the dispatch was stopped before its end.
    pub halted: bool,
}

impl DispatchState {
    /// The state in which a dispatch over `queue` starts.
    pub open spec fn initial(
        event_id: Seq<char>,
        author: Seq<char>,
        content: Seq<char>,
        now: i64,
        queue: Seq<Seq<char>>,
    ) -> DispatchState {
        DispatchState {
            event_id,
            author,
            content,
            now,
            queue,
            verdicts: Seq::empty(),
            approved: Seq::empty(),
            served: 0,
            tokens: None,
            attempted: 0,
            halted: false,
        }
    }

    /// What holds of every state that a dispatch passes through.
    pub open spec fn inv(self) -> bool {
        &&& self.queue.no_duplicates()
        &&& !self.queue.contains(self.author)
        &&& self.verdicts.len() <= self.queue.len()
        &&& self.approved.no_duplicates()
        &&& forall|i: int|
            0 <= i < self.verdicts.len() ==> (self.approved.contains(#[trigger] self.queue[i])
                <==> !self.verdicts[i])
        &&& forall|k: int|
            0 <= k < self.approved.len() ==> self.asked().contains(#[trigger] self.approved[k])
        &&& self.served <= self.approved.len()
        &&& self.verdicts.len() < self.queue.len() ==> self.served == 0 && self.tokens is None
        &&& self.tokens matches Some(tokens) ==> self.served < self.approved.len()
            && self.attempted <= tokens.len()
        &&& self.tokens is None ==> self.attempted == 0
    }

    /// The candidates that have their mute verdict.
    pub open spec fn asked(self) -> Seq<Seq<char>> {
        self.queue.take(self.verdicts.len() as int)
    }

    /// Whether `other` is a state of the same dispatch with the same
    /// screening behind it: event, time, candidates, verdicts and pubkeys to
    /// notify are the same.
    pub open spec fn same_plan(self, other: DispatchState) -> bool {
        &&& self.event_id == other.event_id
        &&& self.author == other.author
        &&& self.content == other.content
        &&& self.now == other.now
        &&& self.queue == other.queue
        &&& self.verdicts == other.verdicts
        &&& self.approved == other.approved
    }

    /// A bound on the store requests that the dispatch can still make
    /// before it needs the gateway or ends: one read and one record for each
    /// pubkey not yet served.
    pub open spec fn store_steps_left(self) -> nat {
        let unserved = if self.served <= self.approved.len() {
            (self.approved.len() - self.served) as nat
        } else {
            0
        };
        if self.tokens is None {
            2 * unserved + 1
        } else {
            2 * unserved
        }
    }

    /// Whether every candidate has its mute verdict.
    pub open spec fn screened(self) -> bool {
        self.verdicts.len() == self.queue.len()
    }

    /// Whether the dispatch ran to its end: it was not stopped, every
    /// candidate has its verdict, and every pubkey to notify is recorded.
    pub open spec fn completed(self) -> bool {
        !self.halted && self.screened() && self.served == self.approved.len()
    }

    /// Whether the verdicts given so far are those of the policy that mutes
    /// exactly the pubkeys in `muted`.
    pub open spec fn heard(self, muted: Set<Seq<char>>) -> bool {
        forall|i: int|
            0 <= i < self.verdicts.len() && i < self.queue.len() ==> (#[trigger] self.verdicts[i]
                <==> muted.contains(self.queue[i]))
    }

    /// What the dispatch needs next.
    pub open spec fn request(self) -> RequestView {
        if self.halted {
            RequestView::Done
        } else if self.verdicts.len() < self.queue.len() {
            RequestView::MuteVerdict { pubkey: self.queue[self.verdicts.len() as int] }
        } else if self.served < self.approved.len() {
            let pubkey = self.approved[self.served as int];
            match self.tokens {
                None => RequestView::DeviceTokens { pubkey },
                Some(tokens) => if self.attempted < tokens.len() {
                    RequestView::Delivery {
                        pubkey,
                        device_token: tokens[self.attempted as int],
                        title: spec_title(),
                        subtitle: spec_subtitle(self.author),
                        body: self.content,
                    }
                } else {
                    RequestView::Record { event_id: self.event_id, pubkey, sent_at: self.now }
                },
            }
        } else {
            RequestView::Done
        }
    }

    /// Whether `reply` answers the request that the dispatch makes in this
    /// state.
    pub open spec fn accepts(self, reply: Reply) -> bool {
        match self.request() {
            RequestView::MuteVerdict { .. } => reply is MuteVerdict || reply is MuteCheckFailed,
            RequestView::DeviceTokens { .. } => reply is DeviceTokens,
            RequestView::Delivery { .. } => reply is DeliveryAttempted,
            RequestView::Record { .. } => reply is Recorded,
            RequestView::Done => false,
        }
    }

    /// The state after `reply`, where the state accepts it.
    ///
    /// A verdict is noted, and the candidate joins the pubkeys to notify
    /// unless it is muted. A failed mute check stops the dispatch. A delivery
    /// counts as attempted whether or not the gateway accepted it. Once the
    /// record is written the next pubkey is served.
    pub open spec fn step(self, reply: Reply) -> DispatchState {
        match reply {
            Reply::MuteVerdict(muted) => DispatchState {
                verdicts: self.verdicts.push(muted),
                approved: if muted {
                    self.approved
                } else {
                    self.approved.push(self.queue[self.verdicts.len() as int])
                },
                ..self
            },
            Reply::MuteCheckFailed(_) => self.stop(),
            Reply::DeviceTokens(tokens) => DispatchState {
                tokens: Some(texts(tokens@)),
                attempted: 0,
                ..self
            },
            Reply::DeliveryAttempted(_) => DispatchState {
                attempted: self.attempted + 1,
                ..self
            },
            Reply::Recorded => DispatchState {
                served: self.served + 1,
                tokens: None,
                attempted: 0,
                ..self
            },
        }
    }

    /// The state after the replies in `replies` have come in, one after the
    /// other. A reply that the state of its moment does not accept changes
    /// nothing.
    pub open spec fn after(self, replies: Seq<Reply>) -> DispatchState
        decreases replies.len(),
    {
        if replies.len() == 0 {
            self
        } else {
            let prior = self.after(replies.drop_last());
            if prior.accepts(replies.last()) {
                prior.step(replies.last())
            } else {
                prior
            }
        }
    }

    /// One more reply after `replies` takes the state one step further, or
    /// changes nothing when the state of that moment does not accept it.
    pub proof fn lemma_after_push(self, replies: Seq<Reply>, reply: Reply)
        ensures
            self.after(replies.push(reply)) == if self.after(replies).accepts(reply) {
                self.after(replies).step(reply)
            } else {
                self.after(replies)
            },
    {
        assert(replies.push(reply).drop_last() =~= replies);
    }

    /// The state stopped where it stands: it asks for nothing more.
    pub open spec fn stop(self) -> DispatchState {
        DispatchState { halted: true, ..self }
    }

    /// Every reply that a state accepts leads to a state that keeps the
    /// invariant.
    pub proof fn lemma_step_keeps_inv(self, reply: Reply)
        requires
            self.inv(),
            self.accepts(reply),
        ensures
            self.step(reply).inv(),
    {
        let next = self.step(reply);
        match reply {
            Reply::MuteVerdict(muted) => {
                let at = self.verdicts.len() as int;
                let pubkey = self.queue[at];
                assert(!self.approved.contains(pubkey)) by {
                    if self.approved.contains(pubkey) {
                        let k = choose|k: int|
                            0 <= k < self.approved.len() && self.approved[k] == pubkey;
                        assert(self.asked().contains(self.approved[k]));
                        let i = choose|i: int|
                            0 <= i < self.asked().len() && self.asked()[i] == self.approved[k];
                        assert(self.queue[i] == self.queue[at]);
                    }
                }
                assert forall|i: int| 0 <= i < next.verdicts.len() implies (next.approved.contains(
                    #[trigger] next.queue[i],
                ) <==> !next.verdicts[i]) by {
                    if i < at {
                        assert(self.approved.contains(self.queue[i]) <==> !self.verdicts[i]);
                        if !muted {
                            if self.approved.contains(self.queue[i]) {
                                let k = choose|k: int|
                                    0 <= k < self.approved.len() && self.approved[k]
                                        == self.queue[i];
                                assert(next.approved[k] == self.queue[i]);
                            }
                            if next.approved.contains(self.queue[i]) {
                                let k = choose|k: int|
                                    0 <= k < next.approved.len() && next.approved[k]
                                        == self.queue[i];
                                if k < self.approved.len() {
                                    assert(self.approved[k] == self.queue[i]);
                                }
                            }
                        }
                    } else {
                        if !muted {
                            assert(next.approved[self.approved.len() as int] == pubkey);
                        }
                    }
                }
                assert forall|k: int| 0 <= k < next.approved.len() implies next.asked().contains(
                    #[trigger] next.approved[k],
                ) by {
                    if k < self.approved.len() {
                        assert(self.asked().contains(self.approved[k]));
                        let i = choose|i: int|
                            0 <= i < self.asked().len() && self.asked()[i] == self.approved[k];
                        assert(next.asked()[i] == next.approved[k]);
                    } else {
                        assert(next.asked()[at] == next.approved[k]);
                    }
                }
            },
            _ => {},
        }
    }

    /// Stopping keeps the invariant.
    pub proof fn lemma_stop_keeps_inv(self)
        requires
            self.inv(),
        ensures
            self.stop().inv(),
    {
        let next = self.stop();
        assert(next.asked() == self.asked());
        assert forall|k: int| 0 <= k < next.approved.len() implies next.asked().contains(
            #[trigger] next.approved[k],
        ) by {
            assert(self.asked().contains(self.approved[k]));
        }
    }

    /// The pubkeys to notify are among the candidates; the author is not
    /// among them, nor is any candidate whose verdict was "muted".
    pub proof fn lemma_approved(self, pubkey: Seq<char>)
        requires
            self.inv(),
            self.approved.contains(pubkey),
        ensures
            self.queue.contains(pubkey),
            pubkey != self.author,
            forall|i: int|
                0 <= i < self.verdicts.len() && self.queue[i] == pubkey ==> !self.verdicts[i],
    {
        let k = choose|k: int| 0 <= k < self.approved.len() && self.approved[k] == pubkey;
        assert(self.asked().contains(self.approved[k]));
        let i = choose|i: int| 0 <= i < self.asked().len() && self.asked()[i] == self.approved[k];
        assert(self.queue[i] == pubkey);
        assert forall|j: int|
            0 <= j < self.verdicts.len() && self.queue[j] == pubkey implies !self.verdicts[j] by {
            assert(self.approved.contains(self.queue[j]));
        }
    }
}

/// The dispatch of the notifications for one event: it says what it needs
/// next, takes the reply, and so works through mute screening, delivery to
/// every device and the record in the store. It calls nothing itself.
pub struct Dispatch {
    event_id: String,
    author: String,
    content: String,
    now: i64,
    queue: Vec<String>,
    verdicts: Vec<bool>,
    approved: Vec<String>,
    served: usize,
    tokens: Option<Vec<String>>,
    attempted: usize,
    halted: bool,
}

impl View for Dispatch {
    type V = DispatchState;

    closed spec fn view(&self) -> DispatchState {
        DispatchState {
            event_id: self.event_id@,
            author: self.author@,
            content: self.content@,
            now: self.now,
            queue: texts(self.queue@),
            verdicts: self.verdicts@,
            approved: texts(self.approved@),
            served: self.served as nat,
            tokens: match self.tokens {
                Some(tokens) => Some(texts(tokens@)),
                None => None,
            },
            attempted: self.attempted as nat,
            halted: self.halted,
        }
    }
}

impl Dispatch {
    /// The state keeps the invariant of a dispatch.
    pub open spec fn wf(&self) -> bool {
        self@.inv()
    }

    /// Starts the dispatch for `event` at time `now`, given the pubkeys
    /// relevant to the event and the event's delivery status.
    ///
    /// A stale event gets an empty dispatch. Otherwise the candidates to
    /// screen are the relevant pubkeys not yet marked as sent, without the
    /// author.
    pub fn begin(event: &Note, now: i64, relevant: &StringSet, status: &NotificationStatus) -> (d:
        Dispatch)
        requires
            relevant.wf(),
            status.wf(),
        ensures
            d.wf(),
            d@ == DispatchState::initial(event.id@, event.pubkey@, event.content@, now, d@.queue),
            d@.queue.to_set() == if is_stale(event.created_at, now) {
                Set::<Seq<char>>::empty()
            } else {
                remaining_pubkeys(relevant@, status@, event.pubkey@)
            },
            is_stale(event.created_at, now) ==> d@.queue.len() == 0 && d@.request() is Done,
    {
        let mut queue: Vec<String> = Vec::new();
        assert(texts(queue@).to_set() =~= Set::<Seq<char>>::empty());
        if !is_stale(event.created_at, now) {
            let sent = status.pubkeys_that_received_notification();
            let mut i: usize = 0;
            proof {
                relevant.lemma_distinct();
                assert(relevant.seq().take(0).to_set() =~= Set::<Seq<char>>::empty());
            }
            while i < relevant.len()
                invariant
                    i <= relevant.seq().len(),
                    relevant.seq().no_duplicates(),
                    sent@ == sent_pubkeys(status@),
                    texts(queue@).no_duplicates(),
                    texts(queue@).to_set() == remaining_pubkeys(
                        relevant.seq().take(i as int).to_set(),
                        status@,
                        event.pubkey@,
                    ),
                decreases relevant.seq().len() - i,
            {
                let ghost seen = relevant.seq().take(i as int);
                let ghost here = relevant.seq()[i as int];
                proof {
                    assert(relevant.seq().take(i + 1) =~= seen.push(here));
                    seen.lemma_push_to_set_commute(here);
                    assert(!seen.contains(here)) by {
                        if seen.contains(here) {
                            let j = choose|j: int| 0 <= j < seen.len() && seen[j] == here;
                            assert(relevant.seq()[j] == relevant.seq()[i as int]);
                        }
                    }
                }
                match relevant.get(i) {
                    Some(pubkey) => {
                        if !sent.contains(pubkey.as_str()) && *pubkey != event.pubkey {
                            let candidate = pubkey.clone();
                            proof {
                                assert(texts(queue@.push(candidate)) =~= texts(queue@).push(here));
                                texts(queue@).lemma_push_to_set_commute(here);
                                assert(!texts(queue@).to_set().contains(here));
                            }
                            queue.push(candidate);
                        }
                    },
                    None => {},
                }
                assert(texts(queue@).to_set() =~= remaining_pubkeys(
                    relevant.seq().take(i + 1).to_set(),
                    status@,
                    event.pubkey@,
                ));
                i += 1;
            }
            assert(relevant.seq().take(i as int) =~= relevant.seq());
        }
        let d = Dispatch {
            event_id: event.id.clone(),
            author: event.pubkey.clone(),
            content: event.content.clone(),
            now,
            queue,
            verdicts: Vec::new(),
            approved: Vec::new(),
            served: 0,
            tokens: None,
            attempted: 0,
            halted: false,
        };
        proof {
            assert(d@.verdicts =~= Seq::<bool>::empty());
            assert(d@.approved =~= Seq::<Seq<char>>::empty());
            assert(!d@.queue.contains(d@.author)) by {
                if d@.queue.contains(d@.author) {
                    assert(d@.queue.to_set().contains(d@.author));
                }
            }
            if d@.queue.len() > 0 {
                assert(d@.queue.to_set().contains(d@.queue[0]));
            }
        }
        d
    }

    /// What the dispatch needs next.
    pub fn request(&self) -> (r: Request)
        requires
            self.wf(),
        ensures
            r@ == self@.request(),
    {
        if self.halted {
            Request::Done
        } else if self.verdicts.len() < self.queue.len() {
            Request::MuteVerdict { pubkey: self.queue[self.verdicts.len()].clone() }
        } else if self.served < self.approved.len() {
            let pubkey = self.approved[self.served].clone();
            match &self.tokens {
                None => Request::DeviceTokens { pubkey },
                Some(tokens) => {
                    if self.attempted < tokens.len() {
                        let message = notification_message(
                            self.author.as_str(),
                            self.content.as_str(),
                        );
                        Request::Delivery {
                            pubkey,
                            device_token: tokens[self.attempted].clone(),
                            title: message.0,
                            subtitle: message.1,
                            body: message.2,
                        }
                    } else {
                        Request::Record {
                            event_id: self.event_id.clone(),
                            pubkey,
                            sent_at: self.now,
                        }
                    }
                },
            }
        } else {
            Request::Done
        }
    }

    /// Takes the reply to the request made last.
    ///
    /// A reply that answers the request moves the dispatch on as
    /// `DispatchState::step` says. A failed mute check stops the dispatch for
    /// good and comes back as the error. A reply that does not answer the
    /// request is refused and changes nothing.
    pub fn advance(&mut self, reply: Reply) -> (r: Result<(), NotifyError>)
        requires
            old(self).wf(),
        ensures
            final(self).wf(),
            old(self)@.accepts(reply) ==> final(self)@ == old(self)@.step(reply),
            !old(self)@.accepts(reply) ==> final(self)@ == old(self)@,
            match r {
                Ok(()) => old(self)@.accepts(reply) && !(reply is MuteCheckFailed),
                Err(NotifyError::PolicyEvaluationError(reason)) => old(self)@.accepts(reply)
                    && reply == Reply::MuteCheckFailed(reason),
                Err(NotifyError::UnexpectedReply) => !old(self)@.accepts(reply),
                Err(_) => false,
            },
    {
        let asking = !self.halted && self.verdicts.len() < self.queue.len();
        let serving = !self.halted && !asking && self.served < self.approved.len();
        proof {
            if old(self)@.accepts(reply) {
                old(self)@.lemma_step_keeps_inv(reply);
            }
        }
        match reply {
            Reply::MuteVerdict(muted) => {
                if asking {
                    if !muted {
                        let pubkey = self.queue[self.verdicts.len()].clone();
                        proof {
                            assert(texts(self.approved@.push(pubkey)) =~= texts(
                                self.approved@,
                            ).push(pubkey@));
                        }
                        self.approved.push(pubkey);
                    }
                    self.verdicts.push(muted);
                    Ok(())
                } else {
                    Err(NotifyError::UnexpectedReply)
                }
            },
            Reply::MuteCheckFailed(reason) => {
                if asking {
                    self.halted = true;
                    Err(NotifyError::PolicyEvaluationError(reason))
                } else {
                    Err(NotifyError::UnexpectedReply)
                }
            },
            Reply::DeviceTokens(tokens) => {
                if serving && self.tokens.is_none() {
                    self.tokens = Some(tokens);
                    self.attempted = 0;
                    Ok(())
                } else {
                    Err(NotifyError::UnexpectedReply)
                }
            },
            Reply::DeliveryAttempted(_) => {
                let awaited = match &self.tokens {
                    Some(tokens) => self.attempted < tokens.len(),
                    None => false,
                };
                if serving && awaited {
                    self.attempted = self.attempted + 1;
                    Ok(())
                } else {
                    Err(NotifyError::UnexpectedReply)
                }
            },
            Reply::Recorded => {
                let due = match &self.tokens {
                    Some(tokens) => self.attempted >= tokens.len(),
                    None => false,
                };
                if serving && due {
                    self.served = self.served + 1;
                    self.tokens = None;
                    self.attempted = 0;
                    Ok(())
                } else {
                    Err(NotifyError::UnexpectedReply)
                }
            },
        }
    }

    /// Stops the dispatch where it stands: from now on it asks for nothing.
    pub fn abort(&mut self)
        requires
            old(self).wf(),
        ensures
            final(self).wf(),
            final(self)@ == old(self)@.stop(),
    {
        proof {
            old(self)@.lemma_stop_keeps_inv();
        }
        self.halted = true;
    }

    /// Whether nothing is left to do.
    pub fn is_done(&self) -> (done: bool)
        requires
            self.wf(),
        ensures
            done == (self@.request() is Done),
    {
        self.halted || (self.verdicts.len() >= self.queue.len() && self.served
            >= self.approved.len())
    }

    /// The pubkeys found so far to be notified, in the order of their
    /// verdicts. Once every candidate is screened this is the notify-set.
    pub fn pubkeys_to_notify(&self) -> (pubkeys: &Vec<String>)
        ensures
            texts(pubkeys@) == self@.approved,
    {
        &self.approved
    }
}

} // verus!
