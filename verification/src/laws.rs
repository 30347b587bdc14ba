use vstd::prelude::*;
use crate::dispatch::{notify_set, remaining_pubkeys, DispatchState, Reply, RequestView};
use crate::note::Note;
use crate::relevance::{spec_relevant_pubkeys_for, union_all};
use crate::status::sent_pubkeys;

verus! {

/// The status after every pubkey in `notified` has been recorded as sent.
pub open spec fn mark_sent(status: Map<Seq<char>, bool>, notified: Set<Seq<char>>) -> Map<
    Seq<char>,
    bool,
> {
    Map::new(
        |pubkey: Seq<char>| status.contains_key(pubkey) || notified.contains(pubkey),
        |pubkey: Seq<char>|
            if notified.contains(pubkey) {
                true
            } else {
                status[pubkey]
            },
    )
}

/// Whatever replies come in, a dispatch keeps its invariant, its event and
/// its candidates, and every verdict that it has heard.
pub proof fn law_run_keeps_course(start: DispatchState, replies: Seq<Reply>)
    requires
        start.inv(),
    ensures
        start.after(replies).inv(),
        start.after(replies).event_id == start.event_id,
        start.after(replies).author == start.author,
        start.after(replies).content == start.content,
        start.after(replies).now == start.now,
        start.after(replies).queue == start.queue,
        start.verdicts.len() <= start.after(replies).verdicts.len(),
        forall|i: int|
            0 <= i < start.verdicts.len() ==> start.after(replies).verdicts[i]
                == #[trigger] start.verdicts[i],
    decreases replies.len(),
{
    if replies.len() > 0 {
        let prior = start.after(replies.drop_last());
        law_run_keeps_course(start, replies.drop_last());
        if prior.accepts(replies.last()) {
            prior.lemma_step_keeps_inv(replies.last());
        }
    }
}

/// In every state of a dispatch, the pubkey that a request serves is one of
/// the pubkeys to notify.
pub proof fn law_only_approved_are_served(state: DispatchState)
    requires
        state.inv(),
    ensures
        state.request().served_pubkey() matches Some(pubkey) ==> state.approved.contains(pubkey),
{
    if state.request().served_pubkey() is Some {
        assert(state.approved[state.served as int] == state.request().served_pubkey().unwrap());
    }
}

/// A dispatch without candidates, as a stale event gets it, never asks for
/// anything: no mute verdict, no device tokens, no delivery and no record,
/// whatever replies come in.
pub proof fn law_stale_event_triggers_nothing(
    event_id: Seq<char>,
    author: Seq<char>,
    content: Seq<char>,
    now: i64,
    replies: Seq<Reply>,
)
    ensures
        DispatchState::initial(event_id, author, content, now, Seq::empty()).after(replies)
            == DispatchState::initial(event_id, author, content, now, Seq::empty()),
        DispatchState::initial(event_id, author, content, now, Seq::empty()).after(
            replies,
        ).request() is Done,
    decreases replies.len(),
{
    if replies.len() > 0 {
        law_stale_event_triggers_nothing(event_id, author, content, now, replies.drop_last());
    }
}

/// The author of an event is never among the pubkeys to notify of it, and
/// no request of its dispatch ever serves the author.
pub proof fn law_author_is_never_notified(start: DispatchState, replies: Seq<Reply>)
    requires
        start.inv(),
    ensures
        !start.after(replies).approved.contains(start.author),
        start.after(replies).request().served_pubkey() != Some(start.author),
{
    let state = start.after(replies);
    law_run_keeps_course(start, replies);
    if state.approved.contains(start.author) {
        state.lemma_approved(start.author);
    }
    law_only_approved_are_served(state);
}

/// The set of pubkeys to notify never holds the author.
pub proof fn law_notify_set_excludes_author(
    candidates: Set<Seq<char>>,
    status: Map<Seq<char>, bool>,
    author: Seq<char>,
    muted: Set<Seq<char>>,
)
    ensures
        !notify_set(candidates, status, author, muted).contains(author),
{
}

/// Once the mute policy has said that a candidate is muted, that candidate
/// never joins the pubkeys to notify, and no later request reads its devices,
/// delivers to it or records it, whatever replies come in.
pub proof fn law_muted_pubkey_is_never_served(start: DispatchState, replies: Seq<Reply>, i: int)
    requires
        start.inv(),
        0 <= i < start.verdicts.len(),
        start.verdicts[i],
    ensures
        !start.after(replies).approved.contains(start.queue[i]),
        start.after(replies).request().served_pubkey() != Some(start.queue[i]),
{
    let state = start.after(replies);
    law_run_keeps_course(start, replies);
    assert(state.verdicts[i] == start.verdicts[i]);
    assert(state.approved.contains(state.queue[i]) <==> !state.verdicts[i]);
    law_only_approved_are_served(state);
}

/// The set of pubkeys to notify holds no muted pubkey.
pub proof fn law_notify_set_excludes_muted(
    candidates: Set<Seq<char>>,
    status: Map<Seq<char>, bool>,
    author: Seq<char>,
    muted: Set<Seq<char>>,
    pubkey: Seq<char>,
)
    requires
        muted.contains(pubkey),
    ensures
        !notify_set(candidates, status, author, muted).contains(pubkey),
{
}

/// A dispatch whose candidates are the remaining pubkeys, and which has
/// heard the verdict of the policy `muted` on each of them, notifies exactly
/// `notify_set`.
pub proof fn law_screened_dispatch_notifies_notify_set(
    state: DispatchState,
    candidates: Set<Seq<char>>,
    status: Map<Seq<char>, bool>,
    muted: Set<Seq<char>>,
)
    requires
        state.inv(),
        state.screened(),
        state.heard(muted),
        state.queue.to_set() == remaining_pubkeys(candidates, status, state.author),
    ensures
        state.approved.to_set() == notify_set(candidates, status, state.author, muted),
{
    let wanted = notify_set(candidates, status, state.author, muted);
    assert forall|p: Seq<char>| state.approved.to_set().contains(p) <==> wanted.contains(p) by {
        if state.approved.contains(p) {
            state.lemma_approved(p);
            let i = choose|i: int| 0 <= i < state.queue.len() && state.queue[i] == p;
            assert(!state.verdicts[i]);
            assert(state.queue.to_set().contains(p));
        }
        if wanted.contains(p) {
            assert(state.queue.to_set().contains(p));
            let i = choose|i: int| 0 <= i < state.queue.len() && state.queue[i] == p;
            assert(!state.verdicts[i]);
            assert(state.approved.contains(state.queue[i]));
        }
    }
    assert(state.approved.to_set() =~= wanted);
}

/// Dispatching an event a second time notifies nobody.
///
/// `first` is the end of a complete dispatch that started from the
/// candidates `candidates` and the status `status`. `second` is any state of
/// a later dispatch of the same event, started when the store had changed in
/// nothing but the records that the first dispatch wrote, and under the same
/// mute policy `muted`. Then the second dispatch has nobody to notify: it
/// never reads device tokens, never delivers and never records.
pub proof fn law_second_dispatch_notifies_nobody(
    first: DispatchState,
    second: DispatchState,
    candidates: Set<Seq<char>>,
    later_candidates: Set<Seq<char>>,
    status: Map<Seq<char>, bool>,
    muted: Set<Seq<char>>,
)
    requires
        first.inv(),
        first.completed(),
        first.heard(muted),
        first.queue.to_set() == remaining_pubkeys(candidates, status, first.author),
        second.inv(),
        second.heard(muted),
        second.author == first.author,
        later_candidates.subset_of(candidates),
        second.queue.to_set() == remaining_pubkeys(
            later_candidates,
            mark_sent(status, first.approved.to_set()),
            second.author,
        ),
    ensures
        second.approved.len() == 0,
        second.request().served_pubkey() is None,
{
    law_screened_dispatch_notifies_notify_set(first, candidates, status, muted);
    if second.approved.len() > 0 {
        let p = second.approved[0];
        assert(second.approved.contains(p));
        second.lemma_approved(p);
        let i = choose|i: int| 0 <= i < second.asked().len() && second.asked()[i] == p;
        assert(second.queue[i] == p);
        assert(!second.verdicts[i]);
        assert(!muted.contains(p));
        assert(second.queue.to_set().contains(p));
        let later_status = mark_sent(status, first.approved.to_set());
        assert(!sent_pubkeys(later_status).contains(p));
        assert(!first.approved.to_set().contains(p)) by {
            if first.approved.to_set().contains(p) {
                assert(later_status.contains_key(p) && later_status[p]);
            }
        }
        assert(!sent_pubkeys(status).contains(p)) by {
            if sent_pubkeys(status).contains(p) {
                assert(later_status.contains_key(p) && later_status[p]);
            }
        }
        assert(notify_set(candidates, status, first.author, muted).contains(p));
        assert(false);
    }
    law_only_approved_are_served(second);
}

/// Relevance passes along one reference: whoever is subscribed to an event
/// that `event` references is relevant to `event`, tagged in it or not.
pub proof fn law_subscribers_of_referenced_event_are_relevant(
    event: Note,
    subscribed: Seq<Set<Seq<char>>>,
    i: int,
    pubkey: Seq<char>,
)
    requires
        0 <= i < subscribed.len(),
        subscribed[i].contains(pubkey),
    ensures
        spec_relevant_pubkeys_for(event, subscribed).contains(pubkey),
{
    assert(union_all(subscribed).contains(pubkey));
}

/// The author and every pubkey that an event tags are relevant to it,
/// whatever the store holds.
pub proof fn law_tagged_and_author_are_relevant(event: Note, subscribed: Seq<Set<Seq<char>>>)
    ensures
        spec_relevant_pubkeys_for(event, subscribed).contains(event.pubkey@),
        event.spec_referenced_pubkeys().subset_of(spec_relevant_pubkeys_for(event, subscribed)),
{
}

} // verus!
