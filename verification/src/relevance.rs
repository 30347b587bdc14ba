use vstd::prelude::*;
use crate::note::Note;
use crate::string_set::StringSet;

verus! {

/// The views of the sets in `sets`, in order.
pub open spec fn set_views(sets: Seq<StringSet>) -> Seq<Set<Seq<char>>> {
    Seq::new(sets.len(), |i: int| sets[i]@)
}

/// Everything that lies in one of `sets`.
pub open spec fn union_all(sets: Seq<Set<Seq<char>>>) -> Set<Seq<char>> {
    Set::new(|member: Seq<char>| exists|i: int| 0 <= i < sets.len() && #[trigger] sets[i].contains(member))
}

/// The pubkeys relevant to an event: those relevant by the event itself,
/// and the subscribers of each event that it references. `subscribed` holds
/// one set of subscribers for each referenced event. Relevance goes one hop
/// along references and no further.
pub open spec fn spec_relevant_pubkeys_for(event: Note, subscribed: Seq<Set<Seq<char>>>) -> Set<
    Seq<char>,
> {
    event.spec_relevant_pubkeys().union(union_all(subscribed))
}

/// Computes the pubkeys relevant to `event`, given for each event that it
/// references the pubkeys subscribed to that event.
pub fn relevant_pubkeys_for(event: &Note, subscribed: &Vec<StringSet>) -> (pubkeys: StringSet)
    ensures
        pubkeys.wf(),
        pubkeys@ == spec_relevant_pubkeys_for(*event, set_views(subscribed@)),
{
    let mut pubkeys = event.relevant_pubkeys();
    let mut i: usize = 0;
    while i < subscribed.len()
        invariant
            i <= subscribed.len(),
            pubkeys.wf(),
            pubkeys@ == event.spec_relevant_pubkeys().union(
                union_all(set_views(subscribed@).take(i as int)),
            ),
        decreases subscribed.len() - i,
    {
        let ghost before = set_views(subscribed@).take(i as int);
        let ghost after = set_views(subscribed@).take(i + 1);
        pubkeys.extend(&subscribed[i]);
        proof {
            assert forall|p: Seq<char>| union_all(after).contains(p) <==> (union_all(
                before,
            ).contains(p) || subscribed@[i as int]@.contains(p)) by {
                if union_all(after).contains(p) {
                    let j = choose|j: int| 0 <= j < after.len() && #[trigger] after[j].contains(p);
                    if j < i {
                        assert(before[j].contains(p));
                    }
                }
                if union_all(before).contains(p) {
                    let j = choose|j: int|
                        0 <= j < before.len() && #[trigger] before[j].contains(p);
                    assert(after[j].contains(p));
                }
                if subscribed@[i as int]@.contains(p) {
                    assert(after[i as int].contains(p));
                }
            }
            assert(pubkeys@ =~= event.spec_relevant_pubkeys().union(union_all(after)));
        }
        i += 1;
    }
    assert(set_views(subscribed@).take(i as int) =~= set_views(subscribed@));
    pubkeys
}

} // verus!
