use vstd::prelude::*;
use crate::message::{InputMessage, OutputMessage};
use crate::string_set::{texts, StringSet};

verus! {

/// Whether `tag` is a well-formed tag of type `kind`: it has a value after
/// its type, and its type is `kind`.
pub open spec fn tag_matches(tag: Seq<String>, kind: Seq<char>) -> bool {
    tag.len() >= 2 && tag[0]@ == kind
}

/// The values of the tags of type `kind`, in the order of the tags. A tag
/// with fewer than two elements has no value and is passed over.
pub open spec fn tag_values(tags: Seq<Vec<String>>, kind: Seq<char>) -> Seq<Seq<char>>
    decreases tags.len(),
{
    if tags.len() == 0 {
        Seq::empty()
    } else {
        let before = tag_values(tags.drop_last(), kind);
        if tag_matches(tags.last()@, kind) {
            before.push(tags.last()@[1]@)
        } else {
            before
        }
    }
}

/// A value is among `tag_values(tags, kind)` exactly when some tag of type
/// `kind` carries it.
pub proof fn lemma_tag_values_contains(tags: Seq<Vec<String>>, kind: Seq<char>, value: Seq<char>)
    ensures
        tag_values(tags, kind).contains(value) <==> exists|i: int|
            0 <= i < tags.len() && tag_matches(#[trigger] tags[i]@, kind) && tags[i]@[1]@ == value,
    decreases tags.len(),
{
    if tags.len() == 0 {
    } else {
        let front = tags.drop_last();
        let before = tag_values(front, kind);
        lemma_tag_values_contains(front, kind, value);
        let last = tags.len() - 1;
        if tag_values(tags, kind).contains(value) {
            let all = tag_values(tags, kind);
            let k = choose|k: int| 0 <= k < all.len() && all[k] == value;
            if tag_matches(tags.last()@, kind) && k == before.len() {
                assert(tag_matches(tags[last]@, kind) && tags[last]@[1]@ == value);
            } else {
                assert(before[k] == value);
                assert(before.contains(value));
                let i = choose|i: int|
                    0 <= i < front.len() && tag_matches(#[trigger] front[i]@, kind) && front[i]@[1]@
                        == value;
                assert(tag_matches(tags[i]@, kind) && tags[i]@[1]@ == value);
            }
        }
        if exists|i: int|
            0 <= i < tags.len() && tag_matches(#[trigger] tags[i]@, kind) && tags[i]@[1]@ == value {
            let i = choose|i: int|
                0 <= i < tags.len() && tag_matches(#[trigger] tags[i]@, kind) && tags[i]@[1]@
                    == value;
            if i == last {
                assert(tag_values(tags, kind) == before.push(value));
                assert(before.push(value)[before.len() as int] == value);
            } else {
                assert(tag_matches(front[i]@, kind) && front[i]@[1]@ == value);
                assert(before.contains(value));
                let k = choose|k: int| 0 <= k < before.len() && before[k] == value;
                if tag_matches(tags.last()@, kind) {
                    assert(before.push(tags.last()@[1]@)[k] == value);
                }
            }
        }
    }
}

/// A signed event as the relay hands it over.
#[derive(Clone, Debug, PartialEq, Eq)]
pub struct Note {
    pub id: String,
    pub pubkey: String,
    pub content: String,
    pub created_at: i64,
    pub kind: i64,
    pub tags: Vec<Vec<String>>,
    pub sig: String,
}

/// A filter that the relay asks for a verdict on every event.
pub trait NoteFilter {
    /// Judges the event of `msg`.
    fn filter_note(&mut self, msg: &InputMessage) -> OutputMessage;

    /// The key under which the filter is configured.
    fn name(&self) -> &'static str;
}

impl Note {
    /// The pubkeys that the note names in tags of type "p".
    pub open spec fn spec_referenced_pubkeys(&self) -> Set<Seq<char>> {
        tag_values(self.tags@, "p"@).to_set()
    }

    /// The referenced pubkeys together with the author.
    pub open spec fn spec_relevant_pubkeys(&self) -> Set<Seq<char>> {
        self.spec_referenced_pubkeys().insert(self.pubkey@)
    }

    /// The ids of the events that the note names in tags of type "e".
    pub open spec fn spec_referenced_event_ids(&self) -> Set<Seq<char>> {
        tag_values(self.tags@, "e"@).to_set()
    }

    /// Checks if the note references a given pubkey.
    pub fn references_pubkey(&self, pubkey: &str) -> (found: bool)
        ensures
            found == self.spec_referenced_pubkeys().contains(pubkey@),
    {
        self.referenced_pubkeys().contains(pubkey)
    }

    /// Retrieves the set of pubkeys referenced by the note.
    pub fn referenced_pubkeys(&self) -> (pubkeys: StringSet)
        ensures
            pubkeys.wf(),
            pubkeys@ == self.spec_referenced_pubkeys(),
    {
        StringSet::from_vec(self.get_tags("p"))
    }

    /// Retrieves the set of pubkeys relevant to the note: those it
    /// references, and its author.
    pub fn relevant_pubkeys(&self) -> (pubkeys: StringSet)
        ensures
            pubkeys.wf(),
            pubkeys@ == self.spec_relevant_pubkeys(),
    {
        let mut pubkeys = self.referenced_pubkeys();
        pubkeys.insert(self.pubkey.clone());
        pubkeys
    }

    /// Retrieves the set of event ids referenced by the note.
    pub fn referenced_event_ids(&self) -> (ids: StringSet)
        ensures
            ids.wf(),
            ids@ == self.spec_referenced_event_ids(),
    {
        StringSet::from_vec(self.get_tags("e"))
    }

    /// Retrieves the values of the tags of one type, in the order of the
    /// tags. A tag too short to hold a value is skipped.
    pub fn get_tags(&self, tag_type: &str) -> (values: Vec<String>)
        ensures
            texts(values@) == tag_values(self.tags@, tag_type@),
    {
        let wanted = tag_type.to_owned();
        let mut values: Vec<String> = Vec::new();
        let mut i: usize = 0;
        while i < self.tags.len()
            invariant
                i <= self.tags.len(),
                wanted@ == tag_type@,
                texts(values@) == tag_values(self.tags@.take(i as int), tag_type@),
            decreases self.tags.len() - i,
        {
            let tag = &self.tags[i];
            proof {
                assert(self.tags@.take(i + 1).drop_last() =~= self.tags@.take(i as int));
                assert(self.tags@.take(i + 1).last() == self.tags@[i as int]);
            }
            if tag.len() >= 2 && tag[0] == wanted {
                let value = tag[1].clone();
                proof {
                    assert(texts(values@.push(value)) =~= texts(values@).push(value@));
                }
                values.push(value);
            }
            i += 1;
        }
        assert(self.tags@.take(i as int) =~= self.tags@);
        values
    }
}

} // verus!
