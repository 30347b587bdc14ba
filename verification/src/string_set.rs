use vstd::prelude::*;

verus! {

/// The strings of `items`, each by its characters.
pub open spec fn texts(items: Seq<String>) -> Seq<Seq<char>> {
    Seq::new(items.len(), |i: int| items[i]@)
}

/// The characters of a string that may be absent.
pub open spec fn option_text(value: Option<String>) -> Option<Seq<char>> {
    match value {
        Some(text) => Some(text@),
        None => None,
    }
}

/// A set of strings that remembers the order in which its members arrived.
///
/// Seen as a value it is the mathematical set of its members; `seq` gives the
/// members in insertion order, each exactly once.
pub struct StringSet {
    items: Vec<String>,
}

impl View for StringSet {
    type V = Set<Seq<char>>;

    open spec fn view(&self) -> Set<Seq<char>> {
        self.seq().to_set()
    }
}

impl StringSet {
    /// No member is held twice.
    pub closed spec fn wf(&self) -> bool {
        texts(self.items@).no_duplicates()
    }

    /// A well-formed set lists each member once, so it has as many members
    /// as its insertion order is long.
    pub proof fn lemma_distinct(&self)
        requires
            self.wf(),
        ensures
            self.seq().no_duplicates(),
            self@.finite(),
            self@.len() == self.seq().len(),
    {
        self.seq().unique_seq_to_set();
    }

    /// The members in insertion order.
    pub closed spec fn seq(&self) -> Seq<Seq<char>> {
        texts(self.items@)
    }

    /// The empty set.
    pub fn new() -> (s: StringSet)
        ensures
            s.wf(),
            s.seq() == Seq::<Seq<char>>::empty(),
            s@ == Set::<Seq<char>>::empty(),
    {
        let s = StringSet { items: Vec::new() };
        assert(s.seq() =~= Seq::<Seq<char>>::empty());
        assert(s@ =~= Set::<Seq<char>>::empty());
        s
    }

    /// Number of members.
    pub fn len(&self) -> (n: usize)
        ensures
            n == self.seq().len(),
            self.wf() ==> n == self@.len(),
    {
        proof {
            if self.wf() {
                self.lemma_distinct();
            }
        }
        self.items.len()
    }

    /// The member at position `index` of the insertion order, if there is one.
    pub fn get(&self, index: usize) -> (r: Option<&String>)
        ensures
            index < self.seq().len() ==> r.is_some() && r.unwrap()@ == self.seq()[index as int],
            index >= self.seq().len() ==> r.is_none(),
    {
        if index < self.items.len() {
            Some(&self.items[index])
        } else {
            None
        }
    }

    /// Whether `key` is a member.
    pub fn contains(&self, key: &str) -> (found: bool)
        ensures
            found == self@.contains(key@),
    {
        let wanted = key.to_owned();
        let mut i: usize = 0;
        while i < self.items.len()
            invariant
                i <= self.items.len(),
                wanted@ == key@,
                forall|j: int| 0 <= j < i ==> texts(self.items@)[j] != key@,
            decreases self.items.len() - i,
        {
            if self.items[i] == wanted {
                assert(texts(self.items@)[i as int] == key@);
                return true;
            }
            i += 1;
        }
        false
    }

    /// Adds `key` unless it is a member already; says whether it was added.
    /// A new member goes to the end of the insertion order.
    pub fn insert(&mut self, key: String) -> (added: bool)
        requires
            old(self).wf(),
        ensures
            final(self).wf(),
            added == !old(self)@.contains(key@),
            final(self)@ == old(self)@.insert(key@),
            final(self).seq() == if added {
                old(self).seq().push(key@)
            } else {
                old(self).seq()
            },
    {
        if self.contains(key.as_str()) {
            assert(self@ =~= self@.insert(key@));
            false
        } else {
            let ghost before = self.items@;
            proof {
                assert(texts(before.push(key)) =~= texts(before).push(key@));
                texts(before).lemma_push_to_set_commute(key@);
            }
            self.items.push(key);
            true
        }
    }

    /// Adds every member of `other`.
    pub fn extend(&mut self, other: &StringSet)
        requires
            old(self).wf(),
        ensures
            final(self).wf(),
            final(self)@ == old(self)@.union(other@),
    {
        let mut i: usize = 0;
        while i < other.items.len()
            invariant
                i <= other.items.len(),
                self.wf(),
                self@ == old(self)@.union(texts(other.items@).take(i as int).to_set()),
            decreases other.items.len() - i,
        {
            let key = other.items[i].clone();
            proof {
                let sofar = texts(other.items@).take(i as int);
                assert(texts(other.items@).take(i + 1) =~= sofar.push(key@));
                sofar.lemma_push_to_set_commute(key@);
            }
            self.insert(key);
            assert(self@ =~= old(self)@.union(texts(other.items@).take(i + 1).to_set()));
            i += 1;
        }
        assert(texts(other.items@).take(i as int) =~= texts(other.items@));
    }

    /// The set of the strings in `keys`; a string that occurs several times
    /// is held once.
    pub fn from_vec(keys: Vec<String>) -> (s: StringSet)
        ensures
            s.wf(),
            s@ == texts(keys@).to_set(),
    {
        let mut s = StringSet::new();
        let mut i: usize = 0;
        while i < keys.len()
            invariant
                i <= keys.len(),
                s.wf(),
                s@ == texts(keys@).take(i as int).to_set(),
            decreases keys.len() - i,
        {
            let key = keys[i].clone();
            proof {
                let sofar = texts(keys@).take(i as int);
                assert(texts(keys@).take(i + 1) =~= sofar.push(key@));
                sofar.lemma_push_to_set_commute(key@);
            }
            s.insert(key);
            i += 1;
        }
        assert(texts(keys@).take(i as int) =~= texts(keys@));
        s
    }

    /// The members as a vector, in insertion order.
    pub fn to_vec(&self) -> (keys: Vec<String>)
        ensures
            texts(keys@) == self.seq(),
    {
        let mut keys: Vec<String> = Vec::new();
        let mut i: usize = 0;
        while i < self.items.len()
            invariant
                i <= self.items.len(),
                keys.len() == i,
                texts(keys@) == texts(self.items@).take(i as int),
            decreases self.items.len() - i,
        {
            let key = self.items[i].clone();
            proof {
                let grown = texts(keys@.push(key));
                let wanted = texts(self.items@).take(i + 1);
                assert forall|j: int| 0 <= j < grown.len() implies grown[j] == wanted[j] by {
                    if j < i {
                        assert(texts(keys@)[j] == texts(self.items@).take(i as int)[j]);
                    }
                }
                assert(grown =~= wanted);
            }
            keys.push(key);
            i += 1;
        }
        assert(texts(self.items@).take(i as int) =~= texts(self.items@));
        keys
    }
}

} // verus!
