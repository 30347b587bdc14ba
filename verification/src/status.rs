use vstd::prelude::*;
use crate::string_set::StringSet;

verus! {

/// The pubkeys that `status` marks as having received their notification.
pub open spec fn sent_pubkeys(status: Map<Seq<char>, bool>) -> Set<Seq<char>> {
    Set::new(|pubkey: Seq<char>| status.contains_key(pubkey) && status[pubkey])
}

/// The pubkeys of `entries`, each by its characters.
pub open spec fn entry_keys(entries: Seq<(String, bool)>) -> Seq<Seq<char>> {
    Seq::new(entries.len(), |i: int| entries[i].0@)
}

/// Delivery status of one event, per pubkey: whether the notification for
/// that pubkey has been sent.
///
/// Seen as a value it is the map from pubkey to that flag.
pub struct NotificationStatus {
    status_info: Vec<(String, bool)>,
}

impl View for NotificationStatus {
    type V = Map<Seq<char>, bool>;

    closed spec fn view(&self) -> Map<Seq<char>, bool> {
        let entries = self.status_info@;
        Map::new(
            |pubkey: Seq<char>| entry_keys(entries).contains(pubkey),
            |pubkey: Seq<char>| entries[entry_keys(entries).index_of(pubkey)].1,
        )
    }
}

impl NotificationStatus {
    /// No pubkey is held twice.
    pub closed spec fn wf(&self) -> bool {
        entry_keys(self.status_info@).no_duplicates()
    }

    proof fn lemma_entry(&self, i: int)
        requires
            self.wf(),
            0 <= i < self.status_info@.len(),
        ensures
            self@.contains_key(self.status_info@[i].0@),
            self@[self.status_info@[i].0@] == self.status_info@[i].1,
    {
        let keys = entry_keys(self.status_info@);
        assert(keys[i] == self.status_info@[i].0@);
        assert(keys.contains(keys[i]));
        let found = keys.index_of(keys[i]);
        assert(keys[found] == keys[i]);
    }

    /// The status that knows of no pubkey.
    pub fn new() -> (status: NotificationStatus)
        ensures
            status.wf(),
            status@ == Map::<Seq<char>, bool>::empty(),
    {
        let status = NotificationStatus { status_info: Vec::new() };
        assert(status@ =~= Map::<Seq<char>, bool>::empty());
        status
    }

    fn position(&self, pubkey: &String) -> (at: Option<usize>)
        ensures
            match at {
                Some(i) => i < self.status_info@.len() && self.status_info@[i as int].0@
                    == pubkey@,
                None => !entry_keys(self.status_info@).contains(pubkey@),
            },
    {
        let mut i: usize = 0;
        while i < self.status_info.len()
            invariant
                i <= self.status_info.len(),
                forall|j: int| 0 <= j < i ==> entry_keys(self.status_info@)[j] != pubkey@,
            decreases self.status_info.len() - i,
        {
            if self.status_info[i].0 == *pubkey {
                return Some(i);
            }
            i += 1;
        }
        None
    }

    /// Sets the flag of `pubkey`, whether or not it had one.
    pub fn insert(&mut self, pubkey: String, received_notification: bool)
        requires
            old(self).wf(),
        ensures
            final(self).wf(),
            final(self)@ == old(self)@.insert(pubkey@, received_notification),
    {
        let ghost before = self.status_info@;
        let ghost key = pubkey@;
        match self.position(&pubkey) {
            Some(i) => {
                self.status_info.set(i, (pubkey, received_notification));
                proof {
                    let after = self.status_info@;
                    assert(entry_keys(after) =~= entry_keys(before));
                    assert forall|k: Seq<char>| #[trigger]
                        self@.contains_key(k) implies self@[k] == old(self)@.insert(
                        key,
                        received_notification,
                    )[k] by {
                        let at = entry_keys(after).index_of(k);
                        assert(entry_keys(after)[at] == k);
                        if k == key {
                            assert(entry_keys(after)[i as int] == key);
                        }
                    }
                    assert(entry_keys(before)[i as int] == key);
                    assert(self@ =~= old(self)@.insert(key, received_notification));
                }
            },
            None => {
                self.status_info.push((pubkey, received_notification));
                proof {
                    let after = self.status_info@;
                    let last = before.len() as int;
                    assert(entry_keys(after) =~= entry_keys(before).push(key));
                    assert(entry_keys(after).no_duplicates());
                    assert forall|k: Seq<char>|
                        entry_keys(after).contains(k) <==> (entry_keys(before).contains(k) || k
                            == key) by {
                        if entry_keys(after).contains(k) {
                            let at = entry_keys(after).index_of(k);
                            assert(entry_keys(after)[at] == k);
                            if at < last {
                                assert(entry_keys(before)[at] == k);
                            }
                        }
                        if entry_keys(before).contains(k) {
                            let at = entry_keys(before).index_of(k);
                            assert(entry_keys(before)[at] == k);
                            assert(entry_keys(after)[at] == k);
                        }
                        assert(entry_keys(after)[last] == key);
                    }
                    assert forall|k: Seq<char>| #[trigger]
                        self@.contains_key(k) implies self@[k] == old(self)@.insert(
                        key,
                        received_notification,
                    )[k] by {
                        let at = entry_keys(after).index_of(k);
                        assert(entry_keys(after)[at] == k);
                        if k == key {
                            assert(entry_keys(after)[last] == key);
                        } else {
                            assert(entry_keys(before)[at] == k);
                            let was = entry_keys(before).index_of(k);
                            assert(entry_keys(before)[was] == k);
                        }
                    }
                    assert(self@ =~= old(self)@.insert(key, received_notification));
                }
            },
        }
    }

    /// The flag of `pubkey`, if the status knows of it.
    pub fn get(&self, pubkey: &str) -> (flag: Option<bool>)
        requires
            self.wf(),
        ensures
            flag == if self@.contains_key(pubkey@) {
                Some(self@[pubkey@])
            } else {
                None
            },
    {
        let wanted = pubkey.to_owned();
        match self.position(&wanted) {
            Some(i) => {
                proof {
                    self.lemma_entry(i as int);
                }
                Some(self.status_info[i].1)
            },
            None => None,
        }
    }

    /// The pubkeys whose notification has been sent.
    pub fn pubkeys_that_received_notification(&self) -> (pubkeys: StringSet)
        requires
            self.wf(),
        ensures
            pubkeys.wf(),
            pubkeys@ == sent_pubkeys(self@),
    {
        let mut pubkeys = StringSet::new();
        let mut i: usize = 0;
        while i < self.status_info.len()
            invariant
                i <= self.status_info.len(),
                self.wf(),
                pubkeys.wf(),
                forall|k: Seq<char>|
                    pubkeys@.contains(k) <==> exists|j: int|
                        0 <= j < i && #[trigger] self.status_info@[j].0@ == k
                            && self.status_info@[j].1,
            decreases self.status_info.len() - i,
        {
            let ghost sofar = pubkeys@;
            if self.status_info[i].1 {
                pubkeys.insert(self.status_info[i].0.clone());
            }
            proof {
                let entry = self.status_info@[i as int];
                assert forall|k: Seq<char>| pubkeys@.contains(k) implies exists|j: int|
                    0 <= j < i + 1 && #[trigger] self.status_info@[j].0@ == k
                        && self.status_info@[j].1 by {
                    if sofar.contains(k) {
                        let j = choose|j: int|
                            0 <= j < i && #[trigger] self.status_info@[j].0@ == k
                                && self.status_info@[j].1;
                        assert(self.status_info@[j].0@ == k);
                    } else {
                        assert(entry.0@ == k);
                    }
                }
            }
            i += 1;
        }
        proof {
            assert forall|k: Seq<char>| pubkeys@.contains(k) <==> sent_pubkeys(self@).contains(
                k,
            ) by {
                if pubkeys@.contains(k) {
                    let j = choose|j: int|
                        0 <= j < i && #[trigger] self.status_info@[j].0@ == k
                            && self.status_info@[j].1;
                    self.lemma_entry(j);
                }
                if sent_pubkeys(self@).contains(k) {
                    let j = entry_keys(self.status_info@).index_of(k);
                    assert(entry_keys(self.status_info@)[j] == k);
                    assert(self.status_info@[j].0@ == k);
                }
            }
            assert(pubkeys@ =~= sent_pubkeys(self@));
        }
        pubkeys
    }
}

} // verus!
