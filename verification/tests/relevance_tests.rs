use notify_dispatch::note::Note;
use notify_dispatch::relevance::relevant_pubkeys_for;
use notify_dispatch::string_set::StringSet;

fn set(members: &[&str]) -> StringSet {
    StringSet::from_vec(members.iter().map(|m| m.to_string()).collect())
}

fn note(pubkey: &str, tags: Vec<Vec<&str>>) -> Note {
    Note {
        id: "e2".to_string(),
        pubkey: pubkey.to_string(),
        content: String::new(),
        created_at: 0,
        kind: 1,
        tags: tags
            .into_iter()
            .map(|tag| tag.into_iter().map(|part| part.to_string()).collect())
            .collect(),
        sig: String::new(),
    }
}

#[test]
fn relevance_without_references_is_the_notes_own() {
    let event = note("alice", vec![vec!["p", "bob"]]);
    let relevant = relevant_pubkeys_for(&event, &vec![]);
    assert_eq!(relevant.to_vec(), vec!["bob".to_string(), "alice".to_string()]);
}

#[test]
fn relevance_takes_in_the_subscribers_of_referenced_events() {
    let event = note("carol", vec![vec!["e", "e1"], vec!["e", "e0"]]);
    let relevant = relevant_pubkeys_for(&event, &vec![set(&["bob", "carol"]), set(&["dave"])]);
    assert_eq!(
        relevant.to_vec(),
        vec!["carol".to_string(), "bob".to_string(), "dave".to_string()]
    );
}
