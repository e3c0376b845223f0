use fortunes::fortune::Fortune;
use fortunes::store::FortuneStore;

fn pairs_of(all: Vec<Fortune>) -> Vec<(String, String)> {
    let mut pairs: Vec<(String, String)> = all.into_iter().map(|f| (f.id, f.message)).collect();
    pairs.sort();
    pairs
}

fn pair(id: &str, message: &str) -> (String, String) {
    (id.to_string(), message.to_string())
}

#[test]
fn empty_store_holds_nothing() {
    let store = FortuneStore::new();
    assert!(store.is_empty());
    assert_eq!(store.len(), 0);
    assert!(store.list().is_empty());
    assert_eq!(store.get("1"), None);
}

#[test]
fn seeded_store_holds_the_four_defaults() {
    let store = FortuneStore::seed_defaults();
    assert!(!store.is_empty());
    assert_eq!(store.len(), 4);
    assert_eq!(
        pairs_of(store.list()),
        vec![
            pair("1", "A new voyage will fill your life with untold memories."),
            pair(
                "2",
                "The measure of time to your next goal is the measure of your discipline."
            ),
            pair("3", "The only way to do well is to do better each day."),
            pair("4", "It ain't over till it's EOF."),
        ]
    );
}

#[test]
fn get_finds_each_default_by_id() {
    let store = FortuneStore::seed_defaults();
    assert_eq!(
        store.get("4"),
        Some(&Fortune::new("4", "It ain't over till it's EOF."))
    );
    assert_eq!(
        store.get("3"),
        Some(&Fortune::new(
            "3",
            "The only way to do well is to do better each day."
        ))
    );
    assert_eq!(store.get("5"), None);
    assert_eq!(store.get(""), None);
}

#[test]
fn put_inserts_a_new_id() {
    let mut store = FortuneStore::seed_defaults();
    store.put(Fortune::new("5", "E"));
    assert_eq!(store.len(), 5);
    assert_eq!(store.get("5"), Some(&Fortune::new("5", "E")));
    assert_eq!(
        store.get("1"),
        Some(&Fortune::new(
            "1",
            "A new voyage will fill your life with untold memories."
        ))
    );
}

#[test]
fn put_replaces_an_id_that_is_there() {
    let mut store = FortuneStore::seed_defaults();
    store.put(Fortune::new("2", "second"));
    assert_eq!(store.len(), 4);
    assert_eq!(store.get("2"), Some(&Fortune::new("2", "second")));
    store.put(Fortune::new("2", "third"));
    assert_eq!(store.len(), 4);
    assert_eq!(store.get("2"), Some(&Fortune::new("2", "third")));
    assert_eq!(store.list().iter().filter(|f| f.id == "2").count(), 1);
}

#[test]
fn overlay_replaces_a_default_with_the_same_id() {
    let mut store = FortuneStore::seed_defaults();
    store.overlay(vec![Fortune::new("1", "cached"), Fortune::new("7", "seven")]);
    assert_eq!(store.len(), 5);
    assert_eq!(store.get("1"), Some(&Fortune::new("1", "cached")));
    assert_eq!(store.get("7"), Some(&Fortune::new("7", "seven")));
    assert_eq!(
        store.get("2"),
        Some(&Fortune::new(
            "2",
            "The measure of time to your next goal is the measure of your discipline."
        ))
    );
}

#[test]
fn overlay_lets_the_last_entry_of_an_id_win() {
    let mut store = FortuneStore::new();
    store.overlay(vec![
        Fortune::new("a", "first"),
        Fortune::new("b", "only"),
        Fortune::new("a", "last"),
    ]);
    assert_eq!(
        pairs_of(store.list()),
        vec![pair("a", "last"), pair("b", "only")]
    );
}

#[test]
fn overlay_with_nothing_changes_nothing() {
    let mut store = FortuneStore::seed_defaults();
    store.overlay(Vec::new());
    assert_eq!(store.len(), 4);
}

#[test]
fn list_length_counts_each_id_once() {
    let mut store = FortuneStore::seed_defaults();
    store.overlay(vec![Fortune::new("4", "x"), Fortune::new("5", "y")]);
    store.put(Fortune::new("5", "z"));
    store.put(Fortune::new("6", "w"));
    store.put(Fortune::new("1", "v"));
    assert_eq!(store.list().len(), 6);
    assert_eq!(store.len(), 6);
}

#[test]
fn id_at_walks_the_snapshot() {
    let mut store = FortuneStore::new();
    store.put(Fortune::new("x", "1"));
    store.put(Fortune::new("y", "2"));
    store.put(Fortune::new("x", "3"));
    let listed: Vec<String> = store.list().into_iter().map(|f| f.id).collect();
    let walked: Vec<String> = (0..store.len()).map(|i| store.id_at(i)).collect();
    assert_eq!(listed, walked);
    let mut ids = walked;
    ids.sort();
    assert_eq!(ids, vec!["x".to_string(), "y".to_string()]);
}

#[test]
fn a_copy_of_a_fortune_equals_it() {
    let fortune = Fortune::new("1", "A");
    let copy = fortune.clone();
    assert_eq!(copy, fortune);
    assert_eq!(copy.id, "1");
    assert_eq!(copy.message, "A");
}
