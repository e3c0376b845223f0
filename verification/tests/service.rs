use fortunes::fortune::Fortune;
use fortunes::redis_client::{CacheClient, Command};
use fortunes::reply::{Body, Rejection, Reply};
use fortunes::service::{
    cache_lookup, cache_store, create_default_store, create_fortune, created, found,
    get_fortune, handle_rejection, list_fortunes, listed, random_fortune, stored_fortune,
};
use fortunes::store::FortuneStore;

fn pairs_of(all: Vec<Fortune>) -> Vec<(String, String)> {
    let mut pairs: Vec<(String, String)> = all.into_iter().map(|f| (f.id, f.message)).collect();
    pairs.sort();
    pairs
}

fn pair(id: &str, message: &str) -> (String, String) {
    (id.to_string(), message.to_string())
}

fn store_of(entries: &[(&str, &str)]) -> FortuneStore {
    let mut store = FortuneStore::new();
    for (id, message) in entries {
        store.put(Fortune::new(id, message));
    }
    store
}

#[test]
fn default_store_has_four_fortunes() {
    let store = create_default_store();
    assert_eq!(list_fortunes(&store).len(), 4);
}

#[test]
fn get_returns_each_default_without_cache() {
    let mut store = create_default_store();
    let expected = [
        ("1", "A new voyage will fill your life with untold memories."),
        (
            "2",
            "The measure of time to your next goal is the measure of your discipline.",
        ),
        ("3", "The only way to do well is to do better each day."),
        ("4", "It ain't over till it's EOF."),
    ];
    for (id, message) in expected {
        assert_eq!(
            get_fortune(id, None, &mut store),
            Some(Fortune::new(id, message))
        );
    }
    assert_eq!(list_fortunes(&store).len(), 4);
}

#[test]
fn default_survives_writes_to_other_ids() {
    let mut store = create_default_store();
    create_fortune(Fortune::new("9", "nine"), &mut store);
    get_fortune("8", Some("eight".to_string()), &mut store);
    assert_eq!(
        get_fortune("3", None, &mut store),
        Some(Fortune::new(
            "3",
            "The only way to do well is to do better each day."
        ))
    );
}

#[test]
fn create_then_get_returns_the_fortune() {
    let mut store = create_default_store();
    let fortune = Fortune::new("42", "Answers come to those who compile.");
    let returned = create_fortune(fortune.clone(), &mut store);
    assert_eq!(returned, fortune);
    assert_eq!(get_fortune("42", None, &mut store), Some(fortune));
}

#[test]
fn create_replaces_a_fortune_with_the_same_id() {
    let mut store = create_default_store();
    create_fortune(Fortune::new("1", "new"), &mut store);
    assert_eq!(
        get_fortune("1", None, &mut store),
        Some(Fortune::new("1", "new"))
    );
    assert_eq!(list_fortunes(&store).len(), 4);
}

#[test]
fn create_stores_the_fortune_when_the_cache_write_fails() {
    let cache = CacheClient::Connected { client: 1u8 };
    let fortune = Fortune::new("12", "kept");
    let (_, command) = cache_store(&cache, &fortune).unwrap();
    let written: Result<(), String> = Err(format!("{} refused", command.name));
    assert!(written.is_err());
    let mut store = create_default_store();
    assert_eq!(create_fortune(fortune.clone(), &mut store), fortune);
    assert_eq!(store.get("12"), Some(&fortune));
    assert_eq!(store.len(), 5);
}

#[test]
fn create_stores_the_fortune_when_the_cache_is_down() {
    let cache: CacheClient<u8> = CacheClient::Unavailable;
    let fortune = Fortune::new("12", "kept");
    assert!(cache_store(&cache, &fortune).is_none());
    let mut store = create_default_store();
    create_fortune(fortune.clone(), &mut store);
    assert_eq!(store.get("12"), Some(&fortune));
}

#[test]
fn list_counts_distinct_ids_after_creates_and_refreshes() {
    let mut store = create_default_store();
    create_fortune(Fortune::new("5", "a"), &mut store);
    create_fortune(Fortune::new("5", "b"), &mut store);
    get_fortune("6", Some("c".to_string()), &mut store);
    get_fortune("1", Some("d".to_string()), &mut store);
    get_fortune("7", None, &mut store);
    assert_eq!(list_fortunes(&store).len(), 6);
}

#[test]
fn random_picks_a_current_entry() {
    let mut store = store_of(&[("1", "A"), ("2", "B"), ("3", "C")]);
    for _ in 0..200 {
        let id = random_fortune(&store).unwrap();
        assert!(["1", "2", "3"].contains(&id.as_str()));
        let fortune = get_fortune(&id, None, &mut store).unwrap();
        assert!(pairs_of(list_fortunes(&store)).contains(&(fortune.id, fortune.message)));
    }
}

#[test]
fn random_reaches_every_entry() {
    let store = store_of(&[("1", "A"), ("2", "B"), ("3", "C")]);
    let mut seen = [false; 3];
    for _ in 0..2000 {
        match random_fortune(&store).unwrap().as_str() {
            "1" => seen[0] = true,
            "2" => seen[1] = true,
            "3" => seen[2] = true,
            other => panic!("unknown id {}", other),
        }
    }
    assert_eq!(seen, [true, true, true]);
}

#[test]
fn random_on_single_entry_returns_it() {
    let store = store_of(&[("only", "one")]);
    for _ in 0..20 {
        assert_eq!(random_fortune(&store), Some("only".to_string()));
    }
}

#[test]
fn random_can_be_overridden_by_the_cache() {
    let mut store = store_of(&[("1", "A")]);
    let id = random_fortune(&store).unwrap();
    assert_eq!(
        get_fortune(&id, Some("cached".to_string()), &mut store),
        Some(Fortune::new("1", "cached"))
    );
}

#[test]
fn random_on_empty_store_finds_nothing() {
    let mut store = FortuneStore::new();
    let drawn = random_fortune(&store);
    assert_eq!(drawn, None);
    assert_eq!(
        found(None),
        Reply {
            status: 404,
            body: Body::JsonString("fortune not found".to_string())
        }
    );
    assert_eq!(found(None), found(get_fortune("zero", None, &mut store)));
    assert!(store.is_empty());
}

#[test]
fn random_on_empty_store_never_asks_the_cache() {
    let store = FortuneStore::new();
    let cache = CacheClient::Connected { client: 1u8 };
    assert!(cache_lookup(&cache, "zero").is_some());
    for _ in 0..20 {
        assert_eq!(random_fortune(&store), None);
    }
    assert!(store.is_empty());
    assert_eq!(store.get("zero"), None);
}

#[test]
fn stored_fortune_reads_the_store_alone() {
    let store = create_default_store();
    assert_eq!(
        stored_fortune("4", &store),
        Some(Fortune::new("4", "It ain't over till it's EOF."))
    );
    assert_eq!(stored_fortune("5", &store), None);
    assert_eq!(store.len(), 4);
}

#[test]
fn scenario_create_list_and_miss() {
    let mut store = store_of(&[("1", "A"), ("2", "B")]);
    let cache: CacheClient<u8> = CacheClient::Unavailable;
    assert!(cache_store(&cache, &Fortune::new("3", "C")).is_none());
    create_fortune(Fortune::new("3", "C"), &mut store);
    assert_eq!(
        pairs_of(list_fortunes(&store)),
        vec![pair("1", "A"), pair("2", "B"), pair("3", "C")]
    );
    assert!(cache_lookup(&cache, "4").is_none());
    assert_eq!(get_fortune("4", None, &mut store), None);
}

#[test]
fn scenario_cache_hit_is_kept_when_the_cache_fails() {
    let mut store = create_default_store();
    let cache = CacheClient::Connected { client: 7u8 };
    let (client, command) = cache_lookup(&cache, "5").unwrap();
    assert_eq!(*client, 7);
    assert_eq!(
        command,
        Command {
            name: "HGET".to_string(),
            args: vec!["fortunes".to_string(), "5".to_string()]
        }
    );
    assert_eq!(
        get_fortune("5", Some("X".to_string()), &mut store),
        Some(Fortune::new("5", "X"))
    );
    assert_eq!(
        get_fortune("5", None, &mut store),
        Some(Fortune::new("5", "X"))
    );
    assert_eq!(store.len(), 5);
}

#[test]
fn cache_hit_wins_over_the_store() {
    let mut store = create_default_store();
    assert_eq!(
        get_fortune("1", Some("from cache".to_string()), &mut store),
        Some(Fortune::new("1", "from cache"))
    );
    assert_eq!(store.get("1"), Some(&Fortune::new("1", "from cache")));
    assert_eq!(store.len(), 4);
}

#[test]
fn miss_leaves_the_store_alone() {
    let mut store = create_default_store();
    assert_eq!(get_fortune("nope", None, &mut store), None);
    assert_eq!(store.len(), 4);
    assert_eq!(store.get("nope"), None);
}

#[test]
fn cache_is_asked_only_when_connected() {
    let fortune = Fortune::new("3", "C");
    let waiting: CacheClient<u8> = CacheClient::Uninitialized;
    let trying: CacheClient<u8> = CacheClient::Connecting { attempt: 2 };
    let down: CacheClient<u8> = CacheClient::Unavailable;
    for cache in [&waiting, &trying, &down] {
        assert!(cache_lookup(cache, "3").is_none());
        assert!(cache_store(cache, &fortune).is_none());
    }
    let up = CacheClient::Connected { client: 1u8 };
    let (_, command) = cache_store(&up, &fortune).unwrap();
    assert_eq!(
        command,
        Command {
            name: "HSET".to_string(),
            args: vec!["fortunes".to_string(), "3".to_string(), "C".to_string()]
        }
    );
}

#[test]
fn replies_of_the_back_end() {
    assert_eq!(
        listed(vec![Fortune::new("1", "A")]),
        Reply {
            status: 200,
            body: Body::Fortunes(vec![Fortune::new("1", "A")])
        }
    );
    assert_eq!(
        found(Some(Fortune::new("1", "A"))),
        Reply {
            status: 200,
            body: Body::Fortune(Fortune::new("1", "A"))
        }
    );
    assert_eq!(
        found(None),
        Reply {
            status: 404,
            body: Body::JsonString("fortune not found".to_string())
        }
    );
    assert_eq!(
        created(Fortune::new("2", "B")),
        Reply {
            status: 200,
            body: Body::Fortune(Fortune::new("2", "B"))
        }
    );
}

#[test]
fn back_end_rejections() {
    assert_eq!(
        handle_rejection(Rejection::NotFound),
        Reply {
            status: 404,
            body: Body::JsonString("not found".to_string())
        }
    );
    for other in [
        Rejection::MethodNotAllowed,
        Rejection::MalformedBody,
        Rejection::Other,
    ] {
        assert_eq!(
            handle_rejection(other),
            Reply {
                status: 500,
                body: Body::JsonString("internal server error".to_string())
            }
        );
    }
}
