use std::collections::HashMap;

use elysia::cache::{on_fetched, on_lookup, FetchOutcome, FetchStep, ImageLoader};

/// Drive one read-through fetch over an in-memory store the way a caller
/// would, counting how often the fetcher runs.
fn drive_fetch(
    store: &mut HashMap<String, Vec<u8>>,
    key: &str,
    fetcher: &mut dyn FnMut() -> Result<Vec<u8>, String>,
    fetch_count: &mut usize,
) -> Result<Vec<u8>, String> {
    let entry = store.get(key).cloned();
    match on_lookup(entry, true) {
        FetchStep::UseCached(v) => Ok(v),
        FetchStep::Fetch => {
            *fetch_count += 1;
            match on_fetched(fetcher()) {
                FetchOutcome::StoreAndReturn(v) => {
                    store.insert(key.to_string(), v.clone());
                    Ok(v)
                }
                FetchOutcome::Fail(e) => Err(e),
            }
        }
    }
}

#[test]
fn present_key_never_invokes_the_fetcher() {
    let mut store = HashMap::new();
    store.insert("k".to_string(), b"cached".to_vec());
    let mut count = 0usize;
    let r = drive_fetch(
        &mut store,
        "k",
        &mut || panic!("the fetcher must not run on a hit"),
        &mut count,
    );
    assert_eq!(r, Ok(b"cached".to_vec()));
    assert_eq!(count, 0);
}

#[test]
fn absent_key_fetches_once_then_serves_from_cache() {
    let mut store = HashMap::new();
    let mut count = 0usize;
    let first = drive_fetch(&mut store, "k", &mut || Ok(b"fresh".to_vec()), &mut count);
    assert_eq!(first, Ok(b"fresh".to_vec()));
    assert_eq!(count, 1);
    let second = drive_fetch(
        &mut store,
        "k",
        &mut || Err("network is gone".to_string()),
        &mut count,
    );
    assert_eq!(second, Ok(b"fresh".to_vec()));
    assert_eq!(count, 1);
}

#[test]
fn failed_fetch_propagates_and_caches_nothing() {
    let mut store: HashMap<String, Vec<u8>> = HashMap::new();
    let mut count = 0usize;
    let r = drive_fetch(&mut store, "k", &mut || Err("boom".to_string()), &mut count);
    assert_eq!(r, Err("boom".to_string()));
    assert!(store.is_empty());
}

#[test]
fn undecodable_entry_falls_back_to_the_fetcher() {
    match on_lookup(Some(b"junk".to_vec()), false) {
        FetchStep::Fetch => {}
        FetchStep::UseCached(_) => panic!("an entry that does not decode is not usable"),
    }
}

#[test]
fn superseded_fetch_may_not_commit() {
    let mut loader = ImageLoader::new();
    let token_k = loader.request();
    assert!(loader.may_commit(token_k));
    let token_k2 = loader.request();
    assert!(!loader.may_commit(token_k));
    assert!(loader.may_commit(token_k2));
}

#[test]
fn cancelled_fetch_writes_nothing_under_its_key() {
    let mut loader = ImageLoader::new();
    let mut store: HashMap<String, Vec<u8>> = HashMap::new();
    let token_k = loader.request();
    let _token_k2 = loader.request();
    // The fetch for the first key resolves late; its commit is refused and
    // the store stays without the superseded key.
    if loader.may_commit(token_k) {
        store.insert("K".to_string(), b"stale".to_vec());
    }
    assert!(!store.contains_key("K"));
}
