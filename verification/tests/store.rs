use std::collections::HashSet;
use std::sync::{Arc, Mutex};

use pl_core::store::ArtifactStore;

#[test]
fn put_then_get_round_trips() {
    let mut store = ArtifactStore::new();
    let id = store.put(vec![1, 2, 3]).expect("an empty store takes any identifier");
    assert_eq!(store.get(&id), Some(vec![1, 2, 3]));
    assert_eq!(store.len(), 1);
}

#[test]
fn get_of_any_other_identifier_finds_nothing() {
    let mut store = ArtifactStore::new();
    let id = store.put(vec![7]).expect("stored");
    assert_eq!(store.get("img-00000000-0000-4000-8000-000000000000"), None);
    assert_eq!(store.get(""), None);
    assert_eq!(store.get(&id[..id.len() - 1]), None);
    assert_eq!(store.get(&format!("{}0", id)), None);
    assert_eq!(store.get(&id.to_uppercase()), None);
    assert!(!store.contains("img-"));
    assert!(store.contains(&id));
}

#[test]
fn get_on_an_empty_store_finds_nothing() {
    let store = ArtifactStore::new();
    assert_eq!(store.len(), 0);
    assert_eq!(store.get("img-anything"), None);
}

#[test]
fn get_does_not_consume_the_entry() {
    let mut store = ArtifactStore::new();
    let id = store.put(vec![9, 8, 7]).expect("stored");
    for _ in 0..5 {
        assert_eq!(store.get(&id), Some(vec![9, 8, 7]));
    }
    assert_eq!(store.len(), 1);
}

#[test]
fn empty_bytes_round_trip() {
    let mut store = ArtifactStore::new();
    let id = store.put(Vec::new()).expect("stored");
    assert_eq!(store.get(&id), Some(Vec::new()));
}

#[test]
fn identifiers_have_the_image_prefix_and_a_version_4_uuid() {
    let mut store = ArtifactStore::new();
    let id = store.put(vec![0]).expect("stored");
    assert_eq!(id.len(), 40);
    assert!(id.starts_with("img-"));
    let parsed = uuid::Uuid::parse_str(&id[4..]).expect("the rest is a UUID");
    assert_eq!(parsed.get_version_num(), 4);
    assert_eq!(parsed.to_string(), &id[4..]);
}

#[test]
fn put_with_nonce_names_the_entry_after_the_nonce() {
    let mut store = ArtifactStore::new();
    let id = store.put_with_nonce("abc", vec![1, 2]);
    assert_eq!(id, Some(String::from("img-abc")));
    assert_eq!(store.get("img-abc"), Some(vec![1, 2]));
    assert_eq!(store.get("abc"), None);
}

#[test]
fn put_with_nonce_never_overwrites() {
    let mut store = ArtifactStore::new();
    assert_eq!(store.put_with_nonce("n", vec![1]), Some(String::from("img-n")));
    assert_eq!(store.put_with_nonce("n", vec![2]), None);
    assert_eq!(store.get("img-n"), Some(vec![1]));
    assert_eq!(store.len(), 1);
    assert_eq!(store.put_with_nonce("m", vec![3]), Some(String::from("img-m")));
    assert_eq!(store.get("img-n"), Some(vec![1]));
    assert_eq!(store.get("img-m"), Some(vec![3]));
    assert_eq!(store.len(), 2);
}

#[test]
fn earlier_entries_survive_later_puts() {
    let mut store = ArtifactStore::new();
    let mut ids = Vec::new();
    for k in 0..200u32 {
        let id = store.put(k.to_be_bytes().to_vec()).expect("stored");
        ids.push(id);
    }
    for (k, id) in ids.iter().enumerate() {
        assert_eq!(store.get(id), Some((k as u32).to_be_bytes().to_vec()));
    }
    assert_eq!(store.len(), 200);
}

#[test]
fn identifiers_are_pairwise_distinct_over_ten_thousand_puts() {
    let mut store = ArtifactStore::new();
    let mut seen = HashSet::new();
    for _ in 0..10_000 {
        let id = store.put(Vec::new()).expect("stored");
        assert!(seen.insert(id));
    }
    assert_eq!(seen.len(), 10_000);
    assert_eq!(store.len(), 10_000);
}

#[test]
fn concurrent_puts_each_round_trip() {
    let runtime = tokio::runtime::Builder::new_multi_thread()
        .worker_threads(4)
        .build()
        .expect("a runtime");
    let store = Arc::new(Mutex::new(ArtifactStore::new()));
    let results = runtime.block_on(async {
        let mut workers = Vec::new();
        for k in 0..50u8 {
            let store = Arc::clone(&store);
            workers.push(tokio::spawn(async move {
                let bytes = vec![k; 16];
                let id = store.lock().unwrap().put(bytes.clone()).expect("stored");
                (id, bytes)
            }));
        }
        let mut results = Vec::new();
        for worker in workers {
            results.push(worker.await.expect("the task ran to its end"));
        }
        results
    });
    assert_eq!(results.len(), 50);
    let mut ids = HashSet::new();
    for (id, bytes) in results {
        assert_eq!(store.lock().unwrap().get(&id), Some(bytes));
        assert!(ids.insert(id));
    }
    assert_eq!(store.lock().unwrap().len(), 50);
}
