use gotham_sessions::ident::ArtifactKind;
use gotham_sessions::store::Db;
use gotham_sessions::store::DbIndex;
use gotham_sessions::store::SessionStore;

fn index(owner: &str, sid: &str) -> DbIndex {
    DbIndex {
        customer_id: owner.to_string(),
        id: sid.to_string(),
    }
}

#[test]
fn stored_payload_is_returned_unchanged() {
    let mut store = SessionStore::new();
    let idx = index("acct1", "s1");
    store
        .insert(&idx, ArtifactKind::KeyGenFirst, &"payload-one".to_string())
        .unwrap();
    let got = store.get(&idx, ArtifactKind::KeyGenFirst).unwrap();
    assert_eq!(got, Some("payload-one".to_string()));
}

#[test]
fn absent_key_reads_as_none() {
    let store = SessionStore::new();
    let got = store.get(&index("acct1", "s1"), ArtifactKind::KeyGenFirst).unwrap();
    assert_eq!(got, None);
}

#[test]
fn overwrite_is_last_write_wins() {
    let mut store = SessionStore::new();
    let idx = index("acct1", "s1");
    store
        .insert(&idx, ArtifactKind::KeyGenSecond, &"first".to_string())
        .unwrap();
    store
        .insert(&idx, ArtifactKind::KeyGenSecond, &"second".to_string())
        .unwrap();
    let got = store.get(&idx, ArtifactKind::KeyGenSecond).unwrap();
    assert_eq!(got, Some("second".to_string()));
}

#[test]
fn kinds_are_kept_apart_within_a_session() {
    let mut store = SessionStore::new();
    let idx = index("acct1", "s1");
    store
        .insert(&idx, ArtifactKind::KeyGenFirst, &"one".to_string())
        .unwrap();
    store
        .insert(&idx, ArtifactKind::KeyGenSecond, &"two".to_string())
        .unwrap();
    assert_eq!(
        store.get(&idx, ArtifactKind::KeyGenFirst).unwrap(),
        Some("one".to_string())
    );
    assert_eq!(
        store.get(&idx, ArtifactKind::KeyGenSecond).unwrap(),
        Some("two".to_string())
    );
    assert_eq!(store.get(&idx, ArtifactKind::KeyGenThird).unwrap(), None);
}

#[test]
fn owners_are_kept_apart_for_the_same_session_id() {
    let mut store = SessionStore::new();
    store
        .insert(&index("acctA", "x"), ArtifactKind::KeyGenFirst, &"of-a".to_string())
        .unwrap();
    let other = store
        .get(&index("acctB", "x"), ArtifactKind::KeyGenFirst)
        .unwrap();
    assert_eq!(other, None);
}

#[test]
fn no_share_is_reported_active() {
    let store = SessionStore::new();
    assert_eq!(store.has_active_share("acct1"), Ok(false));
}
