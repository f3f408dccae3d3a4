use gotham_sessions::errors::ProtocolError;
use gotham_sessions::ident::ArtifactKind;
use gotham_sessions::ident::compose;
use gotham_sessions::ident::id_ok;
use gotham_sessions::ident::idify;
use gotham_sessions::ident::kind_tag_str;
use gotham_sessions::store::db_name_ok;

#[test]
fn idify_composes_owner_session_and_kind() {
    let k = idify(
        &"acct1".to_string(),
        &"s1".to_string(),
        ArtifactKind::KeyGenFirst,
    );
    assert_eq!(k, "acct1_s1_kgfirst");
    let k = idify(
        &"acct1".to_string(),
        &"s1".to_string(),
        ArtifactKind::MasterKey,
    );
    assert_eq!(k, "acct1_s1_masterkey");
}

#[test]
fn kind_tags_are_pairwise_distinct() {
    let kinds = [
        ArtifactKind::KeyGenFirst,
        ArtifactKind::KeyGenSecond,
        ArtifactKind::KeyGenThird,
        ArtifactKind::KeyGenFourth,
        ArtifactKind::ChainCodeFirst,
        ArtifactKind::ChainCodeSecond,
        ArtifactKind::MasterKey,
    ];
    for i in 0..kinds.len() {
        for j in 0..kinds.len() {
            if i != j {
                assert_ne!(kind_tag_str(kinds[i]), kind_tag_str(kinds[j]));
            }
        }
    }
}

#[test]
fn id_validation_rejects_delimiter_and_empty() {
    assert!(id_ok("acct1"));
    assert!(id_ok("s1"));
    assert!(!id_ok(""));
    assert!(!id_ok("acct_1"));
    assert!(!id_ok("_"));
}

#[test]
fn compose_rejects_reserved_delimiter() {
    let r = compose(
        &"acct_1".to_string(),
        &"s1".to_string(),
        ArtifactKind::KeyGenFirst,
    );
    assert_eq!(r, Err(ProtocolError::InvalidIdentifier));
    let r = compose(
        &"acct1".to_string(),
        &"s_1".to_string(),
        ArtifactKind::KeyGenFirst,
    );
    assert_eq!(r, Err(ProtocolError::InvalidIdentifier));
    let r = compose(
        &"acct1".to_string(),
        &"".to_string(),
        ArtifactKind::KeyGenFirst,
    );
    assert_eq!(r, Err(ProtocolError::InvalidIdentifier));
    let r = compose(
        &"acct1".to_string(),
        &"s1".to_string(),
        ArtifactKind::ChainCodeSecond,
    );
    assert_eq!(r, Ok("acct1_s1_ccsecond".to_string()));
}

#[test]
fn distinct_triples_compose_to_distinct_keys() {
    let owners = ["acctA", "acctB"];
    let sids = ["x", "y"];
    let kinds = [
        ArtifactKind::KeyGenFirst,
        ArtifactKind::KeyGenSecond,
        ArtifactKind::MasterKey,
    ];
    let mut keys: Vec<String> = Vec::new();
    for o in owners.iter() {
        for s in sids.iter() {
            for k in kinds.iter() {
                keys.push(idify(&o.to_string(), &s.to_string(), *k));
            }
        }
    }
    for i in 0..keys.len() {
        for j in 0..keys.len() {
            if i != j {
                assert_ne!(keys[i], keys[j]);
            }
        }
    }
}

#[test]
fn db_name_must_be_alphanumeric() {
    assert!(db_name_ok("KeyGenAndSign"));
    assert!(db_name_ok("db"));
    assert!(db_name_ok(""));
    assert!(!db_name_ok("db-name"));
    assert!(!db_name_ok("./db"));
    assert!(!db_name_ok("db name"));
}
