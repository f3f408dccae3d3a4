use gotham_sessions::errors::ProtocolError;
use gotham_sessions::ident::ArtifactKind;
use gotham_sessions::orchestrator::EngineOutcome;
use gotham_sessions::orchestrator::chaincode_first;
use gotham_sessions::orchestrator::chaincode_second;
use gotham_sessions::orchestrator::chaincode_second_begin;
use gotham_sessions::orchestrator::finalize;
use gotham_sessions::orchestrator::finalize_begin;
use gotham_sessions::orchestrator::keygen_first;
use gotham_sessions::orchestrator::keygen_fourth;
use gotham_sessions::orchestrator::keygen_fourth_begin;
use gotham_sessions::orchestrator::keygen_second;
use gotham_sessions::orchestrator::keygen_second_begin;
use gotham_sessions::orchestrator::keygen_third;
use gotham_sessions::orchestrator::keygen_third_begin;
use gotham_sessions::orchestrator::load_artifact;
use gotham_sessions::store::SessionStore;

fn accepted(artifact: &str, outbound: &str) -> EngineOutcome {
    EngineOutcome::Accepted {
        artifact: artifact.to_string(),
        outbound: outbound.to_string(),
    }
}

#[test]
fn keygen_first_returns_session_id_and_outbound() {
    let mut store = SessionStore::new();
    let r = keygen_first(
        &mut store,
        &"acct1".to_string(),
        &"s1".to_string(),
        &"A1".to_string(),
        &"M1".to_string(),
    );
    assert_eq!(r, Ok(("s1".to_string(), "M1".to_string())));
    let prior = keygen_second_begin(&store, &"acct1".to_string(), &"s1".to_string());
    assert_eq!(prior, Ok("A1".to_string()));
}

#[test]
fn rounds_reject_invalid_identifiers_before_any_store_access() {
    let mut store = SessionStore::new();
    let r = keygen_first(
        &mut store,
        &"bad_owner".to_string(),
        &"s1".to_string(),
        &"A1".to_string(),
        &"M1".to_string(),
    );
    assert_eq!(r, Err(ProtocolError::InvalidIdentifier));
    let r = keygen_second(
        &mut store,
        &"acct1".to_string(),
        &"s_1".to_string(),
        &accepted("A2", "P2"),
    );
    assert_eq!(r, Err(ProtocolError::InvalidIdentifier));
    let r = finalize(
        &mut store,
        &"".to_string(),
        &"s1".to_string(),
        &"MK".to_string(),
    );
    assert_eq!(r, Err(ProtocolError::InvalidIdentifier));
}

#[test]
fn out_of_order_round_reports_session_not_found() {
    let mut store = SessionStore::new();
    let r = keygen_second(
        &mut store,
        &"acct1".to_string(),
        &"s1".to_string(),
        &accepted("A2", "P2"),
    );
    assert_eq!(r, Err(ProtocolError::SessionNotFound));
    let r = keygen_third(
        &mut store,
        &"acct1".to_string(),
        &"s1".to_string(),
        &"A3".to_string(),
        &"M3".to_string(),
    );
    assert_eq!(r, Err(ProtocolError::SessionNotFound));
    let r = keygen_second_begin(&store, &"acct1".to_string(), &"s1".to_string());
    assert_eq!(r, Err(ProtocolError::SessionNotFound));
}

#[test]
fn rejected_proof_aborts_round_and_persists_nothing() {
    let mut store = SessionStore::new();
    let owner = "acct1".to_string();
    let sid = "s1".to_string();
    keygen_first(&mut store, &owner, &sid, &"A1".to_string(), &"M1".to_string()).unwrap();
    let r = keygen_second(&mut store, &owner, &sid, &EngineOutcome::Rejected);
    assert_eq!(r, Err(ProtocolError::ProofInvalid));
    // no round-2 artifact was stored, so round 3 cannot proceed
    let r = keygen_third_begin(&store, &owner, &sid);
    assert_eq!(r, Err(ProtocolError::SessionNotFound));
}

#[test]
fn retried_round_after_no_persist_matches_single_success() {
    let mut store = SessionStore::new();
    let owner = "acct1".to_string();
    let sid = "s1".to_string();
    keygen_first(&mut store, &owner, &sid, &"A1".to_string(), &"M1".to_string()).unwrap();
    let first = keygen_second(&mut store, &owner, &sid, &accepted("A2", "P2"));
    let retried = keygen_second(&mut store, &owner, &sid, &accepted("A2", "P2"));
    assert_eq!(first, Ok("P2".to_string()));
    assert_eq!(retried, first);
    let stored = keygen_third_begin(&store, &owner, &sid);
    assert_eq!(stored, Ok("A2".to_string()));
}

#[test]
fn owners_with_identical_session_ids_do_not_collide() {
    let mut store = SessionStore::new();
    let sid = "x".to_string();
    keygen_first(
        &mut store,
        &"acctA".to_string(),
        &sid,
        &"stateA".to_string(),
        &"msgA".to_string(),
    )
    .unwrap();
    // owner B has no artifact under the same session id
    let r = keygen_second_begin(&store, &"acctB".to_string(), &sid);
    assert_eq!(r, Err(ProtocolError::SessionNotFound));
    keygen_first(
        &mut store,
        &"acctB".to_string(),
        &sid,
        &"stateB".to_string(),
        &"msgB".to_string(),
    )
    .unwrap();
    // each owner still sees exactly its own artifact
    let a = keygen_second_begin(&store, &"acctA".to_string(), &sid);
    let b = keygen_second_begin(&store, &"acctB".to_string(), &sid);
    assert_eq!(a, Ok("stateA".to_string()));
    assert_eq!(b, Ok("stateB".to_string()));
}

#[test]
fn finalize_with_skipped_round_reports_incomplete_prerequisites() {
    let mut store = SessionStore::new();
    let owner = "acct1".to_string();
    let sid = "s1".to_string();
    keygen_first(&mut store, &owner, &sid, &"A1".to_string(), &"M1".to_string()).unwrap();
    keygen_second(&mut store, &owner, &sid, &accepted("A2", "P2")).unwrap();
    keygen_third(&mut store, &owner, &sid, &"A3".to_string(), &"M3".to_string()).unwrap();
    keygen_fourth(&mut store, &owner, &sid, &accepted("A4", "M4")).unwrap();
    // chain-code rounds skipped: the chain-code value is missing
    let r = finalize(&mut store, &owner, &sid, &"MK".to_string());
    assert_eq!(r, Err(ProtocolError::IncompletePrerequisites));
    let r = finalize_begin(&store, &owner, &sid);
    assert!(matches!(r, Err(ProtocolError::IncompletePrerequisites)));
}

#[test]
fn full_protocol_run_stores_master_key() {
    let mut store = SessionStore::new();
    let owner = "acct1".to_string();
    let sid = "s1".to_string();
    let (echo, m1) = keygen_first(
        &mut store,
        &owner,
        &sid,
        &"A1".to_string(),
        &"M1".to_string(),
    )
    .unwrap();
    assert_eq!(echo, "s1");
    assert_eq!(m1, "M1");
    assert_eq!(
        keygen_second_begin(&store, &owner, &sid),
        Ok("A1".to_string())
    );
    assert_eq!(
        keygen_second(&mut store, &owner, &sid, &accepted("A2", "P2")),
        Ok("P2".to_string())
    );
    assert_eq!(
        keygen_third_begin(&store, &owner, &sid),
        Ok("A2".to_string())
    );
    assert_eq!(
        keygen_third(&mut store, &owner, &sid, &"A3".to_string(), &"M3".to_string()),
        Ok("M3".to_string())
    );
    assert_eq!(
        keygen_fourth_begin(&store, &owner, &sid),
        Ok(("A2".to_string(), "A3".to_string()))
    );
    assert_eq!(
        keygen_fourth(&mut store, &owner, &sid, &accepted("A4", "M4")),
        Ok("M4".to_string())
    );
    assert_eq!(
        chaincode_first(&mut store, &owner, &sid, &"C1".to_string(), &"N1".to_string()),
        Ok(("s1".to_string(), "N1".to_string()))
    );
    assert_eq!(
        chaincode_second_begin(&store, &owner, &sid),
        Ok("C1".to_string())
    );
    assert_eq!(
        chaincode_second(&mut store, &owner, &sid, &accepted("C2", "N2")),
        Ok("N2".to_string())
    );
    let inputs = finalize_begin(&store, &owner, &sid).unwrap();
    assert_eq!(inputs.chain_code, "C2");
    assert_eq!(inputs.keygen_first_state, "A1");
    assert_eq!(inputs.keygen_second_state, "A2");
    assert_eq!(inputs.proof_confirmation, "A4");
    assert_eq!(finalize(&mut store, &owner, &sid, &"MK".to_string()), Ok(()));
    assert_eq!(
        load_artifact(&store, &owner, &sid, ArtifactKind::MasterKey),
        Ok("MK".to_string())
    );
}

#[test]
fn corrupted_round_four_proof_blocks_finalize() {
    // the end-to-end failure scenario: key-gen rounds 1-3 succeed, the
    // counterparty's round-4 proof is rejected, and finalize then fails
    let mut store = SessionStore::new();
    let owner = "acct1".to_string();
    let sid = "s1".to_string();
    let (id, m1) = keygen_first(
        &mut store,
        &owner,
        &sid,
        &"A1".to_string(),
        &"M1".to_string(),
    )
    .unwrap();
    assert_eq!((id.as_str(), m1.as_str()), ("s1", "M1"));
    assert_eq!(
        keygen_second(&mut store, &owner, &sid, &accepted("A2", "P2")),
        Ok("P2".to_string())
    );
    assert_eq!(
        keygen_third(&mut store, &owner, &sid, &"A3".to_string(), &"M3".to_string()),
        Ok("M3".to_string())
    );
    let r = keygen_fourth(&mut store, &owner, &sid, &EngineOutcome::Rejected);
    assert_eq!(r, Err(ProtocolError::ProofInvalid));
    // no round-4 artifact was stored
    assert_eq!(
        load_artifact(&store, &owner, &sid, ArtifactKind::KeyGenFourth),
        Err(ProtocolError::SessionNotFound)
    );
    // chain-code rounds even succeeding cannot unlock the master key
    chaincode_first(&mut store, &owner, &sid, &"C1".to_string(), &"N1".to_string()).unwrap();
    chaincode_second(&mut store, &owner, &sid, &accepted("C2", "N2")).unwrap();
    let r = finalize(&mut store, &owner, &sid, &"MK".to_string());
    assert_eq!(r, Err(ProtocolError::IncompletePrerequisites));
}

#[test]
fn last_write_wins_for_a_retried_entry_round() {
    let mut store = SessionStore::new();
    let owner = "acct1".to_string();
    let sid = "s1".to_string();
    keygen_first(&mut store, &owner, &sid, &"A1".to_string(), &"M1".to_string()).unwrap();
    keygen_first(&mut store, &owner, &sid, &"A1b".to_string(), &"M1b".to_string()).unwrap();
    assert_eq!(
        keygen_second_begin(&store, &owner, &sid),
        Ok("A1b".to_string())
    );
}

#[test]
fn finalized_session_refuses_replayed_rounds() {
    let mut store = SessionStore::new();
    let owner = "acct1".to_string();
    let sid = "s1".to_string();
    keygen_first(&mut store, &owner, &sid, &"A1".to_string(), &"M1".to_string()).unwrap();
    keygen_second(&mut store, &owner, &sid, &accepted("A2", "P2")).unwrap();
    keygen_third(&mut store, &owner, &sid, &"A3".to_string(), &"M3".to_string()).unwrap();
    keygen_fourth(&mut store, &owner, &sid, &accepted("A4", "M4")).unwrap();
    chaincode_first(&mut store, &owner, &sid, &"C1".to_string(), &"N1".to_string()).unwrap();
    chaincode_second(&mut store, &owner, &sid, &accepted("C2", "N2")).unwrap();
    finalize(&mut store, &owner, &sid, &"MK".to_string()).unwrap();
    // every retried round of the finalized session is refused
    let r = keygen_first(
        &mut store,
        &owner,
        &sid,
        &"A1-replayed".to_string(),
        &"M1b".to_string(),
    );
    assert_eq!(r, Err(ProtocolError::SessionFinalized));
    let r = keygen_second(&mut store, &owner, &sid, &accepted("A2-replayed", "P2b"));
    assert_eq!(r, Err(ProtocolError::SessionFinalized));
    let r = chaincode_second(&mut store, &owner, &sid, &accepted("C2-replayed", "N2b"));
    assert_eq!(r, Err(ProtocolError::SessionFinalized));
    let r = finalize(&mut store, &owner, &sid, &"MK-replayed".to_string());
    assert_eq!(r, Err(ProtocolError::SessionFinalized));
    // the earlier artifacts remain retrievable and unchanged
    assert_eq!(
        load_artifact(&store, &owner, &sid, ArtifactKind::KeyGenFirst),
        Ok("A1".to_string())
    );
    assert_eq!(
        load_artifact(&store, &owner, &sid, ArtifactKind::KeyGenSecond),
        Ok("A2".to_string())
    );
    assert_eq!(
        load_artifact(&store, &owner, &sid, ArtifactKind::ChainCodeSecond),
        Ok("C2".to_string())
    );
    assert_eq!(
        load_artifact(&store, &owner, &sid, ArtifactKind::MasterKey),
        Ok("MK".to_string())
    );
    // another session of the same owner is not affected
    let r = keygen_first(
        &mut store,
        &owner,
        &"s2".to_string(),
        &"B1".to_string(),
        &"M1".to_string(),
    );
    assert_eq!(r, Ok(("s2".to_string(), "M1".to_string())));
}
