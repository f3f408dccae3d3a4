//! Session orchestrator: the protocol state machine that sequences the
//! key-generation and chain-code rounds of a session.
//!
//! Every round is an independent request. A consuming round first checks
//! that the artifact it consumes is present for (owner, session id) —
//! `SessionNotFound` otherwise — then gates on the engine's outcome:
//! a rejected proof aborts the round with `ProofInvalid` and persists
//! nothing, an accepted outcome persists the round's artifact and returns
//! the outbound message. Finalize demands every prerequisite artifact of
//! both sub-protocols before the master key is stored. Once the terminal
//! master-key artifact exists for a session, every mutating operation of
//! that session is refused with `SessionFinalized`: earlier artifacts
//! stay retrievable and are never overwritten by a retried round.
//!
//! The behaviour of each operation is captured by a relation between the
//! store contents before and after the call; the laws at the end of this
//! module (retry idempotence, abort-stores-nothing, isolation of rounds,
//! no master key without every prerequisite) are proved over those
//! relations.

use vstd::prelude::*;
use crate::errors::ProtocolError;
use crate::errors::StoreError;
use crate::ident::ArtifactKind;
use crate::ident::id_ok;
use crate::ident::lemma_storage_key_injective;
use crate::ident::storage_key;
use crate::ident::valid_id;
use crate::store::Db;
use crate::store::DbIndex;

verus! {

/// What the engine handed back for a round that can reject an inbound
/// message: the artifact to persist plus the outbound message, or a
/// proof-verification failure.
pub enum EngineOutcome {
    /// The engine accepted the inbound message and produced this round's
    /// artifact and outbound message.
    Accepted { artifact: String, outbound: String },
    /// The engine rejected the inbound proof.
    Rejected,
}

/// Both identifiers of a session are valid under the identifier scheme.
pub open spec fn ids_valid(owner: Seq<char>, sid: Seq<char>) -> bool {
    valid_id(owner) && valid_id(sid)
}

/// The engine outcome carries an accepted result.
pub open spec fn engine_accepted(e: EngineOutcome) -> bool {
    match e {
        EngineOutcome::Accepted { artifact: _, outbound: _ } => true,
        EngineOutcome::Rejected => false,
    }
}

/// The artifact of an accepted engine outcome.
pub open spec fn engine_artifact(e: EngineOutcome) -> Seq<char> {
    match e {
        EngineOutcome::Accepted { artifact, outbound: _ } => artifact@,
        EngineOutcome::Rejected => Seq::empty(),
    }
}

/// The outbound message of an accepted engine outcome.
pub open spec fn engine_outbound(e: EngineOutcome) -> Seq<char> {
    match e {
        EngineOutcome::Accepted { artifact: _, outbound } => outbound@,
        EngineOutcome::Rejected => Seq::empty(),
    }
}

/// View of a round result: the outbound message as a character sequence.
pub open spec fn res_view(r: Result<String, ProtocolError>) -> Result<Seq<char>, ProtocolError> {
    match r {
        Result::Ok(m) => Result::Ok(m@),
        Result::Err(e) => Result::Err(e),
    }
}

/// View of an entry-round result: session id and outbound message.
pub open spec fn pair_view(r: Result<(String, String), ProtocolError>) -> Result<
    (Seq<char>, Seq<char>),
    ProtocolError,
> {
    match r {
        Result::Ok(p) => Result::Ok((p.0@, p.1@)),
        Result::Err(e) => Result::Err(e),
    }
}

/// The result is exactly the given error.
pub open spec fn is_err<T>(r: Result<T, ProtocolError>, e: ProtocolError) -> bool {
    r == Result::<T, ProtocolError>::Err(e)
}

/// The result is a store failure.
pub open spec fn is_store_err<T>(r: Result<T, ProtocolError>) -> bool {
    r matches Result::Err(ProtocolError::Store(_))
}

/// Relation of an entry round (key-generation round 1, chain-code
/// round 1): no artifact is consumed; the round's artifact is persisted
/// and (session id, outbound message) is returned.
pub open spec fn entry_round_rel(
    c0: Map<Seq<char>, Seq<char>>,
    c1: Map<Seq<char>, Seq<char>>,
    owner: Seq<char>,
    sid: Seq<char>,
    produces: ArtifactKind,
    art: Seq<char>,
    outbound: Seq<char>,
    r: Result<(Seq<char>, Seq<char>), ProtocolError>,
) -> bool {
    let mk = storage_key(owner, sid, ArtifactKind::MasterKey);
    &&& (r matches Result::Ok(p) ==> ids_valid(owner, sid) && !c0.contains_key(mk) && p.0 == sid
        && p.1 == outbound && c1 == c0.insert(storage_key(owner, sid, produces), art))
    &&& (r is Err ==> c1 == c0)
    &&& (is_err(r, ProtocolError::InvalidIdentifier) <==> !ids_valid(owner, sid))
    &&& (is_err(r, ProtocolError::SessionFinalized) ==> ids_valid(owner, sid) && c0.contains_key(
        mk,
    ))
    &&& (ids_valid(owner, sid) && c0.contains_key(mk) ==> is_err(
        r,
        ProtocolError::SessionFinalized,
    ) || is_store_err(r))
    &&& (ids_valid(owner, sid) && !c0.contains_key(mk) ==> r is Ok || is_store_err(r))
    &&& (r matches Result::Err(e) ==> e == ProtocolError::InvalidIdentifier || e
        == ProtocolError::SessionFinalized || e matches ProtocolError::Store(_))
}

/// Relation of a load: the artifact of the given kind is looked up for
/// (owner, session id); absence is `SessionNotFound`.
pub open spec fn load_rel(
    c: Map<Seq<char>, Seq<char>>,
    owner: Seq<char>,
    sid: Seq<char>,
    kind: ArtifactKind,
    r: Result<Seq<char>, ProtocolError>,
) -> bool {
    let k = storage_key(owner, sid, kind);
    &&& (r matches Result::Ok(v) ==> ids_valid(owner, sid) && c.contains_key(k) && v == c[k])
    &&& (is_err(r, ProtocolError::InvalidIdentifier) <==> !ids_valid(owner, sid))
    &&& (is_err(r, ProtocolError::SessionNotFound) ==> ids_valid(owner, sid) && !c.contains_key(k))
    &&& (ids_valid(owner, sid) && c.contains_key(k) ==> r is Ok || is_store_err(r))
    &&& (ids_valid(owner, sid) && !c.contains_key(k) ==> is_err(r, ProtocolError::SessionNotFound)
        || is_store_err(r))
    &&& (r matches Result::Err(e) ==> e == ProtocolError::InvalidIdentifier || e
        == ProtocolError::SessionNotFound || e matches ProtocolError::Store(_))
}

/// Relation of a consuming round: the round may proceed only when the
/// artifact it consumes is present; a rejected engine outcome aborts the
/// round and persists nothing; an accepted outcome persists the produced
/// artifact and returns the outbound message. A failed round never leaves
/// a partially-written artifact.
pub open spec fn round_rel(
    c0: Map<Seq<char>, Seq<char>>,
    c1: Map<Seq<char>, Seq<char>>,
    owner: Seq<char>,
    sid: Seq<char>,
    consumes: ArtifactKind,
    produces: ArtifactKind,
    eng_ok: bool,
    art: Seq<char>,
    outbound: Seq<char>,
    r: Result<Seq<char>, ProtocolError>,
) -> bool {
    let pk = storage_key(owner, sid, consumes);
    let mk = storage_key(owner, sid, ArtifactKind::MasterKey);
    &&& (r matches Result::Ok(m) ==> ids_valid(owner, sid) && !c0.contains_key(mk)
        && c0.contains_key(pk) && eng_ok && m == outbound && c1 == c0.insert(
        storage_key(owner, sid, produces),
        art,
    ))
    &&& (r is Err ==> c1 == c0)
    &&& (is_err(r, ProtocolError::InvalidIdentifier) <==> !ids_valid(owner, sid))
    &&& (is_err(r, ProtocolError::SessionFinalized) ==> ids_valid(owner, sid) && c0.contains_key(
        mk,
    ))
    &&& (is_err(r, ProtocolError::SessionNotFound) ==> ids_valid(owner, sid) && !c0.contains_key(
        mk,
    ) && !c0.contains_key(pk))
    &&& (is_err(r, ProtocolError::ProofInvalid) ==> ids_valid(owner, sid) && !c0.contains_key(mk)
        && c0.contains_key(pk) && !eng_ok)
    &&& (ids_valid(owner, sid) && c0.contains_key(mk) ==> is_err(
        r,
        ProtocolError::SessionFinalized,
    ) || is_store_err(r))
    &&& (ids_valid(owner, sid) && !c0.contains_key(mk) && !c0.contains_key(pk) ==> is_err(
        r,
        ProtocolError::SessionNotFound,
    ) || is_store_err(r))
    &&& (ids_valid(owner, sid) && !c0.contains_key(mk) && c0.contains_key(pk) && !eng_ok
        ==> is_err(r, ProtocolError::ProofInvalid) || is_store_err(r))
    &&& (ids_valid(owner, sid) && !c0.contains_key(mk) && c0.contains_key(pk) && eng_ok ==> r
        is Ok || is_store_err(r))
    &&& (r matches Result::Err(e) ==> e == ProtocolError::InvalidIdentifier || e
        == ProtocolError::SessionFinalized || e == ProtocolError::SessionNotFound || e
        == ProtocolError::ProofInvalid || e matches ProtocolError::Store(_))
}

/// Every artifact the finalize operation requires is present: the
/// chain-code value, the round-1 state, the round-2 encryption key
/// material and the round-4 proof confirmation.
pub open spec fn finalize_ready(c: Map<Seq<char>, Seq<char>>, owner: Seq<char>, sid: Seq<char>) -> bool {
    &&& c.contains_key(storage_key(owner, sid, ArtifactKind::ChainCodeSecond))
    &&& c.contains_key(storage_key(owner, sid, ArtifactKind::KeyGenFirst))
    &&& c.contains_key(storage_key(owner, sid, ArtifactKind::KeyGenSecond))
    &&& c.contains_key(storage_key(owner, sid, ArtifactKind::KeyGenFourth))
}

/// Relation of finalize: the master key is persisted only when every
/// prerequisite artifact of both sub-protocols is present.
pub open spec fn finalize_rel(
    c0: Map<Seq<char>, Seq<char>>,
    c1: Map<Seq<char>, Seq<char>>,
    owner: Seq<char>,
    sid: Seq<char>,
    master: Seq<char>,
    r: Result<(), ProtocolError>,
) -> bool {
    let mk = storage_key(owner, sid, ArtifactKind::MasterKey);
    &&& (r is Ok ==> ids_valid(owner, sid) && !c0.contains_key(mk) && finalize_ready(
        c0,
        owner,
        sid,
    ) && c1 == c0.insert(mk, master))
    &&& (r is Err ==> c1 == c0)
    &&& (is_err(r, ProtocolError::InvalidIdentifier) <==> !ids_valid(owner, sid))
    &&& (is_err(r, ProtocolError::SessionFinalized) ==> ids_valid(owner, sid) && c0.contains_key(
        mk,
    ))
    &&& (is_err(r, ProtocolError::IncompletePrerequisites) ==> ids_valid(owner, sid)
        && !c0.contains_key(mk) && !finalize_ready(c0, owner, sid))
    &&& (ids_valid(owner, sid) && c0.contains_key(mk) ==> is_err(
        r,
        ProtocolError::SessionFinalized,
    ) || is_store_err(r))
    &&& (ids_valid(owner, sid) && !c0.contains_key(mk) && !finalize_ready(c0, owner, sid)
        ==> is_err(r, ProtocolError::IncompletePrerequisites) || is_store_err(r))
    &&& (ids_valid(owner, sid) && !c0.contains_key(mk) && finalize_ready(c0, owner, sid) ==> r
        is Ok || is_store_err(r))
    &&& (r matches Result::Err(e) ==> e == ProtocolError::InvalidIdentifier || e
        == ProtocolError::SessionFinalized || e == ProtocolError::IncompletePrerequisites || e
        matches ProtocolError::Store(_))
}

/// Loads the artifact of the given kind for (owner, session id); the
/// round that consumes it hands it to the engine.
pub fn load_artifact<T: Db>(
    store: &T,
    owner: &String,
    session_id: &String,
    kind: ArtifactKind,
) -> (r: Result<String, ProtocolError>)
    ensures
        load_rel(store.contents(), owner@, session_id@, kind, res_view(r)),
{
    if !(id_ok(owner.as_str()) && id_ok(session_id.as_str())) {
        return Err(ProtocolError::InvalidIdentifier);
    }
    let idx = DbIndex { customer_id: owner.clone(), id: session_id.clone() };
    match store.get(&idx, kind) {
        Ok(Some(v)) => Ok(v),
        Ok(None) => Err(ProtocolError::SessionNotFound),
        Err(e) => Err(ProtocolError::Store(e)),
    }
}

/// Runs an entry round: persists the round-1 artifact and returns the
/// session id with the outbound message.
fn run_entry<T: Db>(
    store: &mut T,
    owner: &String,
    session_id: &String,
    produces: ArtifactKind,
    artifact: &String,
    outbound: &String,
) -> (r: Result<(String, String), ProtocolError>)
    ensures
        entry_round_rel(
            old(store).contents(),
            final(store).contents(),
            owner@,
            session_id@,
            produces,
            artifact@,
            outbound@,
            pair_view(r),
        ),
{
    if !(id_ok(owner.as_str()) && id_ok(session_id.as_str())) {
        return Err(ProtocolError::InvalidIdentifier);
    }
    let idx = DbIndex { customer_id: owner.clone(), id: session_id.clone() };
    match store.get(&idx, ArtifactKind::MasterKey) {
        Err(e) => {
            return Err(ProtocolError::Store(e));
        },
        Ok(Some(_)) => {
            return Err(ProtocolError::SessionFinalized);
        },
        Ok(None) => {},
    }
    match store.insert(&idx, produces, artifact) {
        Ok(()) => Ok((session_id.clone(), outbound.clone())),
        Err(e) => Err(ProtocolError::Store(e)),
    }
}

/// Runs a consuming round: gates on the consumed artifact's presence and
/// on the engine outcome, then persists the produced artifact.
fn run_round<T: Db>(
    store: &mut T,
    owner: &String,
    session_id: &String,
    consumes: ArtifactKind,
    produces: ArtifactKind,
    engine: &EngineOutcome,
) -> (r: Result<String, ProtocolError>)
    ensures
        round_rel(
            old(store).contents(),
            final(store).contents(),
            owner@,
            session_id@,
            consumes,
            produces,
            engine_accepted(*engine),
            engine_artifact(*engine),
            engine_outbound(*engine),
            res_view(r),
        ),
{
    if !(id_ok(owner.as_str()) && id_ok(session_id.as_str())) {
        return Err(ProtocolError::InvalidIdentifier);
    }
    let idx = DbIndex { customer_id: owner.clone(), id: session_id.clone() };
    match store.get(&idx, ArtifactKind::MasterKey) {
        Err(e) => {
            return Err(ProtocolError::Store(e));
        },
        Ok(Some(_)) => {
            return Err(ProtocolError::SessionFinalized);
        },
        Ok(None) => {},
    }
    match store.get(&idx, consumes) {
        Err(e) => {
            return Err(ProtocolError::Store(e));
        },
        Ok(None) => {
            return Err(ProtocolError::SessionNotFound);
        },
        Ok(Some(_)) => {},
    }
    match engine {
        EngineOutcome::Rejected => Err(ProtocolError::ProofInvalid),
        EngineOutcome::Accepted { artifact, outbound } => {
            match store.insert(&idx, produces, artifact) {
                Ok(()) => Ok(outbound.clone()),
                Err(e) => Err(ProtocolError::Store(e)),
            }
        },
    }
}

/// Key-generation round 1: no artifact is consumed; the engine's local
/// first-round state is persisted and (session id, outbound first
/// message) is returned to the caller. The transport layer supplies the
/// session id and must pick a fresh one per key-generation attempt; the
/// core does not enforce uniqueness itself.
pub fn keygen_first<T: Db>(
    store: &mut T,
    owner: &String,
    session_id: &String,
    artifact: &String,
    outbound: &String,
) -> (r: Result<(String, String), ProtocolError>)
    ensures
        entry_round_rel(
            old(store).contents(),
            final(store).contents(),
            owner@,
            session_id@,
            ArtifactKind::KeyGenFirst,
            artifact@,
            outbound@,
            pair_view(r),
        ),
{
    run_entry(store, owner, session_id, ArtifactKind::KeyGenFirst, artifact, outbound)
}

/// Loads the round-1 state that key-generation round 2 consumes.
pub fn keygen_second_begin<T: Db>(store: &T, owner: &String, session_id: &String) -> (r: Result<
    String,
    ProtocolError,
>)
    ensures
        load_rel(store.contents(), owner@, session_id@, ArtifactKind::KeyGenFirst, res_view(r)),
{
    load_artifact(store, owner, session_id, ArtifactKind::KeyGenFirst)
}

/// Key-generation round 2: consumes the round-1 state; on an accepted
/// engine outcome persists the round-2 state (the encryption key
/// material) and returns the outbound proof; a rejected proof aborts the
/// round without persisting anything.
pub fn keygen_second<T: Db>(
    store: &mut T,
    owner: &String,
    session_id: &String,
    engine: &EngineOutcome,
) -> (r: Result<String, ProtocolError>)
    ensures
        round_rel(
            old(store).contents(),
            final(store).contents(),
            owner@,
            session_id@,
            ArtifactKind::KeyGenFirst,
            ArtifactKind::KeyGenSecond,
            engine_accepted(*engine),
            engine_artifact(*engine),
            engine_outbound(*engine),
            res_view(r),
        ),
{
    run_round(
        store,
        owner,
        session_id,
        ArtifactKind::KeyGenFirst,
        ArtifactKind::KeyGenSecond,
        engine,
    )
}

/// Loads the round-2 challenge material that key-generation round 3
/// consumes.
pub fn keygen_third_begin<T: Db>(store: &T, owner: &String, session_id: &String) -> (r: Result<
    String,
    ProtocolError,
>)
    ensures
        load_rel(store.contents(), owner@, session_id@, ArtifactKind::KeyGenSecond, res_view(r)),
{
    load_artifact(store, owner, session_id, ArtifactKind::KeyGenSecond)
}

/// Key-generation round 3: consumes the round-2 challenge material,
/// persists the PDL challenge state and returns the round-3
/// decommitment. The engine signals no failure for this round.
pub fn keygen_third<T: Db>(
    store: &mut T,
    owner: &String,
    session_id: &String,
    artifact: &String,
    outbound: &String,
) -> (r: Result<String, ProtocolError>)
    ensures
        round_rel(
            old(store).contents(),
            final(store).contents(),
            owner@,
            session_id@,
            ArtifactKind::KeyGenSecond,
            ArtifactKind::KeyGenThird,
            true,
            artifact@,
            outbound@,
            res_view(r),
        ),
{
    let engine = EngineOutcome::Accepted { artifact: artifact.clone(), outbound: outbound.clone() };
    run_round(
        store,
        owner,
        session_id,
        ArtifactKind::KeyGenSecond,
        ArtifactKind::KeyGenThird,
        &engine,
    )
}

/// Loads what key-generation round 4 consumes: the round-2 challenge
/// material and the PDL challenge state of round 3.
pub fn keygen_fourth_begin<T: Db>(store: &T, owner: &String, session_id: &String) -> (r: Result<
    (String, String),
    ProtocolError,
>)
    ensures
        pair_view(r) matches Result::Ok(p) ==> ids_valid(owner@, session_id@) && store.contents()
            .contains_key(storage_key(owner@, session_id@, ArtifactKind::KeyGenSecond))
            && store.contents().contains_key(
            storage_key(owner@, session_id@, ArtifactKind::KeyGenThird),
        ) && p.0 == store.contents()[storage_key(owner@, session_id@, ArtifactKind::KeyGenSecond)]
            && p.1 == store.contents()[storage_key(
            owner@,
            session_id@,
            ArtifactKind::KeyGenThird,
        )],
        is_err(pair_view(r), ProtocolError::InvalidIdentifier) <==> !ids_valid(owner@, session_id@),
        is_err(pair_view(r), ProtocolError::SessionNotFound) ==> ids_valid(owner@, session_id@) && (
        !store.contents().contains_key(
            storage_key(owner@, session_id@, ArtifactKind::KeyGenSecond),
        ) || !store.contents().contains_key(
            storage_key(owner@, session_id@, ArtifactKind::KeyGenThird),
        )),
        ids_valid(owner@, session_id@) && store.contents().contains_key(
            storage_key(owner@, session_id@, ArtifactKind::KeyGenSecond),
        ) && store.contents().contains_key(
            storage_key(owner@, session_id@, ArtifactKind::KeyGenThird),
        ) ==> r is Ok || is_store_err(pair_view(r)),
        r matches Result::Err(e) ==> e == ProtocolError::InvalidIdentifier || e
            == ProtocolError::SessionNotFound || e matches ProtocolError::Store(_),
{
    let challenge = match load_artifact(store, owner, session_id, ArtifactKind::KeyGenSecond) {
        Ok(v) => v,
        Err(e) => {
            return Err(e);
        },
    };
    let pdl_state = match load_artifact(store, owner, session_id, ArtifactKind::KeyGenThird) {
        Ok(v) => v,
        Err(e) => {
            return Err(e);
        },
    };
    Ok((challenge, pdl_state))
}

/// Key-generation round 4, the terminal round of the key-generation
/// sub-protocol: consumes the PDL challenge state; on an accepted engine
/// outcome persists the proof confirmation and returns the outbound
/// message; on `ProofInvalid` the session is aborted and no master key
/// will be derivable.
pub fn keygen_fourth<T: Db>(
    store: &mut T,
    owner: &String,
    session_id: &String,
    engine: &EngineOutcome,
) -> (r: Result<String, ProtocolError>)
    ensures
        round_rel(
            old(store).contents(),
            final(store).contents(),
            owner@,
            session_id@,
            ArtifactKind::KeyGenThird,
            ArtifactKind::KeyGenFourth,
            engine_accepted(*engine),
            engine_artifact(*engine),
            engine_outbound(*engine),
            res_view(r),
        ),
{
    run_round(
        store,
        owner,
        session_id,
        ArtifactKind::KeyGenThird,
        ArtifactKind::KeyGenFourth,
        engine,
    )
}

/// Chain-code round 1: no artifact is consumed; the local chain-code
/// state is persisted and (session id, outbound message) is returned.
pub fn chaincode_first<T: Db>(
    store: &mut T,
    owner: &String,
    session_id: &String,
    artifact: &String,
    outbound: &String,
) -> (r: Result<(String, String), ProtocolError>)
    ensures
        entry_round_rel(
            old(store).contents(),
            final(store).contents(),
            owner@,
            session_id@,
            ArtifactKind::ChainCodeFirst,
            artifact@,
            outbound@,
            pair_view(r),
        ),
{
    run_entry(store, owner, session_id, ArtifactKind::ChainCodeFirst, artifact, outbound)
}

/// Loads the chain-code round-1 state that chain-code round 2 consumes.
pub fn chaincode_second_begin<T: Db>(store: &T, owner: &String, session_id: &String) -> (r: Result<
    String,
    ProtocolError,
>)
    ensures
        load_rel(
            store.contents(),
            owner@,
            session_id@,
            ArtifactKind::ChainCodeFirst,
            res_view(r),
        ),
{
    load_artifact(store, owner, session_id, ArtifactKind::ChainCodeFirst)
}

/// Chain-code round 2: consumes the chain-code round-1 state; on an
/// accepted engine outcome persists the chain-code value and returns the
/// outbound message; a rejected proof aborts the round.
pub fn chaincode_second<T: Db>(
    store: &mut T,
    owner: &String,
    session_id: &String,
    engine: &EngineOutcome,
) -> (r: Result<String, ProtocolError>)
    ensures
        round_rel(
            old(store).contents(),
            final(store).contents(),
            owner@,
            session_id@,
            ArtifactKind::ChainCodeFirst,
            ArtifactKind::ChainCodeSecond,
            engine_accepted(*engine),
            engine_artifact(*engine),
            engine_outbound(*engine),
            res_view(r),
        ),
{
    run_round(
        store,
        owner,
        session_id,
        ArtifactKind::ChainCodeFirst,
        ArtifactKind::ChainCodeSecond,
        engine,
    )
}

/// The artifacts that finalize hands to the engine to assemble the
/// master key.
pub struct FinalizeInputs {
    /// The chain-code value of chain-code round 2.
    pub chain_code: String,
    /// The key-generation round-1 state.
    pub keygen_first_state: String,
    /// The key-generation round-2 state with the encryption key material.
    pub keygen_second_state: String,
    /// The round-4 confirmation that the proof of correct key generation
    /// was accepted.
    pub proof_confirmation: String,
}

/// Loads every artifact that finalize requires; fails with
/// `IncompletePrerequisites` while any of them is missing.
pub fn finalize_begin<T: Db>(store: &T, owner: &String, session_id: &String) -> (r: Result<
    FinalizeInputs,
    ProtocolError,
>)
    ensures
        r matches Result::Ok(f) ==> ids_valid(owner@, session_id@) && finalize_ready(
            store.contents(),
            owner@,
            session_id@,
        ) && f.chain_code@ == store.contents()[storage_key(
            owner@,
            session_id@,
            ArtifactKind::ChainCodeSecond,
        )] && f.keygen_first_state@ == store.contents()[storage_key(
            owner@,
            session_id@,
            ArtifactKind::KeyGenFirst,
        )] && f.keygen_second_state@ == store.contents()[storage_key(
            owner@,
            session_id@,
            ArtifactKind::KeyGenSecond,
        )] && f.proof_confirmation@ == store.contents()[storage_key(
            owner@,
            session_id@,
            ArtifactKind::KeyGenFourth,
        )],
        (r matches Result::Err(e) && e == ProtocolError::InvalidIdentifier) <==> !ids_valid(
            owner@,
            session_id@,
        ),
        r matches Result::Err(e) && e == ProtocolError::IncompletePrerequisites ==> ids_valid(
            owner@,
            session_id@,
        ) && !finalize_ready(store.contents(), owner@, session_id@),
        ids_valid(owner@, session_id@) && !finalize_ready(store.contents(), owner@, session_id@)
            ==> (r matches Result::Err(e) && (e == ProtocolError::IncompletePrerequisites
            || e matches ProtocolError::Store(_))),
        ids_valid(owner@, session_id@) && finalize_ready(store.contents(), owner@, session_id@)
            ==> r is Ok || (r matches Result::Err(e) && (e matches ProtocolError::Store(_))),
        r matches Result::Err(e) ==> e == ProtocolError::InvalidIdentifier || e
            == ProtocolError::IncompletePrerequisites || e matches ProtocolError::Store(_),
{
    if !(id_ok(owner.as_str()) && id_ok(session_id.as_str())) {
        return Err(ProtocolError::InvalidIdentifier);
    }
    let idx = DbIndex { customer_id: owner.clone(), id: session_id.clone() };
    let chain_code = match store.get(&idx, ArtifactKind::ChainCodeSecond) {
        Ok(Some(v)) => v,
        Ok(None) => {
            return Err(ProtocolError::IncompletePrerequisites);
        },
        Err(e) => {
            return Err(ProtocolError::Store(e));
        },
    };
    let keygen_first_state = match store.get(&idx, ArtifactKind::KeyGenFirst) {
        Ok(Some(v)) => v,
        Ok(None) => {
            return Err(ProtocolError::IncompletePrerequisites);
        },
        Err(e) => {
            return Err(ProtocolError::Store(e));
        },
    };
    let keygen_second_state = match store.get(&idx, ArtifactKind::KeyGenSecond) {
        Ok(Some(v)) => v,
        Ok(None) => {
            return Err(ProtocolError::IncompletePrerequisites);
        },
        Err(e) => {
            return Err(ProtocolError::Store(e));
        },
    };
    let proof_confirmation = match store.get(&idx, ArtifactKind::KeyGenFourth) {
        Ok(Some(v)) => v,
        Ok(None) => {
            return Err(ProtocolError::IncompletePrerequisites);
        },
        Err(e) => {
            return Err(ProtocolError::Store(e));
        },
    };
    Ok(
        (FinalizeInputs {
            chain_code,
            keygen_first_state,
            keygen_second_state,
            proof_confirmation,
        }),
    )
}

/// Finalize: re-checks that every prerequisite artifact of both
/// sub-protocols is present, then persists the assembled master key
/// under the terminal kind.
pub fn finalize<T: Db>(
    store: &mut T,
    owner: &String,
    session_id: &String,
    master_key: &String,
) -> (r: Result<(), ProtocolError>)
    ensures
        finalize_rel(
            old(store).contents(),
            final(store).contents(),
            owner@,
            session_id@,
            master_key@,
            r,
        ),
{
    if !(id_ok(owner.as_str()) && id_ok(session_id.as_str())) {
        return Err(ProtocolError::InvalidIdentifier);
    }
    let idx = DbIndex { customer_id: owner.clone(), id: session_id.clone() };
    match store.get(&idx, ArtifactKind::MasterKey) {
        Err(e) => {
            return Err(ProtocolError::Store(e));
        },
        Ok(Some(_)) => {
            return Err(ProtocolError::SessionFinalized);
        },
        Ok(None) => {},
    }
    match store.get(&idx, ArtifactKind::ChainCodeSecond) {
        Ok(Some(_)) => {},
        Ok(None) => {
            return Err(ProtocolError::IncompletePrerequisites);
        },
        Err(e) => {
            return Err(ProtocolError::Store(e));
        },
    }
    match store.get(&idx, ArtifactKind::KeyGenFirst) {
        Ok(Some(_)) => {},
        Ok(None) => {
            return Err(ProtocolError::IncompletePrerequisites);
        },
        Err(e) => {
            return Err(ProtocolError::Store(e));
        },
    }
    match store.get(&idx, ArtifactKind::KeyGenSecond) {
        Ok(Some(_)) => {},
        Ok(None) => {
            return Err(ProtocolError::IncompletePrerequisites);
        },
        Err(e) => {
            return Err(ProtocolError::Store(e));
        },
    }
    match store.get(&idx, ArtifactKind::KeyGenFourth) {
        Ok(Some(_)) => {},
        Ok(None) => {
            return Err(ProtocolError::IncompletePrerequisites);
        },
        Err(e) => {
            return Err(ProtocolError::Store(e));
        },
    }
    match store.insert(&idx, ArtifactKind::MasterKey, master_key) {
        Ok(()) => Ok(()),
        Err(e) => Err(ProtocolError::Store(e)),
    }
}

/// Law: a round invocation that failed left the store contents
/// unchanged, and a successful invocation's result and stored artifact
/// are determined by the inputs and the prior contents alone; so
/// retrying a round after a failure — a store that was unavailable
/// persisted nothing — ends in the same outbound message and the same
/// stored artifact as a single successful call.
pub proof fn lemma_retry_after_failure_idempotent(
    c0: Map<Seq<char>, Seq<char>>,
    cmid: Map<Seq<char>, Seq<char>>,
    cretry: Map<Seq<char>, Seq<char>>,
    csingle: Map<Seq<char>, Seq<char>>,
    owner: Seq<char>,
    sid: Seq<char>,
    consumes: ArtifactKind,
    produces: ArtifactKind,
    eng_ok: bool,
    art: Seq<char>,
    outbound: Seq<char>,
    rf: Result<Seq<char>, ProtocolError>,
    rr: Result<Seq<char>, ProtocolError>,
    rs: Result<Seq<char>, ProtocolError>,
)
    requires
        round_rel(c0, cmid, owner, sid, consumes, produces, eng_ok, art, outbound, rf),
        rf is Err,
        round_rel(cmid, cretry, owner, sid, consumes, produces, eng_ok, art, outbound, rr),
        rr is Ok,
        round_rel(c0, csingle, owner, sid, consumes, produces, eng_ok, art, outbound, rs),
        rs is Ok,
    ensures
        cretry == csingle,
        rr == rs,
{
}

/// Law: a round whose engine outcome was a rejection never succeeds and
/// leaves no artifact in the store; under valid identifiers and a
/// present prerequisite it reports `ProofInvalid` unless the store
/// itself failed.
pub proof fn lemma_rejected_round_persists_nothing(
    c0: Map<Seq<char>, Seq<char>>,
    c1: Map<Seq<char>, Seq<char>>,
    owner: Seq<char>,
    sid: Seq<char>,
    consumes: ArtifactKind,
    produces: ArtifactKind,
    art: Seq<char>,
    outbound: Seq<char>,
    r: Result<Seq<char>, ProtocolError>,
)
    requires
        round_rel(c0, c1, owner, sid, consumes, produces, false, art, outbound, r),
    ensures
        !(r is Ok),
        c1 == c0,
        ids_valid(owner, sid) && !c0.contains_key(storage_key(owner, sid, ArtifactKind::MasterKey))
            && c0.contains_key(storage_key(owner, sid, consumes)) ==> is_err(
            r,
            ProtocolError::ProofInvalid,
        ) || is_store_err(r),
        ids_valid(owner, sid) && c0.contains_key(storage_key(owner, sid, ArtifactKind::MasterKey))
            ==> is_err(r, ProtocolError::SessionFinalized) || is_store_err(r),
{
}

/// Law: a round rejects invalid identifiers before any store access:
/// under an invalid owner or session id it returns `InvalidIdentifier`
/// and the store contents are untouched.
pub proof fn lemma_invalid_identifier_rejected(
    c0: Map<Seq<char>, Seq<char>>,
    c1: Map<Seq<char>, Seq<char>>,
    owner: Seq<char>,
    sid: Seq<char>,
    consumes: ArtifactKind,
    produces: ArtifactKind,
    eng_ok: bool,
    art: Seq<char>,
    outbound: Seq<char>,
    r: Result<Seq<char>, ProtocolError>,
)
    requires
        round_rel(c0, c1, owner, sid, consumes, produces, eng_ok, art, outbound, r),
        !ids_valid(owner, sid),
    ensures
        is_err(r, ProtocolError::InvalidIdentifier),
        c1 == c0,
{
}

/// Law: a successful round writes only its own artifact: every other
/// (owner, session id, kind) triple sees the same presence and payload
/// as before the round. In particular sessions of two different owners
/// with identical session ids never collide.
pub proof fn lemma_round_touches_only_its_artifact(
    c0: Map<Seq<char>, Seq<char>>,
    c1: Map<Seq<char>, Seq<char>>,
    owner: Seq<char>,
    sid: Seq<char>,
    consumes: ArtifactKind,
    produces: ArtifactKind,
    eng_ok: bool,
    art: Seq<char>,
    outbound: Seq<char>,
    r: Result<Seq<char>, ProtocolError>,
    other_owner: Seq<char>,
    other_sid: Seq<char>,
    other_kind: ArtifactKind,
)
    requires
        round_rel(c0, c1, owner, sid, consumes, produces, eng_ok, art, outbound, r),
        valid_id(other_owner),
        valid_id(other_sid),
        !(other_owner == owner && other_sid == sid && other_kind == produces),
    ensures
        c1.contains_key(storage_key(other_owner, other_sid, other_kind)) == c0.contains_key(
            storage_key(other_owner, other_sid, other_kind),
        ),
        c0.contains_key(storage_key(other_owner, other_sid, other_kind)) ==> c1[storage_key(
            other_owner,
            other_sid,
            other_kind,
        )] == c0[storage_key(other_owner, other_sid, other_kind)],
{
    if r is Ok {
        if storage_key(owner, sid, produces) == storage_key(other_owner, other_sid, other_kind) {
            lemma_storage_key_injective(owner, sid, produces, other_owner, other_sid, other_kind);
        }
    }
}

/// Law: no master key is derivable while any prerequisite round's
/// artifact is missing: finalize fails and stores nothing.
pub proof fn lemma_no_master_key_without_prerequisites(
    c0: Map<Seq<char>, Seq<char>>,
    c1: Map<Seq<char>, Seq<char>>,
    owner: Seq<char>,
    sid: Seq<char>,
    master: Seq<char>,
    r: Result<(), ProtocolError>,
)
    requires
        finalize_rel(c0, c1, owner, sid, master, r),
        !finalize_ready(c0, owner, sid),
    ensures
        r is Err,
        c1 == c0,
        ids_valid(owner, sid) && !c0.contains_key(storage_key(owner, sid, ArtifactKind::MasterKey))
            ==> is_err(r, ProtocolError::IncompletePrerequisites) || is_store_err(r),
{
}


/// Law: no round other than finalize can make the master-key artifact
/// appear: a round that produces any other kind leaves the master key's
/// presence for its session exactly as it was.
pub proof fn lemma_only_finalize_writes_master_key(
    c0: Map<Seq<char>, Seq<char>>,
    c1: Map<Seq<char>, Seq<char>>,
    owner: Seq<char>,
    sid: Seq<char>,
    consumes: ArtifactKind,
    produces: ArtifactKind,
    eng_ok: bool,
    art: Seq<char>,
    outbound: Seq<char>,
    r: Result<Seq<char>, ProtocolError>,
)
    requires
        round_rel(c0, c1, owner, sid, consumes, produces, eng_ok, art, outbound, r),
        produces != ArtifactKind::MasterKey,
    ensures
        c1.contains_key(storage_key(owner, sid, ArtifactKind::MasterKey)) == c0.contains_key(
            storage_key(owner, sid, ArtifactKind::MasterKey),
        ),
{
    if ids_valid(owner, sid) {
        lemma_round_touches_only_its_artifact(
            c0,
            c1,
            owner,
            sid,
            consumes,
            produces,
            eng_ok,
            art,
            outbound,
            r,
            owner,
            sid,
            ArtifactKind::MasterKey,
        );
    }
}


/// The fixed (consumes, produces) pairs of the consuming rounds.
pub open spec fn round_pair(consumes: ArtifactKind, produces: ArtifactKind) -> bool {
    ||| (consumes == ArtifactKind::KeyGenFirst && produces == ArtifactKind::KeyGenSecond)
    ||| (consumes == ArtifactKind::KeyGenSecond && produces == ArtifactKind::KeyGenThird)
    ||| (consumes == ArtifactKind::KeyGenThird && produces == ArtifactKind::KeyGenFourth)
    ||| (consumes == ArtifactKind::ChainCodeFirst && produces == ArtifactKind::ChainCodeSecond)
}

/// The kinds an entry round may produce.
pub open spec fn entry_kind(k: ArtifactKind) -> bool {
    k == ArtifactKind::KeyGenFirst || k == ArtifactKind::ChainCodeFirst
}

/// The kinds whose presence finalize requires.
pub open spec fn is_finalize_prereq(k: ArtifactKind) -> bool {
    ||| k == ArtifactKind::ChainCodeSecond
    ||| k == ArtifactKind::KeyGenFirst
    ||| k == ArtifactKind::KeyGenSecond
    ||| k == ArtifactKind::KeyGenFourth
}

/// One orchestrator operation, as a transition on the store contents:
/// an entry round, a consuming round of one of the protocol's fixed
/// (consumes, produces) pairs, a finalize, or a read, which changes
/// nothing. Every operation of this module makes exactly such a step:
/// the mutating operations ensure the corresponding relation with one of
/// these kind choices, and the loads take the store immutably.
pub open spec fn orchestrator_step(c0: Map<Seq<char>, Seq<char>>, c1: Map<Seq<char>, Seq<char>>) -> bool {
    ||| (exists|
        owner: Seq<char>,
        sid: Seq<char>,
        produces: ArtifactKind,
        art: Seq<char>,
        outbound: Seq<char>,
        r: Result<(Seq<char>, Seq<char>), ProtocolError>,
    |
        entry_kind(produces) && #[trigger] entry_round_rel(
            c0,
            c1,
            owner,
            sid,
            produces,
            art,
            outbound,
            r,
        ))
    ||| (exists|
        owner: Seq<char>,
        sid: Seq<char>,
        consumes: ArtifactKind,
        produces: ArtifactKind,
        eng_ok: bool,
        art: Seq<char>,
        outbound: Seq<char>,
        r: Result<Seq<char>, ProtocolError>,
    |
        round_pair(consumes, produces) && #[trigger] round_rel(
            c0,
            c1,
            owner,
            sid,
            consumes,
            produces,
            eng_ok,
            art,
            outbound,
            r,
        ))
    ||| (exists|owner: Seq<char>, sid: Seq<char>, master: Seq<char>, r: Result<(), ProtocolError>|
        #[trigger] finalize_rel(c0, c1, owner, sid, master, r))
    ||| c1 == c0
}

/// A sequence of store contents reached by orchestrator operations: each
/// adjacent pair is one step.
pub open spec fn orchestrator_trace(t: Seq<Map<Seq<char>, Seq<char>>>) -> bool {
    forall|i: int| 0 <= i < t.len() - 1 ==> #[trigger] orchestrator_step(t[i], t[i + 1])
}

/// An entry round is an orchestrator step.
pub proof fn lemma_entry_round_is_step(
    c0: Map<Seq<char>, Seq<char>>,
    c1: Map<Seq<char>, Seq<char>>,
    owner: Seq<char>,
    sid: Seq<char>,
    produces: ArtifactKind,
    art: Seq<char>,
    outbound: Seq<char>,
    r: Result<(Seq<char>, Seq<char>), ProtocolError>,
)
    requires
        entry_kind(produces),
        entry_round_rel(c0, c1, owner, sid, produces, art, outbound, r),
    ensures
        orchestrator_step(c0, c1),
{
}

/// A consuming round of one of the protocol's pairs is an orchestrator
/// step.
pub proof fn lemma_round_is_step(
    c0: Map<Seq<char>, Seq<char>>,
    c1: Map<Seq<char>, Seq<char>>,
    owner: Seq<char>,
    sid: Seq<char>,
    consumes: ArtifactKind,
    produces: ArtifactKind,
    eng_ok: bool,
    art: Seq<char>,
    outbound: Seq<char>,
    r: Result<Seq<char>, ProtocolError>,
)
    requires
        round_pair(consumes, produces),
        round_rel(c0, c1, owner, sid, consumes, produces, eng_ok, art, outbound, r),
    ensures
        orchestrator_step(c0, c1),
{
}

/// A finalize is an orchestrator step.
pub proof fn lemma_finalize_is_step(
    c0: Map<Seq<char>, Seq<char>>,
    c1: Map<Seq<char>, Seq<char>>,
    owner: Seq<char>,
    sid: Seq<char>,
    master: Seq<char>,
    r: Result<(), ProtocolError>,
)
    requires
        finalize_rel(c0, c1, owner, sid, master, r),
    ensures
        orchestrator_step(c0, c1),
{
}

/// One step cannot make a session's master key appear while one of that
/// session's prerequisite artifacts is missing: only finalize writes the
/// master-key kind, and finalize succeeds only with every prerequisite
/// present.
pub proof fn lemma_step_preserves_no_master_key(
    c0: Map<Seq<char>, Seq<char>>,
    c1: Map<Seq<char>, Seq<char>>,
    owner: Seq<char>,
    sid: Seq<char>,
    missing: ArtifactKind,
)
    requires
        orchestrator_step(c0, c1),
        valid_id(owner),
        valid_id(sid),
        is_finalize_prereq(missing),
        !c0.contains_key(storage_key(owner, sid, missing)),
        !c0.contains_key(storage_key(owner, sid, ArtifactKind::MasterKey)),
    ensures
        !c1.contains_key(storage_key(owner, sid, ArtifactKind::MasterKey)),
{
    let mk = storage_key(owner, sid, ArtifactKind::MasterKey);
    if c1 == c0 {
    } else if exists|
        o2: Seq<char>,
        s2: Seq<char>,
        produces: ArtifactKind,
        art: Seq<char>,
        outbound: Seq<char>,
        r: Result<(Seq<char>, Seq<char>), ProtocolError>,
    |
        entry_kind(produces) && #[trigger] entry_round_rel(
            c0,
            c1,
            o2,
            s2,
            produces,
            art,
            outbound,
            r,
        ) {
        let (o2, s2, produces, art, outbound, r) = choose|
            o2: Seq<char>,
            s2: Seq<char>,
            produces: ArtifactKind,
            art: Seq<char>,
            outbound: Seq<char>,
            r: Result<(Seq<char>, Seq<char>), ProtocolError>,
        |
            entry_kind(produces) && #[trigger] entry_round_rel(
                c0,
                c1,
                o2,
                s2,
                produces,
                art,
                outbound,
                r,
            );
        if r is Ok {
            if storage_key(o2, s2, produces) == mk {
                lemma_storage_key_injective(o2, s2, produces, owner, sid, ArtifactKind::MasterKey);
            }
        }
    } else if exists|
        o2: Seq<char>,
        s2: Seq<char>,
        consumes: ArtifactKind,
        produces: ArtifactKind,
        eng_ok: bool,
        art: Seq<char>,
        outbound: Seq<char>,
        r: Result<Seq<char>, ProtocolError>,
    |
        round_pair(consumes, produces) && #[trigger] round_rel(
            c0,
            c1,
            o2,
            s2,
            consumes,
            produces,
            eng_ok,
            art,
            outbound,
            r,
        ) {
        let (o2, s2, consumes, produces, eng_ok, art, outbound, r) = choose|
            o2: Seq<char>,
            s2: Seq<char>,
            consumes: ArtifactKind,
            produces: ArtifactKind,
            eng_ok: bool,
            art: Seq<char>,
            outbound: Seq<char>,
            r: Result<Seq<char>, ProtocolError>,
        |
            round_pair(consumes, produces) && #[trigger] round_rel(
                c0,
                c1,
                o2,
                s2,
                consumes,
                produces,
                eng_ok,
                art,
                outbound,
                r,
            );
        if r is Ok {
            if storage_key(o2, s2, produces) == mk {
                lemma_storage_key_injective(o2, s2, produces, owner, sid, ArtifactKind::MasterKey);
            }
        }
    } else {
        let (o2, s2, master, r) = choose|
            o2: Seq<char>,
            s2: Seq<char>,
            master: Seq<char>,
            r: Result<(), ProtocolError>,
        | #[trigger] finalize_rel(c0, c1, o2, s2, master, r);
        if r is Ok {
            if storage_key(o2, s2, ArtifactKind::MasterKey) == mk {
                lemma_storage_key_injective(
                    o2,
                    s2,
                    ArtifactKind::MasterKey,
                    owner,
                    sid,
                    ArtifactKind::MasterKey,
                );
                assert(finalize_ready(c0, owner, sid));
            }
        }
    }
}

/// Law (whole history): across any sequence of orchestrator operations,
/// a session's master-key artifact is derivable only if every
/// prerequisite round succeeded: while one prerequisite artifact has
/// been missing throughout and no master key was stored to begin with,
/// no state of the sequence holds a master key for that session.
pub proof fn lemma_master_key_requires_every_round(
    t: Seq<Map<Seq<char>, Seq<char>>>,
    owner: Seq<char>,
    sid: Seq<char>,
    missing: ArtifactKind,
)
    requires
        t.len() > 0,
        orchestrator_trace(t),
        valid_id(owner),
        valid_id(sid),
        is_finalize_prereq(missing),
        forall|i: int|
            0 <= i < t.len() ==> !(#[trigger] t[i]).contains_key(storage_key(owner, sid, missing)),
        !t[0].contains_key(storage_key(owner, sid, ArtifactKind::MasterKey)),
    ensures
        forall|i: int|
            0 <= i < t.len() ==> !(#[trigger] t[i]).contains_key(
                storage_key(owner, sid, ArtifactKind::MasterKey),
            ),
    decreases t.len(),
{
    if t.len() > 1 {
        let prev = t.subrange(0, t.len() - 1);
        assert forall|i: int| 0 <= i < prev.len() - 1 implies #[trigger] orchestrator_step(
            prev[i],
            prev[i + 1],
        ) by {
            assert(orchestrator_step(t[i], t[i + 1]));
        }
        lemma_master_key_requires_every_round(prev, owner, sid, missing);
        let j: int = t.len() - 2;
        assert(prev[j] == t[j]);
        assert(!prev[j].contains_key(storage_key(owner, sid, ArtifactKind::MasterKey)));
        assert(orchestrator_step(t[j], t[j + 1]));
        lemma_step_preserves_no_master_key(t[j], t[j + 1], owner, sid, missing);
        assert forall|i: int| 0 <= i < t.len() implies !(#[trigger] t[i]).contains_key(
            storage_key(owner, sid, ArtifactKind::MasterKey),
        ) by {
            if i < t.len() - 1 {
                assert(t[i] == prev[i]);
            } else {
                assert(t[i] == t[j + 1]);
            }
        }
    }
}


/// Every artifact of (owner, session id) has the same presence and the
/// same payload in `c1` as in `c0`.
pub open spec fn session_artifacts_unchanged(
    c0: Map<Seq<char>, Seq<char>>,
    c1: Map<Seq<char>, Seq<char>>,
    owner: Seq<char>,
    sid: Seq<char>,
) -> bool {
    forall|k: ArtifactKind|
        (#[trigger] c1.contains_key(storage_key(owner, sid, k))) == c0.contains_key(
            storage_key(owner, sid, k),
        ) && (c0.contains_key(storage_key(owner, sid, k)) ==> c1[storage_key(owner, sid, k)]
            == c0[storage_key(owner, sid, k)])
}

/// Inserting an artifact of a session that is not yet finalized leaves
/// every artifact of a finalized session untouched.
proof fn lemma_insert_elsewhere_keeps_session(
    c0: Map<Seq<char>, Seq<char>>,
    o2: Seq<char>,
    s2: Seq<char>,
    p2: ArtifactKind,
    art: Seq<char>,
    owner: Seq<char>,
    sid: Seq<char>,
)
    requires
        valid_id(o2),
        valid_id(s2),
        valid_id(owner),
        valid_id(sid),
        !c0.contains_key(storage_key(o2, s2, ArtifactKind::MasterKey)),
        c0.contains_key(storage_key(owner, sid, ArtifactKind::MasterKey)),
    ensures
        session_artifacts_unchanged(c0, c0.insert(storage_key(o2, s2, p2), art), owner, sid),
{
    let c1 = c0.insert(storage_key(o2, s2, p2), art);
    assert forall|k: ArtifactKind|
        (#[trigger] c1.contains_key(storage_key(owner, sid, k))) == c0.contains_key(
            storage_key(owner, sid, k),
        ) && (c0.contains_key(storage_key(owner, sid, k)) ==> c1[storage_key(owner, sid, k)]
            == c0[storage_key(owner, sid, k)]) by {
        if storage_key(o2, s2, p2) == storage_key(owner, sid, k) {
            lemma_storage_key_injective(o2, s2, p2, owner, sid, k);
        }
    }
}

/// Law (replay protection, one step): once a session's terminal
/// master-key artifact is stored, no orchestrator operation changes any
/// artifact of that session: a mutating round or finalize for the
/// session is refused, and operations of other sessions write other
/// keys.
pub proof fn lemma_finalized_session_is_frozen(
    c0: Map<Seq<char>, Seq<char>>,
    c1: Map<Seq<char>, Seq<char>>,
    owner: Seq<char>,
    sid: Seq<char>,
)
    requires
        orchestrator_step(c0, c1),
        valid_id(owner),
        valid_id(sid),
        c0.contains_key(storage_key(owner, sid, ArtifactKind::MasterKey)),
    ensures
        session_artifacts_unchanged(c0, c1, owner, sid),
{
    if c1 == c0 {
        assert(session_artifacts_unchanged(c0, c1, owner, sid));
    } else if exists|
        o2: Seq<char>,
        s2: Seq<char>,
        produces: ArtifactKind,
        art: Seq<char>,
        outbound: Seq<char>,
        r: Result<(Seq<char>, Seq<char>), ProtocolError>,
    |
        entry_kind(produces) && #[trigger] entry_round_rel(
            c0,
            c1,
            o2,
            s2,
            produces,
            art,
            outbound,
            r,
        ) {
        let (o2, s2, produces, art, outbound, r) = choose|
            o2: Seq<char>,
            s2: Seq<char>,
            produces: ArtifactKind,
            art: Seq<char>,
            outbound: Seq<char>,
            r: Result<(Seq<char>, Seq<char>), ProtocolError>,
        |
            entry_kind(produces) && #[trigger] entry_round_rel(
                c0,
                c1,
                o2,
                s2,
                produces,
                art,
                outbound,
                r,
            );
        if r is Ok {
            lemma_insert_elsewhere_keeps_session(c0, o2, s2, produces, art, owner, sid);
        } else {
            assert(session_artifacts_unchanged(c0, c1, owner, sid));
        }
    } else if exists|
        o2: Seq<char>,
        s2: Seq<char>,
        consumes: ArtifactKind,
        produces: ArtifactKind,
        eng_ok: bool,
        art: Seq<char>,
        outbound: Seq<char>,
        r: Result<Seq<char>, ProtocolError>,
    |
        round_pair(consumes, produces) && #[trigger] round_rel(
            c0,
            c1,
            o2,
            s2,
            consumes,
            produces,
            eng_ok,
            art,
            outbound,
            r,
        ) {
        let (o2, s2, consumes, produces, eng_ok, art, outbound, r) = choose|
            o2: Seq<char>,
            s2: Seq<char>,
            consumes: ArtifactKind,
            produces: ArtifactKind,
            eng_ok: bool,
            art: Seq<char>,
            outbound: Seq<char>,
            r: Result<Seq<char>, ProtocolError>,
        |
            round_pair(consumes, produces) && #[trigger] round_rel(
                c0,
                c1,
                o2,
                s2,
                consumes,
                produces,
                eng_ok,
                art,
                outbound,
                r,
            );
        if r is Ok {
            lemma_insert_elsewhere_keeps_session(c0, o2, s2, produces, art, owner, sid);
        } else {
            assert(session_artifacts_unchanged(c0, c1, owner, sid));
        }
    } else {
        let (o2, s2, master, r) = choose|
            o2: Seq<char>,
            s2: Seq<char>,
            master: Seq<char>,
            r: Result<(), ProtocolError>,
        | #[trigger] finalize_rel(c0, c1, o2, s2, master, r);
        if r is Ok {
            lemma_insert_elsewhere_keeps_session(
                c0,
                o2,
                s2,
                ArtifactKind::MasterKey,
                master,
                owner,
                sid,
            );
        } else {
            assert(session_artifacts_unchanged(c0, c1, owner, sid));
        }
    }
}

/// Law (replay protection, whole history): across any sequence of
/// orchestrator operations, every artifact of a finalized session stays
/// exactly as it was when its master key was present: earlier round
/// artifacts remain retrievable and are never overwritten by a retried
/// round.
pub proof fn lemma_finalized_session_stays_frozen(
    t: Seq<Map<Seq<char>, Seq<char>>>,
    owner: Seq<char>,
    sid: Seq<char>,
)
    requires
        t.len() > 0,
        orchestrator_trace(t),
        valid_id(owner),
        valid_id(sid),
        t[0].contains_key(storage_key(owner, sid, ArtifactKind::MasterKey)),
    ensures
        forall|i: int|
            0 <= i < t.len() ==> #[trigger] session_artifacts_unchanged(t[0], t[i], owner, sid),
    decreases t.len(),
{
    if t.len() == 1 {
        assert(session_artifacts_unchanged(t[0], t[0], owner, sid));
    } else {
        let prev = t.subrange(0, t.len() - 1);
        assert forall|i: int| 0 <= i < prev.len() - 1 implies #[trigger] orchestrator_step(
            prev[i],
            prev[i + 1],
        ) by {
            assert(orchestrator_step(t[i], t[i + 1]));
        }
        lemma_finalized_session_stays_frozen(prev, owner, sid);
        let j: int = t.len() - 2;
        assert(prev[j] == t[j]);
        assert(prev[0] == t[0]);
        assert(session_artifacts_unchanged(t[0], t[j], owner, sid));
        assert(t[j].contains_key(storage_key(owner, sid, ArtifactKind::MasterKey)));
        assert(orchestrator_step(t[j], t[j + 1]));
        lemma_finalized_session_is_frozen(t[j], t[j + 1], owner, sid);
        assert(session_artifacts_unchanged(t[0], t[j + 1], owner, sid));
        assert forall|i: int| 0 <= i < t.len() implies #[trigger] session_artifacts_unchanged(
            t[0],
            t[i],
            owner,
            sid,
        ) by {
            if i < t.len() - 1 {
                assert(t[i] == prev[i]);
            } else {
                assert(t[i] == t[j + 1]);
            }
        }
    }
}

} // verus!
