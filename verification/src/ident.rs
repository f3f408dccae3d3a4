//! Identifier scheme: deterministic, collision-free composition of
//! (owner id, session id, artifact kind) into a single storage key.
//!
//! Owner and session identifiers are valid when they are non-empty and
//! free of the reserved delimiter. Under that restriction the composed
//! key determines its three components uniquely, which is what keeps
//! artifacts of distinct owners, sessions and rounds apart in the store.

use vstd::prelude::*;
use vstd::string::StrSliceExecFns;
use vstd::string::StringExecFns;
use crate::errors::ProtocolError;

verus! {

broadcast use vstd::string::group_string_axioms;

/// The reserved delimiter of the identifier scheme. Owner and session
/// identifiers must not contain it.
pub const DELIMITER: char = '_';

/// One tag per protocol round whose completion is recorded in the store,
/// plus the terminal master-key tag.
#[derive(Clone, Copy, Debug, PartialEq, Eq, Structural)]
pub enum ArtifactKind {
    /// Local state of key-generation round 1, with its outbound first message.
    KeyGenFirst,
    /// State of key-generation round 2, including the encryption key material.
    KeyGenSecond,
    /// The PDL challenge material recorded by key-generation round 3.
    KeyGenThird,
    /// Confirmation that round 4 accepted the proof of correct key generation.
    KeyGenFourth,
    /// Local state of chain-code derivation round 1.
    ChainCodeFirst,
    /// The chain-code value produced by chain-code derivation round 2.
    ChainCodeSecond,
    /// The terminal master-key artifact assembled by finalize.
    MasterKey,
}

/// An owner or session identifier is valid when it is non-empty and
/// contains no occurrence of the reserved delimiter.
pub open spec fn valid_id(s: Seq<char>) -> bool {
    &&& s.len() > 0
    &&& forall|i: int| 0 <= i < s.len() ==> #[trigger] s[i] != DELIMITER
}

/// The distinct tag under which each artifact kind is stored.
pub open spec fn kind_tag(k: ArtifactKind) -> Seq<char> {
    match k {
        ArtifactKind::KeyGenFirst => "kgfirst"@,
        ArtifactKind::KeyGenSecond => "kgsecond"@,
        ArtifactKind::KeyGenThird => "kgthird"@,
        ArtifactKind::KeyGenFourth => "kgfourth"@,
        ArtifactKind::ChainCodeFirst => "ccfirst"@,
        ArtifactKind::ChainCodeSecond => "ccsecond"@,
        ArtifactKind::MasterKey => "masterkey"@,
    }
}

/// The composed storage key: owner, session id and kind tag joined by
/// the reserved delimiter.
pub open spec fn storage_key(owner: Seq<char>, sid: Seq<char>, kind: ArtifactKind) -> Seq<char> {
    owner + seq![DELIMITER] + sid + seq![DELIMITER] + kind_tag(kind)
}

/// Whether an identifier is valid: non-empty and free of the delimiter.
pub fn id_ok(s: &str) -> (r: bool)
    ensures
        r == valid_id(s@),
{
    let n: usize = s.unicode_len();
    if n == 0 {
        return false;
    }
    for i in 0..n
        invariant
            n == s@.len(),
            forall|j: int| 0 <= j < i ==> #[trigger] s@[j] != DELIMITER,
    {
        if s.get_char(i) == '_' {
            return false;
        }
    }
    true
}

/// The tag string under which an artifact kind is stored.
pub fn kind_tag_str(kind: ArtifactKind) -> (r: &'static str)
    ensures
        r@ == kind_tag(kind),
{
    match kind {
        ArtifactKind::KeyGenFirst => "kgfirst",
        ArtifactKind::KeyGenSecond => "kgsecond",
        ArtifactKind::KeyGenThird => "kgthird",
        ArtifactKind::KeyGenFourth => "kgfourth",
        ArtifactKind::ChainCodeFirst => "ccfirst",
        ArtifactKind::ChainCodeSecond => "ccsecond",
        ArtifactKind::MasterKey => "masterkey",
    }
}

/// Composes the storage key of (owner, session id, kind) without
/// validating the identifiers; the validated entry point is `compose`.
pub fn idify(user_id: &String, id: &String, kind: ArtifactKind) -> (r: String)
    ensures
        r@ == storage_key(user_id@, id@, kind),
{
    let mut k = user_id.clone();
    k.append("_");
    k.append(id.as_str());
    k.append("_");
    k.append(kind_tag_str(kind));
    proof {
        reveal_strlit("_");
        assert(k@ =~= storage_key(user_id@, id@, kind));
    }
    k
}

/// Distinct kinds carry distinct tags, case by case: each pair of tags
/// differs in its length or at one character index.
pub proof fn lemma_kind_tag_injective(k1: ArtifactKind, k2: ArtifactKind)
    requires
        kind_tag(k1) == kind_tag(k2),
    ensures
        k1 == k2,
{
    reveal_strlit("kgfirst");
    reveal_strlit("kgsecond");
    reveal_strlit("kgthird");
    reveal_strlit("kgfourth");
    reveal_strlit("ccfirst");
    reveal_strlit("ccsecond");
    reveal_strlit("masterkey");
    match (k1, k2) {
        (ArtifactKind::KeyGenFirst, ArtifactKind::KeyGenFirst) => {},
        (ArtifactKind::KeyGenFirst, ArtifactKind::KeyGenSecond) => {
            assert(kind_tag(ArtifactKind::KeyGenFirst) == "kgfirst"@);
            assert(kind_tag(ArtifactKind::KeyGenSecond) == "kgsecond"@);
            assert("kgfirst"@.len() == 7);
            assert("kgsecond"@.len() == 8);
            assert("kgfirst"@ != "kgsecond"@);
        },
        (ArtifactKind::KeyGenFirst, ArtifactKind::KeyGenThird) => {
            assert(kind_tag(ArtifactKind::KeyGenFirst) == "kgfirst"@);
            assert(kind_tag(ArtifactKind::KeyGenThird) == "kgthird"@);
            assert("kgfirst"@[2] != "kgthird"@[2]);
            assert("kgfirst"@ != "kgthird"@);
        },
        (ArtifactKind::KeyGenFirst, ArtifactKind::KeyGenFourth) => {
            assert(kind_tag(ArtifactKind::KeyGenFirst) == "kgfirst"@);
            assert(kind_tag(ArtifactKind::KeyGenFourth) == "kgfourth"@);
            assert("kgfirst"@.len() == 7);
            assert("kgfourth"@.len() == 8);
            assert("kgfirst"@ != "kgfourth"@);
        },
        (ArtifactKind::KeyGenFirst, ArtifactKind::ChainCodeFirst) => {
            assert(kind_tag(ArtifactKind::KeyGenFirst) == "kgfirst"@);
            assert(kind_tag(ArtifactKind::ChainCodeFirst) == "ccfirst"@);
            assert("kgfirst"@[0] != "ccfirst"@[0]);
            assert("kgfirst"@ != "ccfirst"@);
        },
        (ArtifactKind::KeyGenFirst, ArtifactKind::ChainCodeSecond) => {
            assert(kind_tag(ArtifactKind::KeyGenFirst) == "kgfirst"@);
            assert(kind_tag(ArtifactKind::ChainCodeSecond) == "ccsecond"@);
            assert("kgfirst"@.len() == 7);
            assert("ccsecond"@.len() == 8);
            assert("kgfirst"@ != "ccsecond"@);
        },
        (ArtifactKind::KeyGenFirst, ArtifactKind::MasterKey) => {
            assert(kind_tag(ArtifactKind::KeyGenFirst) == "kgfirst"@);
            assert(kind_tag(ArtifactKind::MasterKey) == "masterkey"@);
            assert("kgfirst"@.len() == 7);
            assert("masterkey"@.len() == 9);
            assert("kgfirst"@ != "masterkey"@);
        },
        (ArtifactKind::KeyGenSecond, ArtifactKind::KeyGenFirst) => {
            assert(kind_tag(ArtifactKind::KeyGenSecond) == "kgsecond"@);
            assert(kind_tag(ArtifactKind::KeyGenFirst) == "kgfirst"@);
            assert("kgsecond"@.len() == 8);
            assert("kgfirst"@.len() == 7);
            assert("kgsecond"@ != "kgfirst"@);
        },
        (ArtifactKind::KeyGenSecond, ArtifactKind::KeyGenSecond) => {},
        (ArtifactKind::KeyGenSecond, ArtifactKind::KeyGenThird) => {
            assert(kind_tag(ArtifactKind::KeyGenSecond) == "kgsecond"@);
            assert(kind_tag(ArtifactKind::KeyGenThird) == "kgthird"@);
            assert("kgsecond"@.len() == 8);
            assert("kgthird"@.len() == 7);
            assert("kgsecond"@ != "kgthird"@);
        },
        (ArtifactKind::KeyGenSecond, ArtifactKind::KeyGenFourth) => {
            assert(kind_tag(ArtifactKind::KeyGenSecond) == "kgsecond"@);
            assert(kind_tag(ArtifactKind::KeyGenFourth) == "kgfourth"@);
            assert("kgsecond"@[2] != "kgfourth"@[2]);
            assert("kgsecond"@ != "kgfourth"@);
        },
        (ArtifactKind::KeyGenSecond, ArtifactKind::ChainCodeFirst) => {
            assert(kind_tag(ArtifactKind::KeyGenSecond) == "kgsecond"@);
            assert(kind_tag(ArtifactKind::ChainCodeFirst) == "ccfirst"@);
            assert("kgsecond"@.len() == 8);
            assert("ccfirst"@.len() == 7);
            assert("kgsecond"@ != "ccfirst"@);
        },
        (ArtifactKind::KeyGenSecond, ArtifactKind::ChainCodeSecond) => {
            assert(kind_tag(ArtifactKind::KeyGenSecond) == "kgsecond"@);
            assert(kind_tag(ArtifactKind::ChainCodeSecond) == "ccsecond"@);
            assert("kgsecond"@[0] != "ccsecond"@[0]);
            assert("kgsecond"@ != "ccsecond"@);
        },
        (ArtifactKind::KeyGenSecond, ArtifactKind::MasterKey) => {
            assert(kind_tag(ArtifactKind::KeyGenSecond) == "kgsecond"@);
            assert(kind_tag(ArtifactKind::MasterKey) == "masterkey"@);
            assert("kgsecond"@.len() == 8);
            assert("masterkey"@.len() == 9);
            assert("kgsecond"@ != "masterkey"@);
        },
        (ArtifactKind::KeyGenThird, ArtifactKind::KeyGenFirst) => {
            assert(kind_tag(ArtifactKind::KeyGenThird) == "kgthird"@);
            assert(kind_tag(ArtifactKind::KeyGenFirst) == "kgfirst"@);
            assert("kgthird"@[2] != "kgfirst"@[2]);
            assert("kgthird"@ != "kgfirst"@);
        },
        (ArtifactKind::KeyGenThird, ArtifactKind::KeyGenSecond) => {
            assert(kind_tag(ArtifactKind::KeyGenThird) == "kgthird"@);
            assert(kind_tag(ArtifactKind::KeyGenSecond) == "kgsecond"@);
            assert("kgthird"@.len() == 7);
            assert("kgsecond"@.len() == 8);
            assert("kgthird"@ != "kgsecond"@);
        },
        (ArtifactKind::KeyGenThird, ArtifactKind::KeyGenThird) => {},
        (ArtifactKind::KeyGenThird, ArtifactKind::KeyGenFourth) => {
            assert(kind_tag(ArtifactKind::KeyGenThird) == "kgthird"@);
            assert(kind_tag(ArtifactKind::KeyGenFourth) == "kgfourth"@);
            assert("kgthird"@.len() == 7);
            assert("kgfourth"@.len() == 8);
            assert("kgthird"@ != "kgfourth"@);
        },
        (ArtifactKind::KeyGenThird, ArtifactKind::ChainCodeFirst) => {
            assert(kind_tag(ArtifactKind::KeyGenThird) == "kgthird"@);
            assert(kind_tag(ArtifactKind::ChainCodeFirst) == "ccfirst"@);
            assert("kgthird"@[0] != "ccfirst"@[0]);
            assert("kgthird"@ != "ccfirst"@);
        },
        (ArtifactKind::KeyGenThird, ArtifactKind::ChainCodeSecond) => {
            assert(kind_tag(ArtifactKind::KeyGenThird) == "kgthird"@);
            assert(kind_tag(ArtifactKind::ChainCodeSecond) == "ccsecond"@);
            assert("kgthird"@.len() == 7);
            assert("ccsecond"@.len() == 8);
            assert("kgthird"@ != "ccsecond"@);
        },
        (ArtifactKind::KeyGenThird, ArtifactKind::MasterKey) => {
            assert(kind_tag(ArtifactKind::KeyGenThird) == "kgthird"@);
            assert(kind_tag(ArtifactKind::MasterKey) == "masterkey"@);
            assert("kgthird"@.len() == 7);
            assert("masterkey"@.len() == 9);
            assert("kgthird"@ != "masterkey"@);
        },
        (ArtifactKind::KeyGenFourth, ArtifactKind::KeyGenFirst) => {
            assert(kind_tag(ArtifactKind::KeyGenFourth) == "kgfourth"@);
            assert(kind_tag(ArtifactKind::KeyGenFirst) == "kgfirst"@);
            assert("kgfourth"@.len() == 8);
            assert("kgfirst"@.len() == 7);
            assert("kgfourth"@ != "kgfirst"@);
        },
        (ArtifactKind::KeyGenFourth, ArtifactKind::KeyGenSecond) => {
            assert(kind_tag(ArtifactKind::KeyGenFourth) == "kgfourth"@);
            assert(kind_tag(ArtifactKind::KeyGenSecond) == "kgsecond"@);
            assert("kgfourth"@[2] != "kgsecond"@[2]);
            assert("kgfourth"@ != "kgsecond"@);
        },
        (ArtifactKind::KeyGenFourth, ArtifactKind::KeyGenThird) => {
            assert(kind_tag(ArtifactKind::KeyGenFourth) == "kgfourth"@);
            assert(kind_tag(ArtifactKind::KeyGenThird) == "kgthird"@);
            assert("kgfourth"@.len() == 8);
            assert("kgthird"@.len() == 7);
            assert("kgfourth"@ != "kgthird"@);
        },
        (ArtifactKind::KeyGenFourth, ArtifactKind::KeyGenFourth) => {},
        (ArtifactKind::KeyGenFourth, ArtifactKind::ChainCodeFirst) => {
            assert(kind_tag(ArtifactKind::KeyGenFourth) == "kgfourth"@);
            assert(kind_tag(ArtifactKind::ChainCodeFirst) == "ccfirst"@);
            assert("kgfourth"@.len() == 8);
            assert("ccfirst"@.len() == 7);
            assert("kgfourth"@ != "ccfirst"@);
        },
        (ArtifactKind::KeyGenFourth, ArtifactKind::ChainCodeSecond) => {
            assert(kind_tag(ArtifactKind::KeyGenFourth) == "kgfourth"@);
            assert(kind_tag(ArtifactKind::ChainCodeSecond) == "ccsecond"@);
            assert("kgfourth"@[0] != "ccsecond"@[0]);
            assert("kgfourth"@ != "ccsecond"@);
        },
        (ArtifactKind::KeyGenFourth, ArtifactKind::MasterKey) => {
            assert(kind_tag(ArtifactKind::KeyGenFourth) == "kgfourth"@);
            assert(kind_tag(ArtifactKind::MasterKey) == "masterkey"@);
            assert("kgfourth"@.len() == 8);
            assert("masterkey"@.len() == 9);
            assert("kgfourth"@ != "masterkey"@);
        },
        (ArtifactKind::ChainCodeFirst, ArtifactKind::KeyGenFirst) => {
            assert(kind_tag(ArtifactKind::ChainCodeFirst) == "ccfirst"@);
            assert(kind_tag(ArtifactKind::KeyGenFirst) == "kgfirst"@);
            assert("ccfirst"@[0] != "kgfirst"@[0]);
            assert("ccfirst"@ != "kgfirst"@);
        },
        (ArtifactKind::ChainCodeFirst, ArtifactKind::KeyGenSecond) => {
            assert(kind_tag(ArtifactKind::ChainCodeFirst) == "ccfirst"@);
            assert(kind_tag(ArtifactKind::KeyGenSecond) == "kgsecond"@);
            assert("ccfirst"@.len() == 7);
            assert("kgsecond"@.len() == 8);
            assert("ccfirst"@ != "kgsecond"@);
        },
        (ArtifactKind::ChainCodeFirst, ArtifactKind::KeyGenThird) => {
            assert(kind_tag(ArtifactKind::ChainCodeFirst) == "ccfirst"@);
            assert(kind_tag(ArtifactKind::KeyGenThird) == "kgthird"@);
            assert("ccfirst"@[0] != "kgthird"@[0]);
            assert("ccfirst"@ != "kgthird"@);
        },
        (ArtifactKind::ChainCodeFirst, ArtifactKind::KeyGenFourth) => {
            assert(kind_tag(ArtifactKind::ChainCodeFirst) == "ccfirst"@);
            assert(kind_tag(ArtifactKind::KeyGenFourth) == "kgfourth"@);
            assert("ccfirst"@.len() == 7);
            assert("kgfourth"@.len() == 8);
            assert("ccfirst"@ != "kgfourth"@);
        },
        (ArtifactKind::ChainCodeFirst, ArtifactKind::ChainCodeFirst) => {},
        (ArtifactKind::ChainCodeFirst, ArtifactKind::ChainCodeSecond) => {
            assert(kind_tag(ArtifactKind::ChainCodeFirst) == "ccfirst"@);
            assert(kind_tag(ArtifactKind::ChainCodeSecond) == "ccsecond"@);
            assert("ccfirst"@.len() == 7);
            assert("ccsecond"@.len() == 8);
            assert("ccfirst"@ != "ccsecond"@);
        },
        (ArtifactKind::ChainCodeFirst, ArtifactKind::MasterKey) => {
            assert(kind_tag(ArtifactKind::ChainCodeFirst) == "ccfirst"@);
            assert(kind_tag(ArtifactKind::MasterKey) == "masterkey"@);
            assert("ccfirst"@.len() == 7);
            assert("masterkey"@.len() == 9);
            assert("ccfirst"@ != "masterkey"@);
        },
        (ArtifactKind::ChainCodeSecond, ArtifactKind::KeyGenFirst) => {
            assert(kind_tag(ArtifactKind::ChainCodeSecond) == "ccsecond"@);
            assert(kind_tag(ArtifactKind::KeyGenFirst) == "kgfirst"@);
            assert("ccsecond"@.len() == 8);
            assert("kgfirst"@.len() == 7);
            assert("ccsecond"@ != "kgfirst"@);
        },
        (ArtifactKind::ChainCodeSecond, ArtifactKind::KeyGenSecond) => {
            assert(kind_tag(ArtifactKind::ChainCodeSecond) == "ccsecond"@);
            assert(kind_tag(ArtifactKind::KeyGenSecond) == "kgsecond"@);
            assert("ccsecond"@[0] != "kgsecond"@[0]);
            assert("ccsecond"@ != "kgsecond"@);
        },
        (ArtifactKind::ChainCodeSecond, ArtifactKind::KeyGenThird) => {
            assert(kind_tag(ArtifactKind::ChainCodeSecond) == "ccsecond"@);
            assert(kind_tag(ArtifactKind::KeyGenThird) == "kgthird"@);
            assert("ccsecond"@.len() == 8);
            assert("kgthird"@.len() == 7);
            assert("ccsecond"@ != "kgthird"@);
        },
        (ArtifactKind::ChainCodeSecond, ArtifactKind::KeyGenFourth) => {
            assert(kind_tag(ArtifactKind::ChainCodeSecond) == "ccsecond"@);
            assert(kind_tag(ArtifactKind::KeyGenFourth) == "kgfourth"@);
            assert("ccsecond"@[0] != "kgfourth"@[0]);
            assert("ccsecond"@ != "kgfourth"@);
        },
        (ArtifactKind::ChainCodeSecond, ArtifactKind::ChainCodeFirst) => {
            assert(kind_tag(ArtifactKind::ChainCodeSecond) == "ccsecond"@);
            assert(kind_tag(ArtifactKind::ChainCodeFirst) == "ccfirst"@);
            assert("ccsecond"@.len() == 8);
            assert("ccfirst"@.len() == 7);
            assert("ccsecond"@ != "ccfirst"@);
        },
        (ArtifactKind::ChainCodeSecond, ArtifactKind::ChainCodeSecond) => {},
        (ArtifactKind::ChainCodeSecond, ArtifactKind::MasterKey) => {
            assert(kind_tag(ArtifactKind::ChainCodeSecond) == "ccsecond"@);
            assert(kind_tag(ArtifactKind::MasterKey) == "masterkey"@);
            assert("ccsecond"@.len() == 8);
            assert("masterkey"@.len() == 9);
            assert("ccsecond"@ != "masterkey"@);
        },
        (ArtifactKind::MasterKey, ArtifactKind::KeyGenFirst) => {
            assert(kind_tag(ArtifactKind::MasterKey) == "masterkey"@);
            assert(kind_tag(ArtifactKind::KeyGenFirst) == "kgfirst"@);
            assert("masterkey"@.len() == 9);
            assert("kgfirst"@.len() == 7);
            assert("masterkey"@ != "kgfirst"@);
        },
        (ArtifactKind::MasterKey, ArtifactKind::KeyGenSecond) => {
            assert(kind_tag(ArtifactKind::MasterKey) == "masterkey"@);
            assert(kind_tag(ArtifactKind::KeyGenSecond) == "kgsecond"@);
            assert("masterkey"@.len() == 9);
            assert("kgsecond"@.len() == 8);
            assert("masterkey"@ != "kgsecond"@);
        },
        (ArtifactKind::MasterKey, ArtifactKind::KeyGenThird) => {
            assert(kind_tag(ArtifactKind::MasterKey) == "masterkey"@);
            assert(kind_tag(ArtifactKind::KeyGenThird) == "kgthird"@);
            assert("masterkey"@.len() == 9);
            assert("kgthird"@.len() == 7);
            assert("masterkey"@ != "kgthird"@);
        },
        (ArtifactKind::MasterKey, ArtifactKind::KeyGenFourth) => {
            assert(kind_tag(ArtifactKind::MasterKey) == "masterkey"@);
            assert(kind_tag(ArtifactKind::KeyGenFourth) == "kgfourth"@);
            assert("masterkey"@.len() == 9);
            assert("kgfourth"@.len() == 8);
            assert("masterkey"@ != "kgfourth"@);
        },
        (ArtifactKind::MasterKey, ArtifactKind::ChainCodeFirst) => {
            assert(kind_tag(ArtifactKind::MasterKey) == "masterkey"@);
            assert(kind_tag(ArtifactKind::ChainCodeFirst) == "ccfirst"@);
            assert("masterkey"@.len() == 9);
            assert("ccfirst"@.len() == 7);
            assert("masterkey"@ != "ccfirst"@);
        },
        (ArtifactKind::MasterKey, ArtifactKind::ChainCodeSecond) => {
            assert(kind_tag(ArtifactKind::MasterKey) == "masterkey"@);
            assert(kind_tag(ArtifactKind::ChainCodeSecond) == "ccsecond"@);
            assert("masterkey"@.len() == 9);
            assert("ccsecond"@.len() == 8);
            assert("masterkey"@ != "ccsecond"@);
        },
        (ArtifactKind::MasterKey, ArtifactKind::MasterKey) => {},
    }
}


/// Shape of a composed key: the components sit at fixed offsets, and the
/// two delimiter positions are determined by the component lengths.
pub proof fn lemma_key_shape(o: Seq<char>, s: Seq<char>, k: ArtifactKind)
    requires
        valid_id(o),
        valid_id(s),
    ensures
        storage_key(o, s, k).len() == o.len() + s.len() + kind_tag(k).len() + 2,
        forall|i: int| 0 <= i < o.len() ==> #[trigger] storage_key(o, s, k)[i] == o[i],
        storage_key(o, s, k)[o.len() as int] == DELIMITER,
        forall|i: int|
            0 <= i < s.len() ==> #[trigger] storage_key(o, s, k)[o.len() + 1int + i] == s[i],
        storage_key(o, s, k)[o.len() + s.len() + 1int] == DELIMITER,
        forall|i: int|
            0 <= i < kind_tag(k).len() ==> #[trigger] storage_key(o, s, k)[o.len() + s.len() + 2int
                + i] == kind_tag(k)[i],
{
}

/// The identifier scheme is collision-free: two composed keys of valid
/// identifiers agree only when owner, session id and kind all agree.
pub proof fn lemma_storage_key_injective(
    o1: Seq<char>,
    s1: Seq<char>,
    k1: ArtifactKind,
    o2: Seq<char>,
    s2: Seq<char>,
    k2: ArtifactKind,
)
    requires
        valid_id(o1),
        valid_id(s1),
        valid_id(o2),
        valid_id(s2),
        storage_key(o1, s1, k1) == storage_key(o2, s2, k2),
    ensures
        o1 == o2,
        s1 == s2,
        k1 == k2,
{
    lemma_key_shape(o1, s1, k1);
    lemma_key_shape(o2, s2, k2);
    let kk = storage_key(o1, s1, k1);
    if o1.len() < o2.len() {
        assert(kk[o1.len() as int] == DELIMITER);
        assert(kk[o1.len() as int] == o2[o1.len() as int]);
        assert(false);
    }
    if o2.len() < o1.len() {
        assert(kk[o2.len() as int] == DELIMITER);
        assert(kk[o2.len() as int] == o1[o2.len() as int]);
        assert(false);
    }
    assert forall|i: int| 0 <= i < o1.len() implies o1[i] == o2[i] by {
        assert(storage_key(o1, s1, k1)[i] == o1[i]);
        assert(storage_key(o2, s2, k2)[i] == o2[i]);
    }
    assert(o1 =~= o2);
    if s1.len() < s2.len() {
        assert(kk[o1.len() + s1.len() + 1int] == DELIMITER);
        assert(kk[o2.len() + 1int + s1.len()] == s2[s1.len() as int]);
        assert(false);
    }
    if s2.len() < s1.len() {
        assert(kk[o2.len() + s2.len() + 1int] == DELIMITER);
        assert(kk[o1.len() + 1int + s2.len()] == s1[s2.len() as int]);
        assert(false);
    }
    assert forall|i: int| 0 <= i < s1.len() implies s1[i] == s2[i] by {
        assert(storage_key(o1, s1, k1)[o1.len() + 1int + i] == s1[i]);
        assert(storage_key(o2, s2, k2)[o2.len() + 1int + i] == s2[i]);
    }
    assert(s1 =~= s2);
    assert(kind_tag(k1).len() == kind_tag(k2).len());
    assert forall|i: int| 0 <= i < kind_tag(k1).len() implies kind_tag(k1)[i] == kind_tag(
        k2,
    )[i] by {
        assert(kk[o1.len() + s1.len() + 2int + i] == kind_tag(k1)[i]);
        assert(kk[o2.len() + s2.len() + 2int + i] == kind_tag(k2)[i]);
    }
    assert(kind_tag(k1) =~= kind_tag(k2));
    lemma_kind_tag_injective(k1, k2);
}

/// Artifacts of distinct owners never collide: inserting under one owner's
/// key leaves every lookup under another owner's key unchanged, even for
/// the same session id.
pub proof fn lemma_owner_isolation(
    c: Map<Seq<char>, Seq<char>>,
    o1: Seq<char>,
    o2: Seq<char>,
    sid: Seq<char>,
    k1: ArtifactKind,
    k2: ArtifactKind,
    v: Seq<char>,
)
    requires
        valid_id(o1),
        valid_id(o2),
        valid_id(sid),
        o1 != o2,
    ensures
        c.insert(storage_key(o1, sid, k1), v).contains_key(storage_key(o2, sid, k2))
            == c.contains_key(storage_key(o2, sid, k2)),
        c.contains_key(storage_key(o2, sid, k2)) ==> c.insert(storage_key(o1, sid, k1), v)[
            storage_key(o2, sid, k2)] == c[storage_key(o2, sid, k2)],
{
    if storage_key(o1, sid, k1) == storage_key(o2, sid, k2) {
        lemma_storage_key_injective(o1, sid, k1, o2, sid, k2);
    }
}


/// Validated composition: the storage key of (owner, session id, kind),
/// or `InvalidIdentifier` when either identifier is empty or contains
/// the reserved delimiter. Validation happens before any store access.
pub fn compose(owner_id: &String, session_id: &String, kind: ArtifactKind) -> (r: Result<
    String,
    ProtocolError,
>)
    ensures
        r is Ok <==> valid_id(owner_id@) && valid_id(session_id@),
        r matches Result::Ok(k) ==> k@ == storage_key(owner_id@, session_id@, kind),
        r is Err ==> r == Result::<String, ProtocolError>::Err(ProtocolError::InvalidIdentifier),
{
    if !(id_ok(owner_id.as_str()) && id_ok(session_id.as_str())) {
        return Err(ProtocolError::InvalidIdentifier);
    }
    Ok(idify(owner_id, session_id, kind))
}

} // verus!
