//! Delegated authorization: did a known identity endorse exactly these
//! bytes?
//!
//! Two independent mechanisms answer that question — a transaction-scoped
//! signature log and a standalone certificate blob — but both carry the
//! same envelope layout, compared over a common textual encoding (hex):
//! the signer's encoding occupies one fixed offset range of the
//! envelope's encoding and the message's encoding another, with exact
//! equality at those offsets, never substring search.

use vstd::prelude::*;

use crate::encoding::base58_of;
use crate::encoding::dec_of;
use crate::encoding::hex_bytes;
use crate::encoding::hex_of;
use crate::encoding::lemma_dec_of_injective;
use crate::encoding::lemma_hex_of_injective;
use crate::encoding::append_bytes;
use crate::encoding::base58_bytes;
use crate::encoding::u64_to_dec;
use crate::errors::ErrorCode;

verus! {

/// Where the signer's hex encoding starts inside an envelope's hex
/// encoding.
pub const SIGNER_HEX_START: usize = 32;

/// Where the signer's hex encoding ends (64 hex digits for a 32-byte
/// identity).
pub const SIGNER_HEX_END: usize = 96;

/// Where the signed message's hex encoding starts; it extends to the end
/// of the envelope's encoding.
pub const MESSAGE_HEX_START: usize = 224;

/// The algorithm tag carried by a signature-log record; only Ed25519
/// records qualify for inspection.
#[derive(Clone, Copy, Debug, PartialEq, Eq, Structural)]
pub enum SignatureAlgorithm {
    Ed25519,
    Secp256k1,
}

/// One record of the externally supplied, per-operation signature log:
/// an algorithm tag and the raw payload bytes of the verification
/// envelope.
pub struct SignatureRecord {
    pub algorithm: SignatureAlgorithm,
    pub payload: Vec<u8>,
}

/// Acceptance of a single authorization envelope for a signer and a
/// message: over the envelope's hex encoding, the signer's encoding
/// stands exactly at [SIGNER_HEX_START, SIGNER_HEX_END) and the
/// message's encoding fills [MESSAGE_HEX_START, end) exactly.
/// An envelope shorter than the minimum size accepts nothing.
pub open spec fn envelope_accepts(env: Seq<u8>, signer: Seq<u8>, msg: Seq<u8>) -> bool {
    let eh = hex_of(env);
    &&& eh.len() >= MESSAGE_HEX_START
    &&& eh.subrange(SIGNER_HEX_START as int, SIGNER_HEX_END as int) == hex_of(signer)
    &&& eh.subrange(MESSAGE_HEX_START as int, eh.len() as int) == hex_of(msg)
}

/// A log record qualifies and matches: it was produced by the expected
/// algorithm and its payload envelope accepts the signer and message.
pub open spec fn record_matches(rec: SignatureRecord, signer: Seq<u8>, msg: Seq<u8>) -> bool {
    &&& rec.algorithm is Ed25519
    &&& envelope_accepts(rec.payload@, signer, msg)
}

/// A signature log accepts a signer and message when any record
/// anywhere in it matches; order is irrelevant.
pub open spec fn log_accepts(log: Seq<SignatureRecord>, signer: Seq<u8>, msg: Seq<u8>) -> bool {
    exists|i: int| 0 <= i < log.len() && record_matches(log[i], signer, msg)
}

/// Does `hay[start..end]` equal `needle` exactly?
fn slice_matches(hay: &Vec<u8>, start: usize, end: usize, needle: &Vec<u8>) -> (r: bool)
    requires
        start <= end <= hay@.len(),
    ensures
        r == (hay@.subrange(start as int, end as int) == needle@),
{
    if end - start != needle.len() {
        return false;
    }
    let mut j: usize = 0;
    while j < needle.len()
        invariant
            j <= needle.len(),
            start <= end <= hay@.len(),
            end - start == needle.len(),
            forall|k: int| 0 <= k < j ==> hay@[start + k] == needle@[k],
        decreases needle.len() - j,
    {
        if hay[start + j] != needle[j] {
            assert(hay@.subrange(start as int, end as int)[j as int] != needle@[j as int]);
            return false;
        }
        j += 1;
    }
    proof {
        assert(hay@.subrange(start as int, end as int) =~= needle@);
    }
    true
}

/// Checks one envelope against the expected signer and message, by
/// comparing their hex encodings at the fixed offsets.
fn envelope_check(env: &Vec<u8>, signer: &Vec<u8>, msg: &Vec<u8>) -> (r: bool)
    ensures
        r == envelope_accepts(env@, signer@, msg@),
{
    let eh = hex_bytes(env);
    let sh = hex_bytes(signer);
    let mh = hex_bytes(msg);
    if eh.len() < MESSAGE_HEX_START {
        return false;
    }
    let signer_ok = slice_matches(&eh, SIGNER_HEX_START, SIGNER_HEX_END, &sh);
    let msg_ok = slice_matches(&eh, MESSAGE_HEX_START, eh.len(), &mh);
    signer_ok && msg_ok
}

/// Walks the externally supplied signature log looking for a qualifying
/// record whose embedded signer and message equal the expected values
/// byte for byte. Malformed or irrelevant records are skipped, never
/// fatal individually; only a log with no match at all fails.
pub fn verify_signature(
    log: &Vec<SignatureRecord>,
    expected_signer: &Vec<u8>,
    expected_message: &Vec<u8>,
) -> (r: Result<(), ErrorCode>)
    ensures
        r is Ok <==> log_accepts(log@, expected_signer@, expected_message@),
        r is Err ==> r == Err::<(), ErrorCode>(ErrorCode::InvalidSignature),
{
    let mut i: usize = 0;
    while i < log.len()
        invariant
            i <= log@.len(),
            forall|j: int| 0 <= j < i ==> !record_matches(log@[j], expected_signer@, expected_message@),
        decreases log@.len() - i,
    {
        let rec = &log[i];
        let qualifies = match rec.algorithm {
            SignatureAlgorithm::Ed25519 => true,
            _ => false,
        };
        if qualifies {
            if envelope_check(&rec.payload, expected_signer, expected_message) {
                assert(record_matches(log@[i as int], expected_signer@, expected_message@));
                return Ok(());
            }
        }
        i += 1;
    }
    Err(ErrorCode::InvalidSignature)
}

/// The voter-side signature check: same log, same envelope layout, same
/// exact-offset comparison as `verify_signature`.
pub fn verify_voter_signature(
    log: &Vec<SignatureRecord>,
    expected_signer: &Vec<u8>,
    expected_message: &Vec<u8>,
) -> (r: Result<(), ErrorCode>)
    ensures
        r is Ok <==> log_accepts(log@, expected_signer@, expected_message@),
        r is Err ==> r == Err::<(), ErrorCode>(ErrorCode::InvalidSignature),
{
    verify_signature(log, expected_signer, expected_message)
}

/// Verifies a standalone certificate blob: the expected signer's hex
/// encoding must stand exactly at the signer offsets of the
/// certificate's hex encoding, and the expected message's hex encoding
/// must fill the message range exactly. A certificate that is too short
/// or mismatches either field is rejected.
pub fn verify_certificate(
    expected_signer: &Vec<u8>,
    expected_message: &Vec<u8>,
    certificate: &Vec<u8>,
) -> (r: Result<(), ErrorCode>)
    ensures
        r is Ok <==> envelope_accepts(certificate@, expected_signer@, expected_message@),
        r is Err ==> r == Err::<(), ErrorCode>(ErrorCode::InvalidCertificate),
{
    if envelope_check(certificate, expected_signer, expected_message) {
        Ok(())
    } else {
        Err(ErrorCode::InvalidCertificate)
    }
}

/// The canonical authorized message: the identity's textual encoding,
/// the stake in decimal, and the election id, separated by "-". Every
/// authorizer/verifier pair in the system uses exactly this layout.
pub open spec fn canonical_message(identity: Seq<u8>, stake: u64, election_id: Seq<u8>) -> Seq<u8> {
    base58_of(identity) + seq![45u8] + dec_of(stake as nat) + seq![45u8] + election_id
}

/// Builds the canonical authorized message for an identity, a stake and
/// an election id.
pub fn build_canonical_message(identity: &Vec<u8>, stake: u64, election_id: &Vec<u8>) -> (r: Vec<
    u8,
>)
    ensures
        r@ == canonical_message(identity@, stake, election_id@),
{
    let mut m = base58_bytes(identity);
    m.push(45);
    let d = u64_to_dec(stake);
    append_bytes(&mut m, &d);
    m.push(45);
    append_bytes(&mut m, election_id);
    proof {
        assert(m@ =~= canonical_message(identity@, stake, election_id@));
    }
    m
}

/// An envelope binds its signer and message: one envelope cannot accept
/// two different signers or two different messages. In particular, any
/// change to the authorized canonical message — a different stake, a
/// different election id, a different identity encoding — makes the same
/// envelope reject.
pub proof fn lemma_envelope_binds(env: Seq<u8>, s1: Seq<u8>, m1: Seq<u8>, s2: Seq<u8>, m2: Seq<u8>)
    requires
        envelope_accepts(env, s1, m1),
        envelope_accepts(env, s2, m2),
    ensures
        s1 == s2,
        m1 == m2,
{
    lemma_hex_of_injective(s1, s2);
    lemma_hex_of_injective(m1, m2);
}

/// An envelope that authorizes one message refuses every other: exact
/// equality at the fixed offsets leaves no room for a second accepted
/// message under the same signer.
pub proof fn lemma_authorized_message_exclusive(
    env: Seq<u8>,
    signer: Seq<u8>,
    m1: Seq<u8>,
    m2: Seq<u8>,
)
    requires
        envelope_accepts(env, signer, m1),
        m1 != m2,
    ensures
        !envelope_accepts(env, signer, m2),
{
    if envelope_accepts(env, signer, m2) {
        lemma_envelope_binds(env, signer, m1, signer, m2);
    }
}

/// Two canonical messages for the same identity and election id but
/// different stakes differ, so an envelope authorizing one stake never
/// authorizes another.
pub proof fn lemma_canonical_message_stake_injective(
    identity: Seq<u8>,
    stake1: u64,
    stake2: u64,
    election_id: Seq<u8>,
)
    requires
        canonical_message(identity, stake1, election_id) == canonical_message(
            identity,
            stake2,
            election_id,
        ),
    ensures
        stake1 == stake2,
{
    let p = base58_of(identity).len() + 1;
    let d1 = dec_of(stake1 as nat);
    let d2 = dec_of(stake2 as nat);
    let c1 = canonical_message(identity, stake1, election_id);
    let c2 = canonical_message(identity, stake2, election_id);
    assert(c1.len() == p + d1.len() + 1 + election_id.len());
    assert(c2.len() == p + d2.len() + 1 + election_id.len());
    assert(d1.len() == d2.len());
    assert(c1.subrange(p as int, (p + d1.len()) as int) =~= d1);
    assert(c2.subrange(p as int, (p + d2.len()) as int) =~= d2);
    assert(d1 == d2);
    lemma_dec_of_injective(stake1 as nat, stake2 as nat);
}

/// Two canonical messages for the same identity and stake but different
/// election ids differ, so an envelope authorizing one election never
/// authorizes another.
pub proof fn lemma_canonical_message_election_injective(
    identity: Seq<u8>,
    stake: u64,
    id1: Seq<u8>,
    id2: Seq<u8>,
)
    requires
        canonical_message(identity, stake, id1) == canonical_message(identity, stake, id2),
    ensures
        id1 == id2,
{
    let p = base58_of(identity).len() + 1 + dec_of(stake as nat).len() + 1;
    let c1 = canonical_message(identity, stake, id1);
    let c2 = canonical_message(identity, stake, id2);
    assert(c1.len() == p + id1.len());
    assert(c2.len() == p + id2.len());
    assert(c1.subrange(p as int, c1.len() as int) =~= id1);
    assert(c2.subrange(p as int, c2.len() as int) =~= id2);
}

/// A certificate issued for one stake is rejected for any other stake:
/// the canonical message pins the stake, and the envelope pins the
/// message.
pub proof fn lemma_wrong_stake_rejected(
    env: Seq<u8>,
    signer: Seq<u8>,
    identity: Seq<u8>,
    stake1: u64,
    stake2: u64,
    election_id: Seq<u8>,
)
    requires
        envelope_accepts(env, signer, canonical_message(identity, stake1, election_id)),
        stake1 != stake2,
    ensures
        !envelope_accepts(env, signer, canonical_message(identity, stake2, election_id)),
{
    if canonical_message(identity, stake1, election_id) == canonical_message(
        identity,
        stake2,
        election_id,
    ) {
        lemma_canonical_message_stake_injective(identity, stake1, stake2, election_id);
    }
    lemma_authorized_message_exclusive(
        env,
        signer,
        canonical_message(identity, stake1, election_id),
        canonical_message(identity, stake2, election_id),
    );
}

/// A certificate issued for one election is rejected for any other
/// election id: the canonical message pins the election id, and the
/// envelope pins the message.
pub proof fn lemma_wrong_election_rejected(
    env: Seq<u8>,
    signer: Seq<u8>,
    identity: Seq<u8>,
    stake: u64,
    id1: Seq<u8>,
    id2: Seq<u8>,
)
    requires
        envelope_accepts(env, signer, canonical_message(identity, stake, id1)),
        id1 != id2,
    ensures
        !envelope_accepts(env, signer, canonical_message(identity, stake, id2)),
{
    if canonical_message(identity, stake, id1) == canonical_message(identity, stake, id2) {
        lemma_canonical_message_election_injective(identity, stake, id1, id2);
    }
    lemma_authorized_message_exclusive(
        env,
        signer,
        canonical_message(identity, stake, id1),
        canonical_message(identity, stake, id2),
    );
}

} // verus!
