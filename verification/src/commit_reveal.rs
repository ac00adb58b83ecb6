//! The commit-reveal engine: a voter commits to a hidden choice during
//! the open voting window and reveals it after voting closes; the
//! reveal is checked bit for bit against the stored commitment digest.

use vstd::prelude::*;

use crate::authenticator::build_canonical_message;
use crate::authenticator::canonical_message;
use crate::authenticator::envelope_accepts;
use crate::authenticator::log_accepts;
use crate::authenticator::verify_certificate;
use crate::authenticator::verify_voter_signature;
use crate::authenticator::SignatureRecord;
use crate::encoding::append_bytes;
use crate::encoding::bytes_eq;
use crate::encoding::copy_bytes;
use crate::encoding::sha256_bytes;
use crate::encoding::sha256_of;
use crate::errors::ErrorCode;
use crate::state::committed_voter;
use crate::state::find_voter;
use crate::state::lemma_voter_index_unique;
use crate::state::revealed_voter;
use crate::state::Election;

verus! {

/// Stores a voter's commitment digest during the commit phase. The
/// certificate must authenticate the canonical message built from the
/// voter's identity, the doubled stake and the election id as endorsed
/// by the voting authority, and the signature log must prove that the
/// voter themself endorsed the digest. Doubling the stake uses checked
/// arithmetic that fails explicitly.
///
/// The commit window is gated by the coarse active flag alone: a commit
/// arriving after the commit end time but before voting has been ended
/// is still accepted.
pub fn commit_vote(
    election: &mut Election,
    caller: &Vec<u8>,
    commitment: &Vec<u8>,
    certificate: &Vec<u8>,
    log: &Vec<SignatureRecord>,
) -> (r: Result<(), ErrorCode>)
    requires
        old(election).wf(),
    ensures
        final(election).wf(),
        !old(election).is_active ==> r == Err::<(), ErrorCode>(ErrorCode::VotingNotActive),
        old(election).is_active && !old(election).has_voter(caller@) ==> r == Err::<(), ErrorCode>(
            ErrorCode::NotFound,
        ),
        old(election).is_active && old(election).has_voter(caller@) && old(election).voter_of(
            caller@,
        ).voter_stake > u64::MAX / 2 ==> r == Err::<(), ErrorCode>(ErrorCode::Overflow),
        old(election).is_active && old(election).has_voter(caller@) && old(election).voter_of(
            caller@,
        ).voter_stake <= u64::MAX / 2 && !envelope_accepts(
            certificate@,
            old(election).voting_authority@,
            canonical_message(
                caller@,
                (2 * old(election).voter_of(caller@).voter_stake) as u64,
                old(election).election_id@,
            ),
        ) ==> r == Err::<(), ErrorCode>(ErrorCode::InvalidCertificate),
        old(election).is_active && old(election).has_voter(caller@) && old(election).voter_of(
            caller@,
        ).voter_stake <= u64::MAX / 2 && envelope_accepts(
            certificate@,
            old(election).voting_authority@,
            canonical_message(
                caller@,
                (2 * old(election).voter_of(caller@).voter_stake) as u64,
                old(election).election_id@,
            ),
        ) && !log_accepts(log@, caller@, commitment@) ==> r == Err::<(), ErrorCode>(
            ErrorCode::InvalidSignature,
        ),
        old(election).is_active && old(election).has_voter(caller@) && old(election).voter_of(
            caller@,
        ).voter_stake <= u64::MAX / 2 && envelope_accepts(
            certificate@,
            old(election).voting_authority@,
            canonical_message(
                caller@,
                (2 * old(election).voter_of(caller@).voter_stake) as u64,
                old(election).election_id@,
            ),
        ) && log_accepts(log@, caller@, commitment@) ==> {
            let idx = old(election).voter_index(caller@);
            &&& r is Ok
            &&& final(election).voters@.len() == old(election).voters@.len()
            &&& committed_voter(
                old(election).voters@[idx],
                final(election).voters@[idx],
                commitment@,
            )
            &&& forall|j: int|
                0 <= j < old(election).voters@.len() && j != idx ==> final(election).voters@[j]
                    == old(election).voters@[j]
            &&& *final(election) == (Election {
                voters: final(election).voters,
                ..*old(election)
            })
        },
        r is Err ==> *final(election) == *old(election),
{
    if !election.is_active {
        return Err(ErrorCode::VotingNotActive);
    }
    let idx = match find_voter(&election.voters, caller) {
        None => {
            return Err(ErrorCode::NotFound);
        },
        Some(i) => i,
    };
    proof {
        lemma_voter_index_unique(*election, caller@, idx as int);
    }
    let stake = election.voters[idx].voter_stake;
    let doubled = match stake.checked_mul(2) {
        None => {
            return Err(ErrorCode::Overflow);
        },
        Some(d) => d,
    };
    let msg = build_canonical_message(caller, doubled, &election.election_id);
    match verify_certificate(&election.voting_authority, &msg, certificate) {
        Err(e) => {
            return Err(e);
        },
        Ok(()) => {},
    }
    match verify_voter_signature(log, caller, commitment) {
        Err(e) => {
            return Err(e);
        },
        Ok(()) => {},
    }
    let digest = copy_bytes(commitment);
    let v = &mut election.voters[idx];
    v.commitment = digest;
    v.has_committed = true;
    proof {
        let ovs = old(election).voters@;
        let nvs = election.voters@;
        assert forall|i: int, j: int|
            0 <= i < j < nvs.len() implies nvs[i].voter_address@ != nvs[j].voter_address@ by {
            assert(nvs[i].voter_address == ovs[i].voter_address);
            assert(nvs[j].voter_address == ovs[j].voter_address);
        }
    }
    Ok(())
}

/// Records a voter's reveal once voting has closed. The hash of the
/// revealed payload concatenated with the nonce must equal the stored
/// commitment exactly. A reveal arriving after the reveal end time is
/// still recorded, but flagged unaccepted rather than rejected; one
/// arriving at or before the end time is flagged accepted.
pub fn reveal_vote(
    election: &mut Election,
    caller: &Vec<u8>,
    encrypted_vote: &Vec<u8>,
    nonce: &Vec<u8>,
    now: i64,
) -> (r: Result<(), ErrorCode>)
    requires
        old(election).wf(),
    ensures
        final(election).wf(),
        old(election).is_active ==> r == Err::<(), ErrorCode>(ErrorCode::ElectionStillActive),
        !old(election).is_active && old(election).reveal_end_time is None ==> r == Err::<
            (),
            ErrorCode,
        >(ErrorCode::RevealPhaseNotStarted),
        !old(election).is_active && old(election).reveal_end_time is Some && !old(
            election,
        ).has_voter(caller@) ==> r == Err::<(), ErrorCode>(ErrorCode::NotFound),
        !old(election).is_active && old(election).reveal_end_time is Some && old(
            election,
        ).has_voter(caller@) && !(old(election).voter_of(caller@).has_committed && old(
            election,
        ).voter_of(caller@).commitment@.len() > 0) ==> r == Err::<(), ErrorCode>(
            ErrorCode::VoteNotCommitted,
        ),
        !old(election).is_active && old(election).reveal_end_time is Some && old(
            election,
        ).has_voter(caller@) && old(election).voter_of(caller@).has_committed && old(
            election,
        ).voter_of(caller@).commitment@.len() > 0 && old(election).voter_of(caller@).has_revealed
            ==> r == Err::<(), ErrorCode>(ErrorCode::VoteAlreadyRevealed),
        !old(election).is_active && old(election).reveal_end_time is Some && old(
            election,
        ).has_voter(caller@) && old(election).voter_of(caller@).has_committed && old(
            election,
        ).voter_of(caller@).commitment@.len() > 0 && !old(election).voter_of(caller@).has_revealed
            && sha256_of(encrypted_vote@ + nonce@) != old(election).voter_of(caller@).commitment@
            ==> r == Err::<(), ErrorCode>(ErrorCode::InvalidVoteReveal),
        !old(election).is_active && old(election).reveal_end_time is Some && old(
            election,
        ).has_voter(caller@) && old(election).voter_of(caller@).has_committed && old(
            election,
        ).voter_of(caller@).commitment@.len() > 0 && !old(election).voter_of(caller@).has_revealed
            && sha256_of(encrypted_vote@ + nonce@) == old(election).voter_of(caller@).commitment@
            ==> {
            let idx = old(election).voter_index(caller@);
            &&& r is Ok
            &&& final(election).voters@.len() == old(election).voters@.len()
            &&& revealed_voter(
                old(election).voters@[idx],
                final(election).voters@[idx],
                encrypted_vote@,
                now,
                now <= old(election).reveal_end_time->Some_0,
            )
            &&& forall|j: int|
                0 <= j < old(election).voters@.len() && j != idx ==> final(election).voters@[j]
                    == old(election).voters@[j]
            &&& *final(election) == (Election {
                voters: final(election).voters,
                ..*old(election)
            })
        },
        r is Err ==> *final(election) == *old(election),
{
    if election.is_active {
        return Err(ErrorCode::ElectionStillActive);
    }
    let reveal_end = match election.reveal_end_time {
        None => {
            return Err(ErrorCode::RevealPhaseNotStarted);
        },
        Some(t) => t,
    };
    let idx = match find_voter(&election.voters, caller) {
        None => {
            return Err(ErrorCode::NotFound);
        },
        Some(i) => i,
    };
    proof {
        lemma_voter_index_unique(*election, caller@, idx as int);
    }
    if !(election.voters[idx].has_committed && election.voters[idx].commitment.len() > 0) {
        return Err(ErrorCode::VoteNotCommitted);
    }
    if election.voters[idx].has_revealed {
        return Err(ErrorCode::VoteAlreadyRevealed);
    }
    let mut hash_input = copy_bytes(encrypted_vote);
    append_bytes(&mut hash_input, nonce);
    let digest = sha256_bytes(&hash_input);
    if !bytes_eq(&digest, &election.voters[idx].commitment) {
        return Err(ErrorCode::InvalidVoteReveal);
    }
    let accepted = now <= reveal_end;
    let payload = copy_bytes(encrypted_vote);
    let v = &mut election.voters[idx];
    v.encrypted_vote = Some(payload);
    v.has_revealed = true;
    v.reveal_timestamp = Some(now);
    v.reveal_accepted = accepted;
    proof {
        let ovs = old(election).voters@;
        let nvs = election.voters@;
        assert forall|i: int, j: int|
            0 <= i < j < nvs.len() implies nvs[i].voter_address@ != nvs[j].voter_address@ by {
            assert(nvs[i].voter_address == ovs[i].voter_address);
            assert(nvs[j].voter_address == ovs[j].voter_address);
        }
    }
    Ok(())
}

} // verus!
