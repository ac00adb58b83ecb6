//! The voter registry: admission of voter identities with a stake,
//! gated by election phase and by the authenticator.

use vstd::prelude::*;

use crate::authenticator::build_canonical_message;
use crate::authenticator::canonical_message;
use crate::authenticator::log_accepts;
use crate::authenticator::verify_signature;
use crate::authenticator::SignatureRecord;
use crate::encoding::bytes_eq;
use crate::encoding::copy_bytes;
use crate::errors::ErrorCode;
use crate::state::find_voter;
use crate::state::fresh_voter;
use crate::state::Election;
use crate::state::Voter;

verus! {

/// Admits a voter identity with its stake: only before the election is
/// active, only by the voting authority, only into an unoccupied slot,
/// and only with a log-verified endorsement of the canonical message
/// built from the identity, the stake and the election id. A second
/// registration attempt for the same identity is rejected, never
/// silently merged.
pub fn register_voter(
    election: &mut Election,
    caller: &Vec<u8>,
    voter_public_key: &Vec<u8>,
    voter_stake: u64,
    log: &Vec<SignatureRecord>,
) -> (r: Result<(), ErrorCode>)
    requires
        old(election).wf(),
    ensures
        final(election).wf(),
        old(election).is_active ==> r == Err::<(), ErrorCode>(ErrorCode::VotingAlreadyStarted),
        !old(election).is_active && old(election).voting_authority@ != caller@ ==> r == Err::<
            (),
            ErrorCode,
        >(ErrorCode::Unauthorized),
        !old(election).is_active && old(election).voting_authority@ == caller@ && old(
            election,
        ).has_voter(voter_public_key@) ==> r == Err::<(), ErrorCode>(
            ErrorCode::VoterAlreadyRegistered,
        ),
        !old(election).is_active && old(election).voting_authority@ == caller@ && !old(
            election,
        ).has_voter(voter_public_key@) && !log_accepts(
            log@,
            old(election).voting_authority@,
            canonical_message(voter_public_key@, voter_stake, old(election).election_id@),
        ) ==> r == Err::<(), ErrorCode>(ErrorCode::InvalidSignature),
        !old(election).is_active && old(election).voting_authority@ == caller@ && !old(
            election,
        ).has_voter(voter_public_key@) && log_accepts(
            log@,
            old(election).voting_authority@,
            canonical_message(voter_public_key@, voter_stake, old(election).election_id@),
        ) ==> {
            &&& r is Ok
            &&& final(election).voters@.len() == old(election).voters@.len() + 1
            &&& final(election).voters@.subrange(0, old(election).voters@.len() as int) == old(
                election,
            ).voters@
            &&& fresh_voter(final(election).voters@.last(), voter_public_key@, voter_stake)
            &&& *final(election) == (Election {
                voters: final(election).voters,
                ..*old(election)
            })
        },
        r is Err ==> *final(election) == *old(election),
{
    if election.is_active {
        return Err(ErrorCode::VotingAlreadyStarted);
    }
    if !bytes_eq(caller, &election.voting_authority) {
        return Err(ErrorCode::Unauthorized);
    }
    match find_voter(&election.voters, voter_public_key) {
        Some(_) => {
            return Err(ErrorCode::VoterAlreadyRegistered);
        },
        None => {},
    }
    let msg = build_canonical_message(voter_public_key, voter_stake, &election.election_id);
    match verify_signature(log, &election.voting_authority, &msg) {
        Err(e) => {
            return Err(e);
        },
        Ok(()) => {},
    }
    let v = Voter {
        voter_address: copy_bytes(voter_public_key),
        has_committed: false,
        has_revealed: false,
        commitment: Vec::new(),
        encrypted_vote: None,
        voter_stake,
        reveal_timestamp: None,
        reveal_accepted: false,
    };
    election.voters.push(v);
    proof {
        let ovs = old(election).voters@;
        let nvs = election.voters@;
        assert(nvs.subrange(0, ovs.len() as int) =~= ovs);
        assert forall|i: int, j: int|
            0 <= i < j < nvs.len() implies nvs[i].voter_address@ != nvs[j].voter_address@ by {
            if j < ovs.len() {
                assert(ovs[i].voter_address@ != ovs[j].voter_address@);
            } else {
                assert(nvs[j] == nvs.last());
                assert(nvs[i] == ovs[i]);
                assert(ovs[i].voter_address@ != voter_public_key@);
            }
        }
    }
    Ok(())
}

/// Once a registration has appended a record under an identity — as a
/// successful `register_voter` leaves it, with the fresh record last —
/// that identity occupies its slot, so a second registration attempt
/// for it meets the occupied-slot guard and fails with
/// `VoterAlreadyRegistered`, regardless of the stake it offers.
pub proof fn lemma_duplicate_registration_detected(e: Election, identity: Seq<u8>)
    requires
        e.voters@.len() > 0,
        e.voters@.last().voter_address@ == identity,
    ensures
        e.has_voter(identity),
{
    assert(e.voters@[e.voters@.len() - 1].voter_address@ == identity);
}

} // verus!
