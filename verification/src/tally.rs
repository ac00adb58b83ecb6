//! The tally: the voting authority submits final counts under an
//! authenticated message, and the winner is computed once the election
//! is inactive.

use vstd::prelude::*;

use crate::authenticator::log_accepts;
use crate::authenticator::verify_signature;
use crate::authenticator::SignatureRecord;
use crate::encoding::append_bytes;
use crate::encoding::bytes_eq;
use crate::encoding::copy_bytes;
use crate::encoding::le64_of;
use crate::encoding::u64_le_bytes;
use crate::errors::ErrorCode;
use crate::state::Election;

verus! {

/// The canonical message a result submission must carry: the election
/// id followed by both counts as little-endian bytes.
pub open spec fn result_message(election_id: Seq<u8>, yes_votes: u64, no_votes: u64) -> Seq<u8> {
    election_id + le64_of(yes_votes) + le64_of(no_votes)
}

/// Stores the final counts: only once the election is inactive, only by
/// the voting authority, and only with a log-verified endorsement of
/// the result message.
pub fn submit_final_result(
    election: &mut Election,
    caller: &Vec<u8>,
    yes_votes: u64,
    no_votes: u64,
    log: &Vec<SignatureRecord>,
) -> (r: Result<(), ErrorCode>)
    ensures
        old(election).is_active ==> r == Err::<(), ErrorCode>(ErrorCode::ElectionStillActive),
        !old(election).is_active && old(election).voting_authority@ != caller@ ==> r == Err::<
            (),
            ErrorCode,
        >(ErrorCode::Unauthorized),
        !old(election).is_active && old(election).voting_authority@ == caller@ && !log_accepts(
            log@,
            old(election).voting_authority@,
            result_message(old(election).election_id@, yes_votes, no_votes),
        ) ==> r == Err::<(), ErrorCode>(ErrorCode::InvalidSignature),
        !old(election).is_active && old(election).voting_authority@ == caller@ && log_accepts(
            log@,
            old(election).voting_authority@,
            result_message(old(election).election_id@, yes_votes, no_votes),
        ) ==> r is Ok && *final(election) == (Election {
            yes_votes,
            no_votes,
            ..*old(election)
        }),
        r is Err ==> *final(election) == *old(election),
{
    if election.is_active {
        return Err(ErrorCode::ElectionStillActive);
    }
    if !bytes_eq(caller, &election.voting_authority) {
        return Err(ErrorCode::Unauthorized);
    }
    let mut message = copy_bytes(&election.election_id);
    let yes_bytes = u64_le_bytes(yes_votes);
    let no_bytes = u64_le_bytes(no_votes);
    append_bytes(&mut message, &yes_bytes);
    append_bytes(&mut message, &no_bytes);
    proof {
        assert(message@ =~= result_message(election.election_id@, yes_votes, no_votes));
    }
    match verify_signature(log, &election.voting_authority, &message) {
        Err(e) => {
            return Err(e);
        },
        Ok(()) => {},
    }
    election.yes_votes = yes_votes;
    election.no_votes = no_votes;
    Ok(())
}

/// The winner once the election is inactive: 1 when yes leads, 2 when
/// no leads, 0 for a tie.
pub fn get_winner(election: &Election) -> (r: Result<u8, ErrorCode>)
    ensures
        election.is_active ==> r == Err::<u8, ErrorCode>(ErrorCode::ElectionStillActive),
        !election.is_active ==> r == Ok::<u8, ErrorCode>(
            if election.yes_votes > election.no_votes {
                1u8
            } else if election.no_votes > election.yes_votes {
                2u8
            } else {
                0u8
            },
        ),
{
    if election.is_active {
        return Err(ErrorCode::ElectionStillActive);
    }
    if election.yes_votes > election.no_votes {
        Ok(1)
    } else if election.no_votes > election.yes_votes {
        Ok(2)
    } else {
        Ok(0)
    }
}

} // verus!
