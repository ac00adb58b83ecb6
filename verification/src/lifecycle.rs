//! The election lifecycle: creation, phase transitions and the voting
//! authority's key publications.
//!
//! States move forward only: created, registering (inactive), commit
//! phase (active, commit end time set), reveal phase (inactive, reveal
//! end time set). End times are derived from the single time-oracle
//! reading passed in by the caller, via checked addition that fails
//! explicitly instead of wrapping.

use vstd::prelude::*;

use crate::encoding::copy_bytes;
use crate::errors::ErrorCode;
use crate::state::Election;

verus! {

/// Creates the election record. The caller becomes admin; both phase
/// durations must be positive.
pub fn initialize(
    election_name: Vec<u8>,
    admin: Vec<u8>,
    voting_authority: Vec<u8>,
    election_id: Vec<u8>,
    commit_duration: u64,
    reveal_duration: u64,
) -> (r: Result<Election, ErrorCode>)
    ensures
        commit_duration == 0 ==> r == Err::<Election, ErrorCode>(ErrorCode::InvalidCommitDuration),
        commit_duration > 0 && reveal_duration == 0 ==> r == Err::<Election, ErrorCode>(
            ErrorCode::InvalidRevealDuration,
        ),
        commit_duration > 0 && reveal_duration > 0 ==> (r matches Ok(e) && {
            &&& e.wf()
            &&& e.election_id@ == election_id@
            &&& e.name@ == election_name@
            &&& !e.is_active
            &&& !e.votes_committed
            &&& !e.votes_revealed
            &&& e.admin@ == admin@
            &&& e.voting_authority@ == voting_authority@
            &&& e.va_encryption_key is None
            &&& e.va_decryption_key is None
            &&& e.yes_votes == 0
            &&& e.no_votes == 0
            &&& e.commit_duration == commit_duration
            &&& e.reveal_duration == reveal_duration
            &&& e.commit_end_time is None
            &&& e.reveal_end_time is None
            &&& e.voters@.len() == 0
        }),
{
    if commit_duration == 0 {
        return Err(ErrorCode::InvalidCommitDuration);
    }
    if reveal_duration == 0 {
        return Err(ErrorCode::InvalidRevealDuration);
    }
    Ok(
        Election {
            election_id,
            name: election_name,
            is_active: false,
            votes_committed: false,
            votes_revealed: false,
            admin,
            voting_authority,
            va_encryption_key: None,
            va_decryption_key: None,
            yes_votes: 0,
            no_votes: 0,
            commit_duration,
            reveal_duration,
            commit_end_time: None,
            reveal_end_time: None,
            voters: Vec::new(),
        },
    )
}

/// Opens the commit phase: admin only, not yet active, and never a
/// second time — states move forward only, so once a commit end time
/// exists the election cannot re-enter the commit phase and the end
/// time is set exactly once. On success the commit end time becomes
/// `now + commit_duration` by checked addition.
pub fn start_election(election: &mut Election, caller: &Vec<u8>, now: i64) -> (r: Result<
    (),
    ErrorCode,
>)
    ensures
        old(election).admin@ != caller@ ==> r == Err::<(), ErrorCode>(ErrorCode::Unauthorized),
        old(election).admin@ == caller@ && old(election).is_active ==> r == Err::<(), ErrorCode>(
            ErrorCode::VotingAlreadyStarted,
        ),
        old(election).admin@ == caller@ && !old(election).is_active && old(
            election,
        ).commit_end_time is Some ==> r == Err::<(), ErrorCode>(ErrorCode::VotingAlreadyStarted),
        old(election).admin@ == caller@ && !old(election).is_active && old(
            election,
        ).commit_end_time is None && now + old(election).commit_duration > i64::MAX ==> r == Err::<
            (),
            ErrorCode,
        >(ErrorCode::Overflow),
        old(election).admin@ == caller@ && !old(election).is_active && old(
            election,
        ).commit_end_time is None && now + old(election).commit_duration <= i64::MAX ==> r is Ok
            && *final(election) == (Election {
            is_active: true,
            commit_end_time: Some((now + old(election).commit_duration) as i64),
            ..*old(election)
        }),
        r is Err ==> *final(election) == *old(election),
{
    if !crate::encoding::bytes_eq(caller, &election.admin) {
        return Err(ErrorCode::Unauthorized);
    }
    if election.is_active {
        return Err(ErrorCode::VotingAlreadyStarted);
    }
    if election.commit_end_time.is_some() {
        return Err(ErrorCode::VotingAlreadyStarted);
    }
    match now.checked_add_unsigned(election.commit_duration) {
        None => Err(ErrorCode::Overflow),
        Some(end) => {
            election.commit_end_time = Some(end);
            election.is_active = true;
            Ok(())
        },
    }
}

/// Closes the commit phase: admin only, currently active, and never a
/// second time — once a reveal end time exists, voting has already run
/// its course, so the transition is refused and the end time keeps its
/// value: it is set exactly once and never decreases. On success the
/// reveal end time becomes `now + reveal_duration` by checked addition
/// and the committed summary flag is set.
pub fn end_voting(election: &mut Election, caller: &Vec<u8>, now: i64) -> (r: Result<
    (),
    ErrorCode,
>)
    ensures
        !old(election).is_active ==> r == Err::<(), ErrorCode>(ErrorCode::VotingNotActive),
        old(election).is_active && old(election).admin@ != caller@ ==> r == Err::<(), ErrorCode>(
            ErrorCode::Unauthorized,
        ),
        old(election).is_active && old(election).admin@ == caller@ && old(
            election,
        ).reveal_end_time is Some ==> r == Err::<(), ErrorCode>(ErrorCode::VotingAlreadyStarted),
        old(election).is_active && old(election).admin@ == caller@ && old(
            election,
        ).reveal_end_time is None && now + old(election).reveal_duration > i64::MAX ==> r == Err::<
            (),
            ErrorCode,
        >(ErrorCode::Overflow),
        old(election).is_active && old(election).admin@ == caller@ && old(
            election,
        ).reveal_end_time is None && now + old(election).reveal_duration <= i64::MAX ==> r is Ok
            && *final(election) == (Election {
            is_active: false,
            votes_committed: true,
            reveal_end_time: Some((now + old(election).reveal_duration) as i64),
            ..*old(election)
        }),
        r is Err ==> *final(election) == *old(election),
{
    if !election.is_active {
        return Err(ErrorCode::VotingNotActive);
    }
    if !crate::encoding::bytes_eq(caller, &election.admin) {
        return Err(ErrorCode::Unauthorized);
    }
    if election.reveal_end_time.is_some() {
        return Err(ErrorCode::VotingAlreadyStarted);
    }
    match now.checked_add_unsigned(election.reveal_duration) {
        None => Err(ErrorCode::Overflow),
        Some(end) => {
            election.is_active = false;
            election.votes_committed = true;
            election.reveal_end_time = Some(end);
            Ok(())
        },
    }
}

/// Publishes the voting authority's encryption key, at most once.
pub fn set_encryption_key(election: &mut Election, caller: &Vec<u8>, the_key: Vec<u8>) -> (r:
    Result<(), ErrorCode>)
    ensures
        old(election).voting_authority@ != caller@ ==> r == Err::<(), ErrorCode>(
            ErrorCode::Unauthorized,
        ),
        old(election).voting_authority@ == caller@ && old(election).va_encryption_key is Some ==> r
            == Err::<(), ErrorCode>(ErrorCode::EncryptionKeyAlreadySet),
        old(election).voting_authority@ == caller@ && old(election).va_encryption_key is None ==> r
            is Ok && *final(election) == (Election {
            va_encryption_key: Some(the_key),
            ..*old(election)
        }),
        r is Err ==> *final(election) == *old(election),
{
    if !crate::encoding::bytes_eq(caller, &election.voting_authority) {
        return Err(ErrorCode::Unauthorized);
    }
    if election.va_encryption_key.is_some() {
        return Err(ErrorCode::EncryptionKeyAlreadySet);
    }
    election.va_encryption_key = Some(the_key);
    Ok(())
}

/// Publishes the voting authority's decryption key: at most once, and
/// only from the moment the reveal window has closed. Before the reveal
/// end time — or before one has been scheduled at all — the reveal
/// phase still counts as active.
pub fn release_decryption_key(
    election: &mut Election,
    caller: &Vec<u8>,
    decryption_key: Vec<u8>,
    now: i64,
) -> (r: Result<(), ErrorCode>)
    ensures
        old(election).voting_authority@ != caller@ ==> r == Err::<(), ErrorCode>(
            ErrorCode::Unauthorized,
        ),
        old(election).voting_authority@ == caller@ && old(election).va_decryption_key is Some ==> r
            == Err::<(), ErrorCode>(ErrorCode::DecryptionKeyAlreadyReleased),
        old(election).voting_authority@ == caller@ && old(election).va_decryption_key is None && !(
        old(election).reveal_end_time matches Some(t) && now >= t) ==> r == Err::<(), ErrorCode>(
            ErrorCode::RevealPhaseStillActive,
        ),
        old(election).voting_authority@ == caller@ && old(election).va_decryption_key is None && (
        old(election).reveal_end_time matches Some(t) && now >= t) ==> r is Ok && *final(election)
            == (Election { va_decryption_key: Some(decryption_key), ..*old(election) }),
        r is Err ==> *final(election) == *old(election),
{
    if !crate::encoding::bytes_eq(caller, &election.voting_authority) {
        return Err(ErrorCode::Unauthorized);
    }
    if election.va_decryption_key.is_some() {
        return Err(ErrorCode::DecryptionKeyAlreadyReleased);
    }
    match election.reveal_end_time {
        None => Err(ErrorCode::RevealPhaseStillActive),
        Some(t) => {
            if now < t {
                return Err(ErrorCode::RevealPhaseStillActive);
            }
            election.va_decryption_key = Some(decryption_key);
            Ok(())
        },
    }
}

/// The election's id.
pub fn get_election_id(election: &Election) -> (r: Vec<u8>)
    ensures
        r@ == election.election_id@,
{
    copy_bytes(&election.election_id)
}

/// The voting authority's identity.
pub fn get_voting_authority_public_key(election: &Election) -> (r: Vec<u8>)
    ensures
        r@ == election.voting_authority@,
{
    copy_bytes(&election.voting_authority)
}

/// The voting authority's published encryption key, if any.
pub fn get_voting_authority_encryption_key(election: &Election) -> (r: Option<Vec<u8>>)
    ensures
        match r {
            Some(k) => election.va_encryption_key matches Some(ek) && k@ == ek@,
            None => election.va_encryption_key is None,
        },
{
    match &election.va_encryption_key {
        Some(k) => Some(copy_bytes(k)),
        None => None,
    }
}

} // verus!
