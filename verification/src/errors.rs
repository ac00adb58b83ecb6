//! The distinct, enumerable failure codes of the election system.

use vstd::prelude::*;

verus! {

/// Every operation aborts with exactly one of these codes; callers can
/// branch on the cause.
#[derive(Clone, Copy, Debug, PartialEq, Eq, Structural)]
pub enum ErrorCode {
    InvalidCommitDuration,
    InvalidRevealDuration,
    CommitPhaseNotEnded,
    VotingAlreadyStarted,
    VotingNotActive,
    ElectionStillActive,
    RevealPeriodEnded,
    RevealEndTimeNotSet,
    RevealPhaseNotStarted,
    RevealPhaseStillActive,
    Unauthorized,
    ResultsNotCommitted,
    VoterAlreadyRegistered,
    InvalidPDA,
    InvalidSignature,
    InvalidPublicKey,
    AlreadyCommitted,
    InvalidVoteReveal,
    VoteNotCommitted,
    VoteAlreadyRevealed,
    EncryptionKeyAlreadySet,
    DecryptionKeyAlreadyReleased,
    InvalidInstructionData,
    InvalidArgument,
    InvalidAccountData,
    NotFound,
    InvalidCertificate,
    Overflow,
    ValueTooLarge,
}

} // verus!
