//! The persistent records of the election system: the election itself
//! and its voters.

use vstd::prelude::*;

use crate::encoding::bytes_eq;

verus! {

/// One registered participant. The record is created at registration
/// and then mutated only by the voter themself during commit and
/// reveal.
pub struct Voter {
    /// Public identity of the voter.
    pub voter_address: Vec<u8>,
    pub has_committed: bool,
    pub has_revealed: bool,
    /// The cryptographic commitment digest; empty until committed.
    pub commitment: Vec<u8>,
    /// The encrypted vote payload; present only after reveal.
    pub encrypted_vote: Option<Vec<u8>>,
    /// Stake assigned by the voting authority at registration.
    pub voter_stake: u64,
    /// Exact time of the reveal, once it happened.
    pub reveal_timestamp: Option<i64>,
    /// Whether the reveal arrived within the reveal window.
    pub reveal_accepted: bool,
}

/// One election: identities, timing, keys, tallies and the voter table.
pub struct Election {
    pub election_id: Vec<u8>,
    /// Display name; never parsed.
    pub name: Vec<u8>,
    /// True exactly during the commit phase.
    pub is_active: bool,
    pub votes_committed: bool,
    pub votes_revealed: bool,
    /// Identity controlling start/end lifecycle transitions.
    pub admin: Vec<u8>,
    /// Identity controlling voter admission, keys and results.
    pub voting_authority: Vec<u8>,
    /// Encryption key published by the voting authority, at most once.
    pub va_encryption_key: Option<Vec<u8>>,
    /// Decryption key published by the voting authority, at most once,
    /// only after the reveal window closed.
    pub va_decryption_key: Option<Vec<u8>>,
    pub yes_votes: u64,
    pub no_votes: u64,
    /// How long the commit phase lasts, in seconds; always positive.
    pub commit_duration: u64,
    /// How long the reveal phase lasts, in seconds; always positive.
    pub reveal_duration: u64,
    /// When the commit phase ends; set exactly once, at start.
    pub commit_end_time: Option<i64>,
    /// When the reveal phase ends; set exactly once, at end of voting.
    pub reveal_end_time: Option<i64>,
    /// The registered voters, at most one record per identity.
    pub voters: Vec<Voter>,
}

impl Election {
    /// Well-formedness: durations are positive and voter identities are
    /// pairwise distinct, so each identity owns at most one record.
    pub open spec fn wf(self) -> bool {
        &&& self.commit_duration > 0
        &&& self.reveal_duration > 0
        &&& forall|i: int, j: int|
            0 <= i < j < self.voters@.len() ==> #[trigger] self.voters@[i].voter_address@
                != #[trigger] self.voters@[j].voter_address@
    }

    /// Is some voter registered under this identity?
    pub open spec fn has_voter(self, identity: Seq<u8>) -> bool {
        exists|i: int| 0 <= i < self.voters@.len() && self.voters@[i].voter_address@ == identity
    }

    /// The index of the voter registered under this identity.
    pub open spec fn voter_index(self, identity: Seq<u8>) -> int {
        choose|i: int| 0 <= i < self.voters@.len() && self.voters@[i].voter_address@ == identity
    }

    /// The voter record registered under this identity.
    pub open spec fn voter_of(self, identity: Seq<u8>) -> Voter {
        self.voters@[self.voter_index(identity)]
    }
}

/// In a well-formed election, any index holding an identity is the
/// index of that identity: the record per identity is unique.
pub proof fn lemma_voter_index_unique(e: Election, identity: Seq<u8>, i: int)
    requires
        e.wf(),
        0 <= i < e.voters@.len(),
        e.voters@[i].voter_address@ == identity,
    ensures
        e.has_voter(identity),
        e.voter_index(identity) == i,
{
    assert(e.has_voter(identity));
    let k = e.voter_index(identity);
    assert(0 <= k < e.voters@.len() && e.voters@[k].voter_address@ == identity);
    if k < i {
        assert(e.voters@[k].voter_address@ != e.voters@[i].voter_address@);
    } else if i < k {
        assert(e.voters@[i].voter_address@ != e.voters@[k].voter_address@);
    }
}

/// Finds the record registered under an identity, if any.
pub fn find_voter(voters: &Vec<Voter>, identity: &Vec<u8>) -> (r: Option<usize>)
    ensures
        match r {
            Some(i) => i < voters@.len() && voters@[i as int].voter_address@ == identity@,
            None => forall|j: int| 0 <= j < voters@.len() ==> voters@[j].voter_address@
                != identity@,
        },
{
    let mut i: usize = 0;
    while i < voters.len()
        invariant
            i <= voters@.len(),
            forall|j: int| 0 <= j < i ==> voters@[j].voter_address@ != identity@,
        decreases voters@.len() - i,
    {
        if bytes_eq(&voters[i].voter_address, identity) {
            return Some(i);
        }
        i += 1;
    }
    None
}

/// A voter record as registration writes it: the given identity and
/// stake, everything else cleared.
pub open spec fn fresh_voter(v: Voter, identity: Seq<u8>, stake: u64) -> bool {
    &&& v.voter_address@ == identity
    &&& !v.has_committed
    &&& !v.has_revealed
    &&& v.commitment@.len() == 0
    &&& v.encrypted_vote is None
    &&& v.voter_stake == stake
    &&& v.reveal_timestamp is None
    &&& !v.reveal_accepted
}

/// The new voter record after a successful commit: the digest stored
/// and the committed flag set, everything else untouched.
pub open spec fn committed_voter(old_v: Voter, new_v: Voter, digest: Seq<u8>) -> bool {
    &&& new_v.voter_address == old_v.voter_address
    &&& new_v.has_committed
    &&& new_v.has_revealed == old_v.has_revealed
    &&& new_v.commitment@ == digest
    &&& new_v.encrypted_vote == old_v.encrypted_vote
    &&& new_v.voter_stake == old_v.voter_stake
    &&& new_v.reveal_timestamp == old_v.reveal_timestamp
    &&& new_v.reveal_accepted == old_v.reveal_accepted
}

/// The new voter record after a reveal: the payload stored, the reveal
/// recorded at `now` and flagged accepted exactly when it was in time,
/// everything else untouched.
pub open spec fn revealed_voter(
    old_v: Voter,
    new_v: Voter,
    payload: Seq<u8>,
    now: i64,
    accepted: bool,
) -> bool {
    &&& new_v.voter_address == old_v.voter_address
    &&& new_v.has_committed == old_v.has_committed
    &&& new_v.has_revealed
    &&& new_v.commitment == old_v.commitment
    &&& new_v.encrypted_vote matches Some(p) && p@ == payload
    &&& new_v.voter_stake == old_v.voter_stake
    &&& new_v.reveal_timestamp == Some(now)
    &&& new_v.reveal_accepted == accepted
}

} // verus!
