//! A stake-weighted commit-reveal election library.
//!
//! A designated admin controls the election's timing; a separate voting
//! authority admits voters, publishes keys, and submits final results.
//! Voters commit to a hidden choice during the open voting window and
//! reveal it after voting closes; every privileged operation is gated by
//! an authenticator that checks byte-exact endorsements of canonical
//! messages.

pub mod authenticator;
pub mod commit_reveal;
pub mod encoding;
pub mod errors;
pub mod lifecycle;
pub mod registry;
pub mod state;
pub mod tally;

pub use authenticator::build_canonical_message;
pub use authenticator::verify_certificate;
pub use authenticator::verify_signature;
pub use authenticator::verify_voter_signature;
pub use authenticator::SignatureAlgorithm;
pub use authenticator::SignatureRecord;
pub use commit_reveal::commit_vote;
pub use commit_reveal::reveal_vote;
pub use errors::ErrorCode;
pub use lifecycle::end_voting;
pub use lifecycle::get_election_id;
pub use lifecycle::get_voting_authority_encryption_key;
pub use lifecycle::get_voting_authority_public_key;
pub use lifecycle::initialize;
pub use lifecycle::release_decryption_key;
pub use lifecycle::set_encryption_key;
pub use lifecycle::start_election;
pub use registry::register_voter;
pub use state::Election;
pub use state::Voter;
pub use tally::get_winner;
pub use tally::submit_final_result;
