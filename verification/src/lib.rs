//! A verified single-draw raffle state machine.
//!
//! The raffle records ticket purchases against an external identity tag and,
//! at the administrator's request, selects exactly one winner from the
//! current round and resets for the next one.  The hosting environment's
//! collaborators — the authorization oracle that vouches for a caller, the
//! value-transfer service that moves the ticket price, the ledger clock that
//! supplies a timestamp and sequence number, and persistent storage — stay
//! outside this crate: their outcomes enter each operation as explicit
//! arguments, and every decision the raffle makes from them is verified.

pub mod laws;
pub mod raffle;

pub use raffle::AddressId;
pub use raffle::DataKey;
pub use raffle::LuminariffContract;
pub use raffle::Participant;
pub use raffle::RaffleError;
pub use raffle::TICKET_PRICE;
