//! The raffle manager: its state record, its invariant, and the five
//! operations of the lifecycle — initialize, ticket purchase, queries,
//! draw, and fund withdrawal.
//!
//! The state is a plain record.  A persisting host keeps it between calls
//! (see [`DataKey`] for the logical keys) and performs the external effects;
//! the outcome of each external collaborator — did the authorization oracle
//! vouch for the caller, did the value transfer go through, what the ledger
//! clock read — is passed in as an argument, so every decision made from
//! those outcomes is verified here for all possible outcomes.

use vstd::prelude::*;

verus! {

/// Fixed price of one ticket, in the smallest unit of the payment asset
/// (seven decimal places).
pub const TICKET_PRICE: i128 = 1_0000000;

/// Identifier of a principal on the hosting ledger: an opaque value the
/// authorization oracle can vouch for.  The raffle only compares these for
/// equality; the host maps them to its own address representation.
#[derive(Clone, Copy, PartialEq, Eq, Structural, Debug, Hash)]
pub struct AddressId {
    pub id: u64,
}

/// One ticket purchase: the buying principal together with the opaque,
/// unvalidated off-chain account identifier supplied at purchase time.
/// Entries need not be unique — each purchase is an independent append.
#[derive(Debug, PartialEq, Eq)]
pub struct Participant {
    pub stellar_address: AddressId,
    pub roblox_user_id: String,
}

/// Logical keys under which a persisting host keeps the three parts of the
/// raffle record: the administrator, the current-round participant list,
/// and the payment-asset reference.
#[derive(Clone, Copy, PartialEq, Eq, Structural, Debug, Hash)]
pub enum DataKey {
    Admin,
    Participants,
    TokenAddress,
}

/// Everything that can go wrong in a raffle operation.  `TransferFailed` is
/// propagated from the value-transfer service; the rest are generated here.
#[derive(Clone, Copy, PartialEq, Eq, Structural, Debug)]
pub enum RaffleError {
    NotInitialized,
    AlreadyInitialized,
    Unauthorized,
    NoParticipants,
    TransferFailed,
}

/// The draw's seed: the ledger timestamp times the ledger sequence number,
/// with wrapping 64-bit multiplication — overflow is expected and
/// intentional.  This is weak, ledger-derived pseudo-randomness: it is
/// deterministic given the two inputs and can be influenced by whoever
/// controls transaction timing.  It is kept for compatibility with the
/// historical selection algorithm and is not cryptographically secure;
/// callers needing unbiased randomness must bring an external verifiable
/// randomness source instead.
pub open spec fn draw_seed(timestamp: u64, sequence: u32) -> u64 {
    (((timestamp as int) * (sequence as int)) % 0x1_0000_0000_0000_0000) as u64
}

/// The winning position among `count` participants: the low 32 bits of the
/// seed, reduced modulo the participant count.  Always in `[0, count)` when
/// `count > 0`.
pub open spec fn winner_index(timestamp: u64, sequence: u32, count: u32) -> int
    recommends
        count > 0,
{
    ((draw_seed(timestamp, sequence) as int) % 0x1_0000_0000) % (count as int)
}

impl Clone for Participant {
    fn clone(&self) -> (r: Self)
        ensures
            r == *self,
    {
        Participant { stellar_address: self.stellar_address, roblox_user_id: self.roblox_user_id.clone() }
    }
}

/// The raffle manager's whole state: set exactly once by `initialize`,
/// grown one participant per ticket, cleared by a completed draw.
pub struct LuminariffContract {
    /// The administrator, present exactly when the raffle is initialized.
    pub admin: Option<AddressId>,
    /// Reference to the payment asset, set together with `admin`.
    pub token_address: Option<AddressId>,
    /// Current-round participants, in purchase order.
    pub participants: Vec<Participant>,
}

impl LuminariffContract {
    /// The raffle is initialized exactly when an administrator is stored.
    pub open spec fn spec_is_initialized(&self) -> bool {
        self.admin is Some
    }

    /// Well-formedness of the record: the administrator and the payment
    /// asset exist together, nobody can hold a ticket before
    /// initialization, and the participant count fits the 32-bit counter
    /// the ledger uses for it.
    pub open spec fn wf(self) -> bool {
        &&& self.admin is Some <==> self.token_address is Some
        &&& self.admin is None ==> self.participants@.len() == 0
        &&& self.participants@.len() <= u32::MAX as nat
    }

    /// A fresh, uninitialized record: what a host sees before `initialize`
    /// has ever run.
    pub fn new() -> (r: Self)
        ensures
            r.wf(),
            !r.spec_is_initialized(),
            r.admin is None,
            r.token_address is None,
            r.participants@ == Seq::<Participant>::empty(),
    {
        LuminariffContract { admin: None, token_address: None, participants: Vec::new() }
    }

    /// Whether `initialize` has completed on this record.
    #[verifier::when_used_as_spec(spec_is_initialized)]
    pub fn is_initialized(&self) -> (r: bool)
        ensures
            r == self.spec_is_initialized(),
    {
        self.admin.is_some()
    }

    /// Stores the administrator and the payment-asset reference, exactly
    /// once, and starts the first round with an empty participant list.
    /// Every later call fails with `AlreadyInitialized` and changes
    /// nothing.
    pub fn initialize(&mut self, admin: AddressId, token_address: AddressId) -> (r: Result<
        (),
        RaffleError,
    >)
        requires
            old(self).wf(),
        ensures
            final(self).wf(),
            old(self).spec_is_initialized() ==> {
                &&& r == Err::<(), RaffleError>(RaffleError::AlreadyInitialized)
                &&& *final(self) == *old(self)
            },
            !old(self).spec_is_initialized() ==> {
                &&& r == Ok::<(), RaffleError>(())
                &&& final(self).admin == Some(admin)
                &&& final(self).token_address == Some(token_address)
                &&& final(self).participants@ == Seq::<Participant>::empty()
            },
    {
        if self.admin.is_some() {
            return Err(RaffleError::AlreadyInitialized);
        }
        self.admin = Some(admin);
        self.token_address = Some(token_address);
        self.participants = Vec::new();
        Ok(())
    }

    /// Registers one ticket purchase.  `authorized` is the authorization
    /// oracle's verdict on the buyer's consent to this call; `transfer_ok`
    /// is the value-transfer service's verdict on moving the ticket price
    /// from the buyer into custody.  The participant is appended exactly
    /// when the buyer is authorized, the raffle is initialized, and the
    /// transfer went through; on any failure the state is untouched, so a
    /// caller can never register without paying.
    pub fn buy_ticket(
        &mut self,
        buyer: AddressId,
        roblox_user_id: String,
        authorized: bool,
        transfer_ok: bool,
    ) -> (r: Result<(), RaffleError>)
        requires
            old(self).wf(),
            old(self).participants@.len() < u32::MAX as nat,
        ensures
            final(self).wf(),
            !authorized ==> {
                &&& r == Err::<(), RaffleError>(RaffleError::Unauthorized)
                &&& *final(self) == *old(self)
            },
            authorized && !old(self).spec_is_initialized() ==> {
                &&& r == Err::<(), RaffleError>(RaffleError::NotInitialized)
                &&& *final(self) == *old(self)
            },
            authorized && old(self).spec_is_initialized() && !transfer_ok ==> {
                &&& r == Err::<(), RaffleError>(RaffleError::TransferFailed)
                &&& *final(self) == *old(self)
            },
            authorized && old(self).spec_is_initialized() && transfer_ok ==> {
                &&& r == Ok::<(), RaffleError>(())
                &&& final(self).participants@ == old(self).participants@.push(
                    Participant { stellar_address: buyer, roblox_user_id },
                )
                &&& final(self).admin == old(self).admin
                &&& final(self).token_address == old(self).token_address
            },
    {
        if !authorized {
            return Err(RaffleError::Unauthorized);
        }
        if self.token_address.is_none() {
            return Err(RaffleError::NotInitialized);
        }
        if !transfer_ok {
            return Err(RaffleError::TransferFailed);
        }
        let participant = Participant { stellar_address: buyer, roblox_user_id };
        self.participants.push(participant);
        Ok(())
    }

    /// The full current-round participant list, in purchase order.
    pub fn get_players(&self) -> (r: Vec<Participant>)
        ensures
            r@ == self.participants@,
    {
        let mut r: Vec<Participant> = Vec::new();
        let mut i: usize = 0;
        while i < self.participants.len()
            invariant
                i <= self.participants@.len(),
                r@ == self.participants@.subrange(0, i as int),
            decreases self.participants@.len() - i,
        {
            r.push(self.participants[i].clone());
            proof {
                assert(r@ =~= self.participants@.subrange(0, i + 1));
            }
            i = i + 1;
        }
        proof {
            assert(r@ =~= self.participants@);
        }
        r
    }

    /// The external identifiers of the current round, projected from the
    /// participant list in the same order; empty when nobody holds a
    /// ticket.
    pub fn get_roblox_ids(&self) -> (r: Vec<String>)
        ensures
            r@.len() == self.participants@.len(),
            forall|i: int|
                0 <= i < r@.len() ==> r@[i] == self.participants@[i].roblox_user_id,
    {
        let mut r: Vec<String> = Vec::new();
        let mut i: usize = 0;
        while i < self.participants.len()
            invariant
                i <= self.participants@.len(),
                r@.len() == i,
                forall|j: int|
                    0 <= j < i ==> r@[j] == self.participants@[j].roblox_user_id,
            decreases self.participants@.len() - i,
        {
            r.push(self.participants[i].roblox_user_id.clone());
            i = i + 1;
        }
        r
    }

    /// The number of tickets sold in the current round.
    pub fn get_participants_count(&self) -> (r: u32)
        requires
            self.wf(),
        ensures
            r == self.participants@.len(),
    {
        self.participants.len() as u32
    }

    /// Selects the winner of the current round and resets for the next
    /// one.  `authorized` is the authorization oracle's verdict on the
    /// caller's consent; the caller must also be the stored administrator.
    /// `timestamp` and `sequence` come from the ledger clock; the winner is
    /// the participant at `winner_index(timestamp, sequence, count)` in
    /// purchase order, an entry of the round being drawn.  On success the
    /// participant list is empty afterwards; on any failure the state is
    /// untouched.
    pub fn execute_draw(
        &mut self,
        admin: AddressId,
        authorized: bool,
        timestamp: u64,
        sequence: u32,
    ) -> (r: Result<Participant, RaffleError>)
        requires
            old(self).wf(),
        ensures
            final(self).wf(),
            !authorized ==> {
                &&& r == Err::<Participant, RaffleError>(RaffleError::Unauthorized)
                &&& *final(self) == *old(self)
            },
            authorized && !old(self).spec_is_initialized() ==> {
                &&& r == Err::<Participant, RaffleError>(RaffleError::NotInitialized)
                &&& *final(self) == *old(self)
            },
            authorized && old(self).spec_is_initialized() && old(self).admin != Some(admin) ==> {
                &&& r == Err::<Participant, RaffleError>(RaffleError::Unauthorized)
                &&& *final(self) == *old(self)
            },
            authorized && old(self).admin == Some(admin) && old(self).participants@.len() == 0
                ==> {
                &&& r == Err::<Participant, RaffleError>(RaffleError::NoParticipants)
                &&& *final(self) == *old(self)
            },
            authorized && old(self).admin == Some(admin) && old(self).participants@.len() > 0
                ==> {
                &&& r matches Ok(w)
                &&& w == old(self).participants@[winner_index(
                    timestamp,
                    sequence,
                    old(self).participants@.len() as u32,
                )]
                &&& old(self).participants@.contains(w)
                &&& final(self).participants@ == Seq::<Participant>::empty()
                &&& final(self).admin == old(self).admin
                &&& final(self).token_address == old(self).token_address
            },
    {
        if !authorized {
            return Err(RaffleError::Unauthorized);
        }
        let stored_admin = match self.admin {
            Some(a) => a,
            None => {
                return Err(RaffleError::NotInitialized);
            },
        };
        if stored_admin != admin {
            return Err(RaffleError::Unauthorized);
        }
        let count: u32 = self.participants.len() as u32;
        if count == 0 {
            return Err(RaffleError::NoParticipants);
        }
        let seed: u64 = timestamp.wrapping_mul(sequence as u64);
        let low: u64 = seed % 0x1_0000_0000;
        let idx: u32 = (low as u32) % count;
        let winner = self.participants[idx as usize].clone();
        self.participants.clear();
        Ok(winner)
    }

    /// Asks the value-transfer service to move `amount` from the raffle's
    /// custody to the administrator.  `authorized` is the authorization
    /// oracle's verdict on the caller's consent; the caller must also be
    /// the stored administrator.  `transfer_ok` is the transfer service's
    /// verdict, failed on insufficient custody balance.  No bound ties
    /// `amount` to ticket revenue: the amount is trusted to the
    /// administrator's judgment.  The raffle record itself is never
    /// changed.
    pub fn withdraw_funds(
        &self,
        admin: AddressId,
        amount: i128,
        authorized: bool,
        transfer_ok: bool,
    ) -> (r: Result<(), RaffleError>)
        requires
            self.wf(),
            amount >= 0,
        ensures
            !authorized ==> r == Err::<(), RaffleError>(RaffleError::Unauthorized),
            authorized && !self.spec_is_initialized() ==> r == Err::<(), RaffleError>(
                RaffleError::NotInitialized,
            ),
            authorized && self.spec_is_initialized() && self.admin != Some(admin) ==> r == Err::<
                (),
                RaffleError,
            >(RaffleError::Unauthorized),
            authorized && self.admin == Some(admin) && !transfer_ok ==> r == Err::<
                (),
                RaffleError,
            >(RaffleError::TransferFailed),
            authorized && self.admin == Some(admin) && transfer_ok ==> r == Ok::<(), RaffleError>(
                (),
            ),
    {
        if !authorized {
            return Err(RaffleError::Unauthorized);
        }
        let stored_admin = match self.admin {
            Some(a) => a,
            None => {
                return Err(RaffleError::NotInitialized);
            },
        };
        if stored_admin != admin {
            return Err(RaffleError::Unauthorized);
        }
        if !transfer_ok {
            return Err(RaffleError::TransferFailed);
        }
        Ok(())
    }

    /// The stored administrator, or `NotInitialized` before the first
    /// `initialize`.
    pub fn get_admin(&self) -> (r: Result<AddressId, RaffleError>)
        ensures
            self.admin matches Some(a) ==> r == Ok::<AddressId, RaffleError>(a),
            self.admin is None ==> r == Err::<AddressId, RaffleError>(RaffleError::NotInitialized),
    {
        match self.admin {
            Some(a) => Ok(a),
            None => Err(RaffleError::NotInitialized),
        }
    }
}

} // verus!
