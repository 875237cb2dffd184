//! Laws of the raffle lifecycle that relate several operations: how a run
//! of ticket purchases builds the round, and what a completed draw leaves
//! behind for the next one.  Each is stated over the sequence model that
//! the operations' own contracts use.

use vstd::prelude::*;

use crate::raffle::Participant;
use crate::raffle::winner_index;

verus! {

/// The participant list after a run of successful ticket purchases, applied
/// in call order: each purchase appends its participant, as the contract of
/// `LuminariffContract::buy_ticket` states of a single call.
pub open spec fn participants_after_purchases(
    ps: Seq<Participant>,
    purchases: Seq<Participant>,
) -> Seq<Participant>
    decreases purchases.len(),
{
    if purchases.len() == 0 {
        ps
    } else {
        participants_after_purchases(ps.push(purchases[0]), purchases.drop_first())
    }
}

/// A run of successful ticket purchases appends exactly the purchased
/// participants, in call order, after whatever was already registered: the
/// count grows by the number of calls and no entry is reordered or lost.
pub proof fn lemma_purchases_append_in_order(ps: Seq<Participant>, purchases: Seq<Participant>)
    ensures
        participants_after_purchases(ps, purchases) == ps + purchases,
    decreases purchases.len(),
{
    if purchases.len() == 0 {
        assert(participants_after_purchases(ps, purchases) =~= ps + purchases);
    } else {
        lemma_purchases_append_in_order(ps.push(purchases[0]), purchases.drop_first());
        assert(ps.push(purchases[0]) + purchases.drop_first() =~= ps + purchases);
    }
}

/// From the empty round that `initialize` (or a completed draw) leaves, the
/// participant list after a run of successful purchases is exactly the run
/// itself: the count equals the number of calls and the order is the call
/// order.
pub proof fn lemma_round_is_its_purchases(purchases: Seq<Participant>)
    ensures
        participants_after_purchases(Seq::<Participant>::empty(), purchases) == purchases,
{
    lemma_purchases_append_in_order(Seq::<Participant>::empty(), purchases);
    assert(Seq::<Participant>::empty() + purchases =~= purchases);
}

/// Whatever the ledger clock supplies, the winning position falls inside
/// the participant list, so a draw over a non-empty round always returns
/// an entry that was registered in that round.
pub proof fn lemma_winner_index_in_range(timestamp: u64, sequence: u32, count: u32)
    requires
        count > 0,
    ensures
        0 <= winner_index(timestamp, sequence, count) < count,
{
}

/// A completed draw leaves the round empty, so one fresh purchase yields a
/// list of length one holding only the new participant: nothing leaks over
/// from the drawn round.
pub proof fn lemma_fresh_round_after_draw(p: Participant)
    ensures
        Seq::<Participant>::empty().push(p).len() == 1,
        Seq::<Participant>::empty().push(p)[0] == p,
        forall|q: Participant| Seq::<Participant>::empty().push(p).contains(q) ==> q == p,
{
    assert forall|q: Participant| Seq::<Participant>::empty().push(p).contains(q) implies q == p by {
        let i = choose|i: int|
            0 <= i < Seq::<Participant>::empty().push(p).len() && Seq::<Participant>::empty().push(
                p,
            )[i] == q;
        assert(i == 0);
    }
}

} // verus!
