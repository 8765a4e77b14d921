//! Every way an operation can be rejected. No error is silently recovered:
//! a rejected operation leaves the raffle and its entries unchanged.

use vstd::prelude::*;

verus! {

/// The distinct rejection reasons, one per violated precondition.
#[derive(Clone, Copy, PartialEq, Eq, Structural, Debug)]
pub enum RaffleError {
    /// Creation: the deadline is not strictly in the future.
    InvalidEndTime,
    /// Creation: the ticket price is zero.
    InvalidTicketPrice,
    /// Creation: the minimum pot is zero.
    InvalidMinPot,
    /// Creation: the minimum pot is below the ticket price.
    MinPotTooLow,
    /// Creation: the name is empty or longer than 32 bytes.
    InvalidName,
    /// The raffle is not in `Active` status.
    RaffleNotActive,
    /// Purchase after the deadline.
    RaffleClosed,
    /// Purchase of zero tickets.
    InvalidTicketCount,
    /// Purchase would push the buyer past the per-wallet cap.
    MaxTicketsExceeded,
    /// Repeat purchase after other tickets were sold: the buyer's contiguous
    /// range no longer ends at the raffle's ticket total, so extending it in
    /// place would overlap the later entries' tickets.
    EntryNotExtendable,
    /// A cost, pot or fee computation would overflow.
    Overflow,
    /// Draw committed before the deadline.
    RaffleNotEnded,
    /// Draw committed with no tickets sold.
    NoTickets,
    /// Draw committed below the minimum pot.
    ThresholdNotMet,
    /// Prize claimed before the draw was settled.
    DrawNotComplete,
    /// Prize claimed while no winning ticket is recorded.
    NoWinnerDrawn,
    /// Prize claimed by someone whose entry does not hold the winning ticket.
    NotWinner,
    /// Cancellation by a caller who is neither the authority nor entitled to
    /// the permissionless threshold-failure path.
    CannotCancel,
    /// Refund claimed while the raffle is not cancelled.
    RaffleNotCancelled,
    /// Refund claimed by someone other than the entry's buyer.
    NotEntryOwner,
    /// Refund claimed a second time on the same entry.
    AlreadyRefunded,
    /// The oracle instance offered at settle time is not the committed one.
    InvalidRandomnessAccount,
    /// The oracle's seed slot is stale at commit time, or no longer matches
    /// the recorded one at settle time.
    RandomnessExpired,
    /// The oracle's value was already public at commit time.
    RandomnessAlreadyRevealed,
    /// The oracle has not revealed its value yet at settle time.
    RandomnessNotResolved,
    /// Draw settled while no commitment is recorded.
    DrawNotCommitted,
}

} // verus!
