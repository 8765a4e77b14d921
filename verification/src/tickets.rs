//! The ticket ledger: selling tickets, and the invariant that the entries of
//! a raffle partition the ticket index space `[0, total_tickets)` exactly —
//! consecutive ranges, no gaps, no overlaps, in purchase order.
//!
//! Each entry is one contiguous cumulative range, so a purchase can keep the
//! partition in only two ways: a buyer's first purchase appends an entry
//! starting at the previous ticket total, and a repeat purchase extends the
//! buyer's entry in place — allowed only while that entry's range still ends
//! at the ticket total, that is, while no other tickets were sold since.
//! A repeat purchase behind later sales is rejected (`EntryNotExtendable`):
//! extending in place there would overlap the later entries' tickets and
//! leave the newest indices uncovered. This is the chosen policy; the other
//! resolution would be per-purchase entry segments instead of one cumulative
//! range per buyer.

use vstd::prelude::*;
use crate::errors::RaffleError;
use crate::state::{Entry, Pubkey, Raffle, RaffleStatus, TokenTransfer};
use crate::state::{raffle_wf, status_can_advance};

verus! {

/// The entries of a raffle, in order of first purchase, carve `[0, total)`
/// into consecutive non-empty ranges: each entry's range starts where the
/// previous one ends, the first starts at 0, and the last ends at `total`.
/// (Every entry holds at least one ticket, since entries only come from
/// purchases of a positive count.)
pub open spec fn entries_partition(es: Seq<Entry>, total: u32) -> bool
    decreases es.len(),
{
    if es.len() == 0 {
        total == 0
    } else {
        let last = es.last();
        &&& last.num_tickets > 0
        &&& last.start_ticket_index + last.num_tickets == total
        &&& entries_partition(es.drop_last(), last.start_ticket_index)
    }
}

/// Whether ticket index `t` belongs to entry `e`.
pub open spec fn entry_covers(e: Entry, t: int) -> bool {
    e.start_ticket_index <= t < e.start_ticket_index + e.num_tickets
}

/// Whether some entry among `es` covers ticket index `t`.
pub open spec fn ticket_covered(es: Seq<Entry>, t: int) -> bool {
    exists|i: int| 0 <= i < es.len() && entry_covers(#[trigger] es[i], t)
}

/// What the partition shape means for the ranges themselves: every range lies
/// within `[0, total)`, ranges of distinct entries are pairwise disjoint (an
/// earlier entry's range ends before a later one's begins), and every ticket
/// in `[0, total)` is covered by some entry.
pub proof fn lemma_partition_ranges(es: Seq<Entry>, total: u32)
    requires
        entries_partition(es, total),
    ensures
        forall|i: int|
            0 <= i < es.len() ==> (#[trigger] es[i]).start_ticket_index + es[i].num_tickets
                <= total,
        forall|i: int, j: int|
            0 <= i < j < es.len() ==> (#[trigger] es[i]).start_ticket_index + es[i].num_tickets
                <= (#[trigger] es[j]).start_ticket_index,
        forall|t: int| 0 <= t < total ==> #[trigger] ticket_covered(es, t),
    decreases es.len(),
{
    if es.len() > 0 {
        let last = es.last();
        let prefix = es.drop_last();
        lemma_partition_ranges(prefix, last.start_ticket_index);
        assert(forall|i: int| 0 <= i < prefix.len() ==> prefix[i] == es[i]);
        assert forall|t: int| 0 <= t < total implies #[trigger] ticket_covered(es, t) by {
            if t < last.start_ticket_index {
                assert(ticket_covered(prefix, t));
                let i = choose|i: int| 0 <= i < prefix.len() && entry_covers(#[trigger] prefix[i], t);
                assert(entry_covers(es[i], t));
            } else {
                assert(entry_covers(es[es.len() - 1], t));
            }
        }
    }
}

/// A first purchase appends an entry whose range starts exactly at the
/// raffle's previous ticket total — as `buy_tickets` ensures — which keeps
/// the entries a partition of the grown index space.
pub proof fn lemma_partition_new_entry(es: Seq<Entry>, e: Entry, total: u32, new_total: u32)
    requires
        entries_partition(es, total),
        e.start_ticket_index == total,
        e.num_tickets > 0,
        e.start_ticket_index + e.num_tickets == new_total,
    ensures
        entries_partition(es.push(e), new_total),
{
    assert(es.push(e).drop_last() =~= es);
}

/// A repeat purchase extends an entry in place. `buy_tickets` allows that
/// only while the entry's range still ends at the raffle's ticket total; in a
/// partition such an entry can only be the most recent one, and growing its
/// range keeps the entries a partition of the grown index space. Together
/// with `lemma_partition_new_entry` this covers every purchase that
/// `buy_tickets` lets succeed.
pub proof fn lemma_partition_extend(es: Seq<Entry>, i: int, e: Entry, total: u32, new_total: u32)
    requires
        entries_partition(es, total),
        0 <= i < es.len(),
        es[i].start_ticket_index + es[i].num_tickets == total,
        e.start_ticket_index == es[i].start_ticket_index,
        e.num_tickets > 0,
        e.start_ticket_index + e.num_tickets == new_total,
    ensures
        i == es.len() - 1,
        entries_partition(es.update(i, e), new_total),
{
    let j = es.len() - 1;
    if i < j {
        lemma_partition_ranges(es, total);
        // the last range is non-empty and ends at `total`, so an earlier
        // range ends strictly below it — es[i] cannot end at `total` too
        assert(es[i].start_ticket_index + es[i].num_tickets <= es[j].start_ticket_index);
        assert(es[j].num_tickets > 0);
        assert(false);
    }
    let es2 = es.update(i, e);
    assert(es2.last() == e);
    assert(es2.drop_last() =~= es.drop_last());
}

/// The first rejection a purchase raises, in the order the checks run, or
/// `Ok` when it is allowed: the raffle must be active and before its
/// deadline, the count positive, the buyer's cumulative holding within the
/// per-wallet cap, the buyer's existing range still extendable in place
/// (nothing sold since — see the module description), and the cost and grown
/// counters representable.
pub open spec fn buy_check(r: Raffle, e: Entry, count: u32, now: i64) -> Result<(), RaffleError> {
    let current = if e.is_initialized {
        e.num_tickets
    } else {
        0u32
    };
    if !(r.status is Active) {
        Err(RaffleError::RaffleNotActive)
    } else if now >= r.end_time {
        Err(RaffleError::RaffleClosed)
    } else if count == 0 {
        Err(RaffleError::InvalidTicketCount)
    } else if r.max_per_wallet > 0 && current + count > r.max_per_wallet {
        Err(RaffleError::MaxTicketsExceeded)
    } else if e.is_initialized && e.start_ticket_index + e.num_tickets != r.total_tickets {
        Err(RaffleError::EntryNotExtendable)
    } else if r.ticket_price * count > u64::MAX || current + count > u32::MAX || r.total_tickets
        + count > u32::MAX || r.total_pot + r.ticket_price * count > u64::MAX {
        Err(RaffleError::Overflow)
    } else {
        Ok(())
    }
}

/// Sells `num_tickets` tickets of `raffle` to `buyer`, against the entry the
/// host resolved for the `(raffle, buyer)` pair: a blank record on the first
/// purchase (`is_initialized` false), the buyer's existing entry afterwards.
///
/// On success the entry is created with its range starting at the raffle's
/// previous ticket total, or — only while the buyer's existing range still
/// ends at that total — extended in place by `num_tickets`; either way the
/// entries of the raffle keep partitioning the ticket index space
/// (`lemma_partition_new_entry`, `lemma_partition_extend`). The raffle's
/// counters grow by the tickets sold and their exact cost, and the returned
/// transfer moves that cost from the buyer into escrow; the host performs it
/// atomically with the state change. On rejection nothing changes and no
/// transfer is owed.
pub fn buy_tickets(
    raffle: &mut Raffle,
    entry: &mut Entry,
    raffle_key: Pubkey,
    buyer: Pubkey,
    num_tickets: u32,
    now: i64,
) -> (r: Result<TokenTransfer, RaffleError>)
    requires
        raffle_wf(*old(raffle)),
        old(entry).is_initialized ==> old(entry).buyer == buyer && old(entry).raffle == raffle_key,
    ensures
        raffle_wf(*final(raffle)),
        status_can_advance(old(raffle).status, final(raffle).status),
        r is Ok <==> buy_check(*old(raffle), *old(entry), num_tickets, now) is Ok,
        r is Err ==> {
            &&& r->Err_0 == buy_check(*old(raffle), *old(entry), num_tickets, now)->Err_0
            &&& *final(raffle) == *old(raffle)
            &&& *final(entry) == *old(entry)
        },
        r is Ok && old(entry).is_initialized ==> old(entry).start_ticket_index + old(
            entry,
        ).num_tickets == old(raffle).total_tickets,
        r is Ok ==> {
            &&& r->Ok_0 == (TokenTransfer {
                from: buyer,
                to: old(raffle).escrow,
                amount: (num_tickets * old(raffle).ticket_price) as u64,
            })
            &&& *final(raffle) == (Raffle {
                total_tickets: (old(raffle).total_tickets + num_tickets) as u32,
                total_pot: (old(raffle).total_pot + num_tickets * old(raffle).ticket_price) as u64,
                ..*old(raffle)
            })
            &&& old(entry).is_initialized ==> *final(entry) == (Entry {
                num_tickets: (old(entry).num_tickets + num_tickets) as u32,
                ..*old(entry)
            })
            &&& !old(entry).is_initialized ==> *final(entry) == (Entry {
                raffle: raffle_key,
                buyer,
                start_ticket_index: old(raffle).total_tickets,
                num_tickets,
                is_initialized: true,
                refunded: false,
            })
        },
{
    if !(raffle.status == RaffleStatus::Active) {
        return Err(RaffleError::RaffleNotActive);
    }
    if now >= raffle.end_time {
        return Err(RaffleError::RaffleClosed);
    }
    if num_tickets == 0 {
        return Err(RaffleError::InvalidTicketCount);
    }
    let current_tickets: u32 = if entry.is_initialized {
        entry.num_tickets
    } else {
        0
    };
    if raffle.max_per_wallet > 0 && (current_tickets as u64) + (num_tickets as u64) > (
    raffle.max_per_wallet as u64) {
        return Err(RaffleError::MaxTicketsExceeded);
    }
    if entry.is_initialized && (entry.start_ticket_index as u64) + (entry.num_tickets as u64) != (
    raffle.total_tickets as u64) {
        return Err(RaffleError::EntryNotExtendable);
    }
    let total_cost: u64 = match raffle.ticket_price.checked_mul(num_tickets as u64) {
        Some(c) => c,
        None => {
            return Err(RaffleError::Overflow);
        },
    };
    let new_num: u32 = match current_tickets.checked_add(num_tickets) {
        Some(n) => n,
        None => {
            return Err(RaffleError::Overflow);
        },
    };
    let new_total: u32 = match raffle.total_tickets.checked_add(num_tickets) {
        Some(n) => n,
        None => {
            return Err(RaffleError::Overflow);
        },
    };
    let new_pot: u64 = match raffle.total_pot.checked_add(total_cost) {
        Some(p) => p,
        None => {
            return Err(RaffleError::Overflow);
        },
    };
    proof {
        let t = old(raffle).total_tickets as int;
        let c = num_tickets as int;
        let p = old(raffle).ticket_price as int;
        assert((t + c) * p == t * p + c * p && c * p == p * c) by (nonlinear_arith);
    }
    if !entry.is_initialized {
        entry.raffle = raffle_key;
        entry.buyer = buyer;
        entry.start_ticket_index = raffle.total_tickets;
        entry.is_initialized = true;
        entry.refunded = false;
    }
    entry.num_tickets = new_num;
    raffle.total_tickets = new_total;
    raffle.total_pot = new_pot;
    Ok(TokenTransfer { from: buyer, to: raffle.escrow, amount: total_cost })
}

} // verus!
