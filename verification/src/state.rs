//! Data model: account identities, raffle and entry records, the lifecycle
//! status machine, and the well-formedness invariants that every operation
//! preserves.

use vstd::prelude::*;

verus! {

/// An opaque account identity. The hosting environment derives and compares
/// real addresses; the raffle logic only ever tests identities for equality.
#[derive(Clone, Copy, PartialEq, Eq, Structural, Debug, Hash)]
pub struct Pubkey(pub u64);

/// Lifecycle status of a raffle. The happy path runs
/// `Active -> DrawCommitted -> DrawComplete -> Claimed`; `Cancelled` is
/// reachable only from `Active`. `Claimed` and `Cancelled` are terminal.
#[derive(Clone, Copy, PartialEq, Eq, Structural, Debug)]
pub enum RaffleStatus {
    Active,
    DrawCommitted,
    DrawComplete,
    Claimed,
    Cancelled,
}

/// The reflexive-transitive closure of the allowed status transitions:
/// `status_can_advance(a, b)` holds exactly when a raffle whose status is `a`
/// may later be observed with status `b`.
pub open spec fn status_can_advance(a: RaffleStatus, b: RaffleStatus) -> bool {
    ||| a == b
    ||| (a is Active && (b is DrawCommitted || b is DrawComplete || b is Claimed || b is Cancelled))
    ||| (a is DrawCommitted && (b is DrawComplete || b is Claimed))
    ||| (a is DrawComplete && b is Claimed)
}

/// Status is monotonic: the transition order admits no cycles, so no
/// operation can ever move a raffle's status backward.
pub proof fn lemma_status_no_backward(a: RaffleStatus, b: RaffleStatus)
    requires
        status_can_advance(a, b),
        status_can_advance(b, a),
    ensures
        a == b,
{
}

/// `Claimed` and `Cancelled` are terminal: no status is reachable from them
/// but themselves.
pub proof fn lemma_status_terminal(a: RaffleStatus, b: RaffleStatus)
    requires
        a is Claimed || a is Cancelled,
        status_can_advance(a, b),
    ensures
        b == a,
{
}

/// One raffle campaign: identity and configuration fixed at creation,
/// running ticket/pot counters, and the draw outcome once settled.
#[derive(Clone, Debug, PartialEq, Eq)]
pub struct Raffle {
    /// The creating authority; may cancel at its discretion while `Active`.
    pub authority: Pubkey,
    /// Display name: 1 to 32 bytes.
    pub name: Vec<u8>,
    /// The currency the raffle is denominated in.
    pub token_mint: Pubkey,
    /// The escrow account holding the pot; source of every payout.
    pub escrow: Pubkey,
    /// Recipient of the platform fee.
    pub platform_wallet: Pubkey,
    /// Price of one ticket; strictly positive.
    pub ticket_price: u64,
    /// Pot threshold the raffle must reach for a draw; at least `ticket_price`.
    pub min_pot: u64,
    /// Cap on one buyer's cumulative tickets; 0 means unlimited.
    pub max_per_wallet: u32,
    /// Deadline: purchases happen strictly before it, the draw at or after it.
    pub end_time: i64,
    /// Tickets sold so far; also the index the next sold ticket will get.
    pub total_tickets: u32,
    /// Value collected so far; always `total_tickets * ticket_price` exactly.
    pub total_pot: u64,
    pub status: RaffleStatus,
    /// The buyer who claimed the prize, recorded at claim time.
    pub winner: Option<Pubkey>,
    /// Index of the winning ticket, recorded at settle time.
    pub winning_ticket: Option<u32>,
    /// The revealed random value the winning ticket was derived from.
    pub randomness: Option<[u8; 32]>,
    /// The oracle instance the draw was committed to.
    pub randomness_account: Option<Pubkey>,
    /// The oracle's seed slot recorded at commit time; the reveal must match it.
    pub commit_slot: Option<u64>,
    /// Creation timestamp.
    pub created_at: i64,
}

/// One buyer's cumulative holding in one raffle. Created on the buyer's first
/// purchase and extended by later ones — only while no other tickets were
/// sold in between, so that the buyer's contiguous ticket range
/// `[start_ticket_index, start_ticket_index + num_tickets)` keeps its place
/// in the raffle's ticket partition.
#[derive(Clone, Copy, PartialEq, Eq, Structural, Debug)]
pub struct Entry {
    /// The raffle this entry belongs to.
    pub raffle: Pubkey,
    /// The buyer who owns this entry; only they may claim its refund or prize.
    pub buyer: Pubkey,
    /// Index of the buyer's first ticket; fixed at first purchase.
    pub start_ticket_index: u32,
    /// Cumulative tickets bought; monotonically increasing.
    pub num_tickets: u32,
    /// False until the first purchase writes the record.
    pub is_initialized: bool,
    /// Set at most once, by a successful refund on a cancelled raffle.
    pub refunded: bool,
}

/// One value movement the hosting ledger must perform, atomically with the
/// state change of the operation that produced it.
#[derive(Clone, Copy, PartialEq, Eq, Structural, Debug)]
pub struct TokenTransfer {
    pub from: Pubkey,
    pub to: Pubkey,
    pub amount: u64,
}

/// The published state of one randomness-oracle instance, as the host reads
/// it when an operation runs: the slot its seed was bound in, and the
/// revealed value if the reveal has already happened (`None` otherwise).
#[derive(Clone, Copy, Debug)]
pub struct RandomnessState {
    pub seed_slot: u64,
    pub value: Option<[u8; 32]>,
}

/// Ledger accounting reconciles exactly: the pot is always the number of
/// tickets sold times the fixed ticket price, with no rounding ever.
pub open spec fn pot_consistent(r: Raffle) -> bool {
    r.total_pot == r.total_tickets * r.ticket_price
}

/// Once a winning ticket is recorded it names a ticket that was really sold.
pub open spec fn winning_ticket_in_range(r: Raffle) -> bool {
    r.winning_ticket is Some ==> r.winning_ticket->Some_0 < r.total_tickets
}

/// Well-formedness of a raffle record: configuration bounds, exact
/// accounting, and the fields each lifecycle status guarantees. Established
/// by `create_raffle` and preserved by every operation.
pub open spec fn raffle_wf(r: Raffle) -> bool {
    &&& r.ticket_price > 0
    &&& r.min_pot > 0
    &&& r.min_pot >= r.ticket_price
    &&& 0 < r.name@.len() <= 32
    &&& pot_consistent(r)
    &&& winning_ticket_in_range(r)
    &&& (r.status is DrawCommitted || r.status is DrawComplete || r.status is Claimed)
        ==> r.total_tickets > 0
    &&& r.status is DrawCommitted ==> r.randomness_account is Some && r.commit_slot is Some
    &&& (r.status is DrawComplete || r.status is Claimed)
        ==> r.winning_ticket is Some && r.randomness is Some
    &&& r.status is Claimed ==> r.winner is Some
}

} // verus!
