//! The raffle lifecycle state machine: creation, the two-phase draw
//! (commit, then settle), prize claim, cancellation, and per-entry refunds.
//! Every operation is gated on the current status and rejects without any
//! state change; the allowed transitions only ever move the status forward.
//!
//! The host executes each operation as one indivisible transaction: it
//! verifies signatures, reads the clock and the oracle's published state,
//! hands them in as plain values, and performs the returned transfers
//! atomically with the state change.

use vstd::prelude::*;
use crate::errors::RaffleError;
use crate::fees::{PLATFORM_FEE_BPS, fee_split, spec_fee, spec_net};
use crate::randomness::{spec_winning_index, winning_index};
use crate::state::{Entry, Pubkey, Raffle, RaffleStatus, RandomnessState, TokenTransfer};
use crate::state::{raffle_wf, status_can_advance};

verus! {

/// The first rejection raffle creation raises, in the order the checks run,
/// or `Ok` when the parameters are valid: a deadline strictly in the future,
/// a positive ticket price, a threshold of at least one ticket's price, and
/// a name of 1 to 32 bytes.
pub open spec fn create_check(
    name: Seq<u8>,
    ticket_price: u64,
    min_pot: u64,
    end_time: i64,
    now: i64,
) -> Result<(), RaffleError> {
    if end_time <= now {
        Err(RaffleError::InvalidEndTime)
    } else if ticket_price == 0 {
        Err(RaffleError::InvalidTicketPrice)
    } else if min_pot == 0 {
        Err(RaffleError::InvalidMinPot)
    } else if min_pot < ticket_price {
        Err(RaffleError::MinPotTooLow)
    } else if name.len() == 0 || name.len() > 32 {
        Err(RaffleError::InvalidName)
    } else {
        Ok(())
    }
}

/// Creates a raffle: validates the configuration and returns the new record
/// in `Active` status with zeroed counters and no draw outcome. The host
/// stores it under an address derived from the authority and the name.
pub fn create_raffle(
    authority: Pubkey,
    token_mint: Pubkey,
    escrow: Pubkey,
    platform_wallet: Pubkey,
    name: Vec<u8>,
    ticket_price: u64,
    min_pot: u64,
    max_per_wallet: u32,
    end_time: i64,
    now: i64,
) -> (r: Result<Raffle, RaffleError>)
    ensures
        r is Ok <==> create_check(name@, ticket_price, min_pot, end_time, now) is Ok,
        r is Err ==> r->Err_0 == create_check(name@, ticket_price, min_pot, end_time, now)->Err_0,
        r is Ok ==> r->Ok_0 == (Raffle {
            authority,
            name,
            token_mint,
            escrow,
            platform_wallet,
            ticket_price,
            min_pot,
            max_per_wallet,
            end_time,
            total_tickets: 0,
            total_pot: 0,
            status: RaffleStatus::Active,
            winner: None,
            winning_ticket: None,
            randomness: None,
            randomness_account: None,
            commit_slot: None,
            created_at: now,
        }),
        r is Ok ==> raffle_wf(r->Ok_0),
{
    if end_time <= now {
        return Err(RaffleError::InvalidEndTime);
    }
    if ticket_price == 0 {
        return Err(RaffleError::InvalidTicketPrice);
    }
    if min_pot == 0 {
        return Err(RaffleError::InvalidMinPot);
    }
    if min_pot < ticket_price {
        return Err(RaffleError::MinPotTooLow);
    }
    if name.len() == 0 || name.len() > 32 {
        return Err(RaffleError::InvalidName);
    }
    let result = Raffle {
        authority,
        name,
        token_mint,
        escrow,
        platform_wallet,
        ticket_price,
        min_pot,
        max_per_wallet,
        end_time,
        total_tickets: 0,
        total_pot: 0,
        status: RaffleStatus::Active,
        winner: None,
        winning_ticket: None,
        randomness: None,
        randomness_account: None,
        commit_slot: None,
        created_at: now,
    };
    proof {
        assert(0 * result.ticket_price == 0) by (nonlinear_arith);
    }
    Ok(result)
}

/// The first rejection the draw commitment raises, in the order the checks
/// run, or `Ok` when it is allowed: the raffle active and past its deadline
/// with tickets sold and the threshold met, the oracle's seed bound in the
/// current or immediately preceding slot (anything older could already be
/// known and ground), and its value not yet revealed.
pub open spec fn commit_check(
    r: Raffle,
    oracle: RandomnessState,
    now: i64,
    current_slot: u64,
) -> Result<(), RaffleError> {
    if !(r.status is Active) {
        Err(RaffleError::RaffleNotActive)
    } else if now < r.end_time {
        Err(RaffleError::RaffleNotEnded)
    } else if r.total_tickets == 0 {
        Err(RaffleError::NoTickets)
    } else if r.total_pot < r.min_pot {
        Err(RaffleError::ThresholdNotMet)
    } else if !(oracle.seed_slot == current_slot || oracle.seed_slot + 1 == current_slot) {
        Err(RaffleError::RandomnessExpired)
    } else if oracle.value is Some {
        Err(RaffleError::RandomnessAlreadyRevealed)
    } else {
        Ok(())
    }
}

/// First draw phase: binds the raffle to one oracle instance while that
/// instance's seed is fresh and its value still unknowable, and records the
/// seed slot the reveal will have to match. Moves the status to
/// `DrawCommitted`. The host verifies the authority's signature and reads
/// `oracle` from the instance named by `randomness_account`.
pub fn commit_draw(
    raffle: &mut Raffle,
    randomness_account: Pubkey,
    oracle: &RandomnessState,
    now: i64,
    current_slot: u64,
) -> (r: Result<(), RaffleError>)
    requires
        raffle_wf(*old(raffle)),
    ensures
        raffle_wf(*final(raffle)),
        status_can_advance(old(raffle).status, final(raffle).status),
        r is Ok <==> commit_check(*old(raffle), *oracle, now, current_slot) is Ok,
        r is Err ==> {
            &&& r->Err_0 == commit_check(*old(raffle), *oracle, now, current_slot)->Err_0
            &&& *final(raffle) == *old(raffle)
        },
        r is Ok ==> *final(raffle) == (Raffle {
            randomness_account: Some(randomness_account),
            commit_slot: Some(oracle.seed_slot),
            status: RaffleStatus::DrawCommitted,
            ..*old(raffle)
        }),
{
    if !(raffle.status == RaffleStatus::Active) {
        return Err(RaffleError::RaffleNotActive);
    }
    if now < raffle.end_time {
        return Err(RaffleError::RaffleNotEnded);
    }
    if raffle.total_tickets == 0 {
        return Err(RaffleError::NoTickets);
    }
    if raffle.total_pot < raffle.min_pot {
        return Err(RaffleError::ThresholdNotMet);
    }
    let fresh: bool = oracle.seed_slot == current_slot || (current_slot > 0 && oracle.seed_slot
        == current_slot - 1);
    if !fresh {
        return Err(RaffleError::RandomnessExpired);
    }
    if matches!(oracle.value, Some(_)) {
        return Err(RaffleError::RandomnessAlreadyRevealed);
    }
    raffle.randomness_account = Some(randomness_account);
    raffle.commit_slot = Some(oracle.seed_slot);
    raffle.status = RaffleStatus::DrawCommitted;
    Ok(())
}

/// The first rejection the draw settlement raises, in the order the checks
/// run, or `Ok` when it is allowed: a commitment recorded, the oracle
/// instance and its seed slot exactly the committed ones (so no other,
/// possibly favorable, instance can be substituted), and the value revealed.
pub open spec fn settle_check(
    r: Raffle,
    randomness_account: Pubkey,
    oracle: RandomnessState,
) -> Result<(), RaffleError> {
    if !(r.status is DrawCommitted) {
        Err(RaffleError::DrawNotCommitted)
    } else if r.randomness_account is None {
        Err(RaffleError::InvalidRandomnessAccount)
    } else if r.randomness_account->Some_0 != randomness_account {
        Err(RaffleError::InvalidRandomnessAccount)
    } else if r.commit_slot is None {
        Err(RaffleError::DrawNotCommitted)
    } else if oracle.seed_slot != r.commit_slot->Some_0 {
        Err(RaffleError::RandomnessExpired)
    } else if oracle.value is None {
        Err(RaffleError::RandomnessNotResolved)
    } else {
        Ok(())
    }
}

/// Second draw phase: verifies the reveal against the stored commitment,
/// records the revealed value, and derives the winning ticket from it. Moves
/// the status to `DrawComplete`. The winning index always names a sold
/// ticket. The host verifies the authority's signature and reads `oracle`
/// from the instance named by `randomness_account`.
pub fn settle_draw(
    raffle: &mut Raffle,
    randomness_account: Pubkey,
    oracle: &RandomnessState,
) -> (r: Result<(), RaffleError>)
    requires
        raffle_wf(*old(raffle)),
    ensures
        raffle_wf(*final(raffle)),
        status_can_advance(old(raffle).status, final(raffle).status),
        r is Ok <==> settle_check(*old(raffle), randomness_account, *oracle) is Ok,
        r is Err ==> {
            &&& r->Err_0 == settle_check(*old(raffle), randomness_account, *oracle)->Err_0
            &&& *final(raffle) == *old(raffle)
        },
        r is Ok ==> *final(raffle) == (Raffle {
            winning_ticket: Some(
                spec_winning_index(oracle.value->Some_0, old(raffle).total_tickets) as u32,
            ),
            randomness: Some(oracle.value->Some_0),
            status: RaffleStatus::DrawComplete,
            ..*old(raffle)
        }),
        r is Ok ==> final(raffle).winning_ticket->Some_0 < final(raffle).total_tickets,
{
    if !(raffle.status == RaffleStatus::DrawCommitted) {
        return Err(RaffleError::DrawNotCommitted);
    }
    let stored_account: Pubkey = match raffle.randomness_account {
        Some(k) => k,
        None => {
            return Err(RaffleError::InvalidRandomnessAccount);
        },
    };
    if !(stored_account == randomness_account) {
        return Err(RaffleError::InvalidRandomnessAccount);
    }
    let commit_slot: u64 = match raffle.commit_slot {
        Some(s) => s,
        None => {
            return Err(RaffleError::DrawNotCommitted);
        },
    };
    if oracle.seed_slot != commit_slot {
        return Err(RaffleError::RandomnessExpired);
    }
    let revealed: [u8; 32] = match oracle.value {
        Some(v) => v,
        None => {
            return Err(RaffleError::RandomnessNotResolved);
        },
    };
    let winning_ticket: u32 = winning_index(&revealed, raffle.total_tickets);
    raffle.winning_ticket = Some(winning_ticket);
    raffle.randomness = Some(revealed);
    raffle.status = RaffleStatus::DrawComplete;
    Ok(())
}

/// The first rejection the prize claim raises, in the order the checks run,
/// or `Ok` when it is allowed: the draw settled, the claimant's entry holding
/// the winning ticket, the claimant the entry's buyer, and the fee
/// computation representable.
pub open spec fn prize_check(r: Raffle, e: Entry, winner: Pubkey) -> Result<(), RaffleError> {
    if !(r.status is DrawComplete) {
        Err(RaffleError::DrawNotComplete)
    } else if r.winning_ticket is None {
        Err(RaffleError::NoWinnerDrawn)
    } else if !(e.start_ticket_index <= r.winning_ticket->Some_0 < e.start_ticket_index
        + e.num_tickets) {
        Err(RaffleError::NotWinner)
    } else if e.buyer != winner {
        Err(RaffleError::NotWinner)
    } else if r.total_pot * PLATFORM_FEE_BPS > u64::MAX {
        Err(RaffleError::Overflow)
    } else {
        Ok(())
    }
}

/// Pays out a settled raffle: the pot is split into the platform fee and the
/// prize, which sum back to the pot exactly, and the two returned transfers
/// move them out of escrow to the fee recipient and the winner. Records the
/// winner and moves the status to `Claimed`, so a second claim is rejected.
/// The host verifies the claimant's signature, resolves their entry, and
/// performs the transfers atomically with the state change.
pub fn claim_prize(raffle: &mut Raffle, entry: &Entry, winner: Pubkey) -> (r: Result<
    (TokenTransfer, TokenTransfer),
    RaffleError,
>)
    requires
        raffle_wf(*old(raffle)),
    ensures
        raffle_wf(*final(raffle)),
        status_can_advance(old(raffle).status, final(raffle).status),
        r is Ok <==> prize_check(*old(raffle), *entry, winner) is Ok,
        r is Err ==> {
            &&& r->Err_0 == prize_check(*old(raffle), *entry, winner)->Err_0
            &&& *final(raffle) == *old(raffle)
        },
        r is Ok ==> {
            &&& *final(raffle) == (Raffle {
                winner: Some(winner),
                status: RaffleStatus::Claimed,
                ..*old(raffle)
            })
            &&& r->Ok_0.0 == (TokenTransfer {
                from: old(raffle).escrow,
                to: winner,
                amount: spec_net(old(raffle).total_pot) as u64,
            })
            &&& r->Ok_0.1 == (TokenTransfer {
                from: old(raffle).escrow,
                to: old(raffle).platform_wallet,
                amount: spec_fee(old(raffle).total_pot) as u64,
            })
            &&& r->Ok_0.0.amount + r->Ok_0.1.amount == old(raffle).total_pot
        },
{
    if !(raffle.status == RaffleStatus::DrawComplete) {
        return Err(RaffleError::DrawNotComplete);
    }
    let winning_ticket: u32 = match raffle.winning_ticket {
        Some(t) => t,
        None => {
            return Err(RaffleError::NoWinnerDrawn);
        },
    };
    let in_range: bool = entry.start_ticket_index <= winning_ticket && (winning_ticket as u64) < (
    entry.start_ticket_index as u64) + (entry.num_tickets as u64);
    if !in_range {
        return Err(RaffleError::NotWinner);
    }
    if !(entry.buyer == winner) {
        return Err(RaffleError::NotWinner);
    }
    let (platform_fee, prize_amount): (u64, u64) = match fee_split(raffle.total_pot) {
        Ok(split) => split,
        Err(e) => {
            return Err(e);
        },
    };
    raffle.winner = Some(winner);
    raffle.status = RaffleStatus::Claimed;
    Ok(
        (
            TokenTransfer { from: raffle.escrow, to: winner, amount: prize_amount },
            TokenTransfer { from: raffle.escrow, to: raffle.platform_wallet, amount: platform_fee },
        ),
    )
}

/// The first rejection the cancellation raises, in the order the checks run,
/// or `Ok` when it is allowed: the raffle still active, and the caller either
/// the authority (discretionary, any time before a commitment) or anyone at
/// all once the deadline has passed with the threshold objectively missed.
pub open spec fn cancel_check(r: Raffle, caller: Pubkey, now: i64) -> Result<(), RaffleError> {
    if !(r.status is Active) {
        Err(RaffleError::RaffleNotActive)
    } else if !(caller == r.authority || (now >= r.end_time && r.total_pot < r.min_pot)) {
        Err(RaffleError::CannotCancel)
    } else {
        Ok(())
    }
}

/// Cancels an active raffle, enabling per-entry refunds. Moves the status to
/// `Cancelled`, which is terminal: the raffle itself never changes again.
pub fn cancel_raffle(raffle: &mut Raffle, caller: Pubkey, now: i64) -> (r: Result<
    (),
    RaffleError,
>)
    requires
        raffle_wf(*old(raffle)),
    ensures
        raffle_wf(*final(raffle)),
        status_can_advance(old(raffle).status, final(raffle).status),
        r is Ok <==> cancel_check(*old(raffle), caller, now) is Ok,
        r is Err ==> {
            &&& r->Err_0 == cancel_check(*old(raffle), caller, now)->Err_0
            &&& *final(raffle) == *old(raffle)
        },
        r is Ok ==> *final(raffle) == (Raffle { status: RaffleStatus::Cancelled, ..*old(raffle) }),
{
    if !(raffle.status == RaffleStatus::Active) {
        return Err(RaffleError::RaffleNotActive);
    }
    let is_authority: bool = caller == raffle.authority;
    let deadline_passed: bool = now >= raffle.end_time;
    let threshold_not_met: bool = raffle.total_pot < raffle.min_pot;
    if !(is_authority || (deadline_passed && threshold_not_met)) {
        return Err(RaffleError::CannotCancel);
    }
    raffle.status = RaffleStatus::Cancelled;
    Ok(())
}

/// The first rejection the refund claim raises, in the order the checks run,
/// or `Ok` when it is allowed: the raffle cancelled, the claimant the entry's
/// buyer, the entry not yet refunded, and the gross amount and its fee
/// scaling representable.
pub open spec fn refund_check(r: Raffle, e: Entry, buyer: Pubkey) -> Result<(), RaffleError> {
    if !(r.status is Cancelled) {
        Err(RaffleError::RaffleNotCancelled)
    } else if e.buyer != buyer {
        Err(RaffleError::NotEntryOwner)
    } else if e.refunded {
        Err(RaffleError::AlreadyRefunded)
    } else if r.ticket_price * e.num_tickets > u64::MAX {
        Err(RaffleError::Overflow)
    } else if r.ticket_price * e.num_tickets * PLATFORM_FEE_BPS > u64::MAX {
        Err(RaffleError::Overflow)
    } else {
        Ok(())
    }
}

/// Refunds one entry of a cancelled raffle. The entry's gross share — its
/// tickets at the fixed price — is split into the platform fee and the
/// refund, which sum back to the gross exactly, and the two returned
/// transfers move them out of escrow to the buyer and the fee recipient.
/// Marks the entry refunded, so a second claim on it is rejected without any
/// transfer; the raffle itself stays `Cancelled` untouched. The host verifies
/// the buyer's signature, resolves their entry, and performs the transfers
/// atomically with the state change.
pub fn claim_refund(raffle: &Raffle, entry: &mut Entry, buyer: Pubkey) -> (r: Result<
    (TokenTransfer, TokenTransfer),
    RaffleError,
>)
    ensures
        r is Ok <==> refund_check(*raffle, *old(entry), buyer) is Ok,
        r is Err ==> {
            &&& r->Err_0 == refund_check(*raffle, *old(entry), buyer)->Err_0
            &&& *final(entry) == *old(entry)
        },
        r is Ok ==> {
            let gross = (raffle.ticket_price * old(entry).num_tickets) as u64;
            &&& *final(entry) == (Entry { refunded: true, ..*old(entry) })
            &&& r->Ok_0.0 == (TokenTransfer {
                from: raffle.escrow,
                to: buyer,
                amount: spec_net(gross) as u64,
            })
            &&& r->Ok_0.1 == (TokenTransfer {
                from: raffle.escrow,
                to: raffle.platform_wallet,
                amount: spec_fee(gross) as u64,
            })
            &&& r->Ok_0.0.amount + r->Ok_0.1.amount == raffle.ticket_price
                * old(entry).num_tickets
        },
{
    if !(raffle.status == RaffleStatus::Cancelled) {
        return Err(RaffleError::RaffleNotCancelled);
    }
    if !(entry.buyer == buyer) {
        return Err(RaffleError::NotEntryOwner);
    }
    if entry.refunded {
        return Err(RaffleError::AlreadyRefunded);
    }
    let gross_amount: u64 = match raffle.ticket_price.checked_mul(entry.num_tickets as u64) {
        Some(g) => g,
        None => {
            return Err(RaffleError::Overflow);
        },
    };
    let (platform_fee, refund_amount): (u64, u64) = match fee_split(gross_amount) {
        Ok(split) => split,
        Err(e) => {
            return Err(e);
        },
    };
    entry.refunded = true;
    Ok(
        (
            TokenTransfer { from: raffle.escrow, to: buyer, amount: refund_amount },
            TokenTransfer { from: raffle.escrow, to: raffle.platform_wallet, amount: platform_fee },
        ),
    )
}

/// A terminal raffle accepts no further mutating operation: against a
/// `Claimed` or `Cancelled` raffle every operation is rejected — except the
/// per-entry refund, which stays open exactly while the raffle is
/// `Cancelled`.
pub proof fn lemma_terminal_rejects_operations(
    r: Raffle,
    e: Entry,
    caller: Pubkey,
    account: Pubkey,
    oracle: RandomnessState,
    count: u32,
    now: i64,
    current_slot: u64,
)
    requires
        r.status is Claimed || r.status is Cancelled,
    ensures
        crate::tickets::buy_check(r, e, count, now) is Err,
        commit_check(r, oracle, now, current_slot) is Err,
        settle_check(r, account, oracle) is Err,
        prize_check(r, e, caller) is Err,
        cancel_check(r, caller, now) is Err,
        r.status is Claimed ==> refund_check(r, e, caller) is Err,
{
}

} // verus!
