//! Escrow accounting and payouts: the fee split reconciles exactly, prizes
//! and refunds move the right amounts, and neither can be collected twice.

use rafflebot::errors::RaffleError;
use rafflebot::fees::fee_split;
use rafflebot::lifecycle::{
    cancel_raffle, claim_prize, claim_refund, commit_draw, create_raffle, settle_draw,
};
use rafflebot::state::{Entry, Pubkey, Raffle, RaffleStatus, RandomnessState};
use rafflebot::tickets::buy_tickets;

fn blank_entry() -> Entry {
    Entry {
        raffle: Pubkey(0),
        buyer: Pubkey(0),
        start_ticket_index: 0,
        num_tickets: 0,
        is_initialized: false,
        refunded: false,
    }
}

fn sample_raffle() -> Raffle {
    create_raffle(
        Pubkey(1),
        Pubkey(2),
        Pubkey(3),
        Pubkey(4),
        b"payout".to_vec(),
        10,
        100,
        0,
        1000,
        500,
    )
    .unwrap()
}

#[test]
fn fee_split_takes_ten_percent_rounded_down() {
    assert_eq!(fee_split(100), Ok((10, 90)));
    assert_eq!(fee_split(105), Ok((10, 95)));
    assert_eq!(fee_split(9), Ok((0, 9)));
    assert_eq!(fee_split(0), Ok((0, 0)));
    assert_eq!(fee_split(10_000), Ok((1_000, 9_000)));
}

#[test]
fn fee_split_reconciles_exactly() {
    for amount in [1u64, 7, 99, 100, 101, 12_345, 1 << 40] {
        let (fee, net) = fee_split(amount).unwrap();
        assert_eq!(fee + net, amount);
        assert!(fee <= amount);
    }
}

#[test]
fn fee_split_rejects_unrepresentable_scaling() {
    assert_eq!(fee_split(u64::MAX), Err(RaffleError::Overflow));
    assert_eq!(fee_split(u64::MAX / 1000 + 1), Err(RaffleError::Overflow));
    assert!(fee_split(u64::MAX / 1000).is_ok());
}

#[test]
fn prize_rejected_before_settlement_and_after_claim() {
    let mut raffle = sample_raffle();
    let mut entry = blank_entry();
    buy_tickets(&mut raffle, &mut entry, Pubkey(9), Pubkey(11), 10, 600).unwrap();

    // before the draw completes there is nothing to claim
    assert_eq!(
        claim_prize(&mut raffle, &entry, Pubkey(11)),
        Err(RaffleError::DrawNotComplete)
    );

    let unrevealed = RandomnessState { seed_slot: 2000, value: None };
    commit_draw(&mut raffle, Pubkey(77), &unrevealed, 1000, 2000).unwrap();
    let mut v = [0u8; 32];
    v[0] = 4;
    let oracle = RandomnessState { seed_slot: 2000, value: Some(v) };
    settle_draw(&mut raffle, Pubkey(77), &oracle).unwrap();

    // only the entry's buyer may claim
    assert_eq!(
        claim_prize(&mut raffle, &entry, Pubkey(12)),
        Err(RaffleError::NotWinner)
    );
    let (prize, fee) = claim_prize(&mut raffle, &entry, Pubkey(11)).unwrap();
    assert_eq!(prize.amount, 90);
    assert_eq!(fee.amount, 10);
    assert_eq!(raffle.status, RaffleStatus::Claimed);

    // exactly-once: a second claim transfers nothing
    let before = raffle.clone();
    assert_eq!(
        claim_prize(&mut raffle, &entry, Pubkey(11)),
        Err(RaffleError::DrawNotComplete)
    );
    assert_eq!(raffle, before);
}

#[test]
fn refund_pays_net_of_fee_once() {
    let mut raffle = sample_raffle();
    let mut entry = blank_entry();
    buy_tickets(&mut raffle, &mut entry, Pubkey(9), Pubkey(11), 5, 600).unwrap();
    cancel_raffle(&mut raffle, Pubkey(1), 700).unwrap();

    let (refund, fee) = claim_refund(&raffle, &mut entry, Pubkey(11)).unwrap();
    // gross 50 split: 5 fee, 45 back to the buyer
    assert_eq!((refund.from, refund.to, refund.amount), (Pubkey(3), Pubkey(11), 45));
    assert_eq!((fee.from, fee.to, fee.amount), (Pubkey(3), Pubkey(4), 5));
    assert_eq!(refund.amount + fee.amount, 50);
    assert!(entry.refunded);
    // the raffle itself stays cancelled, untouched
    assert_eq!(raffle.status, RaffleStatus::Cancelled);

    // idempotence: a second refund fails without transferring value
    let entry_before = entry;
    assert_eq!(
        claim_refund(&raffle, &mut entry, Pubkey(11)),
        Err(RaffleError::AlreadyRefunded)
    );
    assert_eq!(entry, entry_before);
}

#[test]
fn refund_rejected_for_wrong_claimant_or_live_raffle() {
    let mut raffle = sample_raffle();
    let mut entry = blank_entry();
    buy_tickets(&mut raffle, &mut entry, Pubkey(9), Pubkey(11), 5, 600).unwrap();

    // not cancelled yet
    assert_eq!(
        claim_refund(&raffle, &mut entry, Pubkey(11)),
        Err(RaffleError::RaffleNotCancelled)
    );
    cancel_raffle(&mut raffle, Pubkey(1), 700).unwrap();
    // only the entry's buyer may collect it
    assert_eq!(
        claim_refund(&raffle, &mut entry, Pubkey(12)),
        Err(RaffleError::NotEntryOwner)
    );
    assert!(!entry.refunded);
}

#[test]
fn cancel_rejected_once_draw_is_committed() {
    let mut raffle = sample_raffle();
    let mut entry = blank_entry();
    buy_tickets(&mut raffle, &mut entry, Pubkey(9), Pubkey(11), 10, 600).unwrap();
    let unrevealed = RandomnessState { seed_slot: 2000, value: None };
    commit_draw(&mut raffle, Pubkey(77), &unrevealed, 1000, 2000).unwrap();

    // even the authority cannot cancel after the commitment
    assert_eq!(
        cancel_raffle(&mut raffle, Pubkey(1), 1100),
        Err(RaffleError::RaffleNotActive)
    );
    assert_eq!(raffle.status, RaffleStatus::DrawCommitted);
}

#[test]
fn authority_may_cancel_any_active_raffle() {
    let mut raffle = sample_raffle();
    cancel_raffle(&mut raffle, Pubkey(1), 600).unwrap();
    assert_eq!(raffle.status, RaffleStatus::Cancelled);
    // terminal: cancelling again is rejected
    assert_eq!(
        cancel_raffle(&mut raffle, Pubkey(1), 700),
        Err(RaffleError::RaffleNotActive)
    );
}
