//! Raffle creation: the validation gates and the freshly initialized record.

use rafflebot::errors::RaffleError;
use rafflebot::lifecycle::create_raffle;
use rafflebot::state::{Pubkey, Raffle, RaffleStatus};

fn create(
    name: Vec<u8>,
    ticket_price: u64,
    min_pot: u64,
    end_time: i64,
    now: i64,
) -> Result<Raffle, RaffleError> {
    create_raffle(
        Pubkey(1),
        Pubkey(2),
        Pubkey(3),
        Pubkey(4),
        name,
        ticket_price,
        min_pot,
        0,
        end_time,
        now,
    )
}

#[test]
fn creation_initializes_active_with_zero_counters() {
    let raffle = create(b"launch".to_vec(), 25, 50, 1000, 999).unwrap();
    assert_eq!(raffle.status, RaffleStatus::Active);
    assert_eq!(raffle.total_tickets, 0);
    assert_eq!(raffle.total_pot, 0);
    assert_eq!(raffle.winner, None);
    assert_eq!(raffle.winning_ticket, None);
    assert_eq!(raffle.randomness, None);
    assert_eq!(raffle.randomness_account, None);
    assert_eq!(raffle.commit_slot, None);
    assert_eq!(raffle.authority, Pubkey(1));
    assert_eq!(raffle.token_mint, Pubkey(2));
    assert_eq!(raffle.escrow, Pubkey(3));
    assert_eq!(raffle.platform_wallet, Pubkey(4));
    assert_eq!(raffle.name, b"launch".to_vec());
    assert_eq!(raffle.ticket_price, 25);
    assert_eq!(raffle.min_pot, 50);
    assert_eq!(raffle.end_time, 1000);
    assert_eq!(raffle.created_at, 999);
}

#[test]
fn creation_rejects_deadline_not_in_future() {
    assert_eq!(
        create(b"x".to_vec(), 10, 100, 500, 500).unwrap_err(),
        RaffleError::InvalidEndTime
    );
    assert_eq!(
        create(b"x".to_vec(), 10, 100, 400, 500).unwrap_err(),
        RaffleError::InvalidEndTime
    );
}

#[test]
fn creation_rejects_zero_ticket_price() {
    assert_eq!(
        create(b"x".to_vec(), 0, 100, 1000, 500).unwrap_err(),
        RaffleError::InvalidTicketPrice
    );
}

#[test]
fn creation_rejects_zero_min_pot() {
    assert_eq!(
        create(b"x".to_vec(), 10, 0, 1000, 500).unwrap_err(),
        RaffleError::InvalidMinPot
    );
}

#[test]
fn creation_rejects_min_pot_below_ticket_price() {
    assert_eq!(
        create(b"x".to_vec(), 10, 9, 1000, 500).unwrap_err(),
        RaffleError::MinPotTooLow
    );
}

#[test]
fn creation_rejects_bad_names() {
    assert_eq!(
        create(Vec::new(), 10, 100, 1000, 500).unwrap_err(),
        RaffleError::InvalidName
    );
    assert_eq!(
        create(vec![b'a'; 33], 10, 100, 1000, 500).unwrap_err(),
        RaffleError::InvalidName
    );
    // 32 bytes is the longest allowed name
    assert!(create(vec![b'a'; 32], 10, 100, 1000, 500).is_ok());
}
