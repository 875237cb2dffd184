use luminariff::AddressId;
use luminariff::LuminariffContract;
use luminariff::RaffleError;
use luminariff::TICKET_PRICE;

fn addr(id: u64) -> AddressId {
    AddressId { id }
}

fn initialized() -> LuminariffContract {
    let mut c = LuminariffContract::new();
    c.initialize(addr(1), addr(2)).unwrap();
    c
}

#[test]
fn test_initialize() {
    let mut c = LuminariffContract::new();
    c.initialize(addr(1), addr(2)).unwrap();
    assert_eq!(c.get_participants_count(), 0);
}

#[test]
fn test_get_players_empty() {
    let mut c = LuminariffContract::new();
    c.initialize(addr(1), addr(2)).unwrap();
    let players = c.get_players();
    assert_eq!(players.len(), 0);
}

#[test]
fn test_initialize_twice_fails_and_keeps_state() {
    let mut c = LuminariffContract::new();
    assert_eq!(c.initialize(addr(1), addr(2)), Ok(()));
    assert_eq!(c.initialize(addr(7), addr(8)), Err(RaffleError::AlreadyInitialized));
    assert_eq!(c.get_admin(), Ok(addr(1)));
    assert_eq!(c.get_participants_count(), 0);
}

#[test]
fn test_get_admin_not_initialized() {
    let c = LuminariffContract::new();
    assert_eq!(c.get_admin(), Err(RaffleError::NotInitialized));
}

#[test]
fn test_ticket_price_is_one_token() {
    assert_eq!(TICKET_PRICE, 10_000_000);
}

#[test]
fn test_buy_ticket_counts_and_keeps_order() {
    let mut c = initialized();
    assert_eq!(c.buy_ticket(addr(10), String::from("alpha"), true, true), Ok(()));
    assert_eq!(c.buy_ticket(addr(11), String::from("beta"), true, true), Ok(()));
    assert_eq!(c.buy_ticket(addr(10), String::from("gamma"), true, true), Ok(()));
    assert_eq!(c.get_participants_count(), 3);
    let players = c.get_players();
    assert_eq!(players.len(), 3);
    assert_eq!(players[0].stellar_address, addr(10));
    assert_eq!(players[0].roblox_user_id, "alpha");
    assert_eq!(players[1].stellar_address, addr(11));
    assert_eq!(players[1].roblox_user_id, "beta");
    assert_eq!(players[2].stellar_address, addr(10));
    assert_eq!(players[2].roblox_user_id, "gamma");
}

#[test]
fn test_get_roblox_ids_projection_in_order() {
    let mut c = initialized();
    c.buy_ticket(addr(10), String::from("alpha"), true, true).unwrap();
    c.buy_ticket(addr(11), String::from("beta"), true, true).unwrap();
    let ids = c.get_roblox_ids();
    assert_eq!(ids, vec![String::from("alpha"), String::from("beta")]);
}

#[test]
fn test_get_roblox_ids_empty() {
    let c = initialized();
    assert_eq!(c.get_roblox_ids().len(), 0);
}

#[test]
fn test_buy_ticket_unauthorized_mutates_nothing() {
    let mut c = initialized();
    c.buy_ticket(addr(10), String::from("alpha"), true, true).unwrap();
    let r = c.buy_ticket(addr(11), String::from("beta"), false, true);
    assert_eq!(r, Err(RaffleError::Unauthorized));
    assert_eq!(c.get_participants_count(), 1);
    assert_eq!(c.get_players()[0].roblox_user_id, "alpha");
}

#[test]
fn test_buy_ticket_not_initialized() {
    let mut c = LuminariffContract::new();
    let r = c.buy_ticket(addr(10), String::from("alpha"), true, true);
    assert_eq!(r, Err(RaffleError::NotInitialized));
    assert_eq!(c.get_participants_count(), 0);
}

#[test]
fn test_buy_ticket_transfer_failed_registers_nobody() {
    let mut c = initialized();
    let r = c.buy_ticket(addr(10), String::from("alpha"), true, false);
    assert_eq!(r, Err(RaffleError::TransferFailed));
    assert_eq!(c.get_participants_count(), 0);
}

#[test]
fn test_execute_draw_deterministic_seed_picks_first() {
    // Five participants, timestamp 1000, sequence 7: the seed is 7000 and
    // 7000 mod 5 is 0, so the first participant wins.
    let mut c = initialized();
    for i in 0..5u64 {
        c.buy_ticket(addr(100 + i), format!("player-{}", i), true, true).unwrap();
    }
    let winner = c.execute_draw(addr(1), true, 1000, 7).unwrap();
    assert_eq!(winner.stellar_address, addr(100));
    assert_eq!(winner.roblox_user_id, "player-0");
    assert_eq!(c.get_participants_count(), 0);
}

#[test]
fn test_execute_draw_second_index() {
    // Timestamp 3 and sequence 2 give seed 6; among five participants the
    // winner sits at position 6 mod 5 = 1.
    let mut c = initialized();
    for i in 0..5u64 {
        c.buy_ticket(addr(100 + i), format!("player-{}", i), true, true).unwrap();
    }
    let winner = c.execute_draw(addr(1), true, 3, 2).unwrap();
    assert_eq!(winner.stellar_address, addr(101));
}

#[test]
fn test_execute_draw_wrapping_seed() {
    // The seed multiplication wraps at 64 bits: u64::MAX times 2 wraps to
    // u64::MAX - 1, whose low 32 bits are 0xFFFF_FFFE, and that mod 3 is 2.
    let mut c = initialized();
    for i in 0..3u64 {
        c.buy_ticket(addr(100 + i), format!("player-{}", i), true, true).unwrap();
    }
    let winner = c.execute_draw(addr(1), true, u64::MAX, 2).unwrap();
    assert_eq!(winner.stellar_address, addr(102));
}

#[test]
fn test_execute_draw_winner_was_registered() {
    let mut c = initialized();
    for i in 0..7u64 {
        c.buy_ticket(addr(100 + i), format!("player-{}", i), true, true).unwrap();
    }
    let before = c.get_players();
    let winner = c.execute_draw(addr(1), true, 123456789, 42).unwrap();
    assert!(before.iter().any(|p| *p == winner));
    assert_eq!(c.get_participants_count(), 0);
}

#[test]
fn test_execute_draw_empty_round_fails_without_mutation() {
    let mut c = initialized();
    let r = c.execute_draw(addr(1), true, 1000, 7);
    assert_eq!(r, Err(RaffleError::NoParticipants));
    assert_eq!(c.get_admin(), Ok(addr(1)));
    assert_eq!(c.get_participants_count(), 0);
}

#[test]
fn test_execute_draw_not_admin_fails_without_mutation() {
    let mut c = initialized();
    c.buy_ticket(addr(10), String::from("alpha"), true, true).unwrap();
    let r = c.execute_draw(addr(9), true, 1000, 7);
    assert_eq!(r, Err(RaffleError::Unauthorized));
    assert_eq!(c.get_participants_count(), 1);
}

#[test]
fn test_execute_draw_unauthenticated_fails() {
    let mut c = initialized();
    c.buy_ticket(addr(10), String::from("alpha"), true, true).unwrap();
    let r = c.execute_draw(addr(1), false, 1000, 7);
    assert_eq!(r, Err(RaffleError::Unauthorized));
    assert_eq!(c.get_participants_count(), 1);
}

#[test]
fn test_execute_draw_not_initialized() {
    let mut c = LuminariffContract::new();
    let r = c.execute_draw(addr(1), true, 1000, 7);
    assert_eq!(r, Err(RaffleError::NotInitialized));
}

#[test]
fn test_round_trip_fresh_round_after_draw() {
    let mut c = initialized();
    c.buy_ticket(addr(10), String::from("alpha"), true, true).unwrap();
    c.buy_ticket(addr(11), String::from("beta"), true, true).unwrap();
    c.execute_draw(addr(1), true, 55, 99).unwrap();
    assert_eq!(c.buy_ticket(addr(12), String::from("gamma"), true, true), Ok(()));
    let players = c.get_players();
    assert_eq!(players.len(), 1);
    assert_eq!(players[0].stellar_address, addr(12));
    assert_eq!(players[0].roblox_user_id, "gamma");
}

#[test]
fn test_withdraw_funds_ok() {
    let c = initialized();
    assert_eq!(c.withdraw_funds(addr(1), 500, true, true), Ok(()));
}

#[test]
fn test_withdraw_funds_unauthenticated() {
    let c = initialized();
    assert_eq!(c.withdraw_funds(addr(1), 500, false, true), Err(RaffleError::Unauthorized));
}

#[test]
fn test_withdraw_funds_not_admin() {
    let c = initialized();
    assert_eq!(c.withdraw_funds(addr(3), 500, true, true), Err(RaffleError::Unauthorized));
}

#[test]
fn test_withdraw_funds_not_initialized() {
    let c = LuminariffContract::new();
    assert_eq!(c.withdraw_funds(addr(1), 500, true, true), Err(RaffleError::NotInitialized));
}

#[test]
fn test_withdraw_funds_transfer_failed() {
    let c = initialized();
    assert_eq!(c.withdraw_funds(addr(1), 500, true, false), Err(RaffleError::TransferFailed));
}
