//! One input for every reachable rejection, checking both the error and
//! that a rejected operation leaves the record untouched.

use betting_contract::close_match;
use betting_contract::create_match;
use betting_contract::join_match;
use betting_contract::leave_match;
use betting_contract::settle_match;
use betting_contract::start_match;
use betting_contract::AccountId;
use betting_contract::ErrorCode;
use betting_contract::MatchAccount;
use betting_contract::MatchStatus;

const HOST: AccountId = AccountId(1);
const A: AccountId = AccountId(10);
const B: AccountId = AccountId(11);
const C: AccountId = AccountId(12);
const STRANGER: AccountId = AccountId(99);

fn funded_pair() -> MatchAccount {
    let mut m = create_match(HOST, b"m1".to_vec(), 100, 10, 2).unwrap();
    join_match(&mut m, A, 1_000, 0).unwrap();
    join_match(&mut m, B, 1_000, 0).unwrap();
    m
}

#[test]
fn create_rejects_long_id() {
    let id = vec![0u8; 33];
    assert_eq!(create_match(HOST, id, 100, 10, 2).unwrap_err(), ErrorCode::IdTooLong);
    let id = vec![0u8; 32];
    assert!(create_match(HOST, id, 100, 10, 2).is_ok());
}

#[test]
fn create_rejects_zero_fee() {
    assert_eq!(create_match(HOST, b"m1".to_vec(), 0, 10, 2).unwrap_err(), ErrorCode::InvalidAmount);
}

#[test]
fn create_rejects_bad_player_count() {
    assert_eq!(
        create_match(HOST, b"m1".to_vec(), 100, 10, 1).unwrap_err(),
        ErrorCode::InvalidPlayers
    );
    assert_eq!(
        create_match(HOST, b"m1".to_vec(), 100, 10, 5).unwrap_err(),
        ErrorCode::InvalidPlayers
    );
    assert!(create_match(HOST, b"m1".to_vec(), 100, 10, 4).is_ok());
}

#[test]
fn join_rejects_when_not_open() {
    let mut m = funded_pair();
    start_match(&mut m, HOST).unwrap();
    assert_eq!(join_match(&mut m, C, 1_000, 0).unwrap_err(), ErrorCode::MatchNotOpen);
    assert_eq!(m.players, vec![A, B]);
}

#[test]
fn join_rejects_repeat_without_double_debit() {
    let mut m = create_match(HOST, b"m1".to_vec(), 100, 10, 3).unwrap();
    assert_eq!(join_match(&mut m, A, 1_000, 0), Ok(100));
    assert_eq!(join_match(&mut m, A, 1_000, 0).unwrap_err(), ErrorCode::AlreadyFunded);
    assert_eq!(m.players, vec![A]);
    assert_eq!(m.deposits, vec![100]);
    assert_eq!(m.escrow, 100);
}

#[test]
fn join_rejects_repeat_even_on_full_roster() {
    let mut m = funded_pair();
    assert_eq!(join_match(&mut m, A, 1_000, 0).unwrap_err(), ErrorCode::AlreadyFunded);
    assert_eq!(m.escrow, 200);
}

#[test]
fn join_rejects_when_full() {
    let mut m = funded_pair();
    assert_eq!(join_match(&mut m, C, 1_000, 0).unwrap_err(), ErrorCode::InvalidPlayers);
    assert_eq!(m.players, vec![A, B]);
    assert_eq!(m.escrow, 200);
}

#[test]
fn join_rejects_insufficient_balance() {
    let mut m = create_match(HOST, b"m1".to_vec(), 100, 10, 2).unwrap();
    assert_eq!(join_match(&mut m, A, 99, 0).unwrap_err(), ErrorCode::InsufficientFunds);
    assert_eq!(join_match(&mut m, A, 149, 50).unwrap_err(), ErrorCode::InsufficientFunds);
    assert_eq!(join_match(&mut m, A, 150, 50), Ok(100));
}

#[test]
fn leave_rejects_outsider() {
    let mut m = create_match(HOST, b"m1".to_vec(), 100, 10, 2).unwrap();
    join_match(&mut m, A, 1_000, 0).unwrap();
    assert_eq!(leave_match(&mut m, B).unwrap_err(), ErrorCode::NotAPlayer);
    assert_eq!(m.players, vec![A]);
}

#[test]
fn leave_rejects_when_not_open() {
    let mut m = funded_pair();
    start_match(&mut m, HOST).unwrap();
    assert_eq!(leave_match(&mut m, A).unwrap_err(), ErrorCode::MatchNotOpen);
    assert_eq!(m.players, vec![A, B]);
    assert_eq!(m.escrow, 200);
}

#[test]
fn start_rejects_non_host() {
    let mut m = funded_pair();
    assert_eq!(start_match(&mut m, A).unwrap_err(), ErrorCode::Unauthorized);
    assert_eq!(m.status, MatchStatus::Open);
}

#[test]
fn start_rejects_when_not_open() {
    let mut m = funded_pair();
    start_match(&mut m, HOST).unwrap();
    assert_eq!(start_match(&mut m, HOST).unwrap_err(), ErrorCode::MatchNotOpen);
    assert_eq!(m.status, MatchStatus::Active);
}

#[test]
fn settle_rejects_non_host() {
    let mut m = funded_pair();
    start_match(&mut m, HOST).unwrap();
    assert_eq!(settle_match(&mut m, A, 0, &vec![A]).unwrap_err(), ErrorCode::Unauthorized);
    assert_eq!(m.status, MatchStatus::Active);
}

#[test]
fn settle_rejects_winner_outside_roster() {
    let mut m = funded_pair();
    start_match(&mut m, HOST).unwrap();
    assert_eq!(settle_match(&mut m, HOST, 2, &vec![A]).unwrap_err(), ErrorCode::InvalidWinner);
    assert_eq!(m.status, MatchStatus::Active);
}

#[test]
fn settle_rejects_payout_before_start() {
    let mut m = funded_pair();
    assert_eq!(settle_match(&mut m, HOST, 0, &vec![A]).unwrap_err(), ErrorCode::MatchNotActive);
    assert_eq!(m.status, MatchStatus::Open);
    assert_eq!(m.escrow, 200);
}

#[test]
fn settle_rejects_winner_identity_mismatch() {
    let mut m = funded_pair();
    start_match(&mut m, HOST).unwrap();
    assert_eq!(settle_match(&mut m, HOST, 0, &vec![B]).unwrap_err(), ErrorCode::WinnerMismatch);
    assert_eq!(settle_match(&mut m, HOST, 0, &vec![A, B]).unwrap_err(), ErrorCode::WinnerMismatch);
    assert_eq!(settle_match(&mut m, HOST, 0, &vec![]).unwrap_err(), ErrorCode::WinnerMismatch);
    assert_eq!(m.status, MatchStatus::Active);
    assert_eq!(m.escrow, 200);
}

#[test]
fn settle_rejects_rake_above_pot() {
    let mut m = create_match(HOST, b"m1".to_vec(), 100, 300, 2).unwrap();
    join_match(&mut m, A, 1_000, 0).unwrap();
    join_match(&mut m, B, 1_000, 0).unwrap();
    start_match(&mut m, HOST).unwrap();
    assert_eq!(settle_match(&mut m, HOST, 0, &vec![A]).unwrap_err(), ErrorCode::NothingToPayout);
    assert_eq!(m.status, MatchStatus::Active);
    assert_eq!(m.escrow, 200);
}

#[test]
fn settle_rejects_second_resolution() {
    let mut m = funded_pair();
    start_match(&mut m, HOST).unwrap();
    settle_match(&mut m, HOST, 0, &vec![A]).unwrap();
    assert_eq!(settle_match(&mut m, HOST, -1, &vec![A, B]).unwrap_err(), ErrorCode::CannotRefund);
    assert_eq!(m.status, MatchStatus::Settled);
}

#[test]
fn settle_rejects_refund_roster_mismatch() {
    let mut m = funded_pair();
    assert_eq!(
        settle_match(&mut m, HOST, -1, &vec![B, A]).unwrap_err(),
        ErrorCode::PlayerMismatchForRefund
    );
    assert_eq!(
        settle_match(&mut m, HOST, -1, &vec![A]).unwrap_err(),
        ErrorCode::PlayerMismatchForRefund
    );
    assert_eq!(
        settle_match(&mut m, HOST, -1, &vec![A, B, C]).unwrap_err(),
        ErrorCode::PlayerMismatchForRefund
    );
    assert_eq!(m.status, MatchStatus::Open);
    assert_eq!(m.escrow, 200);
}

#[test]
fn close_rejects_non_host() {
    let mut m = funded_pair();
    settle_match(&mut m, HOST, -1, &vec![A, B]).unwrap();
    assert_eq!(close_match(&m, STRANGER).unwrap_err(), ErrorCode::Unauthorized);
    assert_eq!(close_match(&m, HOST), Ok(()));
}
