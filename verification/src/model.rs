//! Functional model of the six operations. Each spec function maps the
//! pre-state and the caller-supplied arguments to the post-state and the
//! outcome; the executable operations are proved equal to these models, and
//! the library's laws are stated over them.

use vstd::prelude::*;

use crate::state::seq_sum;
use crate::state::AccountId;
use crate::state::ErrorCode;
use crate::state::MatchState;
use crate::state::MatchStatus;
use crate::state::Transfer;
use crate::state::MAX_ID_LENGTH;
use crate::state::MAX_PLAYERS;

verus! {

/// The record `create` produces, or the rejection: the identifier must fit
/// in `MAX_ID_LENGTH` bytes, the entry fee must be positive, and the
/// configured roster size must lie in `[2, MAX_PLAYERS]`. A fresh record is
/// `Open` with an empty roster and nothing in escrow.
pub open spec fn create_spec(
    host: AccountId,
    id: Seq<u8>,
    room_fee_amount: u64,
    rake: u64,
    num_players: u8,
) -> Result<MatchState, ErrorCode> {
    if id.len() > MAX_ID_LENGTH as int {
        Err(ErrorCode::IdTooLong)
    } else if room_fee_amount == 0 {
        Err(ErrorCode::InvalidAmount)
    } else if !(2 <= num_players as int && num_players as int <= MAX_PLAYERS as int) {
        Err(ErrorCode::InvalidPlayers)
    } else {
        Ok(
            MatchState {
                host,
                id,
                room_fee: room_fee_amount,
                rake,
                players: Seq::empty(),
                deposits: Seq::empty(),
                status: MatchStatus::Open,
                max_players: num_players,
                escrow: 0,
            },
        )
    }
}

/// What `join` does. The match must be `Open`; a party already on the
/// roster is rejected as `AlreadyFunded` (before the capacity check, so a
/// repeat attempt is reported as already funded even once the roster has
/// filled); the roster must not have reached the configured size; and the
/// joining party's free balance must cover the entry fee plus the reserve
/// it has to retain. On success the party and its fee are appended and the
/// fee enters escrow; the returned amount is what the ledger must move from
/// the party into escrow.
pub open spec fn join_spec(
    s: MatchState,
    player: AccountId,
    player_balance: u64,
    min_reserve: u64,
) -> (MatchState, Result<u64, ErrorCode>) {
    if s.status != MatchStatus::Open {
        (s, Err(ErrorCode::MatchNotOpen))
    } else if s.players.contains(player) {
        (s, Err(ErrorCode::AlreadyFunded))
    } else if s.players.len() >= s.max_players as int {
        (s, Err(ErrorCode::InvalidPlayers))
    } else if (player_balance as int) < s.room_fee + min_reserve {
        (s, Err(ErrorCode::InsufficientFunds))
    } else {
        (
            MatchState {
                players: s.players.push(player),
                deposits: s.deposits.push(s.room_fee),
                escrow: (s.escrow + s.room_fee) as u64,
                ..s
            },
            Ok(s.room_fee),
        )
    }
}

/// What `leave` does. The match must be `Open` and the party must be on the
/// roster. On success the party's entry is removed from `players` and
/// `deposits` at the same index, closing the gap and shifting nothing else,
/// and the recorded deposit leaves escrow; the returned transfer credits it
/// back to the leaving party.
pub open spec fn leave_spec(s: MatchState, player: AccountId) -> (
    MatchState,
    Result<Transfer, ErrorCode>,
) {
    if s.status != MatchStatus::Open {
        (s, Err(ErrorCode::MatchNotOpen))
    } else if !s.players.contains(player) {
        (s, Err(ErrorCode::NotAPlayer))
    } else {
        let i = s.players.index_of(player);
        let amount = s.deposits[i];
        (
            MatchState {
                players: s.players.remove(i),
                deposits: s.deposits.remove(i),
                escrow: (s.escrow - amount) as u64,
                ..s
            },
            Ok(Transfer { to: player, amount }),
        )
    }
}

/// What `start` does. Only the host may start, the match must be `Open`,
/// and the roster must have reached the configured size; the match then
/// becomes `Active` and the roster freezes.
pub open spec fn start_spec(s: MatchState, caller: AccountId) -> (
    MatchState,
    Result<(), ErrorCode>,
) {
    if caller != s.host {
        (s, Err(ErrorCode::Unauthorized))
    } else if s.status != MatchStatus::Open {
        (s, Err(ErrorCode::MatchNotOpen))
    } else if s.players.len() != s.max_players as int {
        (s, Err(ErrorCode::NotAllFunded))
    } else {
        (MatchState { status: MatchStatus::Active, ..s }, Ok(()))
    }
}

/// The transfers of a full refund: position `i` credits `deposits[i]` back
/// to `players[i]`, in roster order.
pub open spec fn refund_transfers(s: MatchState) -> Seq<Transfer> {
    Seq::new(s.players.len(), |i: int| Transfer { to: s.players[i], amount: s.deposits[i] })
}

/// The transfers of a winner payout: the rake to the host where it is
/// positive, then the rest of the pot to the winner.
pub open spec fn payout_transfers(s: MatchState, winner: AccountId) -> Seq<Transfer> {
    let payout = Transfer { to: winner, amount: (seq_sum(s.deposits) - s.rake) as u64 };
    if s.rake > 0 {
        seq![Transfer { to: s.host, amount: s.rake }, payout]
    } else {
        seq![payout]
    }
}

/// What `settle` does, branching on the signed winner selector.
///
/// A selector `>= 0` pays a winner: only from an `Active` match, the
/// selector must lie inside the roster, the caller must present exactly the
/// identity stored at that position, and the rake must not exceed the pot.
/// The pot leaves escrow — the rake to the host, the remainder to the
/// winner — and the match is `Settled`.
///
/// A negative selector refunds everyone: only from a match not yet settled
/// or refunded, and the caller must present the full roster,
/// position-for-position. Every deposit leaves escrow back to its
/// depositor and the match is `Refunded`.
///
/// Either way the whole pot leaves custody, so the post-state escrow is
/// zero; a rejection leaves the record untouched.
pub open spec fn settle_spec(
    s: MatchState,
    caller: AccountId,
    winner_index: i8,
    claimed: Seq<AccountId>,
) -> (MatchState, Result<Seq<Transfer>, ErrorCode>) {
    if caller != s.host {
        (s, Err(ErrorCode::Unauthorized))
    } else if winner_index >= 0 {
        if winner_index as int >= s.players.len() {
            (s, Err(ErrorCode::InvalidWinner))
        } else if s.status != MatchStatus::Active {
            (s, Err(ErrorCode::MatchNotActive))
        } else if !(claimed.len() == 1 && claimed[0] == s.players[winner_index as int]) {
            (s, Err(ErrorCode::WinnerMismatch))
        } else if s.rake > seq_sum(s.deposits) {
            (s, Err(ErrorCode::NothingToPayout))
        } else {
            (
                MatchState { status: MatchStatus::Settled, escrow: 0, ..s },
                Ok(payout_transfers(s, s.players[winner_index as int])),
            )
        }
    } else {
        if s.status == MatchStatus::Settled || s.status == MatchStatus::Refunded {
            (s, Err(ErrorCode::CannotRefund))
        } else if claimed != s.players {
            (s, Err(ErrorCode::PlayerMismatchForRefund))
        } else {
            (MatchState { status: MatchStatus::Refunded, escrow: 0, ..s }, Ok(refund_transfers(s)))
        }
    }
}

/// What `close` decides. Only the host may close, and only once the match
/// is `Settled` or `Refunded`; the record itself is then reclaimed by the
/// ledger, no pool value being left in escrow.
pub open spec fn close_spec(s: MatchState, caller: AccountId) -> Result<(), ErrorCode> {
    if caller != s.host {
        Err(ErrorCode::Unauthorized)
    } else if !(s.status == MatchStatus::Settled || s.status == MatchStatus::Refunded) {
        Err(ErrorCode::MatchNotSettledOrRefunded)
    } else {
        Ok(())
    }
}

/// The lifecycle graph, taken reflexively: a status either stays put or
/// moves along Open → Active → Settled, Open → Refunded, Active → Refunded.
pub open spec fn status_evolves(a: MatchStatus, b: MatchStatus) -> bool {
    ||| a == b
    ||| (a == MatchStatus::Open && b == MatchStatus::Active)
    ||| (a == MatchStatus::Open && b == MatchStatus::Refunded)
    ||| (a == MatchStatus::Active && b == MatchStatus::Settled)
    ||| (a == MatchStatus::Active && b == MatchStatus::Refunded)
}

/// Sum of the amounts a batch of transfers credits, as an unbounded
/// integer.
pub open spec fn transfers_total(ts: Seq<Transfer>) -> int
    decreases ts.len(),
{
    if ts.len() == 0 {
        0
    } else {
        transfers_total(ts.drop_last()) + ts.last().amount
    }
}

} // verus!
