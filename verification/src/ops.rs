//! The six operations of the engine. Each validates before it mutates —
//! a rejection leaves the record untouched and moves no funds — and each is
//! proved equal to its functional model, so every law stated over the
//! models holds of this code.

use vstd::prelude::*;

use crate::model::close_spec;
use crate::model::create_spec;
use crate::model::join_spec;
use crate::model::leave_spec;
use crate::model::payout_transfers;
use crate::model::refund_transfers;
use crate::model::settle_spec;
use crate::model::start_spec;
use crate::state::lemma_seq_sum_nonneg;
use crate::state::lemma_seq_sum_push;
use crate::state::lemma_seq_sum_remove;
use crate::state::AccountId;
use crate::state::ErrorCode;
use crate::state::MatchAccount;
use crate::state::MatchState;
use crate::state::MatchStatus;
use crate::state::Transfer;
use crate::state::MAX_ID_LENGTH;
use crate::state::MAX_PLAYERS;

verus! {

/// Index of `player` on the roster, if it is there at all.
fn find_player(players: &Vec<AccountId>, player: AccountId) -> (r: Option<usize>)
    ensures
        (match r {
            Some(i) => i < players@.len() && players@[i as int] == player,
            None => !players@.contains(player),
        }),
{
    let mut i: usize = 0;
    while i < players.len()
        invariant
            i <= players@.len(),
            forall|j: int| 0 <= j < i ==> players@[j] != player,
        decreases players@.len() - i,
    {
        if players[i] == player {
            return Some(i);
        }
        i += 1;
    }
    None
}

/// Open a new match. Validates the identifier length, the entry fee and the
/// player count, and returns the fresh `Open` record with an empty roster
/// and nothing in escrow. The caller funds the record's storage allocation
/// on the ledger; no pool value moves here.
pub fn create_match(
    host: AccountId,
    id: Vec<u8>,
    room_fee_amount: u64,
    rake: u64,
    num_players: u8,
) -> (r: Result<MatchAccount, ErrorCode>)
    ensures
        (match r {
            Ok(m) => create_spec(host, id@, room_fee_amount, rake, num_players)
                == Ok::<MatchState, ErrorCode>(m@) && m@.wf(),
            Err(e) => create_spec(host, id@, room_fee_amount, rake, num_players)
                == Err::<MatchState, ErrorCode>(e),
        }),
{
    if id.len() > MAX_ID_LENGTH {
        return Err(ErrorCode::IdTooLong);
    }
    if room_fee_amount == 0 {
        return Err(ErrorCode::InvalidAmount);
    }
    if !(2 <= num_players && num_players as usize <= MAX_PLAYERS) {
        return Err(ErrorCode::InvalidPlayers);
    }
    let m = MatchAccount {
        host,
        id,
        room_fee: room_fee_amount,
        rake,
        players: Vec::new(),
        deposits: Vec::new(),
        status: MatchStatus::Open,
        max_players: num_players,
        escrow: 0,
    };
    proof {
        assert(m@.players =~= Seq::<AccountId>::empty());
        assert(m@.deposits =~= Seq::<u64>::empty());
    }
    Ok(m)
}

/// Join an open match as `player`, whose free balance is `player_balance`
/// and who must retain at least `min_reserve` after paying the fee (both
/// read off the ledger by the caller). On success the returned amount — the
/// entry fee — is what the ledger must move from the player into escrow,
/// and the player stands appended to the roster.
///
/// The bound on `escrow` is a machine limit: one more fee must still fit in
/// the escrow counter.
pub fn join_match(
    m: &mut MatchAccount,
    player: AccountId,
    player_balance: u64,
    min_reserve: u64,
) -> (r: Result<u64, ErrorCode>)
    requires
        old(m)@.wf(),
        old(m)@.escrow + old(m)@.room_fee <= u64::MAX,
    ensures
        final(m)@.wf(),
        (final(m)@, r) == join_spec(old(m)@, player, player_balance, min_reserve),
{
    if m.status != MatchStatus::Open {
        return Err(ErrorCode::MatchNotOpen);
    }
    if let Some(i) = find_player(&m.players, player) {
        proof {
            assert(old(m)@.players.contains(player)) by {
                assert(old(m)@.players[i as int] == player);
            }
        }
        return Err(ErrorCode::AlreadyFunded);
    }
    if m.players.len() >= m.max_players as usize {
        return Err(ErrorCode::InvalidPlayers);
    }
    if player_balance < m.room_fee || player_balance - m.room_fee < min_reserve {
        return Err(ErrorCode::InsufficientFunds);
    }
    m.players.push(player);
    let fee = m.room_fee;
    m.deposits.push(fee);
    m.escrow = m.escrow + fee;
    proof {
        lemma_seq_sum_push(old(m)@.deposits, fee);
        assert(m@ =~= join_spec(old(m)@, player, player_balance, min_reserve).0);
        assert forall|a: int, b: int| 0 <= a < b < m@.players.len() implies m@.players[a]
            != m@.players[b] by {
            if b < m@.players.len() - 1 {
                assert(old(m)@.players[a] != old(m)@.players[b]);
            } else {
                assert(!old(m)@.players.contains(player));
                assert(old(m)@.players[a] != player);
            }
        }
    }
    Ok(fee)
}

/// Leave an open match. On success the player's entry is removed from both
/// roster columns at the same index — closing the gap, shifting no other
/// relative order — and the returned transfer credits the recorded deposit
/// back to the player, leaving escrow in the same step.
pub fn leave_match(m: &mut MatchAccount, player: AccountId) -> (r: Result<Transfer, ErrorCode>)
    requires
        old(m)@.wf(),
    ensures
        final(m)@.wf(),
        (final(m)@, r) == leave_spec(old(m)@, player),
{
    if m.status != MatchStatus::Open {
        return Err(ErrorCode::MatchNotOpen);
    }
    let found = find_player(&m.players, player);
    match found {
        None => Err(ErrorCode::NotAPlayer),
        Some(i) => {
            proof {
                assert(old(m)@.players.contains(player)) by {
                    assert(old(m)@.players[i as int] == player);
                }
                let k = old(m)@.players.index_of(player);
                assert(0 <= k < old(m)@.players.len() && old(m)@.players[k] == player);
                assert(k == i as int) by {
                    if k < i as int {
                        assert(old(m)@.players[k] != old(m)@.players[i as int]);
                    } else if k > i as int {
                        assert(old(m)@.players[i as int] != old(m)@.players[k]);
                    }
                }
                lemma_seq_sum_remove(old(m)@.deposits, i as int);
                lemma_seq_sum_nonneg(old(m)@.deposits.remove(i as int));
            }
            let amount = m.deposits[i];
            m.escrow = m.escrow - amount;
            m.players.remove(i);
            m.deposits.remove(i);
            proof {
                assert(m@ =~= leave_spec(old(m)@, player).0);
            }
            Ok(Transfer { to: player, amount })
        },
    }
}

/// Start an open, fully-funded match: host only. The match becomes
/// `Active`; roster and deposits are frozen from here on.
pub fn start_match(m: &mut MatchAccount, caller: AccountId) -> (r: Result<(), ErrorCode>)
    requires
        old(m)@.wf(),
    ensures
        final(m)@.wf(),
        (final(m)@, r) == start_spec(old(m)@, caller),
{
    if caller != m.host {
        return Err(ErrorCode::Unauthorized);
    }
    if m.status != MatchStatus::Open {
        return Err(ErrorCode::MatchNotOpen);
    }
    if m.players.len() != m.max_players as usize {
        return Err(ErrorCode::NotAllFunded);
    }
    m.status = MatchStatus::Active;
    proof {
        assert(m@ =~= start_spec(old(m)@, caller).0);
    }
    Ok(())
}

/// Resolve the pool: host only. A selector `>= 0` pays the claimed winner
/// — who must be exactly the roster entry at that position — the pot minus
/// the rake, the rake going to the host, and settles the match. A negative
/// selector refunds every depositor, the caller presenting the full roster
/// position-for-position; a mismatch anywhere rejects the whole refund
/// before any transfer. The returned transfers are what the ledger must
/// apply out of escrow; on success they account for the entire pot and the
/// record's escrow is zero.
pub fn settle_match(
    m: &mut MatchAccount,
    caller: AccountId,
    winner_index: i8,
    claimed: &Vec<AccountId>,
) -> (r: Result<Vec<Transfer>, ErrorCode>)
    requires
        old(m)@.wf(),
    ensures
        final(m)@.wf(),
        (match r {
            Ok(ts) => settle_spec(old(m)@, caller, winner_index, claimed@) == (
                final(m)@,
                Ok::<Seq<Transfer>, ErrorCode>(ts@),
            ),
            Err(e) => settle_spec(old(m)@, caller, winner_index, claimed@) == (
                final(m)@,
                Err::<Seq<Transfer>, ErrorCode>(e),
            ),
        }),
{
    if caller != m.host {
        return Err(ErrorCode::Unauthorized);
    }
    if winner_index >= 0 {
        let w = winner_index as usize;
        if w >= m.players.len() {
            return Err(ErrorCode::InvalidWinner);
        }
        if m.status != MatchStatus::Active {
            return Err(ErrorCode::MatchNotActive);
        }
        if !(claimed.len() == 1 && claimed[0] == m.players[w]) {
            return Err(ErrorCode::WinnerMismatch);
        }
        if m.rake > m.escrow {
            return Err(ErrorCode::NothingToPayout);
        }
        let payout = m.escrow - m.rake;
        let mut ts: Vec<Transfer> = Vec::new();
        if m.rake > 0 {
            ts.push(Transfer { to: m.host, amount: m.rake });
        }
        ts.push(Transfer { to: m.players[w], amount: payout });
        proof {
            assert(ts@ =~= payout_transfers(old(m)@, old(m)@.players[winner_index as int]));
        }
        m.escrow = 0;
        m.status = MatchStatus::Settled;
        proof {
            assert(m@ =~= settle_spec(old(m)@, caller, winner_index, claimed@).0);
        }
        Ok(ts)
    } else {
        if m.status == MatchStatus::Settled || m.status == MatchStatus::Refunded {
            return Err(ErrorCode::CannotRefund);
        }
        if claimed.len() != m.players.len() {
            proof {
                assert(claimed@ != old(m)@.players);
            }
            return Err(ErrorCode::PlayerMismatchForRefund);
        }
        let n = m.players.len();
        let mut ts: Vec<Transfer> = Vec::new();
        let mut i: usize = 0;
        while i < n
            invariant
                m@ == old(m)@,
                old(m)@.wf(),
                caller == old(m)@.host,
                winner_index < 0,
                old(m)@.status != MatchStatus::Settled,
                old(m)@.status != MatchStatus::Refunded,
                i <= n,
                n == m@.players.len(),
                claimed@.len() == n,
                forall|j: int| 0 <= j < i ==> claimed@[j] == m@.players[j],
                ts@ =~= refund_transfers(old(m)@).take(i as int),
            decreases n - i,
        {
            if claimed[i] != m.players[i] {
                proof {
                    assert(claimed@ != old(m)@.players);
                }
                return Err(ErrorCode::PlayerMismatchForRefund);
            }
            ts.push(Transfer { to: m.players[i], amount: m.deposits[i] });
            proof {
                assert(ts@ =~= refund_transfers(old(m)@).take(i as int + 1));
            }
            i += 1;
        }
        proof {
            assert(claimed@ =~= old(m)@.players);
            assert(ts@ =~= refund_transfers(old(m)@));
        }
        m.escrow = 0;
        m.status = MatchStatus::Refunded;
        proof {
            assert(m@ =~= settle_spec(old(m)@, caller, winner_index, claimed@).0);
        }
        Ok(ts)
    }
}

/// Decide whether the record may be closed: host only, and only once the
/// match is settled or refunded — by then the whole pool has already left
/// escrow. On `Ok` the ledger reclaims the record's storage for the host.
pub fn close_match(m: &MatchAccount, caller: AccountId) -> (r: Result<(), ErrorCode>)
    ensures
        r == close_spec(m@, caller),
{
    if caller != m.host {
        return Err(ErrorCode::Unauthorized);
    }
    if !(m.status == MatchStatus::Settled || m.status == MatchStatus::Refunded) {
        return Err(ErrorCode::MatchNotSettledOrRefunded);
    }
    Ok(())
}

} // verus!
