//! The engine's laws, stated over the functional models and proved once and
//! for all. Because every operation is proved equal to its model, each law
//! here holds of the executable operations as well.

use vstd::prelude::*;

use crate::model::create_spec;
use crate::model::join_spec;
use crate::model::leave_spec;
use crate::model::payout_transfers;
use crate::model::refund_transfers;
use crate::model::settle_spec;
use crate::model::start_spec;
use crate::model::status_evolves;
use crate::model::transfers_total;
use crate::state::lemma_seq_sum_nonneg;
use crate::state::lemma_seq_sum_remove;
use crate::state::seq_sum;
use crate::state::AccountId;
use crate::state::ErrorCode;
use crate::state::MatchState;
use crate::state::MatchStatus;
use crate::state::Transfer;

verus! {

/// Conservation, standing part: while a match is unresolved, the value held
/// in escrow is exactly the sum of the recorded deposits.
pub proof fn lemma_escrow_matches_deposits(s: MatchState)
    requires
        s.wf(),
        s.status == MatchStatus::Open || s.status == MatchStatus::Active,
    ensures
        s.escrow == seq_sum(s.deposits),
{
}

/// Conservation at entry: a successful join grows escrow by exactly the
/// amount the ledger is told to collect from the joining player.
pub proof fn lemma_join_escrow_delta(s: MatchState, player: AccountId, bal: u64, res: u64)
    requires
        s.wf(),
        s.escrow + s.room_fee <= u64::MAX,
        join_spec(s, player, bal, res).1 is Ok,
    ensures
        (join_spec(s, player, bal, res).1 matches Ok(fee) ==> join_spec(s, player, bal, res).0.escrow
            == s.escrow + fee),
{
}

/// Conservation at exit: a successful leave shrinks escrow by exactly the
/// amount the returned transfer credits back, and credits it to the leaving
/// player.
pub proof fn lemma_leave_escrow_delta(s: MatchState, player: AccountId)
    requires
        s.wf(),
        leave_spec(s, player).1 is Ok,
    ensures
        (leave_spec(s, player).1 matches Ok(t) ==> t.to == player && leave_spec(s, player).0.escrow
            == s.escrow - t.amount),
{
    let i = s.players.index_of(player);
    assert(s.players.contains(player));
    assert(0 <= i < s.players.len() && s.players[i] == player);
    lemma_seq_sum_remove(s.deposits, i);
    lemma_seq_sum_nonneg(s.deposits.remove(i));
}

/// Sum of a full refund: the refund transfers credit, between them, exactly
/// the sum of the recorded deposits.
pub proof fn lemma_refund_transfers_total(s: MatchState)
    requires
        s.players.len() == s.deposits.len(),
    ensures
        transfers_total(refund_transfers(s)) == seq_sum(s.deposits),
    decreases s.players.len(),
{
    if s.players.len() > 0 {
        let s2 = MatchState { players: s.players.drop_last(), deposits: s.deposits.drop_last(), ..s };
        assert(refund_transfers(s).drop_last() =~= refund_transfers(s2));
        lemma_refund_transfers_total(s2);
        assert(refund_transfers(s).last().amount == s.deposits.last());
    }
}

/// Conservation at resolution: a successful settlement — payout or refund —
/// leaves nothing in escrow, and the transfers it orders account, between
/// them, for exactly the value that was escrowed.
pub proof fn lemma_settle_empties_escrow(
    s: MatchState,
    caller: AccountId,
    winner_index: i8,
    claimed: Seq<AccountId>,
)
    requires
        s.wf(),
        settle_spec(s, caller, winner_index, claimed).1 is Ok,
    ensures
        settle_spec(s, caller, winner_index, claimed).0.escrow == 0,
        (settle_spec(s, caller, winner_index, claimed).1 matches Ok(ts) ==> transfers_total(ts)
            == s.escrow),
{
    let pot = seq_sum(s.deposits);
    if winner_index >= 0 {
        let winner = s.players[winner_index as int];
        let ts = payout_transfers(s, winner);
        let t_payout = Transfer { to: winner, amount: (pot - s.rake) as u64 };
        assert(transfers_total(Seq::<Transfer>::empty()) == 0);
        if s.rake > 0 {
            let t_rake = Transfer { to: s.host, amount: s.rake };
            assert(seq![t_rake].drop_last() =~= Seq::<Transfer>::empty());
            assert(transfers_total(seq![t_rake]) == s.rake);
            assert(ts.drop_last() =~= seq![t_rake]);
            assert(transfers_total(ts) == s.rake + t_payout.amount);
        } else {
            assert(ts.drop_last() =~= Seq::<Transfer>::empty());
            assert(transfers_total(ts) == t_payout.amount);
        }
    } else {
        lemma_refund_transfers_total(s);
    }
}

/// Roster alignment: in every well-formed state the two roster columns have
/// the same length and no identity appears twice among the players.
pub proof fn lemma_roster_aligned(s: MatchState)
    requires
        s.wf(),
    ensures
        s.players.len() == s.deposits.len(),
        forall|i: int, j: int| 0 <= i < j < s.players.len() ==> s.players[i] != s.players[j],
{
}

/// Idempotent rejection: once a join by `player` has succeeded, a second
/// join by the same player is rejected as already funded — whatever balance
/// and reserve it presents, and even once the roster has filled — and the
/// record is left exactly as the first join left it, so there is no double
/// debit.
pub proof fn lemma_join_repeat_rejected(
    s: MatchState,
    player: AccountId,
    bal1: u64,
    res1: u64,
    bal2: u64,
    res2: u64,
)
    requires
        join_spec(s, player, bal1, res1).1 is Ok,
    ensures
        ({
            let s1 = join_spec(s, player, bal1, res1).0;
            join_spec(s1, player, bal2, res2) == (
                s1,
                Err::<u64, ErrorCode>(ErrorCode::AlreadyFunded),
            )
        }),
{
    let s1 = join_spec(s, player, bal1, res1).0;
    assert(s1.players.contains(player)) by {
        assert(s1.players[s.players.len() as int] == player);
    }
}

/// Order preservation: a successful leave removes exactly one entry — the
/// leaving player's — from both roster columns at the same index; entries
/// before the gap keep their positions and entries after it shift down by
/// one, so no relative order changes.
pub proof fn lemma_leave_preserves_order(s: MatchState, player: AccountId)
    requires
        s.wf(),
        leave_spec(s, player).1 is Ok,
    ensures
        ({
            let i = s.players.index_of(player);
            let s1 = leave_spec(s, player).0;
            &&& 0 <= i < s.players.len()
            &&& s.players[i] == player
            &&& s1.players.len() == s.players.len() - 1
            &&& s1.deposits.len() == s.deposits.len() - 1
            &&& (forall|j: int|
                0 <= j < i ==> s1.players[j] == s.players[j] && s1.deposits[j] == s.deposits[j])
            &&& (forall|j: int|
                i <= j < s1.players.len() ==> s1.players[j] == s.players[j + 1] && s1.deposits[j]
                    == s.deposits[j + 1])
        }),
{
    assert(s.players.contains(player));
}

/// Monotonic status, creation: a record begins its life `Open`.
pub proof fn lemma_create_starts_open(
    host: AccountId,
    id: Seq<u8>,
    room_fee_amount: u64,
    rake: u64,
    num_players: u8,
)
    ensures
        (create_spec(host, id, room_fee_amount, rake, num_players) matches Ok(s) ==> s.status
            == MatchStatus::Open),
{
}

/// Monotonic status: join either leaves the record unchanged (when
/// rejected) or keeps it `Open`; either way the status only moves along the
/// lifecycle graph.
pub proof fn lemma_join_status_monotone(s: MatchState, player: AccountId, bal: u64, res: u64)
    ensures
        status_evolves(s.status, join_spec(s, player, bal, res).0.status),
        join_spec(s, player, bal, res).1 is Err ==> join_spec(s, player, bal, res).0 == s,
{
}

/// Monotonic status: leave never changes the status, and a rejected leave
/// changes nothing at all.
pub proof fn lemma_leave_status_monotone(s: MatchState, player: AccountId)
    ensures
        status_evolves(s.status, leave_spec(s, player).0.status),
        leave_spec(s, player).1 is Err ==> leave_spec(s, player).0 == s,
{
}

/// Monotonic status: start moves an `Open` match to `Active` or is
/// rejected with nothing changed.
pub proof fn lemma_start_status_monotone(s: MatchState, caller: AccountId)
    ensures
        status_evolves(s.status, start_spec(s, caller).0.status),
        start_spec(s, caller).1 is Err ==> start_spec(s, caller).0 == s,
{
}

/// Monotonic status: settle moves an `Active` match to `Settled`, an
/// `Open` or `Active` match to `Refunded`, or is rejected with nothing
/// changed; no backward or skipping transition exists.
pub proof fn lemma_settle_status_monotone(
    s: MatchState,
    caller: AccountId,
    winner_index: i8,
    claimed: Seq<AccountId>,
)
    requires
        s.wf(),
    ensures
        status_evolves(s.status, settle_spec(s, caller, winner_index, claimed).0.status),
        settle_spec(s, caller, winner_index, claimed).1 is Err ==> settle_spec(
            s,
            caller,
            winner_index,
            claimed,
        ).0 == s,
{
}

} // verus!
