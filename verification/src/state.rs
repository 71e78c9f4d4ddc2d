//! Data model of one escrowed match: the record itself, its mathematical
//! view, and the well-formedness invariant that every operation preserves.

use vstd::prelude::*;

verus! {

/// Maximum byte length of a match identifier.
pub const MAX_ID_LENGTH: usize = 32;

/// Largest roster a match may be configured for.
pub const MAX_PLAYERS: usize = 4;

/// Identity of a party on the hosting ledger (the host or a participant).
/// The engine only ever compares identities for equality; resolving an
/// identity to a real account and verifying that a caller controls it is the
/// ledger's work.
#[derive(Clone, Copy, PartialEq, Eq, Structural, Debug, Hash)]
pub struct AccountId(pub u64);

/// Lifecycle stage of a match. `Cancelled` is a reserved tag that no
/// transition ever produces; it is kept so the closed set of tags stays
/// stable for forward compatibility.
#[derive(Clone, Copy, PartialEq, Eq, Structural, Debug)]
pub enum MatchStatus {
    Open,
    Active,
    Settled,
    Refunded,
    Cancelled,
}

/// Why an operation was rejected. A rejected operation has no effect on the
/// record and moves no funds.
#[derive(Clone, Copy, PartialEq, Eq, Structural, Debug)]
pub enum ErrorCode {
    /// Player count outside the allowed range, or the roster is full.
    InvalidPlayers,
    /// Match identifier longer than `MAX_ID_LENGTH` bytes.
    IdTooLong,
    /// The operation needs an `Open` match.
    MatchNotOpen,
    /// The acting party is not on the roster.
    NotAPlayer,
    /// The acting party already joined and paid the entry fee.
    AlreadyFunded,
    /// The entry fee must be a positive amount.
    InvalidAmount,
    /// The roster has not reached the configured player count yet.
    NotAllFunded,
    /// The operation needs an `Active` match.
    MatchNotActive,
    /// The acting party is not the host of this match.
    Unauthorized,
    /// Reserved: a party may not withdraw into the match's own account.
    AccountsOverlap,
    /// Winner selector outside the roster.
    InvalidWinner,
    /// The claimed winner identity does not match the selected roster entry.
    WinnerMismatch,
    /// The rake exceeds the collected pot; nothing would be left to pay out.
    NothingToPayout,
    /// The match was already settled or refunded.
    CannotRefund,
    /// A claimed identity does not match the roster position it refunds.
    PlayerMismatchForRefund,
    /// The joining party's free balance cannot cover fee plus reserve.
    InsufficientFunds,
    /// Only a settled or refunded match may be closed.
    MatchNotSettledOrRefunded,
}

/// A credit the ledger must apply out of the match escrow: pay `amount` to
/// the account identified by `to`.
#[derive(Clone, Copy, PartialEq, Eq, Structural, Debug)]
pub struct Transfer {
    pub to: AccountId,
    pub amount: u64,
}

/// One match record. `escrow` is the value currently held in custody for
/// this match; the operations keep it equal to the sum of `deposits`.
#[derive(Debug)]
pub struct MatchAccount {
    /// Identity of the creating and controlling party. Immutable.
    pub host: AccountId,
    /// Identifier bytes, at most `MAX_ID_LENGTH` of them. Immutable.
    pub id: Vec<u8>,
    /// Entry fee each participant deposits. Positive, immutable.
    pub room_fee: u64,
    /// Fee withheld for the host at settlement. Immutable.
    pub rake: u64,
    /// Joined participants in arrival order, no duplicates.
    pub players: Vec<AccountId>,
    /// Deposit amounts, positionally aligned with `players`.
    pub deposits: Vec<u64>,
    /// Current lifecycle stage.
    pub status: MatchStatus,
    /// Configured roster size, in `[2, MAX_PLAYERS]`. Immutable.
    pub max_players: u8,
    /// Value currently escrowed for this match.
    pub escrow: u64,
}

/// Mathematical view of a match record.
#[verifier::ext_equal]
pub ghost struct MatchState {
    pub host: AccountId,
    pub id: Seq<u8>,
    pub room_fee: u64,
    pub rake: u64,
    pub players: Seq<AccountId>,
    pub deposits: Seq<u64>,
    pub status: MatchStatus,
    pub max_players: u8,
    pub escrow: u64,
}

impl View for MatchAccount {
    type V = MatchState;

    open spec fn view(&self) -> MatchState {
        MatchState {
            host: self.host,
            id: self.id@,
            room_fee: self.room_fee,
            rake: self.rake,
            players: self.players@,
            deposits: self.deposits@,
            status: self.status,
            max_players: self.max_players,
            escrow: self.escrow,
        }
    }
}

/// Sum of a sequence of deposit amounts, as an unbounded integer.
pub open spec fn seq_sum(d: Seq<u64>) -> int
    decreases d.len(),
{
    if d.len() == 0 {
        0
    } else {
        seq_sum(d.drop_last()) + d.last()
    }
}

/// Pushing one amount onto a sequence grows its sum by that amount.
pub proof fn lemma_seq_sum_push(d: Seq<u64>, v: u64)
    ensures
        seq_sum(d.push(v)) == seq_sum(d) + v,
{
    assert(d.push(v).drop_last() =~= d);
}

/// A sum of unsigned amounts is never negative.
pub proof fn lemma_seq_sum_nonneg(d: Seq<u64>)
    ensures
        seq_sum(d) >= 0,
    decreases d.len(),
{
    if d.len() > 0 {
        lemma_seq_sum_nonneg(d.drop_last());
    }
}

/// Removing the entry at `i` shrinks the sum by exactly that entry.
pub proof fn lemma_seq_sum_remove(d: Seq<u64>, i: int)
    requires
        0 <= i < d.len(),
    ensures
        seq_sum(d.remove(i)) == seq_sum(d) - d[i],
    decreases d.len(),
{
    if i == d.len() - 1 {
        assert(d.remove(i) =~= d.drop_last());
    } else {
        assert(d.remove(i).drop_last() =~= d.drop_last().remove(i));
        lemma_seq_sum_remove(d.drop_last(), i);
        assert(d.remove(i).last() == d.last());
    }
}

impl MatchState {
    /// Well-formedness of a match record. Holds of every record `create`
    /// returns and is preserved by every operation:
    /// the identifier fits, the fee is positive, the configured roster size
    /// is in range, `players` and `deposits` are aligned and bounded, no
    /// identity appears twice, every deposit equals the entry fee, the
    /// reserved `Cancelled` tag is never reached, and custody is accounted
    /// for — while the match is unresolved the escrowed value is exactly
    /// the sum of the deposits, and once it is settled or refunded the
    /// whole pool has left escrow.
    pub open spec fn wf(self) -> bool {
        &&& self.id.len() <= MAX_ID_LENGTH as int
        &&& self.room_fee > 0
        &&& 2 <= self.max_players as int && self.max_players as int <= MAX_PLAYERS as int
        &&& self.players.len() == self.deposits.len()
        &&& self.players.len() <= self.max_players as int
        &&& (forall|i: int, j: int|
            0 <= i < j < self.players.len() ==> self.players[i] != self.players[j])
        &&& (forall|i: int| 0 <= i < self.deposits.len() ==> self.deposits[i] == self.room_fee)
        &&& self.status != MatchStatus::Cancelled
        &&& ((self.status == MatchStatus::Open || self.status == MatchStatus::Active)
            ==> self.escrow == seq_sum(self.deposits))
        &&& ((self.status == MatchStatus::Settled || self.status == MatchStatus::Refunded)
            ==> self.escrow == 0)
    }
}

impl MatchAccount {
    /// Bytes of persistent storage one record needs on the ledger, sized for
    /// a full roster: tag, host, length-prefixed identifier, the two fees,
    /// the two length-prefixed roster arrays, status and capacity.
    pub fn space() -> (r: usize)
        ensures
            r == 8 + 32 + (4 + MAX_ID_LENGTH) + 8 + 8 + (4 + 32 * MAX_PLAYERS) + (4 + 8
                * MAX_PLAYERS) + 1 + 1,
    {
        8 + 32 + (4 + MAX_ID_LENGTH) + 8 + 8 + (4 + 32 * MAX_PLAYERS) + (4 + 8 * MAX_PLAYERS) + 1
            + 1
    }
}

} // verus!
