use vstd::prelude::*;
use crate::config::{MAX_ACCRUAL_TICKS, MAX_RANK_BONUS, STAKE_REWARD_DIVISOR};
use crate::store::Key;

verus! {

/// The record of one asset: its vote count and the total staked on it.
#[derive(Clone, Copy, Debug, PartialEq, Eq, Structural)]
pub struct MemeInfo {
    pub rank: u64,
    pub stake: u64,
}

/// A staking position of one account on one asset; it is open while
/// `amount > 0`.
#[derive(Clone, Copy, Debug, PartialEq, Eq, Structural)]
pub struct StakeInfo {
    pub amount: u64,
    pub opened_at: u64,
}

/// The store key of asset `id`.
pub open spec fn meme_key(id: u64) -> Key {
    Key { a: id, b: 0, c: 0 }
}

/// The store key of the position of account `pid` on asset `id`.
pub open spec fn position_key(pid: Seq<u64>, id: u64) -> Key {
    Key { a: pid[0], b: pid[1], c: id }
}

pub open spec fn min_int(a: int, b: int) -> int {
    if a <= b { a } else { b }
}

/// The reward of a position of `amount` held for `elapsed` ticks on an asset
/// of rank `rank`: one unit per `STAKE_REWARD_DIVISOR` staked and tick, up to
/// `MAX_ACCRUAL_TICKS` ticks, times one plus the rank, up to `MAX_RANK_BONUS`.
pub open spec fn stake_reward_spec(amount: u64, elapsed: u64, rank: u64) -> int {
    (amount / STAKE_REWARD_DIVISOR) as int * min_int(elapsed as int, MAX_ACCRUAL_TICKS as int)
        * (1 + min_int(rank as int, MAX_RANK_BONUS as int))
}

/// The tag of an event that carries an asset record.
pub const EVENT_MEME: u64 = 1;
/// The tag of an event that carries a staking position.
pub const EVENT_POSITION: u64 = 2;

/// The event words announcing the state of asset `id`.
pub open spec fn meme_event(id: u64, m: MemeInfo) -> Seq<u64> {
    seq![EVENT_MEME, id, m.rank, m.stake]
}

/// The event words announcing the position of account `pid` on asset `id`.
pub open spec fn position_event(pid: Seq<u64>, id: u64, s: StakeInfo) -> Seq<u64> {
    seq![EVENT_POSITION, pid[0], pid[1], id, s.amount, s.opened_at]
}

/// Appends the event announcing the state of asset `id`.
pub fn emit_meme_event(events: &mut Vec<u64>, id: u64, m: &MemeInfo)
    ensures
        final(events)@ == old(events)@ + meme_event(id, *m),
{
    events.push(EVENT_MEME);
    events.push(id);
    events.push(m.rank);
    events.push(m.stake);
    assert(final(events)@ =~= old(events)@ + meme_event(id, *m));
}

/// Appends the event announcing the position of account `pid` on asset `id`.
pub fn emit_position_event(events: &mut Vec<u64>, pid: &[u64; 2], id: u64, s: &StakeInfo)
    ensures
        final(events)@ == old(events)@ + position_event(pid@, id, *s),
{
    events.push(EVENT_POSITION);
    events.push(pid[0]);
    events.push(pid[1]);
    events.push(id);
    events.push(s.amount);
    events.push(s.opened_at);
    assert(final(events)@ =~= old(events)@ + position_event(pid@, id, *s));
}

impl MemeInfo {
    /// A fresh asset with no votes and nothing staked.
    pub fn new() -> (r: Self)
        ensures
            r == (MemeInfo { rank: 0, stake: 0 }),
    {
        MemeInfo { rank: 0, stake: 0 }
    }
}

/// The store key of asset `id`.
pub fn meme_store_key(id: u64) -> (r: Key)
    ensures
        r == meme_key(id),
{
    Key { a: id, b: 0, c: 0 }
}

/// The store key of the position of account `pid` on asset `id`.
pub fn position_store_key(pid: &[u64; 2], id: u64) -> (r: Key)
    ensures
        r == position_key(pid@, id),
{
    Key { a: pid[0], b: pid[1], c: id }
}

/// The reward policy of staking; see `stake_reward_spec`.
pub fn stake_reward(amount: u64, elapsed: u64, rank: u64) -> (r: u128)
    ensures
        r as int == stake_reward_spec(amount, elapsed, rank),
        r <= u64::MAX as int * 10,
{
    let units: u64 = amount / STAKE_REWARD_DIVISOR;
    let ticks: u64 = if elapsed <= MAX_ACCRUAL_TICKS { elapsed } else { MAX_ACCRUAL_TICKS };
    let bonus: u64 = 1 + if rank <= MAX_RANK_BONUS { rank } else { MAX_RANK_BONUS };
    assert(units as int * ticks as int <= u64::MAX as int) by (nonlinear_arith)
        requires
            units as int <= u64::MAX as int / 10000,
            ticks as int <= 10000,
    ;
    let base: u128 = units as u128 * ticks as u128;
    assert(base as int * bonus as int <= u64::MAX as int * 10) by (nonlinear_arith)
        requires
            base as int <= u64::MAX as int,
            1 <= bonus as int <= 10,
    ;
    base * bonus as u128
}

} // verus!
