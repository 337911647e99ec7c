use vstd::prelude::*;
use crate::config::{
    ACTION_DURATION, ACTION_REWARD, ACTION_VOTE, LOTTERY_REWARD, LOTTERY_THRESHOLD, PROGRESS_FULL,
    SETTLEMENT_LOTTERY, SETTLEMENT_PRIMARY,
};
use crate::error::{
    error_label, ERROR_NOT_SELECTED_PLAYER, ERROR_PLAYER_ALREADY_EXIST, ERROR_UNAUTHORIZED,
    PLAYER_LOTTERY_EXPIRED, SELECTED_PLAYER_NOT_EXIST, ERROR_INVALID_OPCODE,
    ERROR_INVALID_NONCE, ERROR_INVALID_OPERAND, ERROR_NOT_ENOUGH_BALANCE, ERROR_NO_OPEN_POSITION,
    ERROR_OVERFLOW, ERROR_PLAYER_NOT_EXIST, ERROR_UNSUPPORTED_COMMAND, INVALID_MEME_INDEX,
    PLAYER_ACTION_NOT_FINISHED, PLAYER_LOTTERY_PROGRESS_NOT_FULL, PLAYER_NOT_ENOUGH_TICKET,
};
use crate::meme::{
    emit_meme_event, emit_position_event, meme_event, position_event, meme_key, meme_store_key, position_key, position_store_key, stake_reward, stake_reward_spec,
    MemeInfo, StakeInfo,
};
use crate::player::{cooldown_elapsed, nonce_accepted, pid_key, player_key, progressed, PlayerData};
use crate::settlement::Settlement;
use crate::state::{same_counters, GlobalState};

verus! {

/// A decoded command.
#[derive(Clone)]
pub enum Command {
    Activity(Activity),
    Withdraw(Withdraw),
    WithdrawLottery(WithdrawLottery),
    Deposit(Deposit),
    InstallPlayer,
    InstallMeme(u64),
    Tick,
}

/// An account's activities.
#[derive(Clone)]
pub enum Activity {
    /// Spends a ticket to vote for an asset, raising the account's progress.
    Vote(u64),
    /// Stakes an amount on an asset. Topping up an open position adds to it
    /// and restarts its accrual at the current tick: the reward accrued so far
    /// is forfeited rather than pro-rated.
    Stake(u64, u64),
    /// Closes the position on an asset, paying back principal and reward.
    Collect(u64),
    /// A comment as raw bytes. It decodes, but no effect is defined for it:
    /// processing rejects it with `ERROR_UNSUPPORTED_COMMAND`.
    Comment(Vec<u8>),
    /// Draws the lottery once progress is full.
    Lottery,
}

/// A command that acts on the account of its submitter `pid`.
///
/// A handler either applies in full and returns `Ok`, or returns the error
/// code and leaves the state as it was. It never touches the global counters.
pub trait CommandHandler {
    /// What the handler does: `post` and `r` as they follow from `pre`.
    spec fn handled(
        &self,
        pre: GlobalState,
        post: GlobalState,
        pid: Seq<u64>,
        nonce: u64,
        rand: Seq<u64>,
        counter: u64,
        r: Result<(), u32>,
    ) -> bool;

    fn handle(
        &self,
        st: &mut GlobalState,
        pid: &[u64; 2],
        nonce: u64,
        rand: &[u64; 4],
        counter: u64,
    ) -> (r: Result<(), u32>)
        requires
            old(st).wf(),
        ensures
            final(st).wf(),
            same_counters(*old(st), *final(st)),
            r is Err ==> *final(st) == *old(st),
            self.handled(*old(st), *final(st), pid@, nonce, rand@, counter, r),
    ;
}

/// A status code as a handler result.
pub open spec fn status_result(status: u32) -> Result<(), u32> {
    if status == 0 {
        Ok(())
    } else {
        Err(status)
    }
}

/// The amount of a withdrawal: the low half of its first operand word.
pub open spec fn withdraw_amount(w: u64) -> u64 {
    w & 0xffffffff
}

/// The funds of class `class` held by an account.
pub open spec fn funds(p: PlayerData, class: u64) -> u64 {
    if class == SETTLEMENT_LOTTERY {
        p.lottery_info
    } else {
        p.balance
    }
}

/// The account after a withdrawal of `amount` of class `class` under `nonce`.
pub open spec fn debited(p: PlayerData, class: u64, amount: u64, nonce: u64) -> PlayerData {
    if class == SETTLEMENT_LOTTERY {
        PlayerData { nonce, lottery_info: (p.lottery_info - amount) as u64, ..p }
    } else {
        PlayerData { nonce, balance: (p.balance - amount) as u64, ..p }
    }
}

/// The status of a withdrawal from the account `pid`.
pub open spec fn withdraw_status(
    pre: GlobalState,
    pid: Seq<u64>,
    nonce: u64,
    amount: u64,
    class: u64,
) -> u32 {
    let k = pid_key(pid);
    if !pre.players@.contains_key(k) {
        ERROR_PLAYER_NOT_EXIST
    } else if !nonce_accepted(pre.players@[k].nonce, nonce) {
        ERROR_INVALID_NONCE
    } else if funds(pre.players@[k], class) < amount {
        ERROR_NOT_ENOUGH_BALANCE
    } else {
        0
    }
}

/// A withdrawal from the account `pid`: on success the account is debited
/// and one settlement record is queued.
pub open spec fn withdrawn(
    pre: GlobalState,
    post: GlobalState,
    pid: Seq<u64>,
    nonce: u64,
    data: [u64; 3],
    class: u64,
    r: Result<(), u32>,
) -> bool {
    let k = pid_key(pid);
    let status: u32 = withdraw_status(pre, pid, nonce, withdraw_amount(data@[0]), class);
    &&& r == status_result(status)
    &&& status == 0 ==> {
        &&& post.players@ == pre.players@.insert(
            k,
            debited(pre.players@[k], class, withdraw_amount(data@[0]), nonce),
        )
        &&& post.memes@ == pre.memes@
        &&& post.positions@ == pre.positions@
        &&& post.settlements@ == pre.settlements@.push(Settlement { data, class })
        &&& post.events == pre.events
    }
}

fn withdraw_funds(
    st: &mut GlobalState,
    pid: &[u64; 2],
    nonce: u64,
    data: [u64; 3],
    class: u64,
) -> (r: Result<(), u32>)
    requires
        old(st).wf(),
        class == SETTLEMENT_PRIMARY || class == SETTLEMENT_LOTTERY,
    ensures
        final(st).wf(),
        same_counters(*old(st), *final(st)),
        r is Err ==> *final(st) == *old(st),
        withdrawn(*old(st), *final(st), pid@, nonce, data, class, r),
{
    let k = player_key(pid);
    match st.players.get(&k) {
        None => Err(ERROR_PLAYER_NOT_EXIST),
        Some(p) => {
            let mut player = p;
            player.check_and_inc_nonce(nonce)?;
            let amount: u64 = data[0] & 0xffffffff;
            if class == SETTLEMENT_LOTTERY {
                if player.lottery_info < amount {
                    return Err(ERROR_NOT_ENOUGH_BALANCE);
                }
                player.lottery_info = player.lottery_info - amount;
            } else {
                if player.balance < amount {
                    return Err(ERROR_NOT_ENOUGH_BALANCE);
                }
                player.balance = player.balance - amount;
            }
            st.players.put(&k, player);
            st.settlements.append_settlement(Settlement { data, class });
            Ok(())
        },
    }
}

/// A withdrawal from the primary balance: `data` holds the destination and,
/// in the low half of its first word, the amount.
#[derive(Clone, Copy)]
pub struct Withdraw {
    pub data: [u64; 3],
}

impl CommandHandler for Withdraw {
    open spec fn handled(
        &self,
        pre: GlobalState,
        post: GlobalState,
        pid: Seq<u64>,
        nonce: u64,
        rand: Seq<u64>,
        counter: u64,
        r: Result<(), u32>,
    ) -> bool {
        withdrawn(pre, post, pid, nonce, self.data, SETTLEMENT_PRIMARY, r)
    }

    fn handle(
        &self,
        st: &mut GlobalState,
        pid: &[u64; 2],
        nonce: u64,
        _rand: &[u64; 4],
        _counter: u64,
    ) -> (r: Result<(), u32>) {
        withdraw_funds(st, pid, nonce, self.data, SETTLEMENT_PRIMARY)
    }
}

/// A withdrawal from the lottery pool, laid out as `Withdraw`.
#[derive(Clone, Copy)]
pub struct WithdrawLottery {
    pub data: [u64; 3],
}

impl CommandHandler for WithdrawLottery {
    open spec fn handled(
        &self,
        pre: GlobalState,
        post: GlobalState,
        pid: Seq<u64>,
        nonce: u64,
        rand: Seq<u64>,
        counter: u64,
        r: Result<(), u32>,
    ) -> bool {
        withdrawn(pre, post, pid, nonce, self.data, SETTLEMENT_LOTTERY, r)
    }

    fn handle(
        &self,
        st: &mut GlobalState,
        pid: &[u64; 2],
        nonce: u64,
        _rand: &[u64; 4],
        _counter: u64,
    ) -> (r: Result<(), u32>) {
        withdraw_funds(st, pid, nonce, self.data, SETTLEMENT_LOTTERY)
    }
}

} // verus!

verus! {

/// The store key of the account that a deposit credits.
pub open spec fn deposit_target(data: [u64; 3]) -> crate::store::Key {
    pid_key(seq![data@[0], data@[1]])
}

/// The status of a deposit submitted by the account `pid`.
pub open spec fn deposit_status(pre: GlobalState, pid: Seq<u64>, nonce: u64, data: [u64; 3]) -> u32 {
    let ak = pid_key(pid);
    let tk = deposit_target(data);
    if !pre.players@.contains_key(ak) {
        ERROR_PLAYER_NOT_EXIST
    } else if !nonce_accepted(pre.players@[ak].nonce, nonce) {
        ERROR_INVALID_NONCE
    } else if !pre.players@.contains_key(tk) {
        ERROR_PLAYER_NOT_EXIST
    } else if pre.players@[tk].ticket + data@[2] > u64::MAX {
        ERROR_OVERFLOW
    } else {
        0
    }
}

/// A deposit of tickets: `data` holds the target's identifier and the number
/// of tickets. The submitter's nonce advances, the target's tickets grow.
#[derive(Clone, Copy)]
pub struct Deposit {
    pub data: [u64; 3],
}

impl CommandHandler for Deposit {
    open spec fn handled(
        &self,
        pre: GlobalState,
        post: GlobalState,
        pid: Seq<u64>,
        nonce: u64,
        rand: Seq<u64>,
        counter: u64,
        r: Result<(), u32>,
    ) -> bool {
        let ak = pid_key(pid);
        let tk = deposit_target(self.data);
        let status: u32 = deposit_status(pre, pid, nonce, self.data);
        let p1 = pre.players@.insert(ak, PlayerData { nonce, ..pre.players@[ak] });
        &&& r == status_result(status)
        &&& status == 0 ==> {
            &&& post.players@ == p1.insert(
                tk,
                PlayerData { ticket: (p1[tk].ticket + self.data@[2]) as u64, ..p1[tk] },
            )
            &&& post.memes@ == pre.memes@
            &&& post.positions@ == pre.positions@
            &&& post.settlements@ == pre.settlements@
            &&& post.events == pre.events
        }
    }

    fn handle(
        &self,
        st: &mut GlobalState,
        pid: &[u64; 2],
        nonce: u64,
        _rand: &[u64; 4],
        _counter: u64,
    ) -> (r: Result<(), u32>) {
        let ak = player_key(pid);
        let mut admin = match st.players.get(&ak) {
            None => {
                return Err(ERROR_PLAYER_NOT_EXIST);
            },
            Some(a) => a,
        };
        admin.check_and_inc_nonce(nonce)?;
        let target_pid: [u64; 2] = [self.data[0], self.data[1]];
        let tk = player_key(&target_pid);
        assert(tk == deposit_target(self.data)) by {
            assert(target_pid@ =~= seq![self.data@[0], self.data@[1]]);
        }
        let target = match st.players.get(&tk) {
            None => {
                return Err(ERROR_PLAYER_NOT_EXIST);
            },
            Some(t) => t,
        };
        if target.ticket > u64::MAX - self.data[2] {
            return Err(ERROR_OVERFLOW);
        }
        st.players.put(&ak, admin);
        let mut player = match st.players.get(&tk) {
            None => {
                return Err(ERROR_PLAYER_NOT_EXIST);
            },
            Some(t) => t,
        };
        player.ticket = player.ticket + self.data[2];
        st.players.put(&tk, player);
        Ok(())
    }
}

} // verus!

verus! {

/// The account after a vote at `counter` under `nonce`: one ticket spent,
/// progress raised, the vote recorded as its last action.
pub open spec fn voted(p: PlayerData, counter: u64, nonce: u64) -> PlayerData {
    let acted = PlayerData {
        action: ACTION_VOTE,
        last_action_timestamp: counter,
        ticket: (p.ticket - 1) as u64,
        ..p
    };
    PlayerData { nonce, ..progressed(acted, counter, ACTION_REWARD) }
}

/// The status of a vote by the account `pid` for asset `id`.
pub open spec fn vote_status(pre: GlobalState, pid: Seq<u64>, nonce: u64, counter: u64, id: u64) -> u32 {
    let k = pid_key(pid);
    let p = pre.players@[k];
    if !pre.players@.contains_key(k) {
        ERROR_PLAYER_NOT_EXIST
    } else if !cooldown_elapsed(p, counter, ACTION_DURATION) {
        PLAYER_ACTION_NOT_FINISHED
    } else if p.ticket < 1 {
        PLAYER_NOT_ENOUGH_TICKET
    } else if !nonce_accepted(p.nonce, nonce) {
        ERROR_INVALID_NONCE
    } else if !pre.memes@.contains_key(meme_key(id)) {
        INVALID_MEME_INDEX
    } else if pre.memes@[meme_key(id)].rank == u64::MAX {
        ERROR_OVERFLOW
    } else {
        0
    }
}

/// The amount already staked by `pid` on asset `id`.
pub open spec fn staked(pre: GlobalState, pid: Seq<u64>, id: u64) -> u64 {
    if pre.positions@.contains_key(position_key(pid, id)) {
        pre.positions@[position_key(pid, id)].amount
    } else {
        0
    }
}

/// The status of a stake of `amount` by the account `pid` on asset `id`.
pub open spec fn stake_status(pre: GlobalState, pid: Seq<u64>, nonce: u64, id: u64, amount: u64) -> u32 {
    let k = pid_key(pid);
    let p = pre.players@[k];
    if !pre.players@.contains_key(k) {
        ERROR_PLAYER_NOT_EXIST
    } else if !nonce_accepted(p.nonce, nonce) {
        ERROR_INVALID_NONCE
    } else if amount == 0 {
        ERROR_INVALID_OPERAND
    } else if !pre.memes@.contains_key(meme_key(id)) {
        INVALID_MEME_INDEX
    } else if p.balance < amount {
        ERROR_NOT_ENOUGH_BALANCE
    } else if staked(pre, pid, id) + amount > u64::MAX || pre.memes@[meme_key(id)].stake + amount
        > u64::MAX {
        ERROR_OVERFLOW
    } else {
        0
    }
}

/// Whether `pid` holds an open position on asset `id`.
pub open spec fn position_open(pre: GlobalState, pid: Seq<u64>, id: u64) -> bool {
    pre.positions@.contains_key(position_key(pid, id)) && pre.positions@[position_key(
        pid,
        id,
    )].amount > 0
}

/// Ticks since `opened_at`, zero if the clock has not passed it.
pub open spec fn elapsed_since(counter: u64, opened_at: u64) -> u64 {
    if counter >= opened_at {
        (counter - opened_at) as u64
    } else {
        0
    }
}

/// What collecting the position of `pid` on asset `id` pays: the principal
/// and the reward it accrued.
pub open spec fn collect_payout(pre: GlobalState, pid: Seq<u64>, id: u64, counter: u64) -> int {
    let s = pre.positions@[position_key(pid, id)];
    s.amount + stake_reward_spec(
        s.amount,
        elapsed_since(counter, s.opened_at),
        pre.memes@[meme_key(id)].rank,
    )
}

/// The status of a collect by the account `pid` on asset `id`.
pub open spec fn collect_status(pre: GlobalState, pid: Seq<u64>, nonce: u64, counter: u64, id: u64) -> u32 {
    let k = pid_key(pid);
    let p = pre.players@[k];
    if !pre.players@.contains_key(k) {
        ERROR_PLAYER_NOT_EXIST
    } else if !nonce_accepted(p.nonce, nonce) {
        ERROR_INVALID_NONCE
    } else if !position_open(pre, pid, id) {
        ERROR_NO_OPEN_POSITION
    } else if !pre.memes@.contains_key(meme_key(id)) {
        INVALID_MEME_INDEX
    } else if p.balance + collect_payout(pre, pid, id, counter) > u64::MAX {
        ERROR_OVERFLOW
    } else {
        0
    }
}

/// Whether a lottery draw with random words `rand` credits the lottery pool
/// rather than the balance.
pub open spec fn lottery_wins(rand: Seq<u64>) -> bool {
    (rand[1] & 0xff) > LOTTERY_THRESHOLD
}

/// The status of a lottery draw by the account `pid`.
pub open spec fn lottery_status(pre: GlobalState, pid: Seq<u64>, nonce: u64, rand: Seq<u64>) -> u32 {
    let k = pid_key(pid);
    let p = pre.players@[k];
    if !pre.players@.contains_key(k) {
        ERROR_PLAYER_NOT_EXIST
    } else if p.progress != PROGRESS_FULL {
        PLAYER_LOTTERY_PROGRESS_NOT_FULL
    } else if !nonce_accepted(p.nonce, nonce) {
        ERROR_INVALID_NONCE
    } else if lottery_wins(rand) && p.lottery_info + LOTTERY_REWARD > u64::MAX {
        ERROR_OVERFLOW
    } else if !lottery_wins(rand) && p.balance + LOTTERY_REWARD > u64::MAX {
        ERROR_OVERFLOW
    } else {
        0
    }
}

/// The account after a lottery draw: progress, action and timestamps reset,
/// the reward credited to the lottery pool or to the balance.
pub open spec fn drawn(p: PlayerData, nonce: u64, rand: Seq<u64>) -> PlayerData {
    let reset = PlayerData {
        nonce,
        action: 0,
        progress: 0,
        last_lottery_timestamp: 0,
        last_action_timestamp: 0,
        ..p
    };
    if lottery_wins(rand) {
        PlayerData { lottery_info: (p.lottery_info + LOTTERY_REWARD) as u64, ..reset }
    } else {
        PlayerData { balance: (p.balance + LOTTERY_REWARD) as u64, ..reset }
    }
}

/// The status of an activity.
pub open spec fn activity_status(
    act: Activity,
    pre: GlobalState,
    pid: Seq<u64>,
    nonce: u64,
    rand: Seq<u64>,
    counter: u64,
) -> u32 {
    match act {
        Activity::Vote(id) => vote_status(pre, pid, nonce, counter, id),
        Activity::Stake(id, amount) => stake_status(pre, pid, nonce, id, amount),
        Activity::Collect(id) => collect_status(pre, pid, nonce, counter, id),
        Activity::Comment(_) => if pre.players@.contains_key(pid_key(pid)) {
            ERROR_UNSUPPORTED_COMMAND
        } else {
            ERROR_PLAYER_NOT_EXIST
        },
        Activity::Lottery => lottery_status(pre, pid, nonce, rand),
    }
}

/// The effect of a successful activity.
pub open spec fn activity_effect(
    act: Activity,
    pre: GlobalState,
    post: GlobalState,
    pid: Seq<u64>,
    nonce: u64,
    rand: Seq<u64>,
    counter: u64,
) -> bool {
    let k = pid_key(pid);
    let p = pre.players@[k];
    &&& post.settlements@ == pre.settlements@
    &&& match act {
        Activity::Vote(id) => {
            let m = pre.memes@[meme_key(id)];
            &&& post.players@ == pre.players@.insert(k, voted(p, counter, nonce))
            &&& post.memes@ == pre.memes@.insert(
                meme_key(id),
                MemeInfo { rank: (m.rank + 1) as u64, ..m },
            )
            &&& post.positions@ == pre.positions@
            &&& post.events@ == pre.events@ + meme_event(id, MemeInfo { rank: (m.rank + 1) as u64, ..m })
        },
        Activity::Stake(id, amount) => {
            let m = pre.memes@[meme_key(id)];
            &&& post.players@ == pre.players@.insert(
                k,
                PlayerData { nonce, balance: (p.balance - amount) as u64, ..p },
            )
            &&& post.memes@ == pre.memes@.insert(
                meme_key(id),
                MemeInfo { stake: (m.stake + amount) as u64, ..m },
            )
            &&& post.positions@ == pre.positions@.insert(
                position_key(pid, id),
                StakeInfo { amount: (staked(pre, pid, id) + amount) as u64, opened_at: counter },
            )
            &&& post.events@ == pre.events@ + position_event(
                pid,
                id,
                StakeInfo { amount: (staked(pre, pid, id) + amount) as u64, opened_at: counter },
            ) + meme_event(id, MemeInfo { stake: (m.stake + amount) as u64, ..m })
        },
        Activity::Collect(id) => {
            let m = pre.memes@[meme_key(id)];
            let s = pre.positions@[position_key(pid, id)];
            &&& post.players@ == pre.players@.insert(
                k,
                PlayerData {
                    nonce,
                    balance: (p.balance + collect_payout(pre, pid, id, counter)) as u64,
                    ..p
                },
            )
            &&& post.memes@ == pre.memes@.insert(
                meme_key(id),
                MemeInfo {
                    stake: if m.stake >= s.amount {
                        (m.stake - s.amount) as u64
                    } else {
                        0
                    },
                    ..m
                },
            )
            &&& post.positions@ == pre.positions@.insert(
                position_key(pid, id),
                StakeInfo { amount: 0, opened_at: 0 },
            )
            &&& post.events@ == pre.events@ + position_event(
                pid,
                id,
                StakeInfo { amount: 0, opened_at: 0 },
            ) + meme_event(id, post.memes@[meme_key(id)])
        },
        Activity::Comment(_) => false,
        Activity::Lottery => {
            &&& post.players@ == pre.players@.insert(k, drawn(p, nonce, rand))
            &&& post.memes@ == pre.memes@
            &&& post.positions@ == pre.positions@
            &&& post.events == pre.events
        },
    }
}

impl CommandHandler for Activity {
    open spec fn handled(
        &self,
        pre: GlobalState,
        post: GlobalState,
        pid: Seq<u64>,
        nonce: u64,
        rand: Seq<u64>,
        counter: u64,
        r: Result<(), u32>,
    ) -> bool {
        let status: u32 = activity_status(*self, pre, pid, nonce, rand, counter);
        &&& r == status_result(status)
        &&& status == 0 ==> activity_effect(*self, pre, post, pid, nonce, rand, counter)
    }

    fn handle(
        &self,
        st: &mut GlobalState,
        pid: &[u64; 2],
        nonce: u64,
        rand: &[u64; 4],
        counter: u64,
    ) -> (r: Result<(), u32>) {
        let k = player_key(pid);
        let mut player = match st.players.get(&k) {
            None => {
                return Err(ERROR_PLAYER_NOT_EXIST);
            },
            Some(p) => p,
        };
        match self {
            Activity::Vote(id) => {
                player.check_and_update_action_timestamp(counter, ACTION_DURATION)?;
                player.cost_ticket(1)?;
                player.increase_progress(counter, ACTION_REWARD);
                player.check_and_inc_nonce(nonce)?;
                let mk = meme_store_key(*id);
                let mut meme = match st.memes.get(&mk) {
                    None => {
                        return Err(INVALID_MEME_INDEX);
                    },
                    Some(m) => m,
                };
                if meme.rank == u64::MAX {
                    return Err(ERROR_OVERFLOW);
                }
                meme.rank = meme.rank + 1;
                st.memes.put(&mk, meme);
                st.players.put(&k, player);
                emit_meme_event(&mut st.events, *id, &meme);
                Ok(())
            },
            Activity::Stake(id, amount) => {
                player.check_and_inc_nonce(nonce)?;
                let amount: u64 = *amount;
                if amount == 0 {
                    return Err(ERROR_INVALID_OPERAND);
                }
                let mk = meme_store_key(*id);
                let mut meme = match st.memes.get(&mk) {
                    None => {
                        return Err(INVALID_MEME_INDEX);
                    },
                    Some(m) => m,
                };
                if player.balance < amount {
                    return Err(ERROR_NOT_ENOUGH_BALANCE);
                }
                let sk = position_store_key(pid, *id);
                let prev: u64 = match st.positions.get(&sk) {
                    None => 0,
                    Some(s) => s.amount,
                };
                if prev > u64::MAX - amount || meme.stake > u64::MAX - amount {
                    return Err(ERROR_OVERFLOW);
                }
                player.balance = player.balance - amount;
                meme.stake = meme.stake + amount;
                st.players.put(&k, player);
                st.memes.put(&mk, meme);
                let pos = StakeInfo { amount: prev + amount, opened_at: counter };
                st.positions.put(&sk, pos);
                emit_position_event(&mut st.events, pid, *id, &pos);
                emit_meme_event(&mut st.events, *id, &meme);
                Ok(())
            },
            Activity::Collect(id) => {
                player.check_and_inc_nonce(nonce)?;
                let sk = position_store_key(pid, *id);
                let pos = match st.positions.get(&sk) {
                    None => {
                        return Err(ERROR_NO_OPEN_POSITION);
                    },
                    Some(s) => s,
                };
                if pos.amount == 0 {
                    return Err(ERROR_NO_OPEN_POSITION);
                }
                let mk = meme_store_key(*id);
                let mut meme = match st.memes.get(&mk) {
                    None => {
                        return Err(INVALID_MEME_INDEX);
                    },
                    Some(m) => m,
                };
                let elapsed: u64 = if counter >= pos.opened_at {
                    counter - pos.opened_at
                } else {
                    0
                };
                let reward: u128 = stake_reward(pos.amount, elapsed, meme.rank);
                let payout: u128 = pos.amount as u128 + reward;
                if player.balance as u128 + payout > u64::MAX as u128 {
                    return Err(ERROR_OVERFLOW);
                }
                player.balance = (player.balance as u128 + payout) as u64;
                meme.stake = if meme.stake >= pos.amount {
                    meme.stake - pos.amount
                } else {
                    0
                };
                st.players.put(&k, player);
                st.memes.put(&mk, meme);
                let closed = StakeInfo { amount: 0, opened_at: 0 };
                st.positions.put(&sk, closed);
                emit_position_event(&mut st.events, pid, *id, &closed);
                emit_meme_event(&mut st.events, *id, &meme);
                Ok(())
            },
            Activity::Lottery => {
                if player.progress != PROGRESS_FULL {
                    return Err(PLAYER_LOTTERY_PROGRESS_NOT_FULL);
                }
                player.check_and_inc_nonce(nonce)?;
                player.action = 0;
                player.progress = 0;
                player.last_lottery_timestamp = 0;
                player.last_action_timestamp = 0;
                if (rand[1] & 0xff) > LOTTERY_THRESHOLD {
                    if player.lottery_info > u64::MAX - LOTTERY_REWARD {
                        return Err(ERROR_OVERFLOW);
                    }
                    player.lottery_info = player.lottery_info + LOTTERY_REWARD;
                } else {
                    if player.balance > u64::MAX - LOTTERY_REWARD {
                        return Err(ERROR_OVERFLOW);
                    }
                    player.balance = player.balance + LOTTERY_REWARD;
                }
                st.players.put(&k, player);
                Ok(())
            },
            Activity::Comment(_) => Err(ERROR_UNSUPPORTED_COMMAND),
        }
    }
}

} // verus!

verus! {

/// Maps an error code to its label; codes outside the table read "Unknown".
pub fn decode_error(e: u32) -> (r: &'static str)
    ensures
        r@ == error_label(e),
{
    if e == ERROR_PLAYER_NOT_EXIST {
        "PlayerNotExist"
    } else if e == ERROR_PLAYER_ALREADY_EXIST {
        "PlayerAlreadyExist"
    } else if e == ERROR_NOT_SELECTED_PLAYER {
        "PlayerNotSelected"
    } else if e == SELECTED_PLAYER_NOT_EXIST {
        "SelectedPlayerNotExist"
    } else if e == PLAYER_ACTION_NOT_FINISHED {
        "PlayerActionNotFinished"
    } else if e == PLAYER_LOTTERY_EXPIRED {
        "PlayerLotteryExpired"
    } else if e == PLAYER_LOTTERY_PROGRESS_NOT_FULL {
        "PlayerLotteryProgressNotFull"
    } else if e == PLAYER_NOT_ENOUGH_TICKET {
        "PlayerNotEnoughTicket"
    } else if e == INVALID_MEME_INDEX {
        "SpecifiedMemeIndexNotFound"
    } else if e == ERROR_NOT_ENOUGH_BALANCE {
        "NotEnoughBalance"
    } else if e == ERROR_INVALID_NONCE {
        "InvalidNonce"
    } else if e == ERROR_NO_OPEN_POSITION {
        "NoOpenPosition"
    } else if e == ERROR_INVALID_OPCODE {
        "InvalidOpcode"
    } else if e == ERROR_INVALID_OPERAND {
        "InvalidOperand"
    } else if e == ERROR_UNSUPPORTED_COMMAND {
        "UnsupportedCommand"
    } else if e == ERROR_OVERFLOW {
        "Overflow"
    } else if e == ERROR_UNAUTHORIZED {
        "Unauthorized"
    } else {
        "Unknown"
    }
}

} // verus!
