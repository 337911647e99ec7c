use vstd::prelude::*;
use crate::command::{withdraw_amount, Activity, Command};
use crate::config::{LOTTERY_REWARD, PROGRESS_FULL};
use crate::error::{ERROR_NOT_ENOUGH_BALANCE, PLAYER_LOTTERY_PROGRESS_NOT_FULL};
use crate::meme::{meme_key, position_key, stake_reward_spec};
use crate::player::{nonce_accepted, pid_key, pid_of};
use crate::state::{checkpoint_due, processed, record_words, GlobalState, Transaction};

verus! {

/// Whether `c` acts on the account of its submitter under a nonce.
pub open spec fn acts_on_account(c: Command) -> bool {
    c is Withdraw || c is WithdrawLottery || c is Deposit || c is Activity
}

/// An accepted command that acts on its submitter's account leaves that
/// account with a larger nonce; submitting the same command again is
/// rejected with a nonzero status and changes nothing.
pub proof fn lemma_nonce_advances(
    t: Transaction,
    pre: GlobalState,
    post: GlobalState,
    post2: GlobalState,
    pkey: Seq<u64>,
    rand: Seq<u64>,
    rand2: Seq<u64>,
    out: Vec<u64>,
    r2: Result<Vec<u64>, u32>,
)
    requires
        acts_on_account(t.command),
        processed(t, pre, post, pkey, rand, Ok(out)),
        out@[0] == 0,
        processed(t, post, post2, pkey, rand2, r2),
    ensures
        pre.players@.contains_key(pid_key(pid_of(pkey))),
        post.players@.contains_key(pid_key(pid_of(pkey))),
        post.players@[pid_key(pid_of(pkey))].nonce > pre.players@[pid_key(pid_of(pkey))].nonce,
        r2 is Ok,
        r2->Ok_0@[0] != 0,
        post2 == post,
{
}

/// A withdrawal that exceeds the funds it draws on is rejected with
/// `ERROR_NOT_ENOUGH_BALANCE` and leaves the state as it was.
pub proof fn lemma_overdraft_rejected(
    t: Transaction,
    pre: GlobalState,
    post: GlobalState,
    pkey: Seq<u64>,
    rand: Seq<u64>,
    r: Result<Vec<u64>, u32>,
)
    requires
        processed(t, pre, post, pkey, rand, r),
        pre.txsize < u64::MAX,
        pre.players@.contains_key(pid_key(pid_of(pkey))),
        nonce_accepted(pre.players@[pid_key(pid_of(pkey))].nonce, t.nonce),
        match t.command {
            Command::Withdraw(w) => withdraw_amount(w.data@[0])
                > pre.players@[pid_key(pid_of(pkey))].balance,
            Command::WithdrawLottery(w) => withdraw_amount(w.data@[0])
                > pre.players@[pid_key(pid_of(pkey))].lottery_info,
            _ => false,
        },
    ensures
        r is Ok,
        r->Ok_0@ == seq![ERROR_NOT_ENOUGH_BALANCE as u64, pre.txsize],
        post == pre,
{
}

/// Processing any command from a state whose accounts all hold progress
/// within `[0, PROGRESS_FULL]` keeps them there.
pub proof fn lemma_progress_in_range(
    t: Transaction,
    pre: GlobalState,
    post: GlobalState,
    pkey: Seq<u64>,
    rand: Seq<u64>,
    r: Result<Vec<u64>, u32>,
)
    requires
        pre.wf(),
        processed(t, pre, post, pkey, rand, r),
    ensures
        forall|k| #[trigger] post.players@.contains_key(k) ==> post.players@[k].progress
            <= PROGRESS_FULL,
{
    assert forall|k| #[trigger] post.players@.contains_key(k) implies post.players@[k].progress
        <= PROGRESS_FULL by {
        if pre.players@.contains_key(k) {
            assert(pre.players@[k].wf());
        }
    }
}

/// A lottery draw succeeds only from full progress. From any other progress
/// it fails with `PLAYER_LOTTERY_PROGRESS_NOT_FULL` and changes nothing; from
/// full progress, under the account's next nonce and with room for the
/// reward, it succeeds and resets progress to zero.
pub proof fn lemma_lottery_needs_full_progress(
    t: Transaction,
    pre: GlobalState,
    post: GlobalState,
    pkey: Seq<u64>,
    rand: Seq<u64>,
    r: Result<Vec<u64>, u32>,
)
    requires
        t.command == Command::Activity(Activity::Lottery),
        processed(t, pre, post, pkey, rand, r),
        pre.txsize < u64::MAX,
        pre.players@.contains_key(pid_key(pid_of(pkey))),
    ensures
        r is Ok,
        r->Ok_0@[0] == 0 ==> pre.players@[pid_key(pid_of(pkey))].progress == PROGRESS_FULL,
        pre.players@[pid_key(pid_of(pkey))].progress != PROGRESS_FULL ==> r->Ok_0@[0]
            == PLAYER_LOTTERY_PROGRESS_NOT_FULL as u64 && post == pre,
        ({
            let p = pre.players@[pid_key(pid_of(pkey))];
            p.progress == PROGRESS_FULL && nonce_accepted(p.nonce, t.nonce) && p.balance
                <= u64::MAX - LOTTERY_REWARD && p.lottery_info <= u64::MAX - LOTTERY_REWARD
        }) ==> r->Ok_0@[0] == 0 && post.players@[pid_key(pid_of(pkey))].progress == 0,
{
}

/// Opening a position and collecting it at once, with no tick between,
/// succeeds, pays back at least the principal and leaves no open position.
pub proof fn lemma_stake_then_collect(
    stake: Transaction,
    collect: Transaction,
    pre: GlobalState,
    mid: GlobalState,
    post: GlobalState,
    pkey: Seq<u64>,
    rand: Seq<u64>,
    out: Vec<u64>,
    r: Result<Vec<u64>, u32>,
    id: u64,
    amount: u64,
)
    requires
        stake.command == Command::Activity(Activity::Stake(id, amount)),
        collect.command == Command::Activity(Activity::Collect(id)),
        collect.nonce == stake.nonce + 1,
        !pre.positions@.contains_key(position_key(pid_of(pkey), id)),
        pre.txsize < u64::MAX - 1,
        processed(stake, pre, mid, pkey, rand, Ok(out)),
        out@[0] == 0,
        processed(collect, mid, post, pkey, rand, r),
    ensures
        r is Ok,
        r->Ok_0@[0] == 0,
        post.players@[pid_key(pid_of(pkey))].balance >= mid.players@[pid_key(
            pid_of(pkey),
        )].balance + amount,
        post.positions@[position_key(pid_of(pkey), id)].amount == 0,
{
    let pk = position_key(pid_of(pkey), id);
    let s = mid.positions@[pk];
    assert(s.amount == amount && s.opened_at == mid.counter);
    assert(stake_reward_spec(amount, 0, mid.memes@[meme_key(id)].rank) == 0) by (nonlinear_arith);
}

/// A checkpoint is due on every multiple of the interval, at the ceiling of
/// processed commands and above the ceiling of pending settlements, and not
/// when all three are just below.
pub proof fn lemma_checkpoint_thresholds(counter: u64, txsize: u64, queue_len: nat)
    ensures
        counter % 600 == 0 ==> checkpoint_due(counter, txsize, queue_len),
        txsize >= 300 ==> checkpoint_due(counter, txsize, queue_len),
        queue_len > 40 ==> checkpoint_due(counter, txsize, queue_len),
        counter % 600 != 0 && txsize <= 299 && queue_len <= 40 ==> !checkpoint_due(
            counter,
            txsize,
            queue_len,
        ),
{
}

/// Loading the persisted form of the global record gives back the counters
/// it was stored from.
pub proof fn lemma_record_round_trip(counter: u64, txsize: u64, airdrop: u64)
    ensures
        record_words(counter, txsize, airdrop).len() == 3,
        record_words(counter, txsize, airdrop)[0] == counter,
        record_words(counter, txsize, airdrop)[1] == txsize,
        record_words(counter, txsize, airdrop)[2] == airdrop,
{
}

} // verus!
