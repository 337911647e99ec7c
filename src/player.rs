use vstd::prelude::*;
use crate::config::{ACTION_VOTE, PROGRESS_FULL};
use crate::error::{ERROR_INVALID_NONCE, PLAYER_ACTION_NOT_FINISHED, PLAYER_NOT_ENOUGH_TICKET};
use crate::store::Key;

verus! {

/// The record of one account.
#[derive(Clone, Copy, Debug, PartialEq, Eq, Structural)]
pub struct PlayerData {
    pub nonce: u64,
    pub balance: u64,
    pub lottery_info: u64,
    pub ticket: u64,
    pub progress: u64,
    pub action: u64,
    pub last_action_timestamp: u64,
    pub last_lottery_timestamp: u64,
}

/// The nonce that the account holding `stored` accepts next, if any.
pub open spec fn nonce_accepted(stored: u64, nonce: u64) -> bool {
    stored < u64::MAX && nonce == stored + 1
}

/// Whether an account may act at `counter`: it has no pending action, or
/// `duration` ticks have passed since its last one.
pub open spec fn cooldown_elapsed(p: PlayerData, counter: u64, duration: u64) -> bool {
    p.action == 0 || counter >= p.last_action_timestamp + duration
}

/// The progress after a gain of `reward`, held at the maximum.
pub open spec fn progress_after(progress: u64, reward: u64) -> u64 {
    if progress + reward >= PROGRESS_FULL {
        PROGRESS_FULL
    } else {
        (progress + reward) as u64
    }
}

/// The account after a progress gain of `reward` at `counter`; the tick at
/// which progress becomes full is recorded as the start of lottery eligibility.
pub open spec fn progressed(p: PlayerData, counter: u64, reward: u64) -> PlayerData {
    PlayerData {
        progress: progress_after(p.progress, reward),
        last_lottery_timestamp: if p.progress < PROGRESS_FULL && progress_after(p.progress, reward)
            == PROGRESS_FULL {
            counter
        } else {
            p.last_lottery_timestamp
        },
        ..p
    }
}

/// The store key of the account with identifier `pid`.
pub open spec fn pid_key(pid: Seq<u64>) -> Key {
    Key { a: pid[0], b: pid[1], c: 0 }
}

/// The account identifier that belongs to a public key.
pub open spec fn pid_of(pkey: Seq<u64>) -> Seq<u64> {
    seq![pkey[1], pkey[2]]
}

/// The account identifier that belongs to a public key: its middle two words.
pub fn pkey_to_pid(pkey: &[u64; 4]) -> (r: [u64; 2])
    ensures
        r@ == pid_of(pkey@),
{
    let r = [pkey[1], pkey[2]];
    assert(r@ =~= pid_of(pkey@));
    r
}

/// The store key of an account.
pub fn player_key(pid: &[u64; 2]) -> (r: Key)
    ensures
        r == pid_key(pid@),
{
    Key { a: pid[0], b: pid[1], c: 0 }
}

impl PlayerData {
    pub open spec fn wf(&self) -> bool {
        self.progress <= PROGRESS_FULL
    }

    /// A fresh account holding `balance`.
    pub fn new(balance: u64) -> (r: Self)
        ensures
            r == (PlayerData {
                nonce: 0,
                balance,
                lottery_info: 0,
                ticket: 0,
                progress: 0,
                action: 0,
                last_action_timestamp: 0,
                last_lottery_timestamp: 0,
            }),
            r.wf(),
    {
        PlayerData {
            nonce: 0,
            balance,
            lottery_info: 0,
            ticket: 0,
            progress: 0,
            action: 0,
            last_action_timestamp: 0,
            last_lottery_timestamp: 0,
        }
    }

    /// Accepts `nonce` if it is the account's next one, and records it.
    pub fn check_and_inc_nonce(&mut self, nonce: u64) -> (r: Result<(), u32>)
        ensures
            r is Ok <==> nonce_accepted(old(self).nonce, nonce),
            r is Ok ==> *final(self) == (PlayerData { nonce, ..*old(self) }),
            r is Err ==> r == Err::<(), u32>(ERROR_INVALID_NONCE) && *final(self) == *old(self),
    {
        if self.nonce < u64::MAX && nonce == self.nonce + 1 {
            self.nonce = nonce;
            Ok(())
        } else {
            Err(ERROR_INVALID_NONCE)
        }
    }

    /// Starts an action at `counter` once the cooldown of `duration` ticks
    /// since the last one has passed.
    pub fn check_and_update_action_timestamp(&mut self, counter: u64, duration: u64) -> (r: Result<
        (),
        u32,
    >)
        ensures
            r is Ok <==> cooldown_elapsed(*old(self), counter, duration),
            r is Ok ==> *final(self) == (PlayerData {
                action: ACTION_VOTE,
                last_action_timestamp: counter,
                ..*old(self)
            }),
            r is Err ==> r == Err::<(), u32>(PLAYER_ACTION_NOT_FINISHED) && *final(self) == *old(
                self,
            ),
    {
        if self.action == 0 || counter as u128 >= self.last_action_timestamp as u128
            + duration as u128 {
            self.action = ACTION_VOTE;
            self.last_action_timestamp = counter;
            Ok(())
        } else {
            Err(PLAYER_ACTION_NOT_FINISHED)
        }
    }

    /// Spends `n` tickets.
    pub fn cost_ticket(&mut self, n: u64) -> (r: Result<(), u32>)
        ensures
            r is Ok <==> old(self).ticket >= n,
            r is Ok ==> *final(self) == (PlayerData {
                ticket: (old(self).ticket - n) as u64,
                ..*old(self)
            }),
            r is Err ==> r == Err::<(), u32>(PLAYER_NOT_ENOUGH_TICKET) && *final(self) == *old(
                self,
            ),
    {
        if self.ticket >= n {
            self.ticket = self.ticket - n;
            Ok(())
        } else {
            Err(PLAYER_NOT_ENOUGH_TICKET)
        }
    }

    /// Raises progress by `reward`, held at the maximum; the tick at which it
    /// becomes full is recorded as the start of lottery eligibility.
    pub fn increase_progress(&mut self, counter: u64, reward: u64)
        requires
            old(self).wf(),
        ensures
            final(self).wf(),
            *final(self) == progressed(*old(self), counter, reward),
    {
        if reward >= PROGRESS_FULL - self.progress {
            if self.progress < PROGRESS_FULL {
                self.last_lottery_timestamp = counter;
            }
            self.progress = PROGRESS_FULL;
        } else {
            self.progress = self.progress + reward;
        }
    }
}

} // verus!
