use vstd::prelude::*;

verus! {

/// The administrator's public key, word by word.
pub const ADMIN_PUBKEY_0: u64 = 0x8f6d_2b1c_4e3a_9d70;
pub const ADMIN_PUBKEY_1: u64 = 0x1a2b_3c4d_5e6f_7081;
pub const ADMIN_PUBKEY_2: u64 = 0x92a3_b4c5_d6e7_f809;
pub const ADMIN_PUBKEY_3: u64 = 0x0b1c_2d3e_4f50_6172;

/// Units in the airdrop pool of a fresh store.
pub const INITIAL_AIRDROP: u64 = 10000000;
/// Units granted from the airdrop pool to a new account.
pub const AIRDROP_GRANT: u64 = 50;
/// The progress at which a lottery draw becomes possible.
pub const PROGRESS_FULL: u64 = 1000;
/// Ticks that must pass between two actions of one account.
pub const ACTION_DURATION: u64 = 4;
/// Progress gained by one vote.
pub const ACTION_REWARD: u64 = 100;
/// The tag that records a vote as the account's last action.
pub const ACTION_VOTE: u64 = 1;
/// Units credited by a lottery draw.
pub const LOTTERY_REWARD: u64 = 10;
/// A random byte above this credits the lottery pool, else the balance.
pub const LOTTERY_THRESHOLD: u64 = 0xf0;
/// A checkpoint falls due on every multiple of this many ticks.
pub const CHECKPOINT_INTERVAL: u64 = 600;
/// A checkpoint falls due once this many commands were processed.
pub const MAX_TX_PER_CHECKPOINT: u64 = 300;
/// A checkpoint falls due once the settlement queue is longer than this.
pub const MAX_PENDING_SETTLEMENTS: usize = 40;
/// Staked units per unit of reward and tick.
pub const STAKE_REWARD_DIVISOR: u64 = 10000;
/// Ticks beyond this many accrue no further reward.
pub const MAX_ACCRUAL_TICKS: u64 = 10000;
/// Asset rank beyond this many votes raises the reward no further.
pub const MAX_RANK_BONUS: u64 = 9;
/// The class tag of a settlement paid from the primary balance.
pub const SETTLEMENT_PRIMARY: u64 = 0;
/// The class tag of a settlement paid from the lottery pool.
pub const SETTLEMENT_LOTTERY: u64 = 256;

pub open spec fn admin_key() -> Seq<u64> {
    seq![ADMIN_PUBKEY_0, ADMIN_PUBKEY_1, ADMIN_PUBKEY_2, ADMIN_PUBKEY_3]
}

/// Whether `pkey` is the administrator's key.
pub fn is_admin(pkey: &[u64; 4]) -> (r: bool)
    ensures
        r == (pkey@ == admin_key()),
{
    let r = pkey[0] == ADMIN_PUBKEY_0 && pkey[1] == ADMIN_PUBKEY_1 && pkey[2] == ADMIN_PUBKEY_2
        && pkey[3] == ADMIN_PUBKEY_3;
    assert(r ==> pkey@ =~= admin_key());
    r
}

} // verus!
