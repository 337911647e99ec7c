use vstd::prelude::*;
use crate::config::{
    is_admin, admin_key, AIRDROP_GRANT, CHECKPOINT_INTERVAL, INITIAL_AIRDROP,
    MAX_PENDING_SETTLEMENTS, MAX_TX_PER_CHECKPOINT,
};
use crate::meme::{emit_meme_event, meme_event, meme_key, meme_store_key, MemeInfo, StakeInfo};
use crate::player::{pid_key, player_key, PlayerData};
use crate::settlement::{queue_bytes, Settlement, SettlementInfo};
use crate::store::Table;
use crate::error::{
    ERROR_INVALID_OPCODE, ERROR_INVALID_OPERAND, ERROR_OVERFLOW, ERROR_PLAYER_ALREADY_EXIST,
    ERROR_UNAUTHORIZED,
};
use crate::player::{pid_of, pkey_to_pid};
use crate::command::{
    activity_status, decode_error, deposit_status, withdraw_amount, withdraw_status, Activity,
    Command, CommandHandler, Deposit, Withdraw, WithdrawLottery,
};
use crate::bytes::{words_le_bytes, words_to_le_bytes};
use crate::config::{SETTLEMENT_LOTTERY, SETTLEMENT_PRIMARY};

verus! {

/// The whole state of the ledger: the global counters, the account store and
/// the settlement queue, owned by the transaction processor.
pub struct GlobalState {
    /// The logical clock, advanced only by a tick.
    pub counter: u64,
    /// Commands processed since the last checkpoint.
    pub txsize: u64,
    /// Units left for grants to new accounts.
    pub airdrop: u64,
    pub players: Table<PlayerData>,
    pub memes: Table<MemeInfo>,
    pub positions: Table<StakeInfo>,
    pub settlements: SettlementInfo,
    /// The persisted form of the global record, as last stored.
    pub saved: Vec<u64>,
    /// Event words for external indexing, in order of emission.
    pub events: Vec<u64>,
}

/// The read-only view of the global counters.
#[derive(Clone, Copy, Debug, PartialEq, Eq, Structural)]
pub struct QueryState {
    pub counter: u64,
    pub airdrop: u64,
}

/// The persisted form of the global record.
pub open spec fn record_words(counter: u64, txsize: u64, airdrop: u64) -> Seq<u64> {
    seq![counter, txsize, airdrop]
}

/// Whether a checkpoint is due for these counters and queue length.
pub open spec fn checkpoint_due(counter: u64, txsize: u64, queue_len: nat) -> bool {
    counter % CHECKPOINT_INTERVAL == 0 || txsize >= MAX_TX_PER_CHECKPOINT || queue_len
        > MAX_PENDING_SETTLEMENTS
}

/// The two states agree on the global counters and the persisted record.
pub open spec fn same_counters(a: GlobalState, b: GlobalState) -> bool {
    &&& a.counter == b.counter
    &&& a.txsize == b.txsize
    &&& a.airdrop == b.airdrop
    &&& a.saved@ == b.saved@
}

/// The grant a new account receives from a pool of `airdrop`.
pub open spec fn airdrop_grant(airdrop: u64) -> u64 {
    if airdrop >= AIRDROP_GRANT {
        AIRDROP_GRANT
    } else {
        airdrop
    }
}

impl GlobalState {
    pub open spec fn wf(&self) -> bool {
        &&& self.players.wf()
        &&& self.memes.wf()
        &&& self.positions.wf()
        &&& forall|k| #[trigger] self.players@.contains_key(k) ==> self.players@[k].wf()
    }

    /// A fresh state: clock at zero, the full airdrop pool, an empty store.
    pub fn new() -> (r: Self)
        ensures
            r.wf(),
            r.counter == 0,
            r.txsize == 0,
            r.airdrop == INITIAL_AIRDROP,
            r.players@ == Map::<crate::store::Key, PlayerData>::empty(),
            r.memes@ == Map::<crate::store::Key, MemeInfo>::empty(),
            r.positions@ == Map::<crate::store::Key, StakeInfo>::empty(),
            r.settlements@ == Seq::<Settlement>::empty(),
            r.saved@ == Seq::<u64>::empty(),
            r.events@ == Seq::<u64>::empty(),
    {
        GlobalState {
            counter: 0,
            txsize: 0,
            airdrop: INITIAL_AIRDROP,
            players: Table::new(),
            memes: Table::new(),
            positions: Table::new(),
            settlements: SettlementInfo::new(),
            saved: Vec::new(),
            events: Vec::new(),
        }
    }

    /// The global counters for external queries.
    pub fn snapshot(&self) -> (r: QueryState)
        ensures
            r == (QueryState { counter: self.counter, airdrop: self.airdrop }),
    {
        QueryState { counter: self.counter, airdrop: self.airdrop }
    }

    /// The record of the account with identifier `pid`, if any.
    pub fn get_state(&self, pid: &[u64; 2]) -> (r: Option<PlayerData>)
        requires
            self.wf(),
        ensures
            r == (if self.players@.contains_key(pid_key(pid@)) {
                Some(self.players@[pid_key(pid@)])
            } else {
                None::<PlayerData>
            }),
    {
        self.players.get(&player_key(pid))
    }

    /// Whether a checkpoint is due: on every multiple of the checkpoint
    /// interval, once enough commands were processed, or once the settlement
    /// queue has grown too long.
    pub fn preempt(&self) -> (r: bool)
        ensures
            r == checkpoint_due(self.counter, self.txsize, self.settlements@.len()),
    {
        let counter: u64 = self.counter;
        let txsize: u64 = self.txsize;
        let withdraw_size: usize = self.settlements.settlement_size();
        counter % CHECKPOINT_INTERVAL == 0 || txsize >= MAX_TX_PER_CHECKPOINT || withdraw_size
            > MAX_PENDING_SETTLEMENTS
    }

    /// Drains the settlement queue into its wire form and starts a new
    /// checkpoint period.
    pub fn flush_settlement(&mut self) -> (r: Vec<u8>)
        requires
            old(self).wf(),
        ensures
            final(self).wf(),
            r@ == queue_bytes(old(self).settlements@),
            final(self).settlements@ == Seq::<Settlement>::empty(),
            final(self).txsize == 0,
            final(self).counter == old(self).counter,
            final(self).airdrop == old(self).airdrop,
            final(self).saved@ == old(self).saved@,
            final(self).players@ == old(self).players@,
            final(self).memes@ == old(self).memes@,
            final(self).positions@ == old(self).positions@,
            final(self).events@ == old(self).events@,
    {
        self.txsize = 0;
        self.settlements.flush_settlement()
    }

    /// The seed of the host's random values; this ledger asks for none.
    pub fn rand_seed() -> (r: u64)
        ensures
            r == 0,
    {
        0
    }

    /// The persisted form of the global record.
    pub fn store_into_kvpair(&self) -> (r: Vec<u64>)
        ensures
            r@ == record_words(self.counter, self.txsize, self.airdrop),
    {
        let mut v: Vec<u64> = Vec::new();
        v.push(self.counter);
        v.push(self.txsize);
        v.push(self.airdrop);
        assert(v@ =~= record_words(self.counter, self.txsize, self.airdrop));
        v
    }

    /// Loads the global counters from their persisted form; an empty record
    /// leaves them as they are.
    pub fn fetch(&mut self, data: &Vec<u64>)
        requires
            data@.len() == 0 || data@.len() == 3,
        ensures
            data@.len() == 0 ==> *final(self) == *old(self),
            data@.len() == 3 ==> *final(self) == (GlobalState {
                counter: data@[0],
                txsize: data@[1],
                airdrop: data@[2],
                ..*old(self)
            }),
    {
        if data.len() != 0 {
            self.counter = data[0];
            self.txsize = data[1];
            self.airdrop = data[2];
        }
    }

    /// Persists the global record.
    pub fn store(&mut self)
        requires
            old(self).wf(),
        ensures
            final(self).wf(),
            *final(self) == (GlobalState { saved: final(self).saved, ..*old(self) }),
            final(self).saved@ == record_words(old(self).counter, old(self).txsize, old(self).airdrop),
    {
        self.saved = self.store_into_kvpair();
    }

    /// Reloads the global counters from the persisted record, if one was
    /// stored.
    pub fn initialize(&mut self)
        requires
            old(self).saved@.len() == 0 || old(self).saved@.len() == 3,
        ensures
            old(self).saved@.len() == 0 ==> *final(self) == *old(self),
            old(self).saved@.len() == 3 ==> *final(self) == (GlobalState {
                counter: old(self).saved@[0],
                txsize: old(self).saved@[1],
                airdrop: old(self).saved@[2],
                ..*old(self)
            }),
    {
        let data = self.saved.clone();
        assert(data@ =~= self.saved@);
        self.fetch(&data);
    }

    /// Hands out the events emitted so far and starts a new list.
    pub fn take_events(&mut self) -> (r: Vec<u64>)
        requires
            old(self).wf(),
        ensures
            final(self).wf(),
            r@ == old(self).events@,
            final(self).events@ == Seq::<u64>::empty(),
            *final(self) == (GlobalState { events: final(self).events, ..*old(self) }),
    {
        let r = self.events.clone();
        assert(r@ =~= self.events@);
        self.events = Vec::new();
        r
    }

    /// The logical clock.
    pub fn get_counter(&self) -> (r: u64)
        ensures
            r == self.counter,
    {
        self.counter
    }
}

} // verus!

verus! {

pub const TICK: u64 = 0;
pub const INSTALL_PLAYER: u64 = 1;
pub const VOTE: u64 = 2;
pub const STAKE: u64 = 3;
pub const COLLECT: u64 = 4;
pub const COMMENT: u64 = 5;
pub const LOTTERY: u64 = 6;
pub const INSTALL_MEME: u64 = 7;
pub const WITHDRAW: u64 = 8;
pub const DEPOSIT: u64 = 9;
pub const WITHDRAW_LOTTERY: u64 = 10;

/// The opcode of a command: the low byte of its first word.
pub open spec fn opcode_of(params: Seq<u64>) -> u64 {
    params[0] & 0xff
}

/// The nonce of a command: its first word above the low sixteen bits.
pub open spec fn nonce_of(params: Seq<u64>) -> u64 {
    params[0] >> 16
}

/// The number of words a command with opcode `op` needs.
pub open spec fn command_len(op: u64) -> int {
    if op == WITHDRAW || op == DEPOSIT || op == WITHDRAW_LOTTERY {
        5
    } else if op == STAKE {
        3
    } else if op == INSTALL_MEME || op == VOTE || op == COLLECT {
        2
    } else {
        1
    }
}

/// Why `params` does not decode, or zero if it does.
pub open spec fn decode_status(params: Seq<u64>) -> u32 {
    if params.len() == 0 {
        ERROR_INVALID_OPERAND
    } else if opcode_of(params) > WITHDRAW_LOTTERY {
        ERROR_INVALID_OPCODE
    } else if params.len() < command_len(opcode_of(params)) {
        ERROR_INVALID_OPERAND
    } else if opcode_of(params) == DEPOSIT && params[3] != 0 {
        ERROR_INVALID_OPERAND
    } else {
        0
    }
}

/// Whether `c` is the command that the words `params` encode.
pub open spec fn decodes_to(c: Command, params: Seq<u64>) -> bool {
    let op: u64 = opcode_of(params);
    match c {
        Command::Withdraw(w) => op == WITHDRAW && w.data@ == params.subrange(2, 5),
        Command::WithdrawLottery(w) => op == WITHDRAW_LOTTERY && w.data@ == params.subrange(2, 5),
        Command::Deposit(d) => op == DEPOSIT && d.data@ == seq![params[1], params[2], params[4]],
        Command::InstallPlayer => op == INSTALL_PLAYER,
        Command::InstallMeme(id) => op == INSTALL_MEME && id == params[1],
        Command::Tick => op == TICK,
        Command::Activity(a) => match a {
            Activity::Vote(id) => op == VOTE && id == params[1],
            Activity::Stake(id, amount) => op == STAKE && id == params[1] && amount == params[2],
            Activity::Collect(id) => op == COLLECT && id == params[1],
            Activity::Comment(bytes) => op == COMMENT && bytes@ == words_le_bytes(
                params.subrange(1, params.len() as int),
            ),
            Activity::Lottery => op == LOTTERY,
        },
    }
}

/// Whether only the administrator may submit `c`.
pub open spec fn needs_admin(c: Command) -> bool {
    c is Tick || c is Deposit
}

/// The account a fresh installation creates, holding `balance`.
pub open spec fn fresh_player(balance: u64) -> PlayerData {
    PlayerData {
        nonce: 0,
        balance,
        lottery_info: 0,
        ticket: 0,
        progress: 0,
        action: 0,
        last_action_timestamp: 0,
        last_lottery_timestamp: 0,
    }
}

/// The status code of processing `t` from `pre`, submitted under `pkey`
/// with random words `rand`; zero is success.
pub open spec fn step_status(t: Transaction, pre: GlobalState, pkey: Seq<u64>, rand: Seq<u64>) -> u32 {
    let pid = pid_of(pkey);
    match t.command {
        Command::Tick => if pre.counter == u64::MAX {
            ERROR_OVERFLOW
        } else {
            0
        },
        _ => if pre.txsize == u64::MAX {
            ERROR_OVERFLOW
        } else {
            match t.command {
                Command::InstallPlayer => if pre.players@.contains_key(pid_key(pid)) {
                    ERROR_PLAYER_ALREADY_EXIST
                } else {
                    0
                },
                Command::InstallMeme(_) => 0,
                Command::Withdraw(w) => withdraw_status(
                    pre,
                    pid,
                    t.nonce,
                    withdraw_amount(w.data@[0]),
                    SETTLEMENT_PRIMARY,
                ),
                Command::WithdrawLottery(w) => withdraw_status(
                    pre,
                    pid,
                    t.nonce,
                    withdraw_amount(w.data@[0]),
                    SETTLEMENT_LOTTERY,
                ),
                Command::Deposit(d) => deposit_status(pre, pid, t.nonce, d.data),
                Command::Activity(a) => activity_status(a, pre, pid, t.nonce, rand, pre.counter),
                Command::Tick => 0,
            }
        },
    }
}

/// `post` and `r` are what processing `t` from `pre` gives.
///
/// An administrative command from another key is refused as fatal, with
/// the state untouched. Otherwise the result carries the status and the
/// processed-command count; a failed command changes nothing, a successful
/// one applies its effect and, unless it is a tick, counts itself.
pub open spec fn processed(
    t: Transaction,
    pre: GlobalState,
    post: GlobalState,
    pkey: Seq<u64>,
    rand: Seq<u64>,
    r: Result<Vec<u64>, u32>,
) -> bool {
    let pid = pid_of(pkey);
    let status: u32 = step_status(t, pre, pkey, rand);
    let counted = status == 0 && !(t.command is Tick);
    let handled = GlobalState { txsize: pre.txsize, ..post };
    if needs_admin(t.command) && pkey != admin_key() {
        r == Err::<Vec<u64>, u32>(ERROR_UNAUTHORIZED) && post == pre
    } else {
        &&& r is Ok
        &&& r->Ok_0@ == seq![status as u64, post.txsize]
        &&& post.txsize == if counted { (pre.txsize + 1) as u64 } else { pre.txsize }
        &&& status != 0 ==> post == pre
        &&& status == 0 ==> match t.command {
            Command::Tick => {
                &&& post == (GlobalState { counter: (pre.counter + 1) as u64, ..pre })
            },
            Command::InstallPlayer => {
                &&& post.players@ == pre.players@.insert(
                    pid_key(pid),
                    fresh_player(airdrop_grant(pre.airdrop)),
                )
                &&& post.airdrop == pre.airdrop - airdrop_grant(pre.airdrop)
                &&& post.counter == pre.counter
                &&& post.saved == pre.saved
                &&& post.memes == pre.memes
                &&& post.positions == pre.positions
                &&& post.settlements == pre.settlements
                &&& post.events == pre.events
            },
            Command::InstallMeme(id) => {
                &&& post.memes@ == pre.memes@.insert(meme_key(id), MemeInfo { rank: 0, stake: 0 })
                &&& post.events@ == pre.events@ + meme_event(id, MemeInfo { rank: 0, stake: 0 })
                &&& post.counter == pre.counter
                &&& post.airdrop == pre.airdrop
                &&& post.saved == pre.saved
                &&& post.players == pre.players
                &&& post.positions == pre.positions
                &&& post.settlements == pre.settlements
            },
            Command::Withdraw(w) => same_counters(pre, handled) && w.handled(
                pre,
                handled,
                pid,
                t.nonce,
                rand,
                pre.counter,
                Ok(()),
            ),
            Command::WithdrawLottery(w) => same_counters(pre, handled) && w.handled(
                pre,
                handled,
                pid,
                t.nonce,
                rand,
                pre.counter,
                Ok(()),
            ),
            Command::Deposit(d) => same_counters(pre, handled) && d.handled(
                pre,
                handled,
                pid,
                t.nonce,
                rand,
                pre.counter,
                Ok(()),
            ),
            Command::Activity(a) => same_counters(pre, handled) && a.handled(
                pre,
                handled,
                pid,
                t.nonce,
                rand,
                pre.counter,
                Ok(()),
            ),
        }
    }
}

/// A decoded command with the nonce it was submitted under.
pub struct Transaction {
    pub command: Command,
    pub nonce: u64,
}

impl Transaction {
    /// Maps an error code to its label.
    pub fn decode_error(e: u32) -> (r: &'static str)
        ensures
            r@ == crate::error::error_label(e),
    {
        decode_error(e)
    }

    /// Decodes a command from its words: the opcode in the low byte of the
    /// first word, the nonce above its low sixteen bits, the operands after.
    pub fn decode(params: &[u64]) -> (r: Result<Self, u32>)
        ensures
            match r {
                Ok(t) => decode_status(params@) == 0 && t.nonce == nonce_of(params@) && decodes_to(
                    t.command,
                    params@,
                ),
                Err(e) => decode_status(params@) != 0 && e == decode_status(params@),
            },
    {
        if params.len() == 0 {
            return Err(ERROR_INVALID_OPERAND);
        }
        let command: u64 = params[0] & 0xff;
        let nonce: u64 = params[0] >> 16;
        let needed: usize = if command == WITHDRAW || command == DEPOSIT || command
            == WITHDRAW_LOTTERY {
            5
        } else if command == STAKE {
            3
        } else if command == INSTALL_MEME || command == VOTE || command == COLLECT {
            2
        } else {
            1
        };
        if command > WITHDRAW_LOTTERY {
            return Err(ERROR_INVALID_OPCODE);
        }
        if params.len() < needed {
            return Err(ERROR_INVALID_OPERAND);
        }
        let command = if command == WITHDRAW {
            let data: [u64; 3] = [params[2], params[3], params[4]];
            assert(data@ =~= params@.subrange(2, 5));
            Command::Withdraw(Withdraw { data })
        } else if command == DEPOSIT {
            if params[3] != 0 {
                return Err(ERROR_INVALID_OPERAND);
            }
            let data: [u64; 3] = [params[1], params[2], params[4]];
            assert(data@ =~= seq![params@[1], params@[2], params@[4]]);
            Command::Deposit(Deposit { data })
        } else if command == WITHDRAW_LOTTERY {
            let data: [u64; 3] = [params[2], params[3], params[4]];
            assert(data@ =~= params@.subrange(2, 5));
            Command::WithdrawLottery(WithdrawLottery { data })
        } else if command == INSTALL_PLAYER {
            Command::InstallPlayer
        } else if command == INSTALL_MEME {
            Command::InstallMeme(params[1])
        } else if command == LOTTERY {
            Command::Activity(Activity::Lottery)
        } else if command == VOTE {
            Command::Activity(Activity::Vote(params[1]))
        } else if command == STAKE {
            Command::Activity(Activity::Stake(params[1], params[2]))
        } else if command == COLLECT {
            Command::Activity(Activity::Collect(params[1]))
        } else if command == COMMENT {
            let chars = words_to_le_bytes(params, 1);
            Command::Activity(Activity::Comment(chars))
        } else {
            Command::Tick
        };
        Ok(Transaction { command, nonce })
    }

    /// Installs an account for `pkey`, granting it what the airdrop pool can
    /// spare up to the fixed grant.
    pub fn create_player(&self, st: &mut GlobalState, pkey: &[u64; 4]) -> (r: Result<(), u32>)
        requires
            old(st).wf(),
        ensures
            final(st).wf(),
            r is Err <==> old(st).players@.contains_key(pid_key(pid_of(pkey@))),
            r is Err ==> r == Err::<(), u32>(ERROR_PLAYER_ALREADY_EXIST) && *final(st) == *old(st),
            r is Ok ==> {
                &&& final(st).players@ == old(st).players@.insert(
                    pid_key(pid_of(pkey@)),
                    fresh_player(airdrop_grant(old(st).airdrop)),
                )
                &&& final(st).airdrop == old(st).airdrop - airdrop_grant(old(st).airdrop)
                &&& final(st).counter == old(st).counter
                &&& final(st).txsize == old(st).txsize
                &&& final(st).saved == old(st).saved
                &&& final(st).memes == old(st).memes
                &&& final(st).positions == old(st).positions
                &&& final(st).settlements == old(st).settlements
                &&& final(st).events == old(st).events
            },
    {
        let pid = pkey_to_pid(pkey);
        let k = player_key(&pid);
        match st.players.get(&k) {
            Some(_) => Err(ERROR_PLAYER_ALREADY_EXIST),
            None => {
                let grant: u64 = if st.airdrop >= AIRDROP_GRANT {
                    AIRDROP_GRANT
                } else {
                    st.airdrop
                };
                st.airdrop = st.airdrop - grant;
                st.players.put(&k, PlayerData::new(grant));
                Ok(())
            },
        }
    }

    /// Installs asset `id` in its default state, over any earlier record.
    pub fn create_meme(&self, st: &mut GlobalState, id: u64) -> (r: Result<(), u32>)
        requires
            old(st).wf(),
        ensures
            final(st).wf(),
            r is Ok,
            final(st).memes@ == old(st).memes@.insert(meme_key(id), MemeInfo { rank: 0, stake: 0 }),
            final(st).events@ == old(st).events@ + meme_event(id, MemeInfo { rank: 0, stake: 0 }),
            *final(st) == (GlobalState { memes: final(st).memes, events: final(st).events, ..*old(st) }),
    {
        let meme = MemeInfo::new();
        st.memes.put(&meme_store_key(id), meme);
        emit_meme_event(&mut st.events, id, &meme);
        Ok(())
    }

    /// Advances the logical clock by one.
    pub fn tick(&self, st: &mut GlobalState)
        requires
            old(st).counter < u64::MAX,
        ensures
            *final(st) == (GlobalState { counter: (old(st).counter + 1) as u64, ..*old(st) }),
    {
        st.counter = st.counter + 1;
    }

    /// Counts one more processed command.
    pub fn inc_tx_number(&self, st: &mut GlobalState)
        requires
            old(st).txsize < u64::MAX,
        ensures
            *final(st) == (GlobalState { txsize: (old(st).txsize + 1) as u64, ..*old(st) }),
    {
        st.txsize = st.txsize + 1;
    }

    /// Applies the command, submitted under `pkey` with random words `rand`.
    ///
    /// Returns the status code and the processed-command count, or
    /// `Err(ERROR_UNAUTHORIZED)` when an administrative command comes from
    /// another key, which must halt processing.
    pub fn process(&self, st: &mut GlobalState, pkey: &[u64; 4], rand: &[u64; 4]) -> (r: Result<
        Vec<u64>,
        u32,
    >)
        requires
            old(st).wf(),
        ensures
            final(st).wf(),
            processed(*self, *old(st), *final(st), pkey@, rand@, r),
    {
        let pid = pkey_to_pid(pkey);
        let counter: u64 = st.counter;
        let admin = is_admin(pkey);
        let e: u32 = match &self.command {
            Command::Tick => {
                if !admin {
                    return Err(ERROR_UNAUTHORIZED);
                }
                if st.counter == u64::MAX {
                    ERROR_OVERFLOW
                } else {
                    self.tick(st);
                    0
                }
            },
            Command::Deposit(cmd) => {
                if !admin {
                    return Err(ERROR_UNAUTHORIZED);
                }
                if st.txsize == u64::MAX {
                    ERROR_OVERFLOW
                } else {
                    match cmd.handle(st, &pid, self.nonce, rand, counter) {
                        Ok(()) => 0,
                        Err(e) => e,
                    }
                }
            },
            _ => {
                if st.txsize == u64::MAX {
                    ERROR_OVERFLOW
                } else {
                    let res = match &self.command {
                        Command::InstallPlayer => self.create_player(st, pkey),
                        Command::InstallMeme(id) => self.create_meme(st, *id),
                        Command::Withdraw(cmd) => cmd.handle(st, &pid, self.nonce, rand, counter),
                        Command::WithdrawLottery(cmd) => cmd.handle(
                            st,
                            &pid,
                            self.nonce,
                            rand,
                            counter,
                        ),
                        Command::Activity(cmd) => cmd.handle(st, &pid, self.nonce, rand, counter),
                        _ => Ok(()),
                    };
                    match res {
                        Ok(()) => 0,
                        Err(e) => e,
                    }
                }
            },
        };
        let ghost mid = *st;
        assert(e == step_status(*self, *old(st), pkey@, rand@));
        assert(e != 0 ==> mid == *old(st));
        if e == 0 {
            match self.command {
                Command::Tick => {},
                _ => {
                    self.inc_tx_number(st);
                },
            }
        }
        let mut out: Vec<u64> = Vec::new();
        out.push(e as u64);
        out.push(st.txsize);
        assert(out@ =~= seq![e as u64, st.txsize]);
        assert(GlobalState { txsize: old(st).txsize, ..*st } == mid);
        Ok(out)
    }
}

} // verus!
