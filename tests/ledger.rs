use meme_ledger::command::{decode_error, Activity, Command};
use meme_ledger::config::{ADMIN_PUBKEY_0, ADMIN_PUBKEY_1, ADMIN_PUBKEY_2, ADMIN_PUBKEY_3};
use meme_ledger::error;
use meme_ledger::player::PlayerData;
use meme_ledger::state::{GlobalState, Transaction};
use meme_ledger::store::Key;

const ADMIN: [u64; 4] = [ADMIN_PUBKEY_0, ADMIN_PUBKEY_1, ADMIN_PUBKEY_2, ADMIN_PUBKEY_3];
const PLAYER: [u64; 4] = [0, 11, 12, 0];
const NO_RAND: [u64; 4] = [0, 0, 0, 0];

fn word0(opcode: u64, nonce: u64) -> u64 {
    (nonce << 16) | opcode
}

fn run(st: &mut GlobalState, params: &[u64], pkey: &[u64; 4], rand: &[u64; 4]) -> Vec<u64> {
    let t = Transaction::decode(params).expect("command decodes");
    t.process(st, pkey, rand).expect("command is authorized")
}

fn player(st: &GlobalState, pkey: &[u64; 4]) -> PlayerData {
    st.get_state(&[pkey[1], pkey[2]]).expect("account exists")
}

fn set_player(st: &mut GlobalState, pkey: &[u64; 4], data: PlayerData) {
    st.players.put(&Key { a: pkey[1], b: pkey[2], c: 0 }, data);
}

fn installed() -> GlobalState {
    let mut st = GlobalState::new();
    assert_eq!(run(&mut st, &[word0(1, 0)], &PLAYER, &NO_RAND), vec![0, 1]);
    st
}

#[test]
fn install_account_grants_airdrop() {
    let mut st = GlobalState::new();
    assert_eq!(st.airdrop, 10_000_000);
    assert_eq!(run(&mut st, &[word0(1, 0)], &PLAYER, &NO_RAND), vec![0, 1]);
    assert_eq!(player(&st, &PLAYER).balance, 50);
    assert_eq!(st.airdrop, 9_999_950);
    let again = run(&mut st, &[word0(1, 0)], &PLAYER, &NO_RAND);
    assert_eq!(again, vec![error::ERROR_PLAYER_ALREADY_EXIST as u64, 1]);
    assert_eq!(player(&st, &PLAYER).balance, 50);
    assert_eq!(st.airdrop, 9_999_950);
}

#[test]
fn install_account_drains_small_pool() {
    let mut st = GlobalState::new();
    st.airdrop = 30;
    run(&mut st, &[word0(1, 0)], &PLAYER, &NO_RAND);
    assert_eq!(player(&st, &PLAYER).balance, 30);
    assert_eq!(st.airdrop, 0);
    run(&mut st, &[word0(1, 0)], &ADMIN, &NO_RAND);
    assert_eq!(player(&st, &ADMIN).balance, 0);
}

#[test]
fn withdraw_then_replay() {
    let mut st = installed();
    let cmd = [word0(8, 1), 0, 30, 0xaa, 0xbb];
    assert_eq!(run(&mut st, &cmd, &PLAYER, &NO_RAND), vec![0, 2]);
    assert_eq!(player(&st, &PLAYER).balance, 20);
    assert_eq!(player(&st, &PLAYER).nonce, 1);
    assert_eq!(st.settlements.settlement_size(), 1);
    let replay = run(&mut st, &cmd, &PLAYER, &NO_RAND);
    assert_eq!(replay, vec![error::ERROR_INVALID_NONCE as u64, 2]);
    assert_eq!(player(&st, &PLAYER).balance, 20);
    assert_eq!(st.settlements.settlement_size(), 1);
    let bytes = st.flush_settlement();
    assert_eq!(bytes.len(), 32);
    assert_eq!(&bytes[0..8], &[30, 0, 0, 0, 0, 0, 0, 0]);
    assert_eq!(&bytes[8..16], &[0xaa, 0, 0, 0, 0, 0, 0, 0]);
    assert_eq!(&bytes[16..24], &[0xbb, 0, 0, 0, 0, 0, 0, 0]);
    assert_eq!(&bytes[24..32], &[0; 8]);
    assert_eq!(st.settlements.settlement_size(), 0);
    assert_eq!(st.txsize, 0);
}

#[test]
fn withdraw_amount_is_low_half_of_word() {
    let mut st = installed();
    let cmd = [word0(8, 1), 0, (7u64 << 32) | 5, 0, 0];
    assert_eq!(run(&mut st, &cmd, &PLAYER, &NO_RAND)[0], 0);
    assert_eq!(player(&st, &PLAYER).balance, 45);
}

#[test]
fn overdraft_is_rejected() {
    let mut st = installed();
    let before = player(&st, &PLAYER);
    let out = run(&mut st, &[word0(8, 1), 0, 51, 0, 0], &PLAYER, &NO_RAND);
    assert_eq!(out, vec![error::ERROR_NOT_ENOUGH_BALANCE as u64, 1]);
    assert_eq!(player(&st, &PLAYER), before);
    assert_eq!(st.settlements.settlement_size(), 0);
}

#[test]
fn withdraw_lottery_draws_on_pool() {
    let mut st = installed();
    let mut p = player(&st, &PLAYER);
    p.lottery_info = 15;
    set_player(&mut st, &PLAYER, p);
    let out = run(&mut st, &[word0(10, 1), 0, 20, 0, 0], &PLAYER, &NO_RAND);
    assert_eq!(out[0], error::ERROR_NOT_ENOUGH_BALANCE as u64);
    let out = run(&mut st, &[word0(10, 1), 0, 15, 0, 0], &PLAYER, &NO_RAND);
    assert_eq!(out[0], 0);
    let p = player(&st, &PLAYER);
    assert_eq!(p.lottery_info, 0);
    assert_eq!(p.balance, 50);
    let bytes = st.flush_settlement();
    assert_eq!(&bytes[24..32], &[0, 1, 0, 0, 0, 0, 0, 0]);
}

#[test]
fn withdraw_without_account() {
    let mut st = GlobalState::new();
    let out = run(&mut st, &[word0(8, 1), 0, 1, 0, 0], &PLAYER, &NO_RAND);
    assert_eq!(out, vec![error::ERROR_PLAYER_NOT_EXIST as u64, 0]);
}

#[test]
fn lottery_credits_pool_or_balance() {
    let mut st = installed();
    let mut p = player(&st, &PLAYER);
    p.progress = 1000;
    p.action = 1;
    p.last_action_timestamp = 3;
    set_player(&mut st, &PLAYER, p);
    let out = run(&mut st, &[word0(6, 1)], &PLAYER, &[0, 0xf1, 0, 0]);
    assert_eq!(out[0], 0);
    let p = player(&st, &PLAYER);
    assert_eq!(p.lottery_info, 10);
    assert_eq!(p.balance, 50);
    assert_eq!(p.progress, 0);
    assert_eq!(p.action, 0);
    assert_eq!(p.last_action_timestamp, 0);
    let again = run(&mut st, &[word0(6, 2)], &PLAYER, &[0, 0xf1, 0, 0]);
    assert_eq!(again[0], error::PLAYER_LOTTERY_PROGRESS_NOT_FULL as u64);

    let mut p = player(&st, &PLAYER);
    p.progress = 1000;
    set_player(&mut st, &PLAYER, p);
    let out = run(&mut st, &[word0(6, 2)], &PLAYER, &[0, 0x1f0, 0, 0]);
    assert_eq!(out[0], 0);
    let p = player(&st, &PLAYER);
    assert_eq!(p.balance, 60);
    assert_eq!(p.lottery_info, 10);
    assert_eq!(p.progress, 0);
    let again = run(&mut st, &[word0(6, 3)], &PLAYER, &NO_RAND);
    assert_eq!(again[0], error::PLAYER_LOTTERY_PROGRESS_NOT_FULL as u64);
}

#[test]
fn lottery_before_full_progress() {
    let mut st = installed();
    let mut p = player(&st, &PLAYER);
    p.progress = 999;
    set_player(&mut st, &PLAYER, p);
    let out = run(&mut st, &[word0(6, 1)], &PLAYER, &[0, 0xff, 0, 0]);
    assert_eq!(out, vec![error::PLAYER_LOTTERY_PROGRESS_NOT_FULL as u64, 1]);
    assert_eq!(player(&st, &PLAYER), p);
}

fn with_meme_and_tickets(tickets: u64) -> GlobalState {
    let mut st = installed();
    run(&mut st, &[word0(1, 0)], &ADMIN, &NO_RAND);
    assert_eq!(run(&mut st, &[word0(7, 0), 1], &PLAYER, &NO_RAND)[0], 0);
    let out = run(&mut st, &[word0(9, 1), PLAYER[1], PLAYER[2], 0, tickets], &ADMIN, &NO_RAND);
    assert_eq!(out[0], 0);
    st
}

#[test]
fn deposit_credits_tickets() {
    let st = with_meme_and_tickets(3);
    assert_eq!(player(&st, &PLAYER).ticket, 3);
    assert_eq!(player(&st, &ADMIN).nonce, 1);
    assert_eq!(player(&st, &PLAYER).nonce, 0);
}

#[test]
fn deposit_errors() {
    let mut st = installed();
    let cmd = [word0(9, 1), PLAYER[1], PLAYER[2], 0, 5];
    let out = run(&mut st, &cmd, &ADMIN, &NO_RAND);
    assert_eq!(out[0], error::ERROR_PLAYER_NOT_EXIST as u64);
    run(&mut st, &[word0(1, 0)], &ADMIN, &NO_RAND);
    let out = run(&mut st, &[word0(9, 1), 5, 6, 0, 5], &ADMIN, &NO_RAND);
    assert_eq!(out[0], error::ERROR_PLAYER_NOT_EXIST as u64);
    assert_eq!(player(&st, &ADMIN).nonce, 0);
    let t = Transaction::decode(&cmd).unwrap();
    assert_eq!(t.process(&mut st, &PLAYER, &NO_RAND), Err(error::ERROR_UNAUTHORIZED));
}

#[test]
fn vote_spends_ticket_and_ranks_meme() {
    let mut st = with_meme_and_tickets(2);
    assert_eq!(run(&mut st, &[word0(2, 1), 1], &PLAYER, &NO_RAND)[0], 0);
    let p = player(&st, &PLAYER);
    assert_eq!(p.ticket, 1);
    assert_eq!(p.progress, 100);
    assert_eq!(p.nonce, 1);
    assert_eq!(p.action, 1);
    let out = run(&mut st, &[word0(2, 2), 1], &PLAYER, &NO_RAND);
    assert_eq!(out[0], error::PLAYER_ACTION_NOT_FINISHED as u64);
    for _ in 0..4 {
        assert_eq!(run(&mut st, &[word0(0, 0)], &ADMIN, &NO_RAND)[0], 0);
    }
    assert_eq!(run(&mut st, &[word0(2, 2), 1], &PLAYER, &NO_RAND)[0], 0);
    let out = run(&mut st, &[word0(2, 3), 1], &PLAYER, &NO_RAND);
    assert_eq!(out[0], error::PLAYER_ACTION_NOT_FINISHED as u64);
}

#[test]
fn vote_errors() {
    let mut st = with_meme_and_tickets(0);
    let out = run(&mut st, &[word0(2, 1), 1], &PLAYER, &NO_RAND);
    assert_eq!(out[0], error::PLAYER_NOT_ENOUGH_TICKET as u64);
    let mut st = with_meme_and_tickets(1);
    let out = run(&mut st, &[word0(2, 1), 9], &PLAYER, &NO_RAND);
    assert_eq!(out[0], error::INVALID_MEME_INDEX as u64);
    assert_eq!(player(&st, &PLAYER).ticket, 1);
}

#[test]
fn progress_is_clamped() {
    let mut st = with_meme_and_tickets(20);
    for n in 1..=12u64 {
        assert_eq!(run(&mut st, &[word0(2, n), 1], &PLAYER, &NO_RAND)[0], 0);
        for _ in 0..4 {
            run(&mut st, &[word0(0, 0)], &ADMIN, &NO_RAND);
        }
    }
    let p = player(&st, &PLAYER);
    assert_eq!(p.progress, 1000);
    assert_eq!(p.ticket, 8);
    assert_eq!(p.last_lottery_timestamp, 36);
}

#[test]
fn stake_then_collect_at_once() {
    let mut st = with_meme_and_tickets(0);
    assert_eq!(run(&mut st, &[word0(3, 1), 1, 20], &PLAYER, &NO_RAND)[0], 0);
    assert_eq!(player(&st, &PLAYER).balance, 30);
    assert_eq!(run(&mut st, &[word0(4, 2), 1], &PLAYER, &NO_RAND)[0], 0);
    assert_eq!(player(&st, &PLAYER).balance, 50);
    let out = run(&mut st, &[word0(4, 3), 1], &PLAYER, &NO_RAND);
    assert_eq!(out[0], error::ERROR_NO_OPEN_POSITION as u64);
}

#[test]
fn collect_pays_accrued_reward() {
    let mut st = with_meme_and_tickets(1);
    let mut p = player(&st, &PLAYER);
    p.balance = 100_000;
    set_player(&mut st, &PLAYER, p);
    assert_eq!(run(&mut st, &[word0(2, 1), 1], &PLAYER, &NO_RAND)[0], 0);
    assert_eq!(run(&mut st, &[word0(3, 2), 1, 100_000], &PLAYER, &NO_RAND)[0], 0);
    assert_eq!(player(&st, &PLAYER).balance, 0);
    for _ in 0..5 {
        run(&mut st, &[word0(0, 0)], &ADMIN, &NO_RAND);
    }
    assert_eq!(run(&mut st, &[word0(4, 3), 1], &PLAYER, &NO_RAND)[0], 0);
    // (100_000 / 10_000) units * 5 ticks * (1 + rank 1)
    assert_eq!(player(&st, &PLAYER).balance, 100_100);
}

#[test]
fn restake_resets_accrual() {
    let mut st = with_meme_and_tickets(0);
    let mut p = player(&st, &PLAYER);
    p.balance = 30_000;
    set_player(&mut st, &PLAYER, p);
    assert_eq!(run(&mut st, &[word0(3, 1), 1, 10_000], &PLAYER, &NO_RAND)[0], 0);
    for _ in 0..3 {
        run(&mut st, &[word0(0, 0)], &ADMIN, &NO_RAND);
    }
    assert_eq!(run(&mut st, &[word0(3, 2), 1, 10_000], &PLAYER, &NO_RAND)[0], 0);
    run(&mut st, &[word0(0, 0)], &ADMIN, &NO_RAND);
    assert_eq!(run(&mut st, &[word0(4, 3), 1], &PLAYER, &NO_RAND)[0], 0);
    // 2 units * 1 tick since the top-up * (1 + rank 0)
    assert_eq!(player(&st, &PLAYER).balance, 30_002);
}

#[test]
fn stake_errors() {
    let mut st = with_meme_and_tickets(0);
    let out = run(&mut st, &[word0(3, 1), 1, 51], &PLAYER, &NO_RAND);
    assert_eq!(out[0], error::ERROR_NOT_ENOUGH_BALANCE as u64);
    let out = run(&mut st, &[word0(3, 1), 1, 0], &PLAYER, &NO_RAND);
    assert_eq!(out[0], error::ERROR_INVALID_OPERAND as u64);
    let out = run(&mut st, &[word0(3, 1), 4, 10], &PLAYER, &NO_RAND);
    assert_eq!(out[0], error::INVALID_MEME_INDEX as u64);
    assert_eq!(player(&st, &PLAYER).nonce, 0);
}

#[test]
fn tick_needs_admin() {
    let mut st = GlobalState::new();
    let t = Transaction::decode(&[word0(0, 0)]).unwrap();
    assert_eq!(t.process(&mut st, &PLAYER, &NO_RAND), Err(error::ERROR_UNAUTHORIZED));
    assert_eq!(st.get_counter(), 0);
    assert_eq!(t.process(&mut st, &ADMIN, &NO_RAND), Ok(vec![0, 0]));
    assert_eq!(st.get_counter(), 1);
}

#[test]
fn checkpoint_policy() {
    let mut st = GlobalState::new();
    assert!(st.preempt());
    st.counter = 599;
    st.txsize = 299;
    assert!(!st.preempt());
    st.counter = 600;
    assert!(st.preempt());
    st.counter = 1201;
    st.txsize = 300;
    assert!(st.preempt());
    st.txsize = 0;
    let mut p = PlayerData::new(1000);
    p.nonce = 0;
    set_player(&mut st, &PLAYER, p);
    for n in 1..=40u64 {
        run(&mut st, &[word0(8, n), 0, 1, 0, 0], &PLAYER, &NO_RAND);
    }
    assert_eq!(st.settlements.settlement_size(), 40);
    assert!(!st.preempt());
    run(&mut st, &[word0(8, 41), 0, 1, 0, 0], &PLAYER, &NO_RAND);
    assert!(st.preempt());
}

#[test]
fn decode_commands() {
    let t = Transaction::decode(&[word0(3, 7), 4, 99]).unwrap();
    assert_eq!(t.nonce, 7);
    assert!(matches!(t.command, Command::Activity(Activity::Stake(4, 99))));
    let t = Transaction::decode(&[word0(9, 2), 1, 2, 0, 5]).unwrap();
    match t.command {
        Command::Deposit(d) => assert_eq!(d.data, [1, 2, 5]),
        _ => panic!("deposit expected"),
    }
    let t = Transaction::decode(&[word0(5, 1), 0x0102, 0xff]).unwrap();
    match t.command {
        Command::Activity(Activity::Comment(b)) => {
            assert_eq!(b, vec![2, 1, 0, 0, 0, 0, 0, 0, 0xff, 0, 0, 0, 0, 0, 0, 0])
        }
        _ => panic!("comment expected"),
    }
    assert!(matches!(Transaction::decode(&[word0(0, 0)]).unwrap().command, Command::Tick));
}

#[test]
fn decode_rejects_bad_input() {
    assert_eq!(Transaction::decode(&[word0(11, 0)]).err(), Some(error::ERROR_INVALID_OPCODE));
    assert_eq!(Transaction::decode(&[0xff]).err(), Some(error::ERROR_INVALID_OPCODE));
    assert_eq!(Transaction::decode(&[]).err(), Some(error::ERROR_INVALID_OPERAND));
    assert_eq!(Transaction::decode(&[word0(8, 1), 0, 1]).err(), Some(error::ERROR_INVALID_OPERAND));
    let bad_deposit = [word0(9, 1), 1, 2, 3, 5];
    assert_eq!(Transaction::decode(&bad_deposit).err(), Some(error::ERROR_INVALID_OPERAND));
}

#[test]
fn comment_is_unsupported() {
    let mut st = installed();
    let out = run(&mut st, &[word0(5, 1), 0x41], &PLAYER, &NO_RAND);
    assert_eq!(out, vec![error::ERROR_UNSUPPORTED_COMMAND as u64, 1]);
}

#[test]
fn error_labels() {
    assert_eq!(decode_error(error::ERROR_PLAYER_NOT_EXIST), "PlayerNotExist");
    assert_eq!(decode_error(error::PLAYER_LOTTERY_PROGRESS_NOT_FULL), "PlayerLotteryProgressNotFull");
    assert_eq!(Transaction::decode_error(error::INVALID_MEME_INDEX), "SpecifiedMemeIndexNotFound");
    assert_eq!(decode_error(999), "Unknown");
}

#[test]
fn store_and_initialize_round_trip() {
    let mut st = GlobalState::new();
    st.counter = 7;
    st.txsize = 3;
    st.airdrop = 100;
    assert_eq!(st.store_into_kvpair(), vec![7, 3, 100]);
    st.initialize();
    assert_eq!(st.counter, 7);
    st.store();
    st.counter = 8;
    st.airdrop = 0;
    st.initialize();
    assert_eq!((st.counter, st.txsize, st.airdrop), (7, 3, 100));
    let mut fresh = GlobalState::new();
    fresh.fetch(&vec![1, 2, 3]);
    assert_eq!((fresh.counter, fresh.txsize, fresh.airdrop), (1, 2, 3));
    assert_eq!(GlobalState::rand_seed(), 0);
}

#[test]
fn snapshot_reports_counters() {
    let st = installed();
    let q = st.snapshot();
    assert_eq!(q.counter, 0);
    assert_eq!(q.airdrop, 9_999_950);
}

#[test]
fn stake_and_collect_emit_events() {
    let mut st = with_meme_and_tickets(0);
    let installed_meme = st.take_events();
    assert_eq!(installed_meme, vec![1, 1, 0, 0]);
    run(&mut st, &[word0(3, 1), 1, 20], &PLAYER, &NO_RAND);
    assert_eq!(st.take_events(), vec![2, 11, 12, 1, 20, 0, 1, 1, 0, 20]);
    run(&mut st, &[word0(4, 2), 1], &PLAYER, &NO_RAND);
    assert_eq!(st.take_events(), vec![2, 11, 12, 1, 0, 0, 1, 1, 0, 0]);
    assert!(st.take_events().is_empty());
}
