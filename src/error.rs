use vstd::prelude::*;

verus! {

/// The account named by the submitter or by the command does not exist.
pub const ERROR_PLAYER_NOT_EXIST: u32 = 1;
/// An account is being installed under an identity that already has one.
pub const ERROR_PLAYER_ALREADY_EXIST: u32 = 2;
/// Reserved: the submitter is not the selected player.
pub const ERROR_NOT_SELECTED_PLAYER: u32 = 3;
/// Reserved: the selected player does not exist.
pub const SELECTED_PLAYER_NOT_EXIST: u32 = 4;
/// The account's action cooldown has not elapsed yet.
pub const PLAYER_ACTION_NOT_FINISHED: u32 = 5;
/// Reserved: the lottery eligibility window has lapsed.
pub const PLAYER_LOTTERY_EXPIRED: u32 = 6;
/// A lottery draw was attempted before progress reached its maximum.
pub const PLAYER_LOTTERY_PROGRESS_NOT_FULL: u32 = 7;
/// The account holds no ticket to spend.
pub const PLAYER_NOT_ENOUGH_TICKET: u32 = 8;
/// The asset named by the command does not exist.
pub const INVALID_MEME_INDEX: u32 = 9;
/// A withdrawal or stake exceeds the funds available.
pub const ERROR_NOT_ENOUGH_BALANCE: u32 = 10;
/// The command's nonce is not the account's next nonce.
pub const ERROR_INVALID_NONCE: u32 = 11;
/// A collect names an asset on which the account holds no position.
pub const ERROR_NO_OPEN_POSITION: u32 = 12;
/// The opcode of a command matches no known command.
pub const ERROR_INVALID_OPCODE: u32 = 13;
/// An operand of a command is malformed or missing.
pub const ERROR_INVALID_OPERAND: u32 = 14;
/// The command decodes but has no effect defined for it.
pub const ERROR_UNSUPPORTED_COMMAND: u32 = 15;
/// A counter or an amount would leave the range of a 64-bit word.
pub const ERROR_OVERFLOW: u32 = 16;
/// An administrative command came from another identity (fatal).
pub const ERROR_UNAUTHORIZED: u32 = 17;

/// The human-readable label of an error code.
pub open spec fn error_label(e: u32) -> Seq<char> {
    if e == ERROR_PLAYER_NOT_EXIST {
        "PlayerNotExist"@
    } else if e == ERROR_PLAYER_ALREADY_EXIST {
        "PlayerAlreadyExist"@
    } else if e == ERROR_NOT_SELECTED_PLAYER {
        "PlayerNotSelected"@
    } else if e == SELECTED_PLAYER_NOT_EXIST {
        "SelectedPlayerNotExist"@
    } else if e == PLAYER_ACTION_NOT_FINISHED {
        "PlayerActionNotFinished"@
    } else if e == PLAYER_LOTTERY_EXPIRED {
        "PlayerLotteryExpired"@
    } else if e == PLAYER_LOTTERY_PROGRESS_NOT_FULL {
        "PlayerLotteryProgressNotFull"@
    } else if e == PLAYER_NOT_ENOUGH_TICKET {
        "PlayerNotEnoughTicket"@
    } else if e == INVALID_MEME_INDEX {
        "SpecifiedMemeIndexNotFound"@
    } else if e == ERROR_NOT_ENOUGH_BALANCE {
        "NotEnoughBalance"@
    } else if e == ERROR_INVALID_NONCE {
        "InvalidNonce"@
    } else if e == ERROR_NO_OPEN_POSITION {
        "NoOpenPosition"@
    } else if e == ERROR_INVALID_OPCODE {
        "InvalidOpcode"@
    } else if e == ERROR_INVALID_OPERAND {
        "InvalidOperand"@
    } else if e == ERROR_UNSUPPORTED_COMMAND {
        "UnsupportedCommand"@
    } else if e == ERROR_OVERFLOW {
        "Overflow"@
    } else if e == ERROR_UNAUTHORIZED {
        "Unauthorized"@
    } else {
        "Unknown"@
    }
}

} // verus!
