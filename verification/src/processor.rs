//! What the program does with an instruction.

use solana_program::account_info::AccountInfo;
use solana_program::program_error::ProgramError;
use solana_program::pubkey::Pubkey;
use vstd::prelude::*;

verus! {

/// The line that the program writes to the log each time it is entered.
pub const ENTRYPOINT_MESSAGE: &'static str = "VeriDraws program entrypoint";

/// What the runtime is owed once an instruction has been processed.
#[derive(Debug, PartialEq, Eq)]
pub struct Outcome {
    /// The line to write to the program log.
    pub log: &'static str,
    /// What the entrypoint hands back to the runtime.
    pub result: Result<(), ProgramError>,
}

/// Processes one instruction sent to the program.
///
/// The program tells no instruction from another. Every call is answered alike,
/// whatever the program identifier, the accounts and the payload are: the entry is
/// logged and the instruction succeeds.
#[allow(unused_variables)]
pub fn process_instruction(
    program_id: &Pubkey,
    accounts: &[AccountInfo],
    instruction_data: &[u8],
) -> (outcome: Outcome)
    ensures
        outcome.log@ == ENTRYPOINT_MESSAGE@,
        outcome.result == Ok::<(), ProgramError>(()),
{
    Outcome { log: ENTRYPOINT_MESSAGE, result: Ok(()) }
}

} // verus!
