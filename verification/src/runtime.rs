//! The Solana runtime's types that cross the entrypoint.
//!
//! Each is declared opaque: a value can be taken, held and handed on, and nothing is
//! assumed of what it holds.

use vstd::prelude::*;

verus! {

/// `solana_program::pubkey::Pubkey`, the SDK's `Address` under its earlier name: the
/// address of a program or of an account.
#[verifier::external_type_specification]
#[verifier::external_body]
pub struct ExPubkey(solana_program::pubkey::Pubkey);

/// `solana_program::account_info::AccountInfo`: the runtime's handle on one account
/// that an instruction names.
#[verifier::external_type_specification]
#[verifier::external_body]
pub struct ExAccountInfo<'a>(solana_program::account_info::AccountInfo<'a>);

/// `solana_program::program_error::ProgramError`: the reasons for which a program may
/// fail an instruction.
#[verifier::external_type_specification]
#[verifier::external_body]
pub struct ExProgramError(solana_program::program_error::ProgramError);

} // verus!
