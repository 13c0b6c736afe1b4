use crate::pubkey::Pubkey;
use anchor_lang::solana_program::instruction::Instruction;
use vstd::prelude::*;

verus! {

/// `Instruction` of `solana-instruction`: a call on a program, ready for the
/// host. The core hands it on and never looks inside.
#[verifier::external_type_specification]
#[verifier::external_body]
pub struct ExInstruction(Instruction);

/// The instruction that `system_instruction::transfer` of `solana-program`
/// builds for these two accounts and this amount.
pub uninterp spec fn system_transfer(from: Pubkey, to: Pubkey, lamports: u64) -> Instruction;

/// Calls `anchor_lang::solana_program::system_instruction::transfer`.
///
/// Believed, not proved: the instruction depends on the two keys and the
/// amount alone, so it is the value that [`system_transfer`] names.
#[verifier::external_body]
pub(crate) fn transfer(from: &Pubkey, to: &Pubkey, lamports: u64) -> (instruction: Instruction)
    ensures
        instruction == system_transfer(*from, *to, lamports),
{
    anchor_lang::solana_program::system_instruction::transfer(
        &anchor_lang::prelude::Pubkey::new_from_array(from.bytes),
        &anchor_lang::prelude::Pubkey::new_from_array(to.bytes),
        lamports,
    )
}

} // verus!
