//! Trusted boundary to the Solana SDK.
//!
//! Instructions are opaque values here: the crate arranges them and proves
//! the arrangement, while the SDK builds their encoded contents. Each builder
//! call is wrapped once, and the wrapper's contract names the call's result,
//! which depends on the arguments alone.
use vstd::prelude::*;

verus! {

#[verifier::external_type_specification]
#[verifier::external_body]
pub struct ExInstruction(solana_sdk::instruction::Instruction);

/// A 32-byte account key in raw form, the crate's own view of an on-chain
/// address. The SDK's key type is only ever touched inside the wrappers.
#[derive(Clone, Copy, Debug)]
pub struct AccountKey {
    pub bytes: [u8; 32],
}

impl View for AccountKey {
    type V = Seq<u8>;

    open spec fn view(&self) -> Seq<u8> {
        self.bytes@
    }
}

/// The compute-unit-limit instruction for `units`.
pub uninterp spec fn cu_limit_ix_of(units: u32) -> solana_sdk::instruction::Instruction;

/// The compute-unit-price instruction for `micro_lamports` per unit.
pub uninterp spec fn cu_price_ix_of(micro_lamports: u64) -> solana_sdk::instruction::Instruction;

/// The system transfer instruction moving `lamports` from `from` to `to`.
pub uninterp spec fn transfer_ix_of(from: Seq<u8>, to: Seq<u8>, lamports: u64) -> solana_sdk::instruction::Instruction;

/// The 32 raw bytes a base58 string decodes to, or `None` when it does not
/// decode to exactly 32 bytes.
pub uninterp spec fn pubkey_of(s: Seq<char>) -> Option<Seq<u8>>;

/// Relies on `ComputeBudgetInstruction::set_compute_unit_limit`: the
/// returned instruction is a function of `units` alone.
#[verifier::external_body]
pub(crate) fn cu_limit_ix(units: u32) -> (r: solana_sdk::instruction::Instruction)
    ensures
        r == cu_limit_ix_of(units),
{
    solana_sdk::compute_budget::ComputeBudgetInstruction::set_compute_unit_limit(units)
}

/// Relies on `ComputeBudgetInstruction::set_compute_unit_price`: the
/// returned instruction is a function of `micro_lamports` alone.
#[verifier::external_body]
pub(crate) fn cu_price_ix(micro_lamports: u64) -> (r: solana_sdk::instruction::Instruction)
    ensures
        r == cu_price_ix_of(micro_lamports),
{
    solana_sdk::compute_budget::ComputeBudgetInstruction::set_compute_unit_price(micro_lamports)
}

/// Relies on `system_instruction::transfer` (and `Pubkey::new_from_array`
/// to convert the raw keys): the returned instruction is a function of the
/// two keys and the amount alone.
#[verifier::external_body]
pub(crate) fn transfer_ix(from: &AccountKey, to: &AccountKey, lamports: u64) -> (r:
    solana_sdk::instruction::Instruction)
    ensures
        r == transfer_ix_of(from@, to@, lamports),
{
    solana_sdk::system_instruction::transfer(
        &solana_sdk::pubkey::Pubkey::new_from_array(from.bytes),
        &solana_sdk::pubkey::Pubkey::new_from_array(to.bytes),
        lamports,
    )
}

/// Relies on `Pubkey::from_str` (base58 decoding, a function of the
/// characters alone; `Err` exactly when the string is not a 32-byte key)
/// and `Pubkey::to_bytes` to convert the result.
#[verifier::external_body]
pub(crate) fn parse_account_key(s: &str) -> (r: Option<AccountKey>)
    ensures
        match r {
            Some(k) => pubkey_of(s@) == Some(k@),
            None => pubkey_of(s@) is None,
        },
{
    match <solana_sdk::pubkey::Pubkey as core::str::FromStr>::from_str(s) {
        Ok(p) => Some(AccountKey { bytes: p.to_bytes() }),
        Err(_) => None,
    }
}

} // verus!
