//! Instruction ordering for the transaction-encoder boundary.
//!
//! The encoder capability (signing and wire serialization) lives outside
//! this crate, but the order it must receive instructions in is a decision:
//! a durable-nonce advance, when present, must execute before any other
//! instruction, so it is placed first.
use vstd::prelude::*;

verus! {

/// The instruction order handed to the encoder: the nonce-advance
/// instruction first when one is supplied, then the caller's instructions
/// unchanged.
pub open spec fn assembled_ixs_spec(
    nonce_ix: Option<solana_sdk::instruction::Instruction>,
    ixs: Seq<solana_sdk::instruction::Instruction>,
) -> Seq<solana_sdk::instruction::Instruction> {
    match nonce_ix {
        Some(n) => seq![n] + ixs,
        None => ixs,
    }
}

/// Orders the instruction list for encoding, nonce-advance first.
pub fn assemble_ixs(
    nonce_ix: Option<solana_sdk::instruction::Instruction>,
    ixs: Vec<solana_sdk::instruction::Instruction>,
) -> (r: Vec<solana_sdk::instruction::Instruction>)
    ensures
        r@ == assembled_ixs_spec(nonce_ix, ixs@),
{
    match nonce_ix {
        Some(n) => {
            let mut rest = ixs;
            let mut r: Vec<solana_sdk::instruction::Instruction> = Vec::new();
            r.push(n);
            r.append(&mut rest);
            proof {
                assert(r@ =~= assembled_ixs_spec(nonce_ix, ixs@));
            }
            r
        },
        None => ixs,
    }
}

} // verus!
