//! Tip instruction building.
//!
//! A tip configuration becomes an ordered instruction list: the optional
//! compute-unit limit first, then the optional compute-unit price, then the
//! caller's own instructions unchanged, and the tip transfer always last.
//! The transferred amount is never below the provider's floor.
use vstd::prelude::*;

use crate::solana::{
    cu_limit_ix, cu_limit_ix_of, cu_price_ix, cu_price_ix_of, transfer_ix, transfer_ix_of,
    AccountKey,
};

verus! {

/// A tip configuration: who pays, which entry of the provider's tip-address
/// table receives, how much is offered, the optional compute budget, and the
/// caller's own instructions. Amounts are in lamports, the smallest unit.
pub struct Tips {
    pub payer: AccountKey,
    pub tip_addr_idx: usize,
    pub tip_lamports: u64,
    pub cu: Option<u32>,
    pub priority_fee_micro_lamport: Option<u64>,
    pub pure_ix: Vec<solana_sdk::instruction::Instruction>,
}

/// The amount actually transferred: the requested tip, raised to the
/// provider's floor when it falls below it.
pub open spec fn effective_tip(requested: u64, floor: u64) -> u64 {
    if requested >= floor {
        requested
    } else {
        floor
    }
}

/// The exact instruction list a tip configuration produces, given the
/// provider's tip floor and the resolved recipient key: optional
/// compute-unit limit, optional compute-unit price, the caller's
/// instructions in order, and the tip transfer last.
pub open spec fn tip_ixs_spec(cfg: Tips, floor: u64, recipient: Seq<u8>) -> Seq<
    solana_sdk::instruction::Instruction,
> {
    (match cfg.cu {
        Some(units) => seq![cu_limit_ix_of(units)],
        None => Seq::empty(),
    }) + (match cfg.priority_fee_micro_lamport {
        Some(p) => seq![cu_price_ix_of(p)],
        None => Seq::empty(),
    }) + cfg.pure_ix@ + seq![
        transfer_ix_of(cfg.payer@, recipient, effective_tip(cfg.tip_lamports, floor)),
    ]
}

/// Builds the instruction list for `cfg` with the given tip floor and an
/// already-resolved recipient key. This is the whole tip-building decision;
/// resolving the recipient from a provider's table is the caller's step.
pub fn build_tip_ixs(cfg: Tips, floor: u64, recipient: &AccountKey) -> (r: Vec<
    solana_sdk::instruction::Instruction,
>)
    ensures
        r@ == tip_ixs_spec(cfg, floor, recipient@),
{
    let Tips { payer, tip_addr_idx: _, tip_lamports, cu, priority_fee_micro_lamport, mut pure_ix } =
        cfg;
    let mut ixs: Vec<solana_sdk::instruction::Instruction> = Vec::new();
    if let Some(units) = cu {
        ixs.push(cu_limit_ix(units));
    }
    if let Some(p) = priority_fee_micro_lamport {
        ixs.push(cu_price_ix(p));
    }
    ixs.append(&mut pure_ix);
    let fee: u64 = if tip_lamports >= floor {
        tip_lamports
    } else {
        floor
    };
    ixs.push(transfer_ix(&payer, recipient, fee));
    proof {
        assert(ixs@ =~= tip_ixs_spec(cfg, floor, recipient@));
    }
    ixs
}

/// The compute-unit-limit instruction stands first exactly when a limit is
/// configured; with no limit configured, the list opens with the optional
/// price instruction, the caller's instructions and the transfer — the
/// builder adds no limit instruction of its own.
pub proof fn lemma_cu_limit_placement(cfg: Tips, floor: u64, recipient: Seq<u8>)
    ensures
        cfg.cu matches Some(units) ==> tip_ixs_spec(cfg, floor, recipient)[0] == cu_limit_ix_of(
            units,
        ),
        cfg.cu is None ==> tip_ixs_spec(cfg, floor, recipient) == (match cfg
            .priority_fee_micro_lamport {
            Some(p) => seq![cu_price_ix_of(p)],
            None => Seq::empty(),
        }) + cfg.pure_ix@ + seq![
            transfer_ix_of(cfg.payer@, recipient, effective_tip(cfg.tip_lamports, floor)),
        ],
{
}

/// The tip transfer stands last in every built list, its amount never below
/// the provider's floor; every instruction the builder adds before it is a
/// compute-budget instruction or one of the caller's own.
pub proof fn lemma_tip_transfer_last(cfg: Tips, floor: u64, recipient: Seq<u8>)
    ensures
        tip_ixs_spec(cfg, floor, recipient).len() > 0,
        tip_ixs_spec(cfg, floor, recipient).last() == transfer_ix_of(
            cfg.payer@,
            recipient,
            effective_tip(cfg.tip_lamports, floor),
        ),
        effective_tip(cfg.tip_lamports, floor) >= floor,
{
}

} // verus!
