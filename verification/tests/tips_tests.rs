use std::str::FromStr;

use relay_confirm::client::Helius;
use relay_confirm::client::NextBlock;
use relay_confirm::client::HELIUS_MIN_TIP;
use relay_confirm::client::NEXTBLOCK_MIN_TIP;
use relay_confirm::regions::HeliusRegionsType;
use relay_confirm::regions::NextBlockRegionsType;
use relay_confirm::solana::AccountKey;
use relay_confirm::tips::build_tip_ixs;
use relay_confirm::tips::Tips;
use solana_sdk::compute_budget::ComputeBudgetInstruction;
use solana_sdk::pubkey::Pubkey;
use solana_sdk::system_instruction;

fn payer_key() -> AccountKey {
    AccountKey { bytes: [7u8; 32] }
}

fn payer_pubkey() -> Pubkey {
    Pubkey::new_from_array([7u8; 32])
}

#[test]
fn tip_transfer_is_last_and_floor_applies() {
    // Requested 10,000 lamports (0.00001 SOL) against a floor of 100,000
    // (0.0001 SOL): the floor is transferred, not the smaller request.
    let client = Helius::new_with_region(HeliusRegionsType::London).unwrap();
    let cfg = Tips {
        payer: payer_key(),
        tip_addr_idx: 0,
        tip_lamports: 10_000,
        cu: None,
        priority_fee_micro_lamport: None,
        pure_ix: Vec::new(),
    };
    let ixs = client.add_tip_ix(cfg).unwrap();
    let recipient = Pubkey::from_str("1111111111111111111111111111111A").unwrap();
    let expected = system_instruction::transfer(&payer_pubkey(), &recipient, HELIUS_MIN_TIP);
    assert_eq!(ixs.len(), 1);
    assert_eq!(ixs[0], expected);
}

#[test]
fn requested_tip_above_floor_is_kept() {
    let client = Helius::new_with_region(HeliusRegionsType::London).unwrap();
    let cfg = Tips {
        payer: payer_key(),
        tip_addr_idx: 1,
        tip_lamports: 250_000,
        cu: None,
        priority_fee_micro_lamport: None,
        pure_ix: Vec::new(),
    };
    let ixs = client.add_tip_ix(cfg).unwrap();
    let recipient = Pubkey::from_str("1111111111111111111111111111111B").unwrap();
    let expected = system_instruction::transfer(&payer_pubkey(), &recipient, 250_000);
    assert_eq!(ixs, vec![expected]);
}

#[test]
fn full_ordering_limit_price_callers_transfer() {
    let client = Helius::new_with_region(HeliusRegionsType::London).unwrap();
    let caller_ix =
        system_instruction::transfer(&payer_pubkey(), &Pubkey::new_from_array([9u8; 32]), 1);
    let cfg = Tips {
        payer: payer_key(),
        tip_addr_idx: 0,
        tip_lamports: 200_000,
        cu: Some(120_000),
        priority_fee_micro_lamport: Some(1_000),
        pure_ix: vec![caller_ix.clone()],
    };
    let ixs = client.add_tip_ix(cfg).unwrap();
    let recipient = Pubkey::from_str("1111111111111111111111111111111A").unwrap();
    assert_eq!(ixs.len(), 4);
    assert_eq!(ixs[0], ComputeBudgetInstruction::set_compute_unit_limit(120_000));
    assert_eq!(ixs[1], ComputeBudgetInstruction::set_compute_unit_price(1_000));
    assert_eq!(ixs[2], caller_ix);
    assert_eq!(ixs[3], system_instruction::transfer(&payer_pubkey(), &recipient, 200_000));
}

#[test]
fn no_compute_limit_when_unset_price_first_instead() {
    let client = Helius::new_with_region(HeliusRegionsType::London).unwrap();
    let cfg = Tips {
        payer: payer_key(),
        tip_addr_idx: 0,
        tip_lamports: 200_000,
        cu: None,
        priority_fee_micro_lamport: Some(550),
        pure_ix: Vec::new(),
    };
    let ixs = client.add_tip_ix(cfg).unwrap();
    assert_eq!(ixs.len(), 2);
    assert_eq!(ixs[0], ComputeBudgetInstruction::set_compute_unit_price(550));
    // The compute-unit-limit instruction appears nowhere in the output.
    let limitless: Vec<_> = ixs
        .iter()
        .filter(|ix| *ix == &ComputeBudgetInstruction::set_compute_unit_limit(120_000))
        .collect();
    assert!(limitless.is_empty());
}

#[test]
fn builder_with_explicit_recipient() {
    let recipient = AccountKey { bytes: [3u8; 32] };
    let cfg = Tips {
        payer: payer_key(),
        tip_addr_idx: 0,
        tip_lamports: 42,
        cu: Some(5_000),
        priority_fee_micro_lamport: None,
        pure_ix: Vec::new(),
    };
    let ixs = build_tip_ixs(cfg, 100, &recipient);
    assert_eq!(ixs.len(), 2);
    assert_eq!(ixs[0], ComputeBudgetInstruction::set_compute_unit_limit(5_000));
    assert_eq!(
        ixs[1],
        system_instruction::transfer(
            &payer_pubkey(),
            &Pubkey::new_from_array([3u8; 32]),
            100,
        )
    );
}

#[test]
fn nextblock_floor_applies() {
    let client =
        NextBlock::new_with_region(NextBlockRegionsType::Tokyo, String::from("test-auth-key"))
            .unwrap();
    let cfg = Tips {
        payer: payer_key(),
        tip_addr_idx: 0,
        tip_lamports: 10_000,
        cu: None,
        priority_fee_micro_lamport: None,
        pure_ix: Vec::new(),
    };
    let ixs = client.add_tip_ix(cfg).unwrap();
    let recipient = Pubkey::from_str("1111111111111111111111111111111C").unwrap();
    let expected = system_instruction::transfer(&payer_pubkey(), &recipient, NEXTBLOCK_MIN_TIP);
    assert_eq!(ixs, vec![expected]);
}
