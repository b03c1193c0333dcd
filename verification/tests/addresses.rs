use solana_sdk::pubkey::Pubkey;
use timelock_client::address::{
    derive_address, find_unlock_address, find_virtual_timelock_address,
    find_withdraw_receipt_address, Address,
};
use timelock_client::context::{setup_destination_ata, Config, Fetched, WithdrawContext};
use timelock_client::error::ClientError;
use timelock_client::instance::{decimal_digits, instance_hash};
use timelock_client::instruction::SignedInstruction;
use timelock_client::token::{
    associated_token_program_id, create_destination_instruction, destination_address,
    token_program_id,
};

fn addr(fill: u8) -> Address {
    Address { bytes: [fill; 32] }
}

fn config() -> Config {
    Config {
        vm_program: addr(1),
        timelock_program: addr(2),
        vm_state: addr(3),
        mint: addr(4),
        vm_authority: addr(5),
        lock_duration: 21,
    }
}

fn context() -> WithdrawContext {
    WithdrawContext::new(config(), addr(6), addr(7), 1_700_000_000, 1)
}

#[test]
fn derivation_is_repeatable() {
    let first = find_unlock_address(&addr(1), &addr(6), &addr(8), &addr(3));
    let second = find_unlock_address(&addr(1), &addr(6), &addr(8), &addr(3));
    assert!(first.is_ok());
    assert_eq!(first, second);
}

#[test]
fn timelock_address_matches_the_ledger_derivation() {
    let got = find_virtual_timelock_address(&addr(2), &addr(4), &addr(5), &addr(6), 21).unwrap();
    let seeds: [&[u8]; 5] = [b"timelock_state", &[4u8; 32], &[5u8; 32], &[6u8; 32], &[21u8]];
    let (key, bump) = Pubkey::find_program_address(&seeds, &Pubkey::new_from_array([2u8; 32]));
    assert_eq!(got.0.bytes, key.to_bytes());
    assert_eq!(got.1, bump);
    assert_ne!(got.0, addr(2));
}

#[test]
fn unlock_address_matches_the_ledger_derivation() {
    let got = find_unlock_address(&addr(1), &addr(6), &addr(8), &addr(3)).unwrap();
    let seeds: [&[u8]; 5] =
        [b"code_vm", b"vm_unlock_pda_account", &[6u8; 32], &[8u8; 32], &[3u8; 32]];
    let (key, bump) = Pubkey::find_program_address(&seeds, &Pubkey::new_from_array([1u8; 32]));
    assert_eq!(got.0.bytes, key.to_bytes());
    assert_eq!(got.1, bump);
}

#[test]
fn receipt_address_matches_the_ledger_derivation() {
    let got = find_withdraw_receipt_address(&addr(1), &addr(9), &addr(10), &addr(3)).unwrap();
    let seeds: [&[u8]; 5] =
        [b"code_vm", b"vm_withdraw_receipt_account", &[9u8; 32], &[10u8; 32], &[3u8; 32]];
    let (key, bump) = Pubkey::find_program_address(&seeds, &Pubkey::new_from_array([1u8; 32]));
    assert_eq!(got.0.bytes, key.to_bytes());
    assert_eq!(got.1, bump);
}

#[test]
fn seed_order_matters() {
    let one = find_unlock_address(&addr(1), &addr(6), &addr(8), &addr(3)).unwrap();
    let other = find_unlock_address(&addr(1), &addr(8), &addr(6), &addr(3)).unwrap();
    assert_ne!(one.0, other.0);
}

#[test]
fn oversized_seed_exhausts_derivation() {
    let seeds = vec![vec![0u8; 33]];
    assert_eq!(derive_address(&seeds, &addr(1)), Err(ClientError::DerivationExhausted));
    let many = vec![vec![1u8]; 17];
    assert_eq!(derive_address(&many, &addr(1)), Err(ClientError::DerivationExhausted));
    let no_room_for_bump = vec![vec![1u8]; 16];
    assert_eq!(derive_address(&no_room_for_bump, &addr(1)), Err(ClientError::DerivationExhausted));
    let longest = vec![vec![1u8; 32]; 15];
    assert!(derive_address(&longest, &addr(1)).is_ok());
    assert!(derive_address(&Vec::new(), &addr(1)).is_ok());
}

#[test]
fn withdraw_pdas_chain_the_three_derivations() {
    let ctx = context();
    let (timelock, unlock, receipt, bump) = ctx.get_withdraw_pdas().unwrap();
    let t = find_virtual_timelock_address(&addr(2), &addr(4), &addr(5), &addr(6), 21).unwrap();
    let u = find_unlock_address(&addr(1), &addr(6), &t.0, &addr(3)).unwrap();
    let r = find_withdraw_receipt_address(&addr(1), &u.0, &ctx.instance_hash, &addr(3)).unwrap();
    assert_eq!(timelock, t.0);
    assert_eq!(unlock, u.0);
    assert_eq!(receipt, r.0);
    assert_eq!(bump, r.1);
}

#[test]
fn verification_accepts_the_derived_address() {
    let ctx = context();
    let (_, unlock, _, _) = ctx.get_withdraw_pdas().unwrap();
    assert_eq!(ctx.verify_unlock_address(&unlock), Ok(()));
}

#[test]
fn verification_rejects_an_address_from_altered_seeds() {
    let ctx = context();
    let mut other_config = config();
    other_config.vm_program = addr(11);
    let other = WithdrawContext::new(other_config, addr(6), addr(7), 1_700_000_000, 1);
    let (_, wrong_program, _, _) = other.get_withdraw_pdas().unwrap();
    assert_eq!(
        ctx.verify_unlock_address(&wrong_program),
        Err(ClientError::PdaVerificationFailed)
    );
    let other_owner = WithdrawContext::new(config(), addr(12), addr(7), 1_700_000_000, 1);
    let (_, wrong_owner, _, _) = other_owner.get_withdraw_pdas().unwrap();
    assert_eq!(
        ctx.verify_unlock_address(&wrong_owner),
        Err(ClientError::PdaVerificationFailed)
    );
    let mut other_state = config();
    other_state.vm_state = addr(13);
    let moved = WithdrawContext::new(other_state, addr(6), addr(7), 1_700_000_000, 1);
    let (_, wrong_state, _, _) = moved.get_withdraw_pdas().unwrap();
    assert_eq!(
        ctx.verify_unlock_address(&wrong_state),
        Err(ClientError::PdaVerificationFailed)
    );
}

#[test]
fn instance_hash_is_the_padded_text() {
    let mut expected = [0u8; 32];
    expected[..19].copy_from_slice(b"instance_1700000000");
    expected[24..].copy_from_slice(&0x0102_0304_0506_0708u64.to_le_bytes());
    assert_eq!(instance_hash(1_700_000_000, 0x0102_0304_0506_0708).bytes, expected);
    let mut zero = [0u8; 32];
    zero[..10].copy_from_slice(b"instance_0");
    assert_eq!(instance_hash(0, 0).bytes, zero);
    let mut longest = [0u8; 32];
    longest[..24].copy_from_slice(b"instance_184467440737095");
    longest[24..].copy_from_slice(&[255u8; 8]);
    assert_eq!(instance_hash(u64::MAX, u64::MAX).bytes, longest);
}

#[test]
fn decimal_digits_are_most_significant_first() {
    assert_eq!(decimal_digits(0), b"0".to_vec());
    assert_eq!(decimal_digits(9), b"9".to_vec());
    assert_eq!(decimal_digits(10), b"10".to_vec());
    assert_eq!(decimal_digits(1205), b"1205".to_vec());
}

#[test]
fn new_context_starts_at_the_first_account() {
    let ctx = context();
    assert_eq!(ctx.account_index, 0);
    assert_eq!(ctx.vm_memory, None);
    assert_eq!(ctx.owner, addr(6));
    assert_eq!(ctx.payer, addr(7));
    assert_eq!(ctx.instance_hash, instance_hash(1_700_000_000, 1));
}

#[test]
fn program_identifiers_have_their_known_text() {
    assert_eq!(
        Pubkey::new_from_array(associated_token_program_id().bytes).to_string(),
        "ATokenGPvbdGVxr1b2hvZbsiqW5xWH25efTNsLJA8knL"
    );
    assert_eq!(
        Pubkey::new_from_array(token_program_id().bytes).to_string(),
        "TokenkegQfeZyiNwAJbNbGKPFXCWuBvf9Ss623VQ5DA"
    );
}

#[test]
fn destination_is_the_associated_account() {
    let got = destination_address(&addr(6), &addr(4)).unwrap();
    let expected = spl_associated_token_account::get_associated_token_address(
        &Pubkey::new_from_array([6u8; 32]),
        &Pubkey::new_from_array([4u8; 32]),
    );
    assert_eq!(got.bytes, expected.to_bytes());
    assert_ne!(got, addr(6));
    assert_ne!(got, addr(4));
}

#[test]
fn create_instruction_lists_six_accounts() {
    let ix =
        create_destination_instruction(&addr(7), &addr(6), &addr(4)).unwrap();
    let destination = destination_address(&addr(6), &addr(4)).unwrap();
    assert_eq!(ix.program_id, associated_token_program_id());
    assert_eq!(ix.data, vec![0u8]);
    assert_eq!(ix.accounts.len(), 6);
    assert_eq!(ix.accounts[0].address, addr(7));
    assert!(ix.accounts[0].is_signer && ix.accounts[0].is_writable);
    assert_eq!(ix.accounts[1].address, destination);
    assert!(!ix.accounts[1].is_signer && ix.accounts[1].is_writable);
    assert_eq!(ix.accounts[2].address, addr(6));
    assert!(!ix.accounts[2].is_signer && !ix.accounts[2].is_writable);
    assert_eq!(ix.accounts[3].address, addr(4));
    assert_eq!(ix.accounts[4].address, addr(0));
    assert_eq!(ix.accounts[5].address, token_program_id());
    assert!(!ix.accounts[5].is_signer && !ix.accounts[5].is_writable);
}

#[test]
fn destination_setup_creates_only_a_missing_account() {
    let ctx = context();
    let destination = destination_address(&addr(6), &addr(4)).unwrap();
    assert_eq!(
        setup_destination_ata(&ctx, &Fetched::Found(vec![1, 2, 3])),
        Ok((destination, None))
    );
    assert_eq!(
        setup_destination_ata(&ctx, &Fetched::Unreachable),
        Err(ClientError::TransportError)
    );
    let (address, create) = setup_destination_ata(&ctx, &Fetched::Missing).unwrap();
    assert_eq!(address, destination);
    let SignedInstruction { instruction, payer, owner } = create.unwrap();
    assert_eq!(payer, addr(7));
    assert_eq!(owner, addr(6));
    assert_eq!(instruction.accounts[0].address, addr(7));
    assert_eq!(instruction.accounts[1].address, destination);
    assert_eq!(instruction.accounts[5].address, token_program_id());
}

#[test]
fn attempts_in_one_second_have_different_hashes() {
    let first = instance_hash(1_700_000_000, 1);
    let second = instance_hash(1_700_000_000, 2);
    assert_ne!(first, second);
    assert_eq!(first.bytes[..24], second.bytes[..24]);
    assert_ne!(instance_hash(5, 256), instance_hash(5, 0));
    let one = WithdrawContext::new(config(), addr(6), addr(7), 1_700_000_000, 1);
    let two = WithdrawContext::new(config(), addr(6), addr(7), 1_700_000_000, 2);
    let (_, unlock_one, receipt_one, _) = one.get_withdraw_pdas().unwrap();
    let (_, unlock_two, receipt_two, _) = two.get_withdraw_pdas().unwrap();
    assert_eq!(unlock_one, unlock_two);
    assert_ne!(receipt_one, receipt_two);
}
