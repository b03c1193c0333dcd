use timelock_client::account::{
    UnlockStateAccount, VmStateAccount, STATE_UNLOCKED, STATE_WAITING, UNLOCK_STATE_LEN,
    VM_STATE_LEN,
};
use timelock_client::address::Address;
use timelock_client::context::{Config, Fetched, UnlockPhase, WithdrawContext};
use timelock_client::error::ClientError;
use timelock_client::instruction::{
    finalize_unlock, init_unlock, InstructionRequest, UnlockRequest, WithdrawMode,
};

fn addr(fill: u8) -> Address {
    Address { bytes: [fill; 32] }
}

fn unlock_payload(state: u8, unlock_at: i64) -> Vec<u8> {
    let mut data = vec![0u8; 120];
    data[0] = 5;
    data[8..40].copy_from_slice(&[3u8; 32]);
    data[40..72].copy_from_slice(&[6u8; 32]);
    data[72..104].copy_from_slice(&[8u8; 32]);
    data[104..112].copy_from_slice(&unlock_at.to_le_bytes());
    data[112] = 254;
    data[113] = state;
    data
}

fn vm_payload() -> Vec<u8> {
    let mut data = vec![0u8; 152];
    data[0] = 1;
    data[8..40].copy_from_slice(&[5u8; 32]);
    data[40..72].copy_from_slice(&[4u8; 32]);
    data[72..80].copy_from_slice(&0x0102_0304_0506_0708u64.to_le_bytes());
    data[112..144].copy_from_slice(&[9u8; 32]);
    data[144] = 253;
    data[145] = 21;
    data[146] = 252;
    data
}

fn context() -> WithdrawContext {
    let config = Config {
        vm_program: addr(1),
        timelock_program: addr(2),
        vm_state: addr(3),
        mint: addr(4),
        vm_authority: addr(5),
        lock_duration: 21,
    };
    WithdrawContext::new(config, addr(6), addr(7), 1_700_000_000, 1)
}

#[test]
fn layout_lengths() {
    assert_eq!(UNLOCK_STATE_LEN, 120);
    assert_eq!(VM_STATE_LEN, 152);
}

#[test]
fn unlock_state_decodes_every_field() {
    let account = UnlockStateAccount::unpack(&unlock_payload(2, 1_700_001_260)).unwrap();
    assert_eq!(account.vm, addr(3));
    assert_eq!(account.owner, addr(6));
    assert_eq!(account.address, addr(8));
    assert_eq!(account.unlock_at, 1_700_001_260);
    assert_eq!(account.bump, 254);
    assert_eq!(account.state, STATE_WAITING);
    assert!(account.is_waiting());
    assert!(!account.is_unlocked());
}

#[test]
fn unlock_state_reads_signed_deadlines() {
    assert_eq!(UnlockStateAccount::unpack(&unlock_payload(1, -1)).unwrap().unlock_at, -1);
    assert_eq!(
        UnlockStateAccount::unpack(&unlock_payload(1, i64::MIN)).unwrap().unlock_at,
        i64::MIN
    );
    assert_eq!(
        UnlockStateAccount::unpack(&unlock_payload(1, i64::MAX)).unwrap().unlock_at,
        i64::MAX
    );
    assert_eq!(UnlockStateAccount::unpack(&unlock_payload(1, 256)).unwrap().unlock_at, 256);
}

#[test]
fn unlock_state_rejects_short_or_foreign_payloads() {
    let mut short = unlock_payload(1, 5);
    short.truncate(119);
    assert_eq!(UnlockStateAccount::unpack(&short), Err(ClientError::CorruptAccount));
    assert_eq!(UnlockStateAccount::unpack(&[]), Err(ClientError::CorruptAccount));
    let mut foreign = unlock_payload(1, 5);
    foreign[0] = 1;
    assert_eq!(UnlockStateAccount::unpack(&foreign), Err(ClientError::CorruptAccount));
}

#[test]
fn unlock_state_rejects_trailing_bytes() {
    let mut long = unlock_payload(1, 77);
    long.push(0);
    assert_eq!(UnlockStateAccount::unpack(&long), Err(ClientError::CorruptAccount));
    let account = UnlockStateAccount::unpack(&unlock_payload(1, 77)).unwrap();
    assert_eq!(account.unlock_at, 77);
    assert_eq!(account.state, STATE_UNLOCKED);
    assert!(account.is_unlocked());
    let mut long_vm = vm_payload();
    long_vm.push(0);
    assert_eq!(VmStateAccount::unpack(&long_vm), Err(ClientError::CorruptAccount));
}

#[test]
fn vm_state_decodes_every_field() {
    let vm = VmStateAccount::unpack(&vm_payload()).unwrap();
    assert_eq!(vm.authority, addr(5));
    assert_eq!(vm.mint, addr(4));
    assert_eq!(vm.slot, 0x0102_0304_0506_0708);
    assert_eq!(vm.vault, addr(9));
    assert_eq!(vm.vault_bump, 253);
    assert_eq!(vm.lock_duration, 21);
    assert_eq!(vm.bump, 252);
}

#[test]
fn vm_state_rejects_short_or_foreign_payloads() {
    let mut short = vm_payload();
    short.truncate(151);
    assert_eq!(VmStateAccount::unpack(&short), Err(ClientError::CorruptAccount));
    assert_eq!(VmStateAccount::unpack(&unlock_payload(1, 0)), Err(ClientError::CorruptAccount));
}

#[test]
fn reader_tells_absence_from_transport_failure() {
    assert_eq!(
        WithdrawContext::get_unlock_state(&Fetched::Missing),
        Err(ClientError::NotFound)
    );
    assert_eq!(
        WithdrawContext::get_unlock_state(&Fetched::Unreachable),
        Err(ClientError::TransportError)
    );
    assert_eq!(
        WithdrawContext::get_unlock_state(&Fetched::Found(vec![1, 2, 3])),
        Err(ClientError::CorruptAccount)
    );
    let found = WithdrawContext::get_unlock_state(&Fetched::Found(unlock_payload(2, 9))).unwrap();
    assert_eq!(found.unlock_at, 9);
}

#[test]
fn state_inspection_tells_the_phases_apart() {
    assert_eq!(
        WithdrawContext::verify_account_state(&Fetched::Found(unlock_payload(1, 9))),
        Ok(UnlockPhase::Unlocked)
    );
    assert_eq!(
        WithdrawContext::verify_account_state(&Fetched::Found(unlock_payload(2, 9))),
        Ok(UnlockPhase::Waiting { unlock_at: 9 })
    );
    assert_eq!(
        WithdrawContext::verify_account_state(&Fetched::Found(unlock_payload(0, 9))),
        Err(ClientError::InvalidUnlockState)
    );
    assert_eq!(
        WithdrawContext::verify_account_state(&Fetched::Found(unlock_payload(3, 9))),
        Err(ClientError::InvalidUnlockState)
    );
    assert_eq!(
        WithdrawContext::verify_account_state(&Fetched::Missing),
        Err(ClientError::NotFound)
    );
    assert_eq!(
        WithdrawContext::verify_account_state(&Fetched::Unreachable),
        Err(ClientError::TransportError)
    );
    assert_eq!(
        WithdrawContext::verify_account_state(&Fetched::Found(vec![5u8; 7])),
        Err(ClientError::CorruptAccount)
    );
}

#[test]
fn withdrawal_names_vault_and_receipt() {
    let ctx = context();
    let (_, unlock, receipt, _) = ctx.get_withdraw_pdas().unwrap();
    let request = ctx.create_withdraw_ix(&Fetched::Found(vm_payload()), &addr(14)).unwrap();
    assert_eq!(request.owner, addr(6));
    assert_eq!(request.payer, addr(7));
    assert_eq!(request.vm_state, addr(3));
    assert_eq!(request.vault, Some(addr(9)));
    assert_eq!(request.memory, None);
    assert_eq!(request.storage, None);
    assert_eq!(request.deposit, None);
    assert_eq!(request.deposit_ata, None);
    assert_eq!(request.unlock_pda, unlock);
    assert_eq!(request.receipt_pda, Some(receipt));
    assert_eq!(request.destination_ata, addr(14));
    assert_eq!(request.mode, WithdrawMode::FromMemory { account_index: 0 });
}

#[test]
fn withdrawal_fails_on_a_bad_vm_account() {
    let ctx = context();
    assert_eq!(
        ctx.create_withdraw_ix(&Fetched::Found(vec![0u8; 152]), &addr(14)),
        Err(ClientError::CorruptAccount)
    );
    assert_eq!(ctx.create_withdraw_ix(&Fetched::Missing, &addr(14)), Err(ClientError::NotFound));
    assert_eq!(
        ctx.create_withdraw_ix(&Fetched::Unreachable, &addr(14)),
        Err(ClientError::TransportError)
    );
}

#[test]
fn unlock_requests_keep_the_account_order() {
    let expected = UnlockRequest {
        owner: addr(6),
        payer: addr(7),
        vm_state: addr(3),
        unlock_pda: addr(8),
    };
    assert_eq!(
        init_unlock(addr(6), addr(7), addr(3), addr(8)),
        InstructionRequest::InitUnlock(expected)
    );
    assert_eq!(
        finalize_unlock(addr(6), addr(7), addr(3), addr(8)),
        InstructionRequest::FinalizeUnlock(expected)
    );
}

#[test]
fn withdraw_accounts_keep_their_places() {
    let ctx = context();
    let (_, unlock, receipt, _) = ctx.get_withdraw_pdas().unwrap();
    let request = ctx.create_withdraw_ix(&Fetched::Found(vm_payload()), &addr(14)).unwrap();
    let wrapped = InstructionRequest::Withdraw(request);
    assert_eq!(
        wrapped.accounts(),
        vec![
            Some(addr(6)),
            Some(addr(7)),
            Some(addr(3)),
            Some(addr(9)),
            None,
            None,
            None,
            None,
            Some(unlock),
            Some(receipt),
            Some(addr(14)),
        ]
    );
    assert_eq!(wrapped.signers(), (addr(7), addr(6)));
}

#[test]
fn unlock_accounts_are_owner_payer_state_unlock() {
    let request = init_unlock(addr(6), addr(7), addr(3), addr(8));
    assert_eq!(
        request.accounts(),
        vec![Some(addr(6)), Some(addr(7)), Some(addr(3)), Some(addr(8))]
    );
    assert_eq!(request.signers(), (addr(7), addr(6)));
    assert_eq!(
        finalize_unlock(addr(6), addr(7), addr(3), addr(8)).accounts(),
        request.accounts()
    );
}

#[test]
fn every_error_has_its_message() {
    assert_eq!(
        ClientError::InvalidUnlockState.message(),
        "unlock account is in an unknown state"
    );
    assert_eq!(ClientError::NotFound.message(), "account not found");
    assert_eq!(ClientError::ConfigError.message(), "malformed address or key file");
    assert_eq!(ClientError::PdaVerificationFailed.message(), "derived address does not match");
    assert_ne!(
        ClientError::SubmissionError.message(),
        ClientError::ConfirmationTimeout.message()
    );
}
